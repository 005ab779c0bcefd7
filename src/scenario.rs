//! Sequencing of scenario entries: what each entry runs or why it is
//! rejected, how long it lasts, and the report of a whole run.
use crate::config::{LoadError, LoadTests, LoadZenario, Test};
use crate::registry::{error_is, plan_fits, plan_test, test_error, TestPlan};
use vstd::prelude::*;

verus! {

/// A test that did not run or did not finish, with the reason.
#[derive(Debug, Clone)]
pub struct Failure {
    pub name: String,
    pub error: LoadError,
}

/// What a scenario entry comes to once validated.
#[derive(Debug, Clone)]
pub enum EntryPlan {
    /// One test, run on its own.
    Single(TestPlan),
    /// Tests run concurrently; the entry ends when all of them have.
    Group(Vec<TestPlan>),
    /// The entry does not run: the failures of its invalid tests.
    Rejected(Vec<Failure>),
}

/// `f` reports the validation error of the invalid test `t`.
pub open spec fn fails_as(f: Failure, t: Test) -> bool {
    f.name@ == t.name@ && error_is(f.error, test_error(t))
}

/// The invalid tests of `ms`, in their order.
pub open spec fn failing(ms: Seq<Test>) -> Seq<Test>
    decreases ms.len(),
{
    if ms.len() == 0 {
        Seq::empty()
    } else if test_error(ms.last()) is Some {
        failing(ms.drop_last()).push(ms.last())
    } else {
        failing(ms.drop_last())
    }
}

/// `p` is what entry `e` comes to: a single valid test runs; a group runs
/// only when all its members are valid, else it is rejected with the
/// failures of its invalid members.
pub open spec fn entry_plan_fits(p: EntryPlan, e: LoadZenario) -> bool {
    match e {
        LoadZenario::Test(t) => if test_error(t) is None {
            (p matches EntryPlan::Single(q) && plan_fits(q, t))
        } else {
            (p matches EntryPlan::Rejected(fs) && fs@.len() == 1 && fails_as(fs@[0], t))
        },
        LoadZenario::ParallelGroup { parallel_group: ms } => if failing(ms@).len() == 0 {
            (p matches EntryPlan::Group(qs) && qs@.len() == ms@.len() && forall|i: int|
                0 <= i < ms@.len() ==> plan_fits(#[trigger] qs@[i], ms@[i]))
        } else {
            (p matches EntryPlan::Rejected(fs) && fs@.len() == failing(ms@).len() && forall|j: int|
                0 <= j < fs@.len() ==> fails_as(#[trigger] fs@[j], failing(ms@)[j]))
        },
    }
}

fn failure_of(spec: &Test, error: LoadError) -> (r: Failure)
    ensures
        r.name@ == spec.name@,
        r.error == error,
{
    Failure { name: spec.name.clone(), error }
}

/// Validates one scenario entry; a group is validated whole before any of
/// its members may start.
pub fn plan_entry(entry: &LoadZenario) -> (r: EntryPlan)
    ensures
        entry_plan_fits(r, *entry),
{
    match entry {
        LoadZenario::Test(t) => match plan_test(t) {
            Ok(p) => EntryPlan::Single(p),
            Err(e) => {
                let mut fs: Vec<Failure> = Vec::new();
                fs.push(failure_of(t, e));
                EntryPlan::Rejected(fs)
            },
        },
        LoadZenario::ParallelGroup { parallel_group } => {
            let ms = parallel_group;
            let mut plans: Vec<TestPlan> = Vec::new();
            let mut fs: Vec<Failure> = Vec::new();
            let mut i: usize = 0;
            while i < ms.len()
                invariant
                    i <= ms@.len(),
                    fs@.len() == failing(ms@.subrange(0, i as int)).len(),
                    forall|j: int|
                        0 <= j < fs@.len() ==> fails_as(#[trigger] fs@[j], failing(ms@.subrange(0, i as int))[j]),
                    fs@.len() == 0 ==> plans@.len() == i,
                    fs@.len() == 0 ==> forall|k: int| 0 <= k < i ==> plan_fits(#[trigger] plans@[k], ms@[k]),
                decreases ms@.len() - i,
            {
                let ghost prefix = ms@.subrange(0, i as int);
                assert(ms@.subrange(0, i + 1).drop_last() =~= prefix);
                assert(ms@.subrange(0, i + 1).last() == ms@[i as int]);
                match plan_test(&ms[i]) {
                    Ok(p) => {
                        plans.push(p);
                    },
                    Err(e) => {
                        fs.push(failure_of(&ms[i], e));
                    },
                }
                i = i + 1;
            }
            assert(ms@.subrange(0, ms@.len() as int) =~= ms@);
            if fs.len() == 0 {
                EntryPlan::Group(plans)
            } else {
                EntryPlan::Rejected(fs)
            }
        },
    }
}

/// Validates every entry of a scenario, each on its own: an invalid entry
/// does not change what the others come to.
pub fn plan_scenario(tests: &LoadTests) -> (r: Vec<EntryPlan>)
    ensures
        r@.len() == tests.load_zenario@.len(),
        forall|i: int| 0 <= i < r@.len() ==> entry_plan_fits(#[trigger] r@[i], tests.load_zenario@[i]),
{
    let entries = &tests.load_zenario;
    let mut plans: Vec<EntryPlan> = Vec::new();
    let mut i: usize = 0;
    while i < entries.len()
        invariant
            i <= entries@.len(),
            plans@.len() == i,
            forall|k: int| 0 <= k < i ==> entry_plan_fits(#[trigger] plans@[k], entries@[k]),
        decreases entries@.len() - i,
    {
        plans.push(plan_entry(&entries[i]));
        i = i + 1;
    }
    plans
}


/// The longest duration among `plans`: how long a group of them runs when
/// they all start together, rather than the sum of their durations.
pub fn group_duration_secs(plans: &Vec<TestPlan>) -> (r: u64)
    ensures
        forall|i: int| 0 <= i < plans@.len() ==> #[trigger] plans@[i].duration_secs <= r,
        plans@.len() == 0 ==> r == 0,
        plans@.len() > 0 ==> exists|i: int| 0 <= i < plans@.len() && #[trigger] plans@[i].duration_secs == r,
{
    let mut longest: u64 = 0;
    let mut i: usize = 0;
    while i < plans.len()
        invariant
            i <= plans@.len(),
            forall|k: int| 0 <= k < i ==> #[trigger] plans@[k].duration_secs <= longest,
            i == 0 ==> longest == 0,
            i > 0 ==> exists|k: int| 0 <= k < i && #[trigger] plans@[k].duration_secs == longest,
        decreases plans@.len() - i,
    {
        if i == 0 || plans[i].duration_secs > longest {
            longest = plans[i].duration_secs;
        }
        i = i + 1;
    }
    longest
}

/// How long an entry keeps the scenario from advancing, in seconds: the
/// duration of a single test, the longest member of a group, nothing for a
/// rejected entry.
pub fn entry_duration_secs(plan: &EntryPlan) -> (r: u64)
    ensures
        plan matches EntryPlan::Single(p) ==> r == p.duration_secs,
        plan matches EntryPlan::Group(ps) ==> r == group_duration_secs_spec(ps@),
        plan is Rejected ==> r == 0,
{
    match plan {
        EntryPlan::Single(p) => p.duration_secs,
        EntryPlan::Group(ps) => {
            let r = group_duration_secs(ps);
            proof {
                lemma_group_duration_unique(ps@, r);
            }
            r
        },
        EntryPlan::Rejected(_) => 0,
    }
}

/// The longest duration among `ps`, zero for none.
pub open spec fn group_duration_secs_spec(ps: Seq<TestPlan>) -> u64
    decreases ps.len(),
{
    if ps.len() == 0 {
        0
    } else {
        let rest = group_duration_secs_spec(ps.drop_last());
        if ps.last().duration_secs > rest {
            ps.last().duration_secs
        } else {
            rest
        }
    }
}

proof fn lemma_group_duration_unique(ps: Seq<TestPlan>, r: u64)
    requires
        forall|i: int| 0 <= i < ps.len() ==> #[trigger] ps[i].duration_secs <= r,
        ps.len() == 0 ==> r == 0,
        ps.len() > 0 ==> exists|i: int| 0 <= i < ps.len() && #[trigger] ps[i].duration_secs == r,
    ensures
        r == group_duration_secs_spec(ps),
    decreases ps.len(),
{
    lemma_group_duration_is_max(ps);
    if ps.len() > 0 {
        let i = choose|i: int| 0 <= i < ps.len() && #[trigger] ps[i].duration_secs == r;
        assert(ps[i].duration_secs <= group_duration_secs_spec(ps));
    }
}

proof fn lemma_group_duration_is_max(ps: Seq<TestPlan>)
    ensures
        forall|i: int| 0 <= i < ps.len() ==> #[trigger] ps[i].duration_secs <= group_duration_secs_spec(ps),
        ps.len() == 0 ==> group_duration_secs_spec(ps) == 0,
        ps.len() > 0 ==> exists|i: int|
            0 <= i < ps.len() && #[trigger] ps[i].duration_secs == group_duration_secs_spec(ps),
    decreases ps.len(),
{
    if ps.len() > 0 {
        let rest = ps.drop_last();
        lemma_group_duration_is_max(rest);
        assert forall|i: int| 0 <= i < ps.len() implies #[trigger] ps[i].duration_secs
            <= group_duration_secs_spec(ps) by {
            if i < ps.len() - 1 {
                assert(ps[i] == rest[i]);
            }
        }
        if ps.last().duration_secs <= group_duration_secs_spec(rest) && rest.len() > 0 {
            let k = choose|k: int| 0 <= k < rest.len() && #[trigger] rest[k].duration_secs
                == group_duration_secs_spec(rest);
            assert(ps[k] == rest[k]);
        } else {
            assert(ps[ps.len() - 1] == ps.last());
            assert(ps[ps.len() - 1].duration_secs == group_duration_secs_spec(ps));
        }
    }
}

/// The outcome of a scenario run so far: every failure, in the order met.
#[derive(Debug, Clone)]
pub struct ScenarioReport {
    pub failures: Vec<Failure>,
}

impl ScenarioReport {
    pub fn new() -> (r: ScenarioReport)
        ensures
            r.failures@.len() == 0,
    {
        ScenarioReport { failures: Vec::new() }
    }

    /// Records an entry that was rejected before it ran.
    pub fn record_rejected(&mut self, failures: Vec<Failure>)
        ensures
            final(self).failures@ == old(self).failures@ + failures@,
    {
        let mut failures = failures;
        self.failures.append(&mut failures);
    }

    /// Records how the test `name` ended.
    pub fn record_outcome(&mut self, name: String, outcome: Result<(), LoadError>)
        ensures
            outcome is Ok ==> final(self).failures@ == old(self).failures@,
            outcome matches Err(e) ==> final(self).failures@ == old(self).failures@.push(
                Failure { name, error: e },
            ),
    {
        if let Err(error) = outcome {
            self.failures.push(Failure { name, error });
        }
    }

    /// Whether every entry succeeded.
    pub fn succeeded(&self) -> (r: bool)
        ensures
            r == (self.failures@.len() == 0),
    {
        self.failures.len() == 0
    }

    /// The process exit status: zero when every entry succeeded.
    pub fn exit_code(&self) -> (r: i32)
        ensures
            r == if self.failures@.len() == 0 {
                0i32
            } else {
                1i32
            },
    {
        if self.failures.len() == 0 {
            0
        } else {
            1
        }
    }
}

} // verus!
