//! The RAM generator: a block of random bytes, copied each tick into a
//! scratch buffer at rotating offsets and checked byte for byte.
use vstd::arithmetic::div_mod::{lemma_mod_self_0, lemma_small_mod, lemma_add_mod_noop};
use vstd::prelude::*;

verus! {

/// Offsets from which each tick copies the source block.
pub const OFFSETS_PER_TICK: usize = 10;

/// Why a memory check failed.
#[derive(Debug, Clone, PartialEq, Eq, Structural)]
pub enum MemoryError {
    /// The scratch buffer would be longer than the source block.
    TestSizeExceedsSource,
    /// The scratch buffer differs from the source at `index`.
    VerificationFailure { index: usize, expected: u8, got: u8 },
}

/// The source byte that lands at position `i` of a copy starting at `start`,
/// wrapping around the end of `source`.
pub open spec fn wrapped_byte(source: Seq<u8>, start: int, i: int) -> u8 {
    source[(start + i) % (source.len() as int)]
}

/// The copy of `len` bytes of `source` from `start`, wrapping around.
pub open spec fn wrapped_copy(source: Seq<u8>, start: int, len: nat) -> Seq<u8> {
    Seq::new(len, |i: int| wrapped_byte(source, start, i))
}

/// Every byte of `buffer` equals the source byte at its wrapped offset.
pub open spec fn matches_wrapped(source: Seq<u8>, start: int, buffer: Seq<u8>) -> bool {
    forall|i: int| 0 <= i < buffer.len() ==> #[trigger] buffer[i] == wrapped_byte(source, start, i)
}

proof fn lemma_next_wrapped(a: int, j: int, n: int)
    requires
        n > 0,
        a >= 0,
        j == a % n,
    ensures
        (a + 1) % n == if j + 1 == n { 0 } else { j + 1 },
{
    lemma_add_mod_noop(a, 1, n);
    if n == 1 {
        assert(1int % 1 == 0) by (nonlinear_arith);
        assert(j == 0) by (nonlinear_arith)
            requires
                j == a % n,
                n == 1,
        ;
        assert((a + 1) % 1 == 0) by (nonlinear_arith);
    } else {
        lemma_small_mod(1, n as nat);
        if j + 1 == n {
            lemma_mod_self_0(n);
        } else {
            lemma_small_mod((j + 1) as nat, n as nat);
        }
    }
}

/// Copies `test_size` bytes of `source`, starting at `start_offset` and
/// wrapping around its end, into a new scratch buffer.
pub fn copy_wrapped(source: &[u8], test_size: usize, start_offset: usize) -> (r: Vec<u8>)
    requires
        source@.len() > 0 || test_size == 0,
    ensures
        r@ == wrapped_copy(source@, start_offset as int, test_size as nat),
{
    let n = source.len();
    let mut buffer: Vec<u8> = Vec::with_capacity(test_size);
    if test_size == 0 {
        assert(buffer@ =~= wrapped_copy(source@, start_offset as int, 0));
        return buffer;
    }
    let mut j: usize = start_offset % n;
    let mut i: usize = 0;
    while i < test_size
        invariant
            n == source@.len(),
            n > 0,
            i <= test_size,
            j < n,
            j as int == (start_offset as int + i as int) % (n as int),
            buffer@ =~= wrapped_copy(source@, start_offset as int, i as nat),
        decreases test_size - i,
    {
        buffer.push(source[j]);
        proof {
            lemma_next_wrapped(start_offset as int + i as int, j as int, n as int);
        }
        j = if j + 1 == n {
            0
        } else {
            j + 1
        };
        i = i + 1;
    }
    buffer
}

/// Checks `buffer` against the bytes of `source` from `start_offset`,
/// wrapping around; a mismatch names the first position that differs.
pub fn verify_wrapped(source: &[u8], buffer: &[u8], start_offset: usize) -> (r: Result<(), MemoryError>)
    requires
        source@.len() > 0 || buffer@.len() == 0,
    ensures
        r is Ok <==> matches_wrapped(source@, start_offset as int, buffer@),
        r matches Err(e) ==> e matches MemoryError::VerificationFailure { index, expected, got }
            && index < buffer@.len()
            && got == buffer@[index as int]
            && expected == wrapped_byte(source@, start_offset as int, index as int)
            && got != expected
            && matches_wrapped(source@, start_offset as int, buffer@.take(index as int)),
{
    let n = source.len();
    let len = buffer.len();
    if len == 0 {
        return Ok(());
    }
    let mut j: usize = start_offset % n;
    let mut i: usize = 0;
    while i < len
        invariant
            n == source@.len(),
            n > 0,
            len == buffer@.len(),
            i <= len,
            j < n,
            j as int == (start_offset as int + i as int) % (n as int),
            forall|k: int| 0 <= k < i ==> #[trigger] buffer@[k] == wrapped_byte(source@, start_offset as int, k),
        decreases len - i,
    {
        if buffer[i] != source[j] {
            assert(matches_wrapped(source@, start_offset as int, buffer@.take(i as int)));
            return Err(MemoryError::VerificationFailure { index: i, expected: source[j], got: buffer[i] });
        }
        proof {
            lemma_next_wrapped(start_offset as int + i as int, j as int, n as int);
        }
        j = if j + 1 == n {
            0
        } else {
            j + 1
        };
        i = i + 1;
    }
    Ok(())
}

/// Copies `test_size` bytes of `source` from `start_offset` into a scratch
/// buffer, wrapping around, and verifies the copy against the source.
pub fn test_memory_with_offset(source: &[u8], test_size: usize, start_offset: usize) -> (r: Result<(), MemoryError>)
    ensures
        r == if test_size <= source@.len() {
            Ok::<(), MemoryError>(())
        } else {
            Err(MemoryError::TestSizeExceedsSource)
        },
{
    if test_size > source.len() {
        return Err(MemoryError::TestSizeExceedsSource);
    }
    let buffer = copy_wrapped(source, test_size, start_offset);
    assert(matches_wrapped(source@, start_offset as int, buffer@));
    match verify_wrapped(source, buffer.as_slice(), start_offset) {
        Ok(()) => Ok(()),
        Err(e) => Err(e),
    }
}

/// A scratch buffer passes the check exactly when it is the wrapped copy of
/// the source: a copy always passes, and any differing byte is caught.
pub proof fn lemma_copy_round_trip(source: Seq<u8>, start: int, buffer: Seq<u8>)
    ensures
        matches_wrapped(source, start, buffer) <==> buffer == wrapped_copy(source, start, buffer.len()),
{
    if matches_wrapped(source, start, buffer) {
        assert(buffer =~= wrapped_copy(source, start, buffer.len()));
    }
}

/// Relies on rand::thread_rng and rand::Rng::fill: a vector of `size`
/// bytes, each drawn from the thread-local generator. Nothing is claimed of
/// the values; `fill` on a byte slice goes to the generator's
/// `try_fill_bytes`, which for the thread-local generator does not fail.
#[verifier::external_body]
fn generate_random_data(size: usize) -> (r: Vec<u8>)
    ensures
        r@.len() == size,
{
    let mut data = vec![0u8; size];
    rand::Rng::fill(&mut rand::thread_rng(), &mut data[..]);
    data
}

/// The RAM generator of one test: the reference block drawn at its start.
pub struct RamGenerator {
    pub source: Vec<u8>,
}

impl RamGenerator {
    /// Draws a reference block of `size` random bytes.
    pub fn new(size: usize) -> (r: RamGenerator)
        ensures
            r.source@.len() == size,
    {
        RamGenerator { source: generate_random_data(size) }
    }

    /// One tick: copies the whole block from each offset below
    /// `OFFSETS_PER_TICK` and verifies every copy.
    pub fn tick(&self) -> (r: Result<(), MemoryError>)
        ensures
            r == Ok::<(), MemoryError>(()),
    {
        let size = self.source.len();
        let mut offset: usize = 0;
        while offset < OFFSETS_PER_TICK
            invariant
                size == self.source@.len(),
            decreases OFFSETS_PER_TICK - offset,
        {
            let checked = test_memory_with_offset(self.source.as_slice(), size, offset);
            if let Err(e) = checked {
                return Err(e);
            }
            offset = offset + 1;
        }
        Ok(())
    }
}

} // verus!
