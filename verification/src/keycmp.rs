use vstd::prelude::*;

verus! {

/// The decision of a key comparison: whether decoding may proceed.
///
/// A `Mismatch` carries nothing: the caller must not learn where or how
/// much differed.
#[derive(Clone, Copy, Debug, PartialEq, Eq, Structural)]
pub enum Outcome {
    Match,
    Mismatch,
}

/// Compares a presented key against the stored key in constant time.
///
/// The scan always covers the full stored key, accumulates the difference
/// with a branchless bitwise combine, and decides only after the scan is
/// complete: neither the position of the first mismatch nor its existence
/// shortens the loop. Returns `Match` exactly when the two byte sequences
/// are equal.
pub fn compare(presented: &[u8], stored: &[u8]) -> (r: Outcome)
    ensures
        r == Outcome::Match <==> presented@ == stored@,
{
    let mut diff: u8 = if presented.len() == stored.len() {
        0
    } else {
        1
    };
    let n = stored.len();
    let mut i: usize = 0;
    while i < n
        invariant
            i <= n,
            n == stored@.len(),
            (diff == 0) <==> (presented@.len() == stored@.len() && (forall|j: int|
                0 <= j < i ==> presented@[j] == stored@[j])),
        decreases n - i,
    {
        let p: u8 = if i < presented.len() {
            presented[i]
        } else {
            0
        };
        let s: u8 = stored[i];
        let step: u8 = p ^ s;
        proof {
            assert((diff | step) == 0 <==> diff == 0 && step == 0) by (bit_vector);
            assert(step == 0 <==> p == s) by (bit_vector)
                requires
                    step == (p ^ s),
            ;
        }
        diff = diff | step;
        i = i + 1;
    }
    if diff == 0 {
        proof {
            assert(presented@ =~= stored@);
        }
        Outcome::Match
    } else {
        Outcome::Mismatch
    }
}

} // verus!
