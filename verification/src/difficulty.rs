//! The difficulty predicate: enough leading zeros.

use vstd::prelude::*;
use vstd::string::StrSliceExecFns;

verus! {

/// The difficulty that a chain uses unless it is given another.
pub const DEFAULT_DIFFICULTY: usize = 4;

/// `hash` has at least `difficulty` characters and its first `difficulty`
/// characters are all `'0'`.
pub open spec fn spec_meets_difficulty(hash: Seq<char>, difficulty: nat) -> bool {
    &&& difficulty <= hash.len()
    &&& forall|i: int| 0 <= i < difficulty ==> hash[i] == '0'
}

/// Whether `hash` qualifies as mined at `difficulty`.
pub fn meets_difficulty(hash: &str, difficulty: usize) -> (ok: bool)
    ensures
        ok == spec_meets_difficulty(hash@, difficulty as nat),
{
    let len: usize = hash.unicode_len();
    if difficulty > len {
        return false;
    }
    let mut i: usize = 0;
    while i < difficulty
        invariant
            i <= difficulty <= len,
            len == hash@.len(),
            forall|j: int| 0 <= j < i ==> hash@[j] == '0',
        decreases difficulty - i,
    {
        if hash.get_char(i) != '0' {
            return false;
        }
        i += 1;
    }
    true
}

/// A hash of which one of the first `difficulty` characters is not `'0'`
/// does not qualify.
pub proof fn lemma_nonzero_prefix_fails(hash: Seq<char>, difficulty: nat, position: int)
    requires
        0 <= position < difficulty,
        position < hash.len(),
        hash[position] != '0',
    ensures
        !spec_meets_difficulty(hash, difficulty),
{
}

/// A hash that qualifies at a difficulty qualifies at every lower one, and
/// every hash qualifies at difficulty zero.
pub proof fn lemma_difficulty_is_monotone(hash: Seq<char>, lower: nat, higher: nat)
    requires
        lower <= higher,
        spec_meets_difficulty(hash, higher),
    ensures
        spec_meets_difficulty(hash, lower),
        spec_meets_difficulty(hash, 0),
{
}

} // verus!
