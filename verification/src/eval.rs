//! The executable meaning of a generated conversion: what the emitted
//! function returns on any input. Dispatch scans the arms in order and
//! takes the first whose discriminant equals the input's bit pattern;
//! every other input is "no match".

use vstd::prelude::*;

use crate::generate::{DispatchArm, GeneratedConversion};
use crate::repr::{contains_value, encode_value};

verus! {

/// The position of the first dispatch arm whose discriminant is `bits`,
/// or `None` when no arm matches.
pub open spec fn spec_lookup(arms: Seq<DispatchArm>, bits: int) -> Option<int>
    decreases arms.len(),
{
    if arms.len() == 0 {
        None
    } else if arms[0].value as int == bits {
        Some(0)
    } else {
        match spec_lookup(arms.drop_first(), bits) {
            Some(j) => Some(j + 1),
            None => None,
        }
    }
}

/// When no arm before position `i` matches `bits` and the arm at `i`
/// does, the lookup lands exactly on `i`.
pub proof fn lemma_lookup_found(arms: Seq<DispatchArm>, bits: int, i: int)
    requires
        0 <= i < arms.len(),
        arms[i].value as int == bits,
        forall|j: int| 0 <= j < i ==> (#[trigger] arms[j]).value as int != bits,
    ensures
        spec_lookup(arms, bits) == Some(i),
    decreases i,
{
    if i > 0 {
        let rest = arms.drop_first();
        assert forall|j: int| 0 <= j < i - 1 implies (#[trigger] rest[j]).value as int
            != bits by {
            assert(rest[j] == arms[j + 1]);
        }
        assert(rest[i - 1] == arms[i]);
        lemma_lookup_found(rest, bits, i - 1);
    }
}

/// When no arm at all matches `bits`, the lookup returns `None`.
pub proof fn lemma_lookup_none(arms: Seq<DispatchArm>, bits: int)
    requires
        forall|j: int| 0 <= j < arms.len() ==> (#[trigger] arms[j]).value as int != bits,
    ensures
        spec_lookup(arms, bits) is None,
    decreases arms.len(),
{
    if arms.len() > 0 {
        let rest = arms.drop_first();
        assert forall|j: int| 0 <= j < rest.len() implies (#[trigger] rest[j]).value as int
            != bits by {
            assert(rest[j] == arms[j + 1]);
        }
        lemma_lookup_none(rest, bits);
    }
}

/// What the generated conversion returns on the input `v`: the identifier
/// of the first arm whose discriminant equals `v`'s bit pattern, when `v`
/// is a value of the representation's type, and "no match" otherwise.
pub open spec fn spec_evaluate(c: GeneratedConversion, v: int) -> Option<Seq<char>> {
    if !c.repr.in_range(v) {
        None
    } else {
        match spec_lookup(c.arms@, c.repr.wrap(v)) {
            Some(i) => Some(c.arms@[i].identifier@),
            None => None,
        }
    }
}

/// Apply the generated conversion to `value`: run the dispatch the
/// emitted function performs, returning the matching tag's identifier.
/// A value outside the representation's type — unreachable through the
/// emitted function's own signature — is "no match".
pub fn evaluate(c: &GeneratedConversion, value: i128) -> (r: Option<String>)
    ensures
        r.deep_view() == spec_evaluate(*c, value as int),
{
    if !contains_value(c.repr, value) {
        return None;
    }
    let bits = encode_value(c.repr, value);
    let mut i: usize = 0;
    while i < c.arms.len()
        invariant
            i <= c.arms@.len(),
            forall|j: int| 0 <= j < i ==> (#[trigger] c.arms@[j]).value != bits,
            bits as int == c.repr.wrap(value as int),
            c.repr.in_range(value as int),
        decreases c.arms@.len() - i,
    {
        if c.arms[i].value == bits {
            proof {
                lemma_lookup_found(c.arms@, bits as int, i as int);
            }
            return Some(c.arms[i].identifier.clone());
        }
        i = i + 1;
    }
    proof {
        lemma_lookup_none(c.arms@, bits as int);
    }
    None
}

} // verus!
