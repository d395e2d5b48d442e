//! The discriminant calculator: the third stage of the pipeline. For each
//! tag of a validated enumeration it computes the tag's discriminant under
//! the resolved representation, mirroring the numbering the host compiler
//! itself assigns: an explicit literal is used directly, the first tag
//! otherwise takes zero, and every later tag otherwise takes the previous
//! tag's value plus one.

use vstd::prelude::*;
use vstd::arithmetic::div_mod::lemma_mod_bound;

use crate::decl::TagDeclaration;
use crate::repr::{encode_value, successor, ResolvedRepresentation};

verus! {

/// One row of the discriminant table: a tag and its discriminant's bit
/// pattern under the resolved representation.
#[derive(Clone, Debug)]
pub struct TableEntry {
    pub identifier: String,
    pub value: u128,
}

/// The discriminant table: the resolved representation, and exactly one
/// entry per tag of the enumeration, in declaration order.
#[derive(Clone, Debug)]
pub struct DiscriminantTable {
    pub repr: ResolvedRepresentation,
    pub entries: Vec<TableEntry>,
}

/// The discriminant of the tag at position `i`, as a bit pattern under
/// `repr`. An explicit literal is cast into the representation; the first
/// tag otherwise takes zero; every later tag otherwise takes the
/// immediately preceding tag's discriminant plus one.
pub open spec fn discriminant_at(
    tags: Seq<TagDeclaration>,
    repr: ResolvedRepresentation,
    i: int,
) -> int
    decreases i,
{
    match tags[i].explicit_discriminant {
        Some(k) => repr.wrap(k as int),
        None => if i <= 0 {
            0
        } else {
            repr.wrap(discriminant_at(tags, repr, i - 1) + 1)
        },
    }
}

/// Every discriminant is a bit pattern of the representation: it lies in
/// `[0, modulus)`.
pub proof fn lemma_discriminant_in_range(
    tags: Seq<TagDeclaration>,
    repr: ResolvedRepresentation,
    i: int,
)
    requires
        0 <= i,
    ensures
        0 <= discriminant_at(tags, repr, i) < repr.modulus(),
    decreases i,
{
    match tags[i].explicit_discriminant {
        Some(k) => {
            lemma_mod_bound(k as int, repr.modulus());
        },
        None => {
            if i > 0 {
                lemma_discriminant_in_range(tags, repr, i - 1);
                lemma_mod_bound(discriminant_at(tags, repr, i - 1) + 1, repr.modulus());
            }
        },
    }
}

/// Compute the discriminant table for `tags` under `repr`: one entry per
/// tag, in declaration order, each carrying the tag's identifier and its
/// discriminant's bit pattern.
pub fn compute_table(tags: &Vec<TagDeclaration>, repr: ResolvedRepresentation) -> (t:
    DiscriminantTable)
    ensures
        t.repr == repr,
        t.entries@.len() == tags@.len(),
        forall|i: int|
            0 <= i < tags@.len() ==> (#[trigger] t.entries@[i]).value as int == discriminant_at(
                tags@,
                repr,
                i,
            ),
        forall|i: int|
            0 <= i < tags@.len() ==> (#[trigger] t.entries@[i]).identifier == tags@[i].identifier,
{
    let mut entries: Vec<TableEntry> = Vec::new();
    let mut prev: u128 = 0;
    let mut i: usize = 0;
    while i < tags.len()
        invariant
            i <= tags@.len(),
            entries@.len() == i,
            forall|j: int|
                0 <= j < i ==> (#[trigger] entries@[j]).value as int == discriminant_at(
                    tags@,
                    repr,
                    j,
                ),
            forall|j: int| 0 <= j < i ==> (#[trigger] entries@[j]).identifier == tags@[j].identifier,
            i > 0 ==> prev as int == discriminant_at(tags@, repr, i - 1),
            i > 0 ==> (prev as int) < repr.modulus(),
        decreases tags@.len() - i,
    {
        let tag = &tags[i];
        let value: u128 = match tag.explicit_discriminant {
            Some(k) => encode_value(repr, k),
            None => {
                if i == 0 {
                    0
                } else {
                    successor(repr, prev)
                }
            },
        };
        proof {
            lemma_discriminant_in_range(tags@, repr, i as int);
        }
        entries.push(TableEntry { identifier: tag.identifier.clone(), value });
        prev = value;
        i = i + 1;
    }
    DiscriminantTable { repr, entries }
}

} // verus!
