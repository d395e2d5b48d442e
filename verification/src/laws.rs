//! Laws of the generated conversion, proved once and for all inputs: the
//! default numbering of unit tags, the resumption of numbering after an
//! explicit discriminant, and the round trip from every tag's
//! discriminant back to exactly that tag.

use vstd::prelude::*;
use vstd::arithmetic::div_mod::{
    lemma_add_mod_noop, lemma_fundamental_div_mod_converse_mod, lemma_small_mod,
};

use crate::decl::TagDeclaration;
use crate::eval::{lemma_lookup_found, lemma_lookup_none, spec_evaluate};
use crate::generate::GeneratedConversion;
use crate::repr::ResolvedRepresentation;
use crate::table::{discriminant_at, lemma_discriminant_in_range};

verus! {

/// The shape `generate` gives its output for an enumeration with tags
/// `tags` under the representation `repr`: one arm per tag in declaration
/// order, carrying that tag's identifier and discriminant.
pub open spec fn conversion_of(
    c: GeneratedConversion,
    tags: Seq<TagDeclaration>,
    repr: ResolvedRepresentation,
) -> bool {
    &&& c.repr == repr
    &&& c.arms@.len() == tags.len()
    &&& forall|i: int|
        0 <= i < tags.len() ==> (#[trigger] c.arms@[i]).value as int == discriminant_at(
            tags,
            repr,
            i,
        )
    &&& forall|i: int|
        0 <= i < tags.len() ==> (#[trigger] c.arms@[i]).identifier == tags[i].identifier
}

/// Without explicit discriminants, the tag at position `i` is numbered
/// `i`, as long as `i` is a value of the representation's type.
proof fn lemma_default_discriminant(
    tags: Seq<TagDeclaration>,
    repr: ResolvedRepresentation,
    i: int,
)
    requires
        0 <= i < tags.len(),
        forall|j: int| 0 <= j < tags.len() ==> (#[trigger] tags[j]).explicit_discriminant is None,
        i <= repr.max_value(),
    ensures
        discriminant_at(tags, repr, i) == i,
    decreases i,
{
    if i > 0 {
        lemma_default_discriminant(tags, repr, i - 1);
        lemma_small_mod(i as nat, repr.modulus() as nat);
    }
}

/// Default numbering: for an enumeration of unit tags with no explicit
/// discriminants (and no more tags than the representation has values),
/// the conversion sends each `i` in `[0, tag count)` to the `i`-th tag in
/// declaration order, and every other value of the representation's type
/// to "no match".
pub proof fn lemma_default_numbering(
    c: GeneratedConversion,
    tags: Seq<TagDeclaration>,
    repr: ResolvedRepresentation,
)
    requires
        conversion_of(c, tags, repr),
        forall|j: int| 0 <= j < tags.len() ==> (#[trigger] tags[j]).explicit_discriminant is None,
        tags.len() <= repr.max_value() + 1,
    ensures
        forall|v: int|
            0 <= v < tags.len() ==> #[trigger] spec_evaluate(c, v) == Some(tags[v].identifier@),
        forall|v: int|
            repr.in_range(v) && !(0 <= v < tags.len()) ==> #[trigger] spec_evaluate(c, v) is None,
        forall|v: int| !repr.in_range(v) ==> #[trigger] spec_evaluate(c, v) is None,
{
    assert forall|v: int| 0 <= v < tags.len() implies #[trigger] spec_evaluate(c, v) == Some(
        tags[v].identifier@,
    ) by {
        lemma_small_mod(v as nat, repr.modulus() as nat);
        assert forall|j: int| 0 <= j < v implies (#[trigger] c.arms@[j]).value as int != v by {
            lemma_default_discriminant(tags, repr, j);
        }
        lemma_default_discriminant(tags, repr, v);
        lemma_lookup_found(c.arms@, v, v);
    }
    assert forall|v: int| repr.in_range(v) && !(0 <= v < tags.len()) implies #[trigger] spec_evaluate(
        c,
        v,
    ) is None by {
        let bits = repr.wrap(v);
        if v >= 0 {
            lemma_small_mod(v as nat, repr.modulus() as nat);
        } else {
            lemma_fundamental_div_mod_converse_mod(v, repr.modulus(), -1, v + repr.modulus());
        }
        assert forall|j: int| 0 <= j < c.arms@.len() implies (#[trigger] c.arms@[j]).value as int
            != bits by {
            lemma_default_discriminant(tags, repr, j);
        }
        lemma_lookup_none(c.arms@, bits);
    }
}

/// Numbering resumes after an explicit discriminant: a tag assigned the
/// literal `k` takes the representation's value of `k`, and the next tag,
/// when it has no explicit discriminant of its own, takes the
/// representation's value of `k + 1` — not its declaration-order index.
pub proof fn lemma_explicit_then_default(
    tags: Seq<TagDeclaration>,
    repr: ResolvedRepresentation,
    j: int,
    k: i128,
)
    requires
        0 <= j,
        j + 1 < tags.len(),
        tags[j].explicit_discriminant == Some(k),
        tags[j + 1].explicit_discriminant is None,
    ensures
        discriminant_at(tags, repr, j) == repr.wrap(k as int),
        discriminant_at(tags, repr, j + 1) == repr.wrap(k as int + 1),
{
    reveal_with_fuel(discriminant_at, 2);
    lemma_small_mod(1nat, repr.modulus() as nat);
    lemma_add_mod_noop(k as int, 1, repr.modulus());
}

/// Round trip: when no two tags share a discriminant, the conversion
/// sends every tag's discriminant back to exactly that tag. For each
/// position `i`, the value of the representation's type whose bit pattern
/// is the `i`-th discriminant evaluates to the `i`-th tag's identifier.
pub proof fn lemma_round_trip(
    c: GeneratedConversion,
    tags: Seq<TagDeclaration>,
    repr: ResolvedRepresentation,
)
    requires
        conversion_of(c, tags, repr),
        forall|i: int, j: int|
            0 <= i < j < tags.len() ==> discriminant_at(tags, repr, i) != discriminant_at(
                tags,
                repr,
                j,
            ),
    ensures
        forall|i: int|
            0 <= i < tags.len() ==> #[trigger] spec_evaluate(
                c,
                repr.decode(discriminant_at(tags, repr, i)),
            ) == Some(tags[i].identifier@),
{
    assert forall|i: int| 0 <= i < tags.len() implies #[trigger] spec_evaluate(
        c,
        repr.decode(discriminant_at(tags, repr, i)),
    ) == Some(tags[i].identifier@) by {
        let d = discriminant_at(tags, repr, i);
        lemma_discriminant_in_range(tags, repr, i);
        let v = repr.decode(d);
        if v == d {
            lemma_small_mod(d as nat, repr.modulus() as nat);
        } else {
            lemma_fundamental_div_mod_converse_mod(v, repr.modulus(), -1, d);
        }
        assert(repr.in_range(v));
        assert(repr.wrap(v) == d);
        assert forall|j: int| 0 <= j < i implies (#[trigger] c.arms@[j]).value as int != d by {
            assert(discriminant_at(tags, repr, j) != discriminant_at(tags, repr, i));
        }
        lemma_lookup_found(c.arms@, d, i);
    }
}

} // verus!
