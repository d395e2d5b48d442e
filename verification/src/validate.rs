//! The validator: the first stage of the pipeline. It confirms that every
//! tag of the enumeration is a unit tag, and otherwise stops the pipeline
//! with one diagnostic per offending tag.

use vstd::prelude::*;

use crate::decl::{EnumDeclaration, PayloadKind, TagDeclaration};

verus! {

/// One failure report: the tag at fault, named and located so the caller
/// can render the failure as a build-time error.
#[derive(Clone, Debug)]
pub struct Diagnostic {
    pub tag: String,
    pub location: u64,
}

impl Diagnostic {
    /// The human-readable description carried by every diagnostic raised
    /// about a payload-bearing tag.
    pub fn message(&self) -> (m: &'static str)
        ensures
            m@ == "variant with data is not supported"@,
    {
        "variant with data is not supported"
    }
}

/// Whether every tag is a unit tag, eligible for numeric conversion.
pub open spec fn all_unit(tags: Seq<TagDeclaration>) -> bool {
    forall|i: int| 0 <= i < tags.len() ==> (#[trigger] tags[i]).payload_kind is Unit
}

/// The diagnostics the validator raises: one per tag that carries a
/// payload, in declaration order.
pub open spec fn spec_diagnostics(tags: Seq<TagDeclaration>) -> Seq<Diagnostic>
    decreases tags.len(),
{
    if tags.len() == 0 {
        Seq::empty()
    } else {
        let front = spec_diagnostics(tags.drop_last());
        let last = tags.last();
        if last.payload_kind is Unit {
            front
        } else {
            front.push(Diagnostic { tag: last.identifier, location: last.location })
        }
    }
}

/// Confirm that every tag of the enumeration is a unit tag. On success,
/// control passes through unchanged. On failure, the pipeline stops with
/// exactly one diagnostic per offending tag, each naming the tag and
/// carrying its source location.
pub fn validate(decl: &EnumDeclaration) -> (r: Result<(), Vec<Diagnostic>>)
    ensures
        r is Ok <==> all_unit(decl.tags@),
        r matches Err(ds) ==> ds@ == spec_diagnostics(decl.tags@) && ds@.len() > 0,
{
    let tags = &decl.tags;
    let ghost all = tags@;
    let mut diags: Vec<Diagnostic> = Vec::new();
    let mut i: usize = 0;
    while i < tags.len()
        invariant
            i <= all.len(),
            tags@ == all,
            diags@ == spec_diagnostics(all.take(i as int)),
            diags@.len() == 0 <==> all_unit(all.take(i as int)),
        decreases all.len() - i,
    {
        let ghost prefix = all.take(i as int);
        let tag = &tags[i];
        match tag.payload_kind {
            PayloadKind::Unit => {},
            PayloadKind::NamedFields | PayloadKind::PositionalFields => {
                diags.push(Diagnostic { tag: tag.identifier.clone(), location: tag.location });
            },
        }
        i = i + 1;
        proof {
            let next = all.take(i as int);
            assert(next.drop_last() =~= prefix);
            assert(next.last() == all[i - 1]);
            if all[i - 1].payload_kind is Unit {
                assert(all_unit(next) <==> all_unit(prefix)) by {
                    if all_unit(prefix) {
                        assert forall|j: int| 0 <= j < next.len() implies (#[trigger] next[j])
                            .payload_kind is Unit by {
                            if j < i - 1 {
                                assert(next[j] == prefix[j]);
                            }
                        }
                    } else {
                        let j = choose|j: int|
                            0 <= j < prefix.len() && !((#[trigger] prefix[j]).payload_kind is Unit);
                        assert(next[j] == prefix[j]);
                    }
                }
            }
        }
    }
    proof {
        assert(all.take(all.len() as int) =~= all);
    }
    if diags.len() == 0 {
        Ok(())
    } else {
        Err(diags)
    }
}

} // verus!
