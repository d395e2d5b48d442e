//! The integer representation used for discriminants, and the arithmetic
//! of values under it.
//!
//! A discriminant is stored as its bit pattern: the unique integer in
//! `[0, modulus)` congruent to the written value, where `modulus` is two to
//! the representation's width. Two's-complement encoding makes equality of
//! representation-typed values the same as equality of bit patterns, so the
//! dispatch table and its lookup work on bit patterns alone.

use vstd::prelude::*;
use vstd::arithmetic::div_mod::{
    lemma_fundamental_div_mod, lemma_fundamental_div_mod_converse_mod, lemma_mod_bound,
    lemma_mod_self_0, lemma_small_mod,
};

verus! {

/// The integer representation chosen for an enumeration's discriminants:
/// one of the fixed-width integer types named by a recognized annotation,
/// or the generic convertible mode used when no annotation applies. The
/// generic mode accepts any value convertible to a 64-bit signed integer
/// and normalizes it to that width before dispatch. The pointer-sized
/// types are modelled at 64 bits.
#[derive(Clone, Copy, PartialEq, Eq, Structural, Debug)]
pub enum ResolvedRepresentation {
    U8,
    U16,
    U32,
    U64,
    U128,
    Usize,
    I8,
    I16,
    I32,
    I64,
    I128,
    Isize,
    GenericConvertible,
}

impl ResolvedRepresentation {
    /// Two to the representation's width: the number of distinct bit
    /// patterns of the representation.
    pub open spec fn modulus(self) -> int {
        match self {
            ResolvedRepresentation::U8 | ResolvedRepresentation::I8 => 0x100,
            ResolvedRepresentation::U16 | ResolvedRepresentation::I16 => 0x1_0000,
            ResolvedRepresentation::U32 | ResolvedRepresentation::I32 => 0x1_0000_0000,
            ResolvedRepresentation::U128 | ResolvedRepresentation::I128
                => 0x1_0000_0000_0000_0000_0000_0000_0000_0000int,
            _ => 0x1_0000_0000_0000_0000,
        }
    }

    pub open spec fn is_signed(self) -> bool {
        match self {
            ResolvedRepresentation::I8
            | ResolvedRepresentation::I16
            | ResolvedRepresentation::I32
            | ResolvedRepresentation::I64
            | ResolvedRepresentation::I128
            | ResolvedRepresentation::Isize
            | ResolvedRepresentation::GenericConvertible => true,
            _ => false,
        }
    }

    /// The least value of the representation's type.
    pub open spec fn min_value(self) -> int {
        if self.is_signed() {
            -(self.modulus() / 2)
        } else {
            0
        }
    }

    /// The greatest value of the representation's type.
    pub open spec fn max_value(self) -> int {
        if self.is_signed() {
            self.modulus() / 2 - 1
        } else {
            self.modulus() - 1
        }
    }

    /// Whether `v` is a value of the representation's type.
    pub open spec fn in_range(self, v: int) -> bool {
        self.min_value() <= v <= self.max_value()
    }

    /// The bit pattern of `v` under the representation: the unique integer
    /// in `[0, modulus)` congruent to `v`. This is the value of a cast of
    /// `v` into the representation's type, and for `v` already in range it
    /// is the two's-complement encoding of `v`.
    pub open spec fn wrap(self, v: int) -> int {
        v % self.modulus()
    }

    /// The value of the representation's type whose bit pattern is `bits`:
    /// the inverse of `wrap` on in-range values.
    pub open spec fn decode(self, bits: int) -> int {
        if self.is_signed() && bits >= self.modulus() / 2 {
            bits - self.modulus()
        } else {
            bits
        }
    }
}

/// The representation named by an annotation, or `None` when the name is
/// not one of the fixed-width integer types.
pub open spec fn classify_annotation(name: Seq<char>) -> Option<ResolvedRepresentation> {
    if name == "u8"@ {
        Some(ResolvedRepresentation::U8)
    } else if name == "u16"@ {
        Some(ResolvedRepresentation::U16)
    } else if name == "u32"@ {
        Some(ResolvedRepresentation::U32)
    } else if name == "u64"@ {
        Some(ResolvedRepresentation::U64)
    } else if name == "u128"@ {
        Some(ResolvedRepresentation::U128)
    } else if name == "usize"@ {
        Some(ResolvedRepresentation::Usize)
    } else if name == "i8"@ {
        Some(ResolvedRepresentation::I8)
    } else if name == "i16"@ {
        Some(ResolvedRepresentation::I16)
    } else if name == "i32"@ {
        Some(ResolvedRepresentation::I32)
    } else if name == "i64"@ {
        Some(ResolvedRepresentation::I64)
    } else if name == "i128"@ {
        Some(ResolvedRepresentation::I128)
    } else if name == "isize"@ {
        Some(ResolvedRepresentation::Isize)
    } else {
        None
    }
}

/// The representation an annotation resolves to: the named fixed-width
/// type when the annotation names one, and the generic convertible mode
/// when the annotation is absent or names anything else.
pub open spec fn spec_resolve(annotation: Option<Seq<char>>) -> ResolvedRepresentation {
    match annotation {
        Some(name) => match classify_annotation(name) {
            Some(r) => r,
            None => ResolvedRepresentation::GenericConvertible,
        },
        None => ResolvedRepresentation::GenericConvertible,
    }
}

/// Whether `name` reads exactly `text`.
fn annotation_is(name: &String, text: &str) -> (r: bool)
    ensures
        r == (name@ == text@),
{
    let t = String::from_str(text);
    *name == t
}

/// The representation named by `name`, or `None` when `name` is not one
/// of the fixed-width integer types.
fn classify_name(name: &String) -> (r: Option<ResolvedRepresentation>)
    ensures
        r == classify_annotation(name@),
{
    if annotation_is(name, "u8") {
        Some(ResolvedRepresentation::U8)
    } else if annotation_is(name, "u16") {
        Some(ResolvedRepresentation::U16)
    } else if annotation_is(name, "u32") {
        Some(ResolvedRepresentation::U32)
    } else if annotation_is(name, "u64") {
        Some(ResolvedRepresentation::U64)
    } else if annotation_is(name, "u128") {
        Some(ResolvedRepresentation::U128)
    } else if annotation_is(name, "usize") {
        Some(ResolvedRepresentation::Usize)
    } else if annotation_is(name, "i8") {
        Some(ResolvedRepresentation::I8)
    } else if annotation_is(name, "i16") {
        Some(ResolvedRepresentation::I16)
    } else if annotation_is(name, "i32") {
        Some(ResolvedRepresentation::I32)
    } else if annotation_is(name, "i64") {
        Some(ResolvedRepresentation::I64)
    } else if annotation_is(name, "i128") {
        Some(ResolvedRepresentation::I128)
    } else if annotation_is(name, "isize") {
        Some(ResolvedRepresentation::Isize)
    } else {
        None
    }
}

/// Decide the representation used for every discriminant of the enum:
/// the type a recognized annotation names, and otherwise the generic
/// convertible mode. Total: this step never fails.
pub fn resolve_representation(annotation: &Option<String>) -> (r: ResolvedRepresentation)
    ensures
        r == spec_resolve(annotation.deep_view()),
{
    match annotation {
        Some(name) => match classify_name(name) {
            Some(r) => r,
            None => ResolvedRepresentation::GenericConvertible,
        },
        None => ResolvedRepresentation::GenericConvertible,
    }
}

/// The bit pattern of the value `v` under the representation `repr`:
/// a cast of `v` into the representation's type.
pub fn encode_value(repr: ResolvedRepresentation, v: i128) -> (bits: u128)
    ensures
        bits as int == repr.wrap(v as int),
{
    match repr {
        ResolvedRepresentation::U128 | ResolvedRepresentation::I128 => {
            if v >= 0 {
                let bits = v as u128;
                proof {
                    lemma_small_mod(bits as nat, repr.modulus() as nat);
                }
                bits
            } else {
                let a: i128 = -(v + 1);
                let bits = u128::MAX - (a as u128);
                proof {
                    lemma_fundamental_div_mod_converse_mod(
                        v as int,
                        repr.modulus(),
                        -1,
                        bits as int,
                    );
                }
                bits
            }
        },
        _ => {
            let p: u128 = match repr {
                ResolvedRepresentation::U8 | ResolvedRepresentation::I8 => 0x100,
                ResolvedRepresentation::U16 | ResolvedRepresentation::I16 => 0x1_0000,
                ResolvedRepresentation::U32 | ResolvedRepresentation::I32 => 0x1_0000_0000,
                _ => 0x1_0000_0000_0000_0000,
            };
            assert(p as int == repr.modulus());
            if v >= 0 {
                let bits = (v as u128) % p;
                bits
            } else {
                let a: i128 = -(v + 1);
                let mm = (a as u128) % p;
                proof {
                    lemma_mod_bound(a as int, p as int);
                }
                let bits = p - 1 - mm;
                proof {
                    let pi = repr.modulus();
                    let ai = a as int;
                    lemma_fundamental_div_mod(ai, pi);
                    let q = -(ai / pi) - 1;
                    assert(v as int == q * pi + bits as int) by (nonlinear_arith)
                        requires
                            ai == pi * (ai / pi) + (ai % pi),
                            mm as int == ai % pi,
                            bits as int == pi - 1 - mm,
                            v as int == -ai - 1,
                            q == -(ai / pi) - 1,
                    ;
                    lemma_fundamental_div_mod_converse_mod(v as int, pi, q, bits as int);
                }
                bits
            }
        },
    }
}

/// The bit pattern following `bits` under the representation: addition of
/// one, wrapping around to zero past the greatest bit pattern.
pub fn successor(repr: ResolvedRepresentation, bits: u128) -> (r: u128)
    requires
        (bits as int) < repr.modulus(),
    ensures
        r as int == repr.wrap(bits as int + 1),
{
    match repr {
        ResolvedRepresentation::U128 | ResolvedRepresentation::I128 => {
            if bits == u128::MAX {
                proof {
                    lemma_mod_self_0(repr.modulus());
                }
                0
            } else {
                proof {
                    lemma_small_mod((bits + 1) as nat, repr.modulus() as nat);
                }
                bits + 1
            }
        },
        _ => {
            let p: u128 = match repr {
                ResolvedRepresentation::U8 | ResolvedRepresentation::I8 => 0x100,
                ResolvedRepresentation::U16 | ResolvedRepresentation::I16 => 0x1_0000,
                ResolvedRepresentation::U32 | ResolvedRepresentation::I32 => 0x1_0000_0000,
                _ => 0x1_0000_0000_0000_0000,
            };
            assert(p as int == repr.modulus());
            if bits + 1 == p {
                proof {
                    lemma_mod_self_0(repr.modulus());
                }
                0
            } else {
                proof {
                    lemma_small_mod((bits + 1) as nat, repr.modulus() as nat);
                }
                bits + 1
            }
        },
    }
}

/// Whether `v` is a value of the representation's type.
pub fn contains_value(repr: ResolvedRepresentation, v: i128) -> (r: bool)
    ensures
        r == repr.in_range(v as int),
{
    match repr {
        ResolvedRepresentation::U8 => 0 <= v && v <= 0xFF,
        ResolvedRepresentation::U16 => 0 <= v && v <= 0xFFFF,
        ResolvedRepresentation::U32 => 0 <= v && v <= 0xFFFF_FFFF,
        ResolvedRepresentation::U64 | ResolvedRepresentation::Usize => {
            0 <= v && v <= 0xFFFF_FFFF_FFFF_FFFF
        },
        ResolvedRepresentation::U128 => 0 <= v,
        ResolvedRepresentation::I8 => -0x80 <= v && v <= 0x7F,
        ResolvedRepresentation::I16 => -0x8000 <= v && v <= 0x7FFF,
        ResolvedRepresentation::I32 => -0x8000_0000 <= v && v <= 0x7FFF_FFFF,
        ResolvedRepresentation::I64
        | ResolvedRepresentation::Isize
        | ResolvedRepresentation::GenericConvertible => {
            -0x8000_0000_0000_0000 <= v && v <= 0x7FFF_FFFF_FFFF_FFFF
        },
        ResolvedRepresentation::I128 => true,
    }
}

} // verus!
