use enumn::decl::{EnumDeclaration, InputDeclaration, PayloadKind, TagDeclaration};
use enumn::eval::evaluate;
use enumn::generate::{generate, GenerateError, GeneratedConversion};
use enumn::repr::{resolve_representation, ResolvedRepresentation};
use enumn::table::compute_table;
use enumn::validate::validate;

fn unit_tag(name: &str) -> TagDeclaration {
    TagDeclaration {
        identifier: name.to_string(),
        payload_kind: PayloadKind::Unit,
        explicit_discriminant: None,
        location: 0,
    }
}

fn unit_tag_at(name: &str, location: u64) -> TagDeclaration {
    TagDeclaration { location, ..unit_tag(name) }
}

fn explicit_tag(name: &str, value: i128) -> TagDeclaration {
    TagDeclaration { explicit_discriminant: Some(value), ..unit_tag(name) }
}

fn payload_tag(name: &str, kind: PayloadKind, location: u64) -> TagDeclaration {
    TagDeclaration { payload_kind: kind, location, ..unit_tag(name) }
}

fn enum_input(
    name: &str,
    tags: Vec<TagDeclaration>,
    annotation: Option<&str>,
) -> InputDeclaration {
    InputDeclaration::Enumeration(EnumDeclaration {
        name: name.to_string(),
        tags,
        representation_annotation: annotation.map(|a| a.to_string()),
    })
}

fn generated(input: &InputDeclaration) -> GeneratedConversion {
    match generate(input) {
        Ok(c) => c,
        Err(_) => panic!("generation failed"),
    }
}

fn n(c: &GeneratedConversion, value: i128) -> Option<String> {
    evaluate(c, value)
}

#[test]
fn default_numbering_without_annotation() {
    let input = enum_input("Status", vec![unit_tag("A"), unit_tag("B")], None);
    let c = generated(&input);
    assert_eq!(c.repr, ResolvedRepresentation::GenericConvertible);
    assert_eq!(c.enum_name, "Status");
    assert_eq!(n(&c, 0), Some("A".to_string()));
    assert_eq!(n(&c, 1), Some("B".to_string()));
    assert_eq!(n(&c, 2), None);
    assert_eq!(n(&c, -1), None);
}

#[test]
fn default_numbering_covers_every_position() {
    let input = enum_input(
        "Four",
        vec![unit_tag("P"), unit_tag("Q"), unit_tag("R"), unit_tag("S")],
        None,
    );
    let c = generated(&input);
    let names = ["P", "Q", "R", "S"];
    for (i, name) in names.iter().enumerate() {
        assert_eq!(n(&c, i as i128), Some(name.to_string()));
    }
    assert_eq!(n(&c, 4), None);
    assert_eq!(n(&c, -7), None);
    assert_eq!(n(&c, i128::from(i64::MAX)), None);
}

#[test]
fn representation_override_u8() {
    let input = enum_input(
        "Level",
        vec![explicit_tag("Low", 10), unit_tag("High")],
        Some("u8"),
    );
    let c = generated(&input);
    assert_eq!(c.repr, ResolvedRepresentation::U8);
    assert_eq!(n(&c, 10), Some("Low".to_string()));
    assert_eq!(n(&c, 11), Some("High".to_string()));
    assert_eq!(n(&c, 9), None);
}

#[test]
fn numbering_resumes_after_explicit_discriminant() {
    let input = enum_input(
        "Gap",
        vec![unit_tag("A"), explicit_tag("B", 5), unit_tag("C"), unit_tag("D")],
        None,
    );
    let c = generated(&input);
    assert_eq!(n(&c, 0), Some("A".to_string()));
    assert_eq!(n(&c, 5), Some("B".to_string()));
    assert_eq!(n(&c, 6), Some("C".to_string()));
    assert_eq!(n(&c, 7), Some("D".to_string()));
    assert_eq!(n(&c, 1), None);
    assert_eq!(n(&c, 4), None);
    assert_eq!(n(&c, 8), None);
}

#[test]
fn payload_tags_are_all_rejected() {
    let input = enum_input(
        "Mixed",
        vec![
            unit_tag_at("Fine", 1),
            payload_tag("Named", PayloadKind::NamedFields, 2),
            unit_tag_at("AlsoFine", 3),
            payload_tag("Positional", PayloadKind::PositionalFields, 4),
        ],
        None,
    );
    match generate(&input) {
        Err(GenerateError::UnsupportedVariantPayload(ds)) => {
            assert_eq!(ds.len(), 2);
            assert_eq!(ds[0].tag, "Named");
            assert_eq!(ds[0].location, 2);
            assert_eq!(ds[1].tag, "Positional");
            assert_eq!(ds[1].location, 4);
            assert_eq!(ds[0].message(), "variant with data is not supported");
        }
        _ => panic!("payload tags must be rejected"),
    }
}

#[test]
fn non_sum_inputs_are_the_wrong_kind() {
    assert!(matches!(
        generate(&InputDeclaration::Structure),
        Err(GenerateError::WrongInputKind)
    ));
    assert!(matches!(
        generate(&InputDeclaration::Union),
        Err(GenerateError::WrongInputKind)
    ));
}

#[test]
fn unrecognized_annotation_falls_back_to_generic() {
    let input = enum_input("Odd", vec![unit_tag("A"), unit_tag("B")], Some("C"));
    let c = generated(&input);
    assert_eq!(c.repr, ResolvedRepresentation::GenericConvertible);
    assert_eq!(n(&c, 0), Some("A".to_string()));
    assert_eq!(n(&c, 1), Some("B".to_string()));
    assert_eq!(n(&c, 2), None);
}

#[test]
fn every_recognized_annotation_resolves_to_its_type() {
    let cases = [
        ("u8", ResolvedRepresentation::U8),
        ("u16", ResolvedRepresentation::U16),
        ("u32", ResolvedRepresentation::U32),
        ("u64", ResolvedRepresentation::U64),
        ("u128", ResolvedRepresentation::U128),
        ("usize", ResolvedRepresentation::Usize),
        ("i8", ResolvedRepresentation::I8),
        ("i16", ResolvedRepresentation::I16),
        ("i32", ResolvedRepresentation::I32),
        ("i64", ResolvedRepresentation::I64),
        ("i128", ResolvedRepresentation::I128),
        ("isize", ResolvedRepresentation::Isize),
    ];
    for (name, repr) in cases {
        assert_eq!(resolve_representation(&Some(name.to_string())), repr);
    }
    assert_eq!(
        resolve_representation(&None),
        ResolvedRepresentation::GenericConvertible
    );
    assert_eq!(
        resolve_representation(&Some("Rgb".to_string())),
        ResolvedRepresentation::GenericConvertible
    );
}

#[test]
fn negative_explicit_discriminant_under_i8() {
    let input = enum_input("Sign", vec![explicit_tag("M", -1), unit_tag("N")], Some("i8"));
    let c = generated(&input);
    assert_eq!(n(&c, -1), Some("M".to_string()));
    assert_eq!(n(&c, 0), Some("N".to_string()));
    assert_eq!(n(&c, 1), None);
    assert_eq!(n(&c, 127), None);
    assert_eq!(n(&c, -128), None);
    assert_eq!(n(&c, 128), None);
}

#[test]
fn numbering_wraps_at_the_top_of_u8() {
    let input = enum_input("Wrap", vec![explicit_tag("Last", 255), unit_tag("Round")], Some("u8"));
    let c = generated(&input);
    assert_eq!(n(&c, 255), Some("Last".to_string()));
    assert_eq!(n(&c, 0), Some("Round".to_string()));
    assert_eq!(n(&c, 1), None);
}

#[test]
fn wide_discriminants_under_u128_and_i128() {
    let input = enum_input("Big", vec![explicit_tag("Huge", i128::MAX)], Some("u128"));
    let c = generated(&input);
    assert_eq!(c.repr, ResolvedRepresentation::U128);
    assert_eq!(n(&c, i128::MAX), Some("Huge".to_string()));
    assert_eq!(n(&c, -1), None);

    let input = enum_input("Deep", vec![explicit_tag("Neg", -1), unit_tag("Zero")], Some("i128"));
    let c = generated(&input);
    assert_eq!(n(&c, -1), Some("Neg".to_string()));
    assert_eq!(n(&c, 0), Some("Zero".to_string()));
    assert_eq!(n(&c, i128::MIN), None);
}

#[test]
fn validator_passes_unit_tags_and_collects_offenders() {
    let fine = EnumDeclaration {
        name: "Fine".to_string(),
        tags: vec![unit_tag("A"), unit_tag("B")],
        representation_annotation: None,
    };
    assert!(validate(&fine).is_ok());

    let bad = EnumDeclaration {
        name: "Bad".to_string(),
        tags: vec![
            payload_tag("X", PayloadKind::PositionalFields, 7),
            payload_tag("Y", PayloadKind::NamedFields, 8),
        ],
        representation_annotation: None,
    };
    let ds = validate(&bad).unwrap_err();
    assert_eq!(ds.len(), 2);
    assert_eq!(ds[0].tag, "X");
    assert_eq!(ds[1].tag, "Y");
}

#[test]
fn discriminant_table_lists_resolved_values_in_order() {
    let tags = vec![unit_tag("A"), explicit_tag("B", 5), unit_tag("C")];
    let t = compute_table(&tags, ResolvedRepresentation::U32);
    assert_eq!(t.repr, ResolvedRepresentation::U32);
    assert_eq!(t.entries.len(), 3);
    assert_eq!(t.entries[0].identifier, "A");
    assert_eq!(t.entries[0].value, 0);
    assert_eq!(t.entries[1].identifier, "B");
    assert_eq!(t.entries[1].value, 5);
    assert_eq!(t.entries[2].identifier, "C");
    assert_eq!(t.entries[2].value, 6);
}

#[test]
fn every_discriminant_converts_back_to_its_own_tag() {
    let input = enum_input(
        "Spread",
        vec![explicit_tag("A", -5), unit_tag("B"), explicit_tag("C", 100)],
        Some("i16"),
    );
    let c = generated(&input);
    // Each tag's discriminant comes back as exactly that tag, and no other
    // input in a surrounding window matches anything.
    let expected = [(-5, "A"), (-4, "B"), (100, "C")];
    for v in -40..140 {
        let hit = expected.iter().find(|(d, _)| *d == v);
        match hit {
            Some((_, name)) => assert_eq!(n(&c, v), Some(name.to_string())),
            None => assert_eq!(n(&c, v), None),
        }
    }
}

#[test]
fn empty_enumeration_matches_nothing() {
    let input = enum_input("Never", vec![], Some("u8"));
    let c = generated(&input);
    assert_eq!(c.arms.len(), 0);
    assert_eq!(n(&c, 0), None);
    assert_eq!(n(&c, 255), None);
}

#[test]
fn duplicate_discriminants_dispatch_to_the_first_arm() {
    // The core trusts the host to reject shared discriminants; on such
    // input the dispatch still scans in order and takes the first match.
    let input = enum_input("Dup", vec![explicit_tag("A", 1), explicit_tag("B", 1)], None);
    let c = generated(&input);
    assert_eq!(n(&c, 1), Some("A".to_string()));
}

#[test]
fn generated_function_is_named_n() {
    assert_eq!(GeneratedConversion::function_name(), "n");
}

#[test]
fn identical_inputs_generate_identical_conversions() {
    let make = || enum_input("Twice", vec![unit_tag("A"), explicit_tag("B", 9)], Some("u16"));
    let c1 = generated(&make());
    let c2 = generated(&make());
    assert_eq!(c1.enum_name, c2.enum_name);
    assert_eq!(c1.repr, c2.repr);
    assert_eq!(c1.arms.len(), c2.arms.len());
    for (a, b) in c1.arms.iter().zip(c2.arms.iter()) {
        assert_eq!(a.value, b.value);
        assert_eq!(a.identifier, b.identifier);
    }
}
