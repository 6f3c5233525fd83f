use shogun::registry::{
    Family, FamilyCodes, PrimitiveKind, Registry, ReturnCodes, Status, TypeCodes, TypeTag,
};

fn sample_registry() -> Registry {
    Registry {
        returns: ReturnCodes { success: 0, error: 1 },
        types: TypeCodes { int32: 0, int64: 1, float32: 2, float64: 3, object: 4 },
        families: FamilyCodes {
            machine: 10,
            kernel: 11,
            distance: 12,
            features: 13,
            file: 14,
            combination_rule: 15,
            labels: 16,
            evaluation: 17,
        },
    }
}

const ALL_TAGS: [TypeTag; 5] = [
    TypeTag::Primitive(PrimitiveKind::Int32),
    TypeTag::Primitive(PrimitiveKind::Int64),
    TypeTag::Primitive(PrimitiveKind::Float32),
    TypeTag::Primitive(PrimitiveKind::Float64),
    TypeTag::Object,
];

const ALL_FAMILIES: [Family; 8] = [
    Family::Machine,
    Family::Kernel,
    Family::Distance,
    Family::Features,
    Family::File,
    Family::CombinationRule,
    Family::Labels,
    Family::Evaluation,
];

#[test]
fn sample_registry_is_consistent() {
    assert!(sample_registry().is_consistent());
}

#[test]
fn shared_codes_are_inconsistent() {
    let mut reg = sample_registry();
    reg.returns.error = reg.returns.success;
    assert!(!reg.is_consistent());

    let mut reg = sample_registry();
    reg.types.object = reg.types.float64;
    assert!(!reg.types.is_consistent());
    assert!(!reg.is_consistent());

    let mut reg = sample_registry();
    reg.families.evaluation = reg.families.machine;
    assert!(!reg.families.is_consistent());
    assert!(!reg.is_consistent());
}

#[test]
fn status_codes_decode() {
    let codes = sample_registry().returns;
    assert_eq!(codes.status(0), Some(Status::Success));
    assert_eq!(codes.status(1), Some(Status::Error));
    assert_eq!(codes.status(2), None);
    assert_eq!(codes.status(u32::MAX), None);
}

#[test]
fn every_tag_round_trips() {
    let codes = sample_registry().types;
    for tag in ALL_TAGS {
        assert_eq!(codes.tag(codes.code(tag)), Some(tag));
    }
    assert_eq!(codes.code(TypeTag::Primitive(PrimitiveKind::Float64)), 3);
    assert_eq!(codes.tag(4), Some(TypeTag::Object));
}

#[test]
fn unknown_type_code_is_not_a_tag() {
    let codes = sample_registry().types;
    assert_eq!(codes.tag(5), None);
    assert_eq!(codes.tag(99), None);
}

#[test]
fn every_family_resolves_to_itself() {
    let codes = sample_registry().families;
    for family in ALL_FAMILIES {
        assert_eq!(codes.family(codes.code(family)), Some(family));
    }
}

#[test]
fn distance_resolves_to_distance_not_kernel() {
    let codes = sample_registry().families;
    let resolved = codes.family(codes.code(Family::Distance));
    assert_eq!(resolved, Some(Family::Distance));
    assert_ne!(resolved, Some(Family::Kernel));
    assert_eq!(codes.family(12), Some(Family::Distance));
}

#[test]
fn unknown_family_code_is_not_resolved() {
    let codes = sample_registry().families;
    assert_eq!(codes.family(18), None);
    assert_eq!(codes.family(0), None);
}
