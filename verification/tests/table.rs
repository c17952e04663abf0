use fmi2::model::{Causality, FieldDeclaration, TypeKind, Variability};
use fmi2::table::{build_variable_table, check_references_fit, check_supported};
use fmi2::text::{same_text, to_decimal};

fn field(name: &str, declared_type: &str, causality: Causality, id: Option<u64>) -> FieldDeclaration {
    FieldDeclaration {
        name: name.to_string(),
        declared_type: declared_type.to_string(),
        causality,
        id,
        description: String::new(),
        unit: String::new(),
        starting_value: None,
    }
}

fn references(fields: &Vec<FieldDeclaration>) -> Vec<u64> {
    let table = build_variable_table(fields);
    (0..table.len()).map(|i| table.get(i).unwrap().value_reference).collect()
}

#[test]
fn unset_references_follow_the_largest_declared_one() {
    let fields = vec![
        field("a", "f64", Causality::Parameter, Some(5)),
        field("b", "f64", Causality::Input, None),
        field("c", "f64", Causality::Output, None),
    ];
    assert!(check_references_fit(&fields));
    assert_eq!(references(&fields), vec![5, 6, 7]);
}

#[test]
fn unset_references_are_assigned_in_declaration_order_around_declared_ones() {
    let fields = vec![
        field("a", "f64", Causality::Input, None),
        field("b", "f64", Causality::Parameter, Some(5)),
        field("c", "i64", Causality::Output, None),
        field("d", "bool", Causality::Output, Some(2)),
    ];
    assert_eq!(references(&fields), vec![6, 5, 7, 2]);
}

#[test]
fn references_start_at_zero_when_none_is_declared() {
    let fields = vec![
        field("a", "f64", Causality::Input, None),
        field("b", "f64", Causality::Output, None),
    ];
    assert_eq!(references(&fields), vec![0, 1]);
}

#[test]
fn a_declared_zero_moves_the_base_to_one() {
    let fields = vec![
        field("frequency", "f64", Causality::Parameter, Some(0)),
        field("gain", "f64", Causality::Input, None),
        field("output", "f64", Causality::Output, None),
        field("elapsed_time", "f64", Causality::Independent, None),
    ];
    assert_eq!(references(&fields), vec![0, 1, 2, 3]);
}

#[test]
fn ignored_fields_do_not_count_for_the_base() {
    let fields = vec![
        field("hidden", "f64", Causality::Ignore, Some(40)),
        field("a", "f64", Causality::Input, Some(3)),
        field("b", "f64", Causality::Output, None),
    ];
    assert_eq!(references(&fields), vec![3, 4]);
}

#[test]
fn ignored_fields_never_appear_in_the_table() {
    let fields = vec![
        field("state", "ModelState", Causality::Ignore, None),
        field("a", "f64", Causality::Input, None),
        field("logging", "i32", Causality::Ignore, Some(9)),
        field("b", "bool", Causality::Output, None),
    ];
    let table = build_variable_table(&fields);
    assert_eq!(table.len(), 2);
    assert_eq!(table.get(0).unwrap().name, "a");
    assert_eq!(table.get(1).unwrap().name, "b");
    assert!(table.get(2).is_none());
    for i in 0..table.len() {
        assert_ne!(table.get(i).unwrap().causality, Causality::Ignore);
    }
}

#[test]
fn removing_an_ignored_field_leaves_the_table_as_it_was() {
    let with_ignored = vec![
        field("a", "f64", Causality::Input, None),
        field("hidden", "String", Causality::Ignore, Some(7)),
        field("b", "f64", Causality::Output, Some(2)),
    ];
    let without = vec![
        field("a", "f64", Causality::Input, None),
        field("b", "f64", Causality::Output, Some(2)),
    ];
    assert_eq!(references(&with_ignored), references(&without));
    assert_eq!(references(&without), vec![3, 2]);
}

#[test]
fn assigned_references_are_pairwise_distinct() {
    let fields = vec![
        field("a", "f64", Causality::Input, None),
        field("b", "f64", Causality::Parameter, Some(10)),
        field("c", "i64", Causality::Output, None),
        field("d", "bool", Causality::Output, Some(0)),
        field("e", "f64", Causality::Independent, None),
        field("f", "f64", Causality::Input, Some(4)),
    ];
    let assigned = references(&fields);
    assert_eq!(assigned, vec![11, 10, 12, 0, 13, 4]);
    for i in 0..assigned.len() {
        for j in (i + 1)..assigned.len() {
            assert_ne!(assigned[i], assigned[j]);
        }
    }
}

#[test]
fn a_model_without_variables_has_an_empty_table() {
    let none: Vec<FieldDeclaration> = Vec::new();
    assert!(check_references_fit(&none));
    assert_eq!(build_variable_table(&none).len(), 0);
    let ignored = vec![field("state", "ModelState", Causality::Ignore, None)];
    assert_eq!(build_variable_table(&ignored).len(), 0);
}

#[test]
fn a_surviving_field_of_an_unsupported_type_is_not_supported() {
    let fields = vec![
        field("a", "f64", Causality::Input, None),
        field("b", "u32", Causality::Output, None),
    ];
    assert!(!check_supported(&fields));
    let named = vec![field("name", "String", Causality::Parameter, None)];
    assert!(!check_supported(&named));
}

#[test]
fn an_ignored_field_may_have_any_type() {
    let fields = vec![
        field("a", "f64", Causality::Input, None),
        field("name", "String", Causality::Ignore, None),
        field("b", "bool", Causality::Output, None),
    ];
    assert!(check_supported(&fields));
    assert_eq!(references(&fields), vec![0, 1]);
    assert!(check_supported(&Vec::new()));
}

#[test]
fn descriptors_carry_what_was_declared() {
    let fields = vec![FieldDeclaration {
        name: "frequency".to_string(),
        declared_type: "f64".to_string(),
        causality: Causality::Parameter,
        id: Some(0),
        description: "Frequency in Hz".to_string(),
        unit: "Hz".to_string(),
        starting_value: Some(20.0f64.to_bits()),
    }];
    let table = build_variable_table(&fields);
    let variable = table.get(0).unwrap();
    assert_eq!(variable.name, "frequency");
    assert_eq!(variable.type_kind, TypeKind::Real);
    assert_eq!(variable.causality, Causality::Parameter);
    assert_eq!(variable.value_reference, 0);
    assert_eq!(variable.unit, "Hz");
    assert_eq!(variable.description, "Frequency in Hz");
    assert_eq!(variable.starting_value, Some(20.0f64.to_bits()));
    assert_eq!(variable.variability(), Variability::Fixed);
}

#[test]
fn the_table_maps_positions_and_references_both_ways() {
    let fields = vec![
        field("a", "f64", Causality::Input, Some(8)),
        field("b", "f64", Causality::Output, None),
        field("c", "f64", Causality::Output, Some(8)),
    ];
    let table = build_variable_table(&fields);
    assert_eq!(table.at(1).name, "b");
    assert_eq!(table.at(2).value_reference, 8);
    assert_eq!(table.to_underlying(0), Some(8));
    assert_eq!(table.to_underlying(1), Some(9));
    assert_eq!(table.to_underlying(2), Some(8));
    assert_eq!(table.to_underlying(3), None);
    assert_eq!(table.from_underlying(8), Some(0));
    assert_eq!(table.from_underlying(9), Some(1));
    assert_eq!(table.from_underlying(10), None);
}

#[test]
fn references_that_would_overflow_do_not_fit() {
    let exhausted = vec![
        field("a", "f64", Causality::Input, Some(u64::MAX)),
        field("b", "f64", Causality::Output, None),
    ];
    assert!(!check_references_fit(&exhausted));
    let last = vec![
        field("a", "f64", Causality::Input, Some(u64::MAX - 1)),
        field("b", "f64", Causality::Output, None),
    ];
    assert!(check_references_fit(&last));
    assert_eq!(references(&last), vec![u64::MAX - 1, u64::MAX]);
    let one_too_many = vec![
        field("a", "f64", Causality::Input, Some(u64::MAX - 1)),
        field("b", "f64", Causality::Output, None),
        field("c", "f64", Causality::Output, None),
    ];
    assert!(!check_references_fit(&one_too_many));
    let hidden = vec![
        field("a", "f64", Causality::Ignore, Some(u64::MAX)),
        field("b", "f64", Causality::Output, None),
    ];
    assert!(check_references_fit(&hidden));
}

#[test]
fn a_model_that_leaves_nothing_to_allocate_always_fits() {
    let fields = vec![
        field("a", "f64", Causality::Input, Some(u64::MAX)),
        field("b", "f64", Causality::Output, Some(3)),
    ];
    assert!(check_references_fit(&fields));
    assert_eq!(references(&fields), vec![u64::MAX, 3]);
}

#[test]
fn causality_has_a_lower_case_name_and_defaults_to_ignore() {
    assert_eq!(Causality::Ignore.to_string(), "ignore");
    assert_eq!(Causality::Output.to_string(), "output");
    assert_eq!(Causality::Input.to_string(), "input");
    assert_eq!(Causality::Parameter.to_string(), "parameter");
    assert_eq!(Causality::Independent.to_string(), "independent");
    assert_eq!(Causality::default(), Causality::Ignore);
}

#[test]
fn variability_is_fixed_for_parameters_only() {
    assert_eq!(Causality::Parameter.variability(), Variability::Fixed);
    assert_eq!(Causality::Output.variability(), Variability::Continuous);
    assert_eq!(Causality::Input.variability(), Variability::Continuous);
    assert_eq!(Causality::Independent.variability(), Variability::Continuous);
    assert_eq!(Causality::Ignore.variability(), Variability::Continuous);
    assert_eq!(Variability::Fixed.to_string(), "fixed");
    assert_eq!(Variability::Continuous.to_string(), "continuous");
}

#[test]
fn type_names_resolve_to_kinds() {
    assert_eq!(TypeKind::from_declared_type("f64"), Some(TypeKind::Real));
    assert_eq!(TypeKind::from_declared_type("i64"), Some(TypeKind::Integer));
    assert_eq!(TypeKind::from_declared_type("bool"), Some(TypeKind::Boolean));
    assert_eq!(TypeKind::from_declared_type("f32"), None);
    assert_eq!(TypeKind::from_declared_type(""), None);
    assert_eq!(TypeKind::from_declared_type("f64 "), None);
    assert_eq!(TypeKind::Real.element_name(), "Real");
    assert_eq!(TypeKind::Integer.element_name(), "Integer");
    assert_eq!(TypeKind::Boolean.element_name(), "Boolean");
}

#[test]
fn a_new_field_is_ignored_and_bare() {
    let declared = FieldDeclaration::new("gain", "f64");
    assert_eq!(declared.name, "gain");
    assert_eq!(declared.declared_type, "f64");
    assert_eq!(declared.causality, Causality::Ignore);
    assert_eq!(declared.id, None);
    assert_eq!(declared.unit, "");
    assert_eq!(declared.description, "");
    assert_eq!(declared.starting_value, None);
}

#[test]
fn numbers_are_written_in_decimal() {
    assert_eq!(to_decimal(0), "0");
    assert_eq!(to_decimal(7), "7");
    assert_eq!(to_decimal(10), "10");
    assert_eq!(to_decimal(1905), "1905");
    assert_eq!(to_decimal(u64::MAX), "18446744073709551615");
}

#[test]
fn texts_are_compared_by_their_characters() {
    assert!(same_text("", ""));
    assert!(same_text("Hz", "Hz"));
    assert!(!same_text("Hz", "hz"));
    assert!(!same_text("Hz", "Hz "));
    assert!(same_text("\u{b5}m", "\u{b5}m"));
    assert!(!same_text("\u{b5}m", "um"));
}
