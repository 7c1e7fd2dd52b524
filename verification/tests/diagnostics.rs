use const_table::validate::{check_case, check_data_cases, check_generics, check_shape, validate};
use const_table::{Capability, Case, Category, Diagnostic, EnumSpec, Field, Fields, Location};

fn case(name: &str, fields: Fields<String>, initializer: Option<i32>) -> Case<String, i32> {
    Case { modifiers: Vec::new(), name: name.to_string(), fields, initializer }
}

fn record() -> Fields<String> {
    Fields::Named(vec![Field {
        modifiers: Vec::new(),
        visibility: String::new(),
        name: "value".to_string(),
        ty: "i32".to_string(),
    }])
}

fn declaration(cases: Vec<Case<String, i32>>) -> EnumSpec<String, i32> {
    EnumSpec {
        modifiers: Vec::new(),
        visibility: String::new(),
        name: "Numbers".to_string(),
        generics: Vec::new(),
        cases,
    }
}

#[test]
fn every_diagnostic_has_its_category() {
    let conflict = Diagnostic::ReservedCapability {
        modifier: 0,
        argument: 0,
        capability: Capability::Hashing,
    };
    let expected = [
        (Diagnostic::UnsupportedItem, Category::FatalStructural),
        (Diagnostic::GenericParameters, Category::RecoverableStructural),
        (conflict, Category::Conflict),
        (Diagnostic::UnsupportedWidth { modifier: 0 }, Category::Representation),
        (Diagnostic::UnexpectedFields { case: 1 }, Category::RecoverableStructural),
        (Diagnostic::MissingInitializer { case: 1 }, Category::RecoverableStructural),
        (Diagnostic::MissingDataCases, Category::FatalStructural),
        (Diagnostic::MalformedLayout, Category::FatalStructural),
    ];
    for (diagnostic, category) in expected {
        assert_eq!(diagnostic.category(), category);
        assert_eq!(diagnostic.is_fatal(), category == Category::FatalStructural);
    }
}

#[test]
fn every_diagnostic_has_its_location() {
    let conflict = Diagnostic::ReservedCapability {
        modifier: 3,
        argument: 5,
        capability: Capability::Hashing,
    };
    let expected = [
        (Diagnostic::UnsupportedItem, Location::Item),
        (Diagnostic::GenericParameters, Location::Generics),
        (conflict, Location::ModifierArgument { modifier: 3, argument: 5 }),
        (Diagnostic::UnsupportedWidth { modifier: 2 }, Location::ModifierArguments { modifier: 2 }),
        (Diagnostic::UnexpectedFields { case: 4 }, Location::CaseFields { case: 4 }),
        (Diagnostic::MissingInitializer { case: 6 }, Location::Case { case: 6 }),
        (Diagnostic::MissingDataCases, Location::Body),
        (Diagnostic::MalformedLayout, Location::Case { case: 0 }),
    ];
    for (diagnostic, location) in expected {
        assert_eq!(diagnostic.location(), location);
    }
}

#[test]
fn every_diagnostic_has_its_message() {
    let conflict = Diagnostic::ReservedCapability {
        modifier: 0,
        argument: 0,
        capability: Capability::PartialEquality,
    };
    let expected = [
        (Diagnostic::UnsupportedItem, "the const_table attribute may only be applied to enums"),
        (Diagnostic::GenericParameters, "a const_table enum cannot be generic"),
        (conflict, "the PartialEq trait is already implemented by the const_table macro"),
        (
            Diagnostic::UnsupportedWidth { modifier: 0 },
            "unsupported repr hint for a const_table enum: expected one of u8, u16, u32 or u64 (default is u32)",
        ),
        (
            Diagnostic::UnexpectedFields { case: 1 },
            "in a const_table enum, only the first variant should have fields",
        ),
        (
            Diagnostic::MissingInitializer { case: 1 },
            "in a const_table enum, all but the first variant should have a discriminant expression",
        ),
        (
            Diagnostic::MissingDataCases,
            "a const_table enum needs at least one variant with a discriminant expression",
        ),
        (
            Diagnostic::MalformedLayout,
            "the first variant of a const_table enum should have named fields to specify the table layout",
        ),
    ];
    for (diagnostic, message) in expected {
        assert_eq!(diagnostic.message(), message);
    }
}

#[test]
fn fields_know_their_shape() {
    assert!(Fields::<String>::Unit.is_empty());
    assert!(!Fields::<String>::Unit.is_named());
    assert!(Fields::<String>::Positional(Vec::new()).is_empty());
    assert!(!Fields::Positional(vec!["u8".to_string()]).is_empty());
    assert!(!Fields::Positional(vec!["u8".to_string()]).is_named());
    assert!(Fields::<String>::Named(Vec::new()).is_empty());
    assert!(Fields::<String>::Named(Vec::new()).is_named());
    assert!(!record().is_empty());
    assert!(record().is_named());
}

#[test]
fn generics_are_checked() {
    let mut diagnostics = Vec::new();
    check_generics(&Vec::<String>::new(), &mut diagnostics);
    assert!(diagnostics.is_empty());
    check_generics(&vec!["A".to_string(), "B".to_string()], &mut diagnostics);
    assert_eq!(diagnostics, vec![Diagnostic::GenericParameters]);
}

#[test]
fn a_data_case_is_checked_for_fields_then_for_its_initializer() {
    let mut diagnostics = Vec::new();
    check_case(&case("A", Fields::Unit, Some(1)), 1, &mut diagnostics);
    assert!(diagnostics.is_empty());
    check_case(&case("B", record(), Some(2)), 2, &mut diagnostics);
    check_case(&case("C", Fields::Unit, None), 3, &mut diagnostics);
    check_case(&case("D", record(), None), 4, &mut diagnostics);
    assert_eq!(
        diagnostics,
        vec![
            Diagnostic::UnexpectedFields { case: 2 },
            Diagnostic::MissingInitializer { case: 3 },
            Diagnostic::UnexpectedFields { case: 4 },
            Diagnostic::MissingInitializer { case: 4 },
        ]
    );
}

#[test]
fn the_first_case_is_not_checked_as_a_data_case() {
    let cases = vec![case("Row", record(), None), case("A", Fields::Unit, None)];
    let mut diagnostics = Vec::new();
    check_data_cases(&cases, &mut diagnostics);
    assert_eq!(diagnostics, vec![Diagnostic::MissingInitializer { case: 1 }]);
    let mut none = Vec::new();
    check_data_cases(&Vec::<Case<String, i32>>::new(), &mut none);
    assert!(none.is_empty());
}

#[test]
fn the_shape_is_checked_for_data_cases_first() {
    let mut diagnostics = Vec::new();
    assert!(!check_shape(&vec![case("A", Fields::Unit, Some(1))], &mut diagnostics));
    assert!(!check_shape(
        &vec![case("A", Fields::Unit, Some(1)), case("B", Fields::Unit, Some(2))],
        &mut diagnostics
    ));
    assert!(check_shape(
        &vec![case("Row", record(), None), case("B", Fields::Unit, Some(2))],
        &mut diagnostics
    ));
    assert_eq!(diagnostics, vec![Diagnostic::MissingDataCases, Diagnostic::MalformedLayout]);
}

#[test]
fn a_valid_declaration_has_no_diagnostics() {
    let spec = declaration(vec![
        case("Row", record(), None),
        case("One", Fields::Unit, Some(1)),
        case("Two", Fields::Unit, Some(2)),
    ]);
    assert!(validate(&spec).is_empty());
}
