use const_table::{
    const_table, Case, Category, Diagnostic, EnumSpec, Expansion, Field, Fields, Item, Location,
    Modifier, Ordinal, Width,
};

#[derive(Clone, Debug, PartialEq)]
struct SpeciesInfo {
    sound: &'static str,
    legs: u64,
}

fn modifier(name: &str, arguments: &[&str]) -> Modifier<String> {
    let source = if arguments.is_empty() {
        format!("#[{}]", name)
    } else {
        format!("#[{}({})]", name, arguments.join(", "))
    };
    Modifier {
        name: name.to_string(),
        arguments: arguments.iter().map(|argument| argument.to_string()).collect(),
        source,
    }
}

fn field(name: &str, ty: &str) -> Field<String> {
    Field {
        modifiers: Vec::new(),
        visibility: "pub".to_string(),
        name: name.to_string(),
        ty: ty.to_string(),
    }
}

fn layout<T>(name: &str, fields: Vec<Field<String>>) -> Case<String, T> {
    Case {
        modifiers: Vec::new(),
        name: name.to_string(),
        fields: Fields::Named(fields),
        initializer: None,
    }
}

fn data<T>(name: &str, initializer: T) -> Case<String, T> {
    Case {
        modifiers: Vec::new(),
        name: name.to_string(),
        fields: Fields::Unit,
        initializer: Some(initializer),
    }
}

fn bare<T>(name: &str) -> Case<String, T> {
    Case { modifiers: Vec::new(), name: name.to_string(), fields: Fields::Unit, initializer: None }
}

fn species(modifiers: Vec<Modifier<String>>) -> EnumSpec<String, SpeciesInfo> {
    let mut info = layout("SpeciesInfo", vec![field("sound", "&'static str"), field("legs", "u64")]);
    info.modifiers = vec![modifier("derive", &["Debug"])];
    EnumSpec {
        modifiers,
        visibility: "pub".to_string(),
        name: "SpeciesID".to_string(),
        generics: Vec::new(),
        cases: vec![
            info,
            data("Cat", SpeciesInfo { sound: "Meow!", legs: 4 }),
            data("Dog", SpeciesInfo { sound: "Woof!", legs: 4 }),
            data("Human", SpeciesInfo { sound: "Hello, World", legs: 2 }),
        ],
    }
}

fn planets(modifiers: Vec<Modifier<String>>) -> EnumSpec<String, (u32, u32)> {
    EnumSpec {
        modifiers,
        visibility: String::new(),
        name: "Planet".to_string(),
        generics: Vec::new(),
        cases: vec![
            layout("PlanetInfo", vec![field("mass", "u32"), field("radius", "u32")]),
            data("Mercury", (3303, 24397)),
            data("Venus", (48690, 60518)),
            data("Earth", (59760, 63781)),
        ],
    }
}

fn case_name<T>(expansion: &Expansion<String, T>, case: Ordinal) -> String {
    expansion.artifact.as_ref().unwrap().enumeration.cases[case.index].name.clone()
}

#[test]
fn three_species_with_default_width() {
    let expansion = const_table(Item::Enum(species(vec![modifier("doc", &[])])));
    assert_eq!(expansion.diagnostics, Vec::<Diagnostic>::new());
    let artifact = expansion.artifact.as_ref().unwrap();
    assert_eq!(artifact.count(), 3);
    assert_eq!(artifact.table.count(), 3);
    assert_eq!(artifact.enumeration.width, Width::W32);

    let cat = artifact.table.reconstruct(0).unwrap();
    let dog = artifact.table.reconstruct(1).unwrap();
    let human = artifact.table.reconstruct(2).unwrap();
    assert_eq!(case_name(&expansion, cat), "Cat");
    assert_eq!(case_name(&expansion, dog), "Dog");
    assert_eq!(case_name(&expansion, human), "Human");
    assert_eq!(artifact.table.reconstruct(3), Err(3));

    assert_eq!(artifact.table.payload(human).as_ref().unwrap().sound, "Hello, World");
    assert_eq!(
        format!("{:?}", artifact.table.payload(cat).as_ref().unwrap()),
        "SpeciesInfo { sound: \"Meow!\", legs: 4 }"
    );
    assert_eq!(artifact.table.cases(), vec![cat, dog, human]);
}

#[test]
fn three_species_give_enumeration_and_record() {
    let expansion = const_table(Item::Enum(species(vec![modifier("doc", &[])])));
    let artifact = expansion.artifact.unwrap();
    assert_eq!(artifact.visibility, "pub");
    assert_eq!(artifact.enumeration.name, "SpeciesID");
    assert_eq!(artifact.enumeration.modifiers, vec![modifier("doc", &[])]);
    let names: Vec<&str> =
        artifact.enumeration.cases.iter().map(|case| case.name.as_str()).collect();
    assert_eq!(names, vec!["Cat", "Dog", "Human"]);
    assert_eq!(artifact.record.name, "SpeciesInfo");
    assert_eq!(artifact.record.modifiers, vec![modifier("derive", &["Debug"])]);
    assert_eq!(
        artifact.record.fields,
        vec![field("sound", "&'static str"), field("legs", "u64")]
    );
}

#[test]
fn lone_layout_case_is_fatal() {
    let mut spec = species(Vec::new());
    spec.cases.truncate(1);
    let expansion = const_table(Item::Enum(spec));
    assert_eq!(expansion.diagnostics, vec![Diagnostic::MissingDataCases]);
    assert_eq!(
        expansion.diagnostics[0].message(),
        "a const_table enum needs at least one variant with a discriminant expression"
    );
    assert!(expansion.diagnostics[0].is_fatal());
    assert_eq!(expansion.diagnostics[0].category(), Category::FatalStructural);
    assert!(expansion.artifact.is_none());
}

#[test]
fn width_of_128_bits_is_refused_and_default_used() {
    let expansion = const_table(Item::Enum(species(vec![modifier("repr", &["u128"])])));
    assert_eq!(expansion.diagnostics, vec![Diagnostic::UnsupportedWidth { modifier: 0 }]);
    assert_eq!(expansion.diagnostics[0].category(), Category::Representation);
    let artifact = expansion.artifact.unwrap();
    assert_eq!(artifact.enumeration.width, Width::W32);
    assert_eq!(artifact.enumeration.width.bits(), 32);
    assert_eq!(artifact.count(), 3);
}

#[test]
fn second_data_case_without_initializer_is_recoverable() {
    let mut spec = species(Vec::new());
    spec.cases[2] = bare("Dog");
    let expansion = const_table(Item::Enum(spec));
    assert_eq!(expansion.diagnostics, vec![Diagnostic::MissingInitializer { case: 2 }]);
    assert_eq!(expansion.diagnostics[0].category(), Category::RecoverableStructural);
    assert_eq!(expansion.diagnostics[0].location(), Location::Case { case: 2 });
    assert!(!expansion.diagnostics[0].is_fatal());

    let artifact = expansion.artifact.unwrap();
    assert_eq!(artifact.count(), 3);
    let names: Vec<&str> =
        artifact.enumeration.cases.iter().map(|case| case.name.as_str()).collect();
    assert_eq!(names, vec!["Cat", "Dog", "Human"]);
    assert_eq!(
        artifact.table.payload(Ordinal { index: 0 }),
        &Some(SpeciesInfo { sound: "Meow!", legs: 4 })
    );
    assert_eq!(artifact.table.payload(Ordinal { index: 1 }), &None);
    assert_eq!(
        artifact.table.payload(Ordinal { index: 2 }),
        &Some(SpeciesInfo { sound: "Hello, World", legs: 2 })
    );
}

#[test]
fn missing_layout() {
    let spec = EnumSpec {
        modifiers: Vec::new(),
        visibility: String::new(),
        name: "Planet".to_string(),
        generics: Vec::new(),
        cases: vec![
            data("Mercury", (3303u32, 24397u32)),
            data("Venus", (48690, 60518)),
            data("Earth", (59760, 63781)),
        ],
    };
    let expansion = const_table(Item::Enum(spec));
    assert_eq!(expansion.diagnostics, vec![Diagnostic::MalformedLayout]);
    assert_eq!(
        expansion.diagnostics[0].message(),
        "the first variant of a const_table enum should have named fields to specify the table layout"
    );
    assert_eq!(expansion.diagnostics[0].location(), Location::Case { case: 0 });
    assert!(expansion.artifact.is_none());
}

#[test]
fn repeat_derive() {
    let spec = EnumSpec {
        modifiers: vec![modifier("derive", &["Debug"])],
        visibility: String::new(),
        name: "SpeciesID".to_string(),
        generics: Vec::new(),
        cases: vec![
            layout("SpeciesInfo", vec![field("sound", "&'static str")]),
            data("Human", "Hello World"),
        ],
    };
    let expansion = const_table(Item::Enum(spec));
    assert_eq!(
        expansion.diagnostics,
        vec![Diagnostic::ReservedCapability {
            modifier: 0,
            argument: 0,
            capability: const_table::Capability::DebugFormatting,
        }]
    );
    assert_eq!(
        expansion.diagnostics[0].message(),
        "the Debug trait is already implemented by the const_table macro"
    );
    let artifact = expansion.artifact.unwrap();
    assert!(artifact.enumeration.modifiers.is_empty());
    assert_eq!(artifact.count(), 1);
    assert_eq!(artifact.table.payload(Ordinal { index: 0 }), &Some("Hello World"));
}

#[test]
fn unsupported_repr() {
    let expansion = const_table(Item::Enum(planets(vec![modifier("repr", &["i32"])])));
    assert_eq!(expansion.diagnostics, vec![Diagnostic::UnsupportedWidth { modifier: 0 }]);
    assert_eq!(
        expansion.diagnostics[0].message(),
        "unsupported repr hint for a const_table enum: expected one of u8, u16, u32 or u64 (default is u32)"
    );
    assert_eq!(expansion.diagnostics[0].location(), Location::ModifierArguments { modifier: 0 });
    let artifact = expansion.artifact.unwrap();
    assert_eq!(artifact.enumeration.width, Width::W32);
    assert!(artifact.enumeration.modifiers.is_empty());
    assert_eq!(artifact.count(), 3);
}

#[test]
fn item_that_is_no_enumeration_is_fatal() {
    let expansion = const_table(Item::<String, u8>::Other);
    assert_eq!(expansion.diagnostics, vec![Diagnostic::UnsupportedItem]);
    assert_eq!(
        expansion.diagnostics[0].message(),
        "the const_table attribute may only be applied to enums"
    );
    assert!(expansion.diagnostics[0].is_fatal());
    assert!(expansion.artifact.is_none());
}

#[test]
fn generic_parameters_are_reported_and_synthesis_goes_on() {
    let mut spec = planets(Vec::new());
    spec.generics = vec!["T".to_string()];
    let expansion = const_table(Item::Enum(spec));
    assert_eq!(expansion.diagnostics, vec![Diagnostic::GenericParameters]);
    assert_eq!(expansion.diagnostics[0].message(), "a const_table enum cannot be generic");
    assert_eq!(expansion.diagnostics[0].category(), Category::RecoverableStructural);
    assert_eq!(expansion.artifact.unwrap().count(), 3);
}

#[test]
fn declaration_without_cases_is_fatal() {
    let mut spec = planets(Vec::new());
    spec.cases.clear();
    let expansion = const_table(Item::Enum(spec));
    assert_eq!(expansion.diagnostics, vec![Diagnostic::MissingDataCases]);
    assert!(expansion.artifact.is_none());
}

#[test]
fn lone_case_without_record_shape_reports_the_missing_data_cases_only() {
    let spec = EnumSpec {
        modifiers: Vec::new(),
        visibility: String::new(),
        name: "Planet".to_string(),
        generics: Vec::new(),
        cases: vec![data("Mercury", 1u8)],
    };
    let expansion = const_table(Item::Enum(spec));
    assert_eq!(expansion.diagnostics, vec![Diagnostic::MissingDataCases]);
    assert!(expansion.artifact.is_none());
}

#[test]
fn first_case_with_positional_fields_is_no_layout() {
    let mut spec = planets(Vec::new());
    spec.cases[0].fields = Fields::Positional(vec!["u32".to_string(), "u32".to_string()]);
    let expansion = const_table(Item::Enum(spec));
    assert_eq!(expansion.diagnostics, vec![Diagnostic::MalformedLayout]);
    assert!(expansion.artifact.is_none());
}

#[test]
fn layout_case_without_any_field_is_accepted() {
    let mut spec = planets(Vec::new());
    spec.cases[0].fields = Fields::Named(Vec::new());
    let expansion = const_table(Item::Enum(spec));
    assert!(expansion.diagnostics.is_empty());
    let artifact = expansion.artifact.unwrap();
    assert!(artifact.record.fields.is_empty());
    assert_eq!(artifact.count(), 3);
}

#[test]
fn data_case_with_fields_is_reported_and_stripped() {
    let mut spec = planets(Vec::new());
    spec.cases[2].fields = Fields::Named(vec![field("mass", "u32")]);
    spec.cases[2].modifiers = vec![modifier("doc", &[])];
    let expansion = const_table(Item::Enum(spec));
    assert_eq!(expansion.diagnostics, vec![Diagnostic::UnexpectedFields { case: 2 }]);
    assert_eq!(
        expansion.diagnostics[0].message(),
        "in a const_table enum, only the first variant should have fields"
    );
    assert_eq!(expansion.diagnostics[0].location(), Location::CaseFields { case: 2 });
    let artifact = expansion.artifact.unwrap();
    assert_eq!(artifact.enumeration.cases[1].name, "Venus");
    assert_eq!(artifact.enumeration.cases[1].modifiers, vec![modifier("doc", &[])]);
    assert_eq!(artifact.table.payload(Ordinal { index: 1 }), &Some((48690, 60518)));
}

#[test]
fn data_case_with_fields_and_without_initializer_is_reported_twice() {
    let mut spec = planets(Vec::new());
    spec.cases[1].fields = Fields::Positional(vec!["u32".to_string()]);
    spec.cases[1].initializer = None;
    let expansion = const_table(Item::Enum(spec));
    assert_eq!(
        expansion.diagnostics,
        vec![Diagnostic::UnexpectedFields { case: 1 }, Diagnostic::MissingInitializer { case: 1 }]
    );
    assert_eq!(
        expansion.diagnostics[1].message(),
        "in a const_table enum, all but the first variant should have a discriminant expression"
    );
    let artifact = expansion.artifact.unwrap();
    assert_eq!(artifact.table.payload(Ordinal { index: 0 }), &None);
    assert_eq!(artifact.count(), 3);
}

#[test]
fn empty_field_lists_on_a_data_case_count_as_none() {
    let mut spec = planets(Vec::new());
    spec.cases[1].fields = Fields::Named(Vec::new());
    spec.cases[2].fields = Fields::Positional(Vec::new());
    let expansion = const_table(Item::Enum(spec));
    assert!(expansion.diagnostics.is_empty());
}

#[test]
fn diagnostics_come_in_the_order_of_the_pass() {
    let mut spec = planets(vec![
        modifier("repr", &["i64"]),
        modifier("derive", &["Clone", "Default", "Eq"]),
        modifier("repr", &["u16"]),
    ]);
    spec.generics = vec!["T".to_string()];
    spec.cases[0].fields = Fields::Unit;
    spec.cases[1].initializer = None;
    spec.cases[3].fields = Fields::Positional(vec!["u8".to_string()]);
    let expansion = const_table(Item::Enum(spec));
    assert_eq!(
        expansion.diagnostics,
        vec![
            Diagnostic::GenericParameters,
            Diagnostic::UnsupportedWidth { modifier: 0 },
            Diagnostic::ReservedCapability {
                modifier: 1,
                argument: 0,
                capability: const_table::Capability::Cloning,
            },
            Diagnostic::ReservedCapability {
                modifier: 1,
                argument: 2,
                capability: const_table::Capability::TotalEquality,
            },
            Diagnostic::MissingInitializer { case: 1 },
            Diagnostic::UnexpectedFields { case: 3 },
            Diagnostic::MalformedLayout,
        ]
    );
    assert!(expansion.artifact.is_none());
}

#[test]
fn count_does_not_depend_on_the_width() {
    let hints = [("u8", Width::W8), ("u16", Width::W16), ("u32", Width::W32), ("u64", Width::W64)];
    for (hint, width) in hints {
        let expansion = const_table(Item::Enum(planets(vec![modifier("repr", &[hint])])));
        assert!(expansion.diagnostics.is_empty());
        let artifact = expansion.artifact.unwrap();
        assert_eq!(artifact.enumeration.width, width);
        assert_eq!(artifact.count(), 3);
        assert!(artifact.fits_width());
    }
    assert_eq!(const_table(Item::Enum(planets(Vec::new()))).artifact.unwrap().count(), 3);
}

#[test]
fn projection_gives_each_initializer() {
    let spec = planets(Vec::new());
    let expected: Vec<Option<(u32, u32)>> =
        spec.cases[1..].iter().map(|case| case.initializer).collect();
    let artifact = const_table(Item::Enum(spec)).artifact.unwrap();
    for case in artifact.table.cases() {
        assert_eq!(artifact.table.payload(case), &expected[case.index]);
    }
    assert_eq!(artifact.table.into_rows(), expected);
}
