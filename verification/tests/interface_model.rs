use component_interface::ast::TypeExpr;
use component_interface::component::ComponentInterface;
use component_interface::error::ErrorKind;
use component_interface::ffi::FfiType;
use component_interface::types::CanonicalType;

#[test]
fn test_duplicate_variants() {
    const UDL: &str = r#"
        namespace test{};
        enum Testing { "one", "two", "one" };
    "#;
    let ci = ComponentInterface::from_webidl(UDL).unwrap();
    assert_eq!(ci.iter_enum_definitions().len(), 1);
    assert_eq!(ci.get_enum_definition("Testing").unwrap().variants().len(), 3);
}

#[test]
fn test_associated_data() {
    const UDL: &str = r#"
        namespace test {
            void takes_an_enum(TestEnum e);
            void takes_an_enum_with_data(TestEnumWithData ed);
            TestEnum returns_an_enum();
            TestEnumWithData returns_an_enum_with_data();
        };
        enum TestEnum { "one", "two" };
        [Enum]
        interface TestEnumWithData {
            Zero();
            One(u32 first);
            Two(u32 first, string second);
        };
    "#;
    let ci = ComponentInterface::from_webidl(UDL).unwrap();
    assert_eq!(ci.iter_enum_definitions().len(), 2);
    assert_eq!(ci.iter_function_definitions().len(), 4);

    // The "plain old enum" with no associated data.
    let e = ci.get_enum_definition("TestEnum").unwrap();
    assert!(!e.has_associated_data());
    assert_eq!(e.variants().len(), 2);
    assert_eq!(
        e.variants().iter().map(|v| v.name()).collect::<Vec<_>>(),
        vec!["one", "two"]
    );
    assert_eq!(e.variants()[0].fields().len(), 0);
    assert_eq!(e.variants()[1].fields().len(), 0);

    // The enum with associated data.
    let ed = ci.get_enum_definition("TestEnumWithData").unwrap();
    assert!(ed.has_associated_data());
    assert_eq!(ed.variants().len(), 3);
    assert_eq!(
        ed.variants().iter().map(|v| v.name()).collect::<Vec<_>>(),
        vec!["Zero", "One", "Two"]
    );
    assert_eq!(ed.variants()[0].fields().len(), 0);
    assert_eq!(
        ed.variants()[1]
            .fields()
            .iter()
            .map(|f| f.name())
            .collect::<Vec<_>>(),
        vec!["first"]
    );
    assert_eq!(
        ed.variants()[1]
            .fields()
            .iter()
            .map(|f| f.type_())
            .collect::<Vec<_>>(),
        vec![CanonicalType::UInt32]
    );
    assert_eq!(
        ed.variants()[2]
            .fields()
            .iter()
            .map(|f| f.name())
            .collect::<Vec<_>>(),
        vec!["first", "second"]
    );
    assert_eq!(
        ed.variants()[2]
            .fields()
            .iter()
            .map(|f| f.type_())
            .collect::<Vec<_>>(),
        vec![CanonicalType::UInt32, CanonicalType::String]
    );

    // Enums with no associated data pass over the FFI as bytebuffers.
    let farg = ci.get_function_definition("takes_an_enum").unwrap();
    assert_eq!(
        farg.arguments()[0].type_(),
        CanonicalType::Enum("TestEnum".into())
    );
    assert_eq!(farg.ffi_func().arguments()[0].type_(), FfiType::RustBuffer);
    let fret = ci.get_function_definition("returns_an_enum").unwrap();
    assert!(matches!(fret.return_type(), Some(CanonicalType::Enum(nm)) if nm == "TestEnum"));
    assert!(matches!(fret.ffi_func().return_type(), Some(FfiType::RustBuffer)));

    // Enums with associated data pass over the FFI as bytebuffers too.
    let farg = ci.get_function_definition("takes_an_enum_with_data").unwrap();
    assert_eq!(
        farg.arguments()[0].type_(),
        CanonicalType::Enum("TestEnumWithData".into())
    );
    assert_eq!(farg.ffi_func().arguments()[0].type_(), FfiType::RustBuffer);
    let fret = ci.get_function_definition("returns_an_enum_with_data").unwrap();
    assert!(
        matches!(fret.return_type(), Some(CanonicalType::Enum(nm)) if nm == "TestEnumWithData")
    );
    assert!(matches!(fret.ffi_func().return_type(), Some(FfiType::RustBuffer)));
}

#[test]
fn test_that_all_argument_and_return_types_become_known() {
    const UDL: &str = r#"
        namespace test{};
        interface Testing {
            constructor(string? name, u16 age);
            sequence<u32> code_points_of_name();
        };
    "#;
    let ci = ComponentInterface::from_webidl(UDL).unwrap();
    assert_eq!(ci.iter_object_definitions().len(), 1);
    ci.get_object_definition("Testing").unwrap();

    assert_eq!(ci.iter_types().len(), 6);
    assert!(ci
        .iter_types()
        .iter()
        .find(|t| t.canonical_name() == "u16")
        .is_some());
    assert!(ci
        .iter_types()
        .iter()
        .find(|t| t.canonical_name() == "u32")
        .is_some());
    assert!(ci
        .iter_types()
        .iter()
        .find(|t| t.canonical_name() == "Sequenceu32")
        .is_some());
    assert!(ci
        .iter_types()
        .iter()
        .find(|t| t.canonical_name() == "string")
        .is_some());
    assert!(ci
        .iter_types()
        .iter()
        .find(|t| t.canonical_name() == "Optionalstring")
        .is_some());
    assert!(ci
        .iter_types()
        .iter()
        .find(|t| t.canonical_name() == "ObjectTesting")
        .is_some());
}

#[test]
fn test_static_vs_instance_methods() {
    const UDL: &str = r#"
        namespace test{};
        interface Testing {
            u32 instance_method();
            static u32 static_method();
        };
    "#;
    let ci = ComponentInterface::from_webidl(UDL).unwrap();
    assert_eq!(ci.iter_object_definitions().len(), 1);

    let obj = ci.get_object_definition("Testing").unwrap();
    assert_eq!(obj.methods().len(), 2);

    let method = obj.methods()[0];
    assert_eq!(method.name(), "instance_method");
    assert!(!method.is_static());
    assert_eq!(method.arguments.len(), 0);
    assert!(method.first_argument().is_some());
    assert_eq!(method.ffi_func.arguments.len(), 1);

    let method = obj.methods()[1];
    assert_eq!(method.name(), "static_method");
    assert!(method.is_static());
    assert_eq!(method.arguments.len(), 0);
    assert!(method.first_argument().is_none());
    assert_eq!(method.ffi_func.arguments.len(), 0);
}

#[test]
fn test_resolution_is_idempotent() {
    const UDL: &str = "namespace test{};";
    let mut ci = ComponentInterface::from_webidl(UDL).unwrap();
    let expr = TypeExpr::Sequence(Box::new(TypeExpr::Nullable(Box::new(TypeExpr::Ident(
        "u32".into(),
    )))));
    let first = ci.resolve_type_expression(&expr).unwrap();
    let count_after_first = ci.iter_types().len();
    let second = ci.resolve_type_expression(&expr).unwrap();
    assert_eq!(first.canonical_name(), "SequenceOptionalu32");
    assert_eq!(first.canonical_name(), second.canonical_name());
    assert_eq!(first, second);
    assert_eq!(ci.iter_types().len(), count_after_first);
}

#[test]
fn test_zero_constructors_get_one_default() {
    const UDL: &str = r#"
        namespace test{};
        interface Testing {
            u32 instance_method();
            static u32 static_method();
        };
    "#;
    let ci = ComponentInterface::from_webidl(UDL).unwrap();
    let obj = ci.get_object_definition("Testing").unwrap();
    assert_eq!(obj.constructors().len(), 1);
    let cons = obj.constructors()[0];
    assert_eq!(cons.name(), "new");
    assert_eq!(cons.arguments().len(), 0);
    assert!(cons.throws().is_none());
    // The synthesized free function takes exactly the handle.
    assert_eq!(obj.ffi_object_free().arguments().len(), 1);
    assert_eq!(obj.ffi_object_free().arguments()[0].name(), "handle");
    assert_eq!(obj.ffi_object_free().arguments()[0].type_(), FfiType::UInt64);
    assert!(obj.ffi_object_free().return_type().is_none());
    let free_name = obj.ffi_object_free().name();
    assert!(free_name.starts_with("ffi_test_"));
    assert!(free_name.ends_with("_Testing_object_free"));
}

#[test]
fn test_object_in_variant_data_is_a_semantic_violation() {
    const UDL: &str = r#"
        namespace test{};
        interface Holder {
            constructor();
        };
        [Enum]
        interface Bad {
            One(Holder h);
        };
    "#;
    let err = ComponentInterface::from_webidl(UDL).unwrap_err();
    assert_eq!(err.kind(), ErrorKind::SemanticViolation);
}

#[test]
fn test_front_ends_agree_on_plain_enums() {
    const UDL: &str = r#"
        namespace test{};
        enum Testing { "one", "two" };
    "#;
    const SRC: &str = r#"
        enum Testing {
            one,
            two,
        }
    "#;
    let ci_idl = ComponentInterface::from_webidl(UDL).unwrap();
    let ci_native = ComponentInterface::from_native("test", SRC).unwrap();
    let a = ci_idl.get_enum_definition("Testing").unwrap();
    let b = ci_native.get_enum_definition("Testing").unwrap();
    assert_eq!(a.name(), b.name());
    assert!(!a.has_associated_data());
    assert!(!b.has_associated_data());
    assert_eq!(
        a.variants().iter().map(|v| v.name()).collect::<Vec<_>>(),
        b.variants().iter().map(|v| v.name()).collect::<Vec<_>>()
    );
    assert_eq!(a.checksum(), b.checksum());
    assert_eq!(ci_idl.checksum(), ci_native.checksum());
}

#[test]
fn test_front_ends_agree_on_data_enums() {
    const UDL: &str = r#"
        namespace test{};
        [Enum]
        interface WithData {
            Zero();
            One(u32 first);
            Two(u32 first, string second);
        };
    "#;
    const SRC: &str = r#"
        enum WithData {
            Zero,
            One { first: u32 },
            Two { first: u32, second: String },
        }
    "#;
    let ci_idl = ComponentInterface::from_webidl(UDL).unwrap();
    let ci_native = ComponentInterface::from_native("test", SRC).unwrap();
    let a = ci_idl.get_enum_definition("WithData").unwrap();
    let b = ci_native.get_enum_definition("WithData").unwrap();
    assert!(a.has_associated_data());
    assert!(b.has_associated_data());
    assert_eq!(a.variants().len(), 3);
    assert_eq!(b.variants().len(), 3);
    for (va, vb) in a.variants().iter().zip(b.variants().iter()) {
        assert_eq!(va.name(), vb.name());
        assert_eq!(va.fields().len(), vb.fields().len());
        for (fa, fb) in va.fields().iter().zip(vb.fields().iter()) {
            assert_eq!(fa.name(), fb.name());
            assert_eq!(fa.type_(), fb.type_());
        }
    }
    assert_eq!(a.checksum(), b.checksum());
}

#[test]
fn test_front_ends_agree_on_objects() {
    const UDL: &str = r#"
        namespace test{};
        interface Testing {
            constructor(u32 seed);
            u32 instance_method();
            static u32 static_method();
        };
    "#;
    const SRC: &str = r#"
        struct Testing;
        impl Testing {
            pub fn new(seed: u32) -> Testing {
                Testing
            }
            pub fn instance_method(&self) -> u32 {
                0
            }
            pub fn static_method() -> u32 {
                0
            }
        }
    "#;
    let ci_idl = ComponentInterface::from_webidl(UDL).unwrap();
    let ci_native = ComponentInterface::from_native("test", SRC).unwrap();
    let a = ci_idl.get_object_definition("Testing").unwrap();
    let b = ci_native.get_object_definition("Testing").unwrap();
    assert_eq!(a.constructors().len(), 1);
    assert_eq!(b.constructors().len(), 1);
    assert_eq!(a.methods().len(), 2);
    assert_eq!(b.methods().len(), 2);
    assert_eq!(a.methods()[0].name(), "instance_method");
    assert!(!a.methods()[0].is_static());
    assert!(!b.methods()[0].is_static());
    assert!(a.methods()[1].is_static());
    assert!(b.methods()[1].is_static());
    assert_eq!(a.checksum(), b.checksum());
    assert_eq!(ci_idl.checksum(), ci_native.checksum());
    // Identical logical content yields identical derived symbol names.
    assert_eq!(
        a.methods()[0].ffi_func().name(),
        b.methods()[0].ffi_func().name()
    );
}

#[test]
fn test_semantic_change_moves_the_checksum() {
    const UDL1: &str = r#"
        namespace test{};
        interface Testing {
            u32 instance_method();
        };
    "#;
    const UDL2: &str = r#"
        namespace test{};
        interface Testing {
            u32 instance_method(u32 extra);
        };
    "#;
    let ci1 = ComponentInterface::from_webidl(UDL1).unwrap();
    let ci2 = ComponentInterface::from_webidl(UDL2).unwrap();
    assert_ne!(ci1.checksum(), ci2.checksum());
    let o1 = ci1.get_object_definition("Testing").unwrap();
    let o2 = ci2.get_object_definition("Testing").unwrap();
    assert_ne!(
        o1.methods()[0].ffi_func().name(),
        o2.methods()[0].ffi_func().name()
    );
}

#[test]
fn test_inheritance_is_unsupported_syntax() {
    const UDL: &str = r#"
        namespace test{};
        interface Sub : Base {
            constructor();
        };
    "#;
    let err = ComponentInterface::from_webidl(UDL).unwrap_err();
    assert_eq!(err.kind(), ErrorKind::UnsupportedSyntax);
}

#[test]
fn test_unknown_modifier_is_an_attribute_violation() {
    const UDL: &str = r#"
        namespace test{};
        [Fancy]
        interface Testing {
            constructor();
        };
    "#;
    let err = ComponentInterface::from_webidl(UDL).unwrap_err();
    assert_eq!(err.kind(), ErrorKind::AttributeViolation);
}

#[test]
fn test_reserved_method_name_is_a_structural_violation() {
    const UDL: &str = r#"
        namespace test{};
        interface Testing {
            u32 new();
        };
    "#;
    let err = ComponentInterface::from_webidl(UDL).unwrap_err();
    assert_eq!(err.kind(), ErrorKind::StructuralViolation);
}

#[test]
fn test_unknown_type_name_is_reported() {
    const UDL: &str = r#"
        namespace test {
            void takes_a_mystery(Mystery m);
        };
    "#;
    let err = ComponentInterface::from_webidl(UDL).unwrap_err();
    assert_eq!(err.kind(), ErrorKind::UnknownTypeName);
}

#[test]
fn test_throws_modifier_is_recorded() {
    const UDL: &str = r#"
        namespace test{};
        interface Testing {
            [Throws=DemoError]
            constructor();
            [Throws=DemoError]
            u32 instance_method();
        };
    "#;
    let ci = ComponentInterface::from_webidl(UDL).unwrap();
    let obj = ci.get_object_definition("Testing").unwrap();
    assert_eq!(obj.constructors()[0].throws(), Some("DemoError"));
    assert_eq!(obj.methods()[0].throws(), Some("DemoError"));
}

#[test]
fn test_dictionary_becomes_a_record() {
    const UDL: &str = r#"
        namespace test{};
        dictionary Point {
            required u32 x;
            u16 y;
        };
    "#;
    let ci = ComponentInterface::from_webidl(UDL).unwrap();
    let rec = ci.get_record_definition("Point").unwrap();
    assert_eq!(rec.name(), "Point");
    assert_eq!(rec.fields().len(), 2);
    assert_eq!(rec.fields()[0].name(), "x");
    assert!(rec.fields()[0].required());
    assert_eq!(rec.fields()[1].name(), "y");
    assert!(!rec.fields()[1].required());
    assert_eq!(rec.fields()[1].type_(), CanonicalType::UInt16);
}

#[test]
fn test_constructor_lowering_returns_the_handle() {
    const UDL: &str = r#"
        namespace test{};
        interface Testing {
            constructor(string? name, u16 age);
        };
    "#;
    let ci = ComponentInterface::from_webidl(UDL).unwrap();
    let obj = ci.get_object_definition("Testing").unwrap();
    let cons = obj.constructors()[0];
    assert_eq!(cons.ffi_func().arguments().len(), 2);
    assert_eq!(cons.ffi_func().arguments()[0].name(), "name");
    assert_eq!(cons.ffi_func().arguments()[0].type_(), FfiType::RustBuffer);
    assert_eq!(cons.ffi_func().arguments()[1].type_(), FfiType::UInt16);
    assert!(matches!(cons.ffi_func().return_type(), Some(FfiType::UInt64)));
}

#[test]
fn test_native_fallible_returns() {
    const SRC: &str = r#"
        struct Testing;
        impl Testing {
            pub fn new() -> Result<Testing, DemoError> {
                Ok(Testing)
            }
            pub fn check(&self) -> Result<(), DemoError> {
                Ok(())
            }
            pub fn count(&self) -> Result<u32, DemoError> {
                Ok(0)
            }
        }
    "#;
    let ci = ComponentInterface::from_native("test", SRC).unwrap();
    let obj = ci.get_object_definition("Testing").unwrap();
    assert_eq!(obj.constructors().len(), 1);
    assert_eq!(obj.constructors()[0].throws(), Some("DemoError"));
    let check = obj.methods()[0];
    assert_eq!(check.name(), "check");
    assert_eq!(check.throws(), Some("DemoError"));
    assert!(check.return_type().is_none());
    assert!(check.ffi_func().return_type().is_none());
    let count = obj.methods()[1];
    assert_eq!(count.throws(), Some("DemoError"));
    assert!(matches!(count.return_type(), Some(CanonicalType::UInt32)));
}

#[test]
fn test_duplicate_definition_names_are_rejected() {
    const UDL: &str = r#"
        namespace test{};
        enum Testing { "one" };
        enum Testing { "two" };
    "#;
    let err = ComponentInterface::from_webidl(UDL).unwrap_err();
    assert_eq!(err.kind(), ErrorKind::StructuralViolation);
}

#[test]
fn test_variadic_arguments_are_unsupported() {
    const UDL: &str = r#"
        namespace test {
            void sum(u32... xs);
        };
    "#;
    let err = ComponentInterface::from_webidl(UDL).unwrap_err();
    assert_eq!(err.kind(), ErrorKind::UnsupportedSyntax);
}

#[test]
fn test_trailing_garbage_is_a_parse_error() {
    // A source with trailing text the grammar cannot consume must report
    // an error, not abort.
    let err = ComponentInterface::from_webidl("namespace test{}; garbage !!").unwrap_err();
    assert_eq!(err.kind(), ErrorKind::UnsupportedSyntax);
    let err = ComponentInterface::from_webidl("garbage").unwrap_err();
    assert_eq!(err.kind(), ErrorKind::UnsupportedSyntax);
}

#[test]
fn test_threadsafe_attribute_moves_the_checksum() {
    const UDL1: &str = r#"
        namespace test{};
        interface Testing {
            constructor();
        };
    "#;
    const UDL2: &str = r#"
        namespace test{};
        [Threadsafe]
        interface Testing {
            constructor();
        };
    "#;
    let ci1 = ComponentInterface::from_webidl(UDL1).unwrap();
    let ci2 = ComponentInterface::from_webidl(UDL2).unwrap();
    let o1 = ci1.get_object_definition("Testing").unwrap();
    let o2 = ci2.get_object_definition("Testing").unwrap();
    assert!(!o1.threadsafe());
    assert!(o2.threadsafe());
    assert_ne!(o1.checksum(), o2.checksum());
    assert_ne!(ci1.checksum(), ci2.checksum());
    assert_ne!(
        o1.constructors()[0].ffi_func().name(),
        o2.constructors()[0].ffi_func().name()
    );
}
