use jvm_bindgen::{
    argument_type_to_signature, generate_signature, ArgumentType, ClassType, Config, MethodEntry,
};

fn all_primitives() -> Vec<(ArgumentType, &'static str)> {
    vec![
        (ArgumentType::Boolean, "Z"),
        (ArgumentType::Byte, "B"),
        (ArgumentType::Char, "C"),
        (ArgumentType::Short, "S"),
        (ArgumentType::Int, "I"),
        (ArgumentType::Long, "J"),
        (ArgumentType::Float, "F"),
        (ArgumentType::Double, "D"),
    ]
}

#[test]
fn primitive_descriptors_round_trip() {
    for (t, letter) in all_primitives() {
        assert!(t.is_primitive());
        assert_eq!(argument_type_to_signature(&t), letter);
        assert_eq!(t.primitive_to_jni_signature(), letter);
        let back = ArgumentType::from_signature_type(letter).unwrap();
        assert_eq!(format!("{:?}", back), format!("{:?}", t));
    }
}

#[test]
fn unknown_signature_letters() {
    assert!(ArgumentType::from_signature_type("V").is_none());
    assert!(ArgumentType::from_signature_type("II").is_none());
    assert!(ArgumentType::from_signature_type("").is_none());
}

#[test]
fn object_descriptor() {
    let t = ArgumentType::Object("java.lang.String".to_string());
    assert!(!t.is_primitive());
    assert_eq!(argument_type_to_signature(&t), "Ljava/lang/String;");
}

#[test]
fn two_dimensional_int_array_descriptor() {
    let t = ArgumentType::Array(Box::new(ArgumentType::Array(Box::new(ArgumentType::Int))));
    assert_eq!(argument_type_to_signature(&t), "[[I");
}

#[test]
fn descriptor_list() {
    let ts = vec![
        ArgumentType::Int,
        ArgumentType::Object("a.B".to_string()),
        ArgumentType::Array(Box::new(ArgumentType::Byte)),
    ];
    assert_eq!(ArgumentType::to_jni_signature(&ts), "ILa/B;[B");
    assert_eq!(ArgumentType::to_jni_signature(&[]), "");
}

#[test]
fn method_descriptors() {
    let m = MethodEntry {
        name: "put".to_string(),
        is_static: false,
        arguments: vec![ArgumentType::Int, ArgumentType::Object("java.lang.String".to_string())],
        return_type: None,
        declaring_class: "com.foo.Map".to_string(),
    };
    assert_eq!(generate_signature(&m), "(ILjava/lang/String;)V");
    let m = MethodEntry {
        name: "size".to_string(),
        is_static: false,
        arguments: vec![],
        return_type: Some(ArgumentType::Long),
        declaring_class: "com.foo.Map".to_string(),
    };
    assert_eq!(generate_signature(&m), "()J");
}

#[test]
fn types_from_runtime_names() {
    assert!(matches!(ArgumentType::new("int".to_string()), Some(ArgumentType::Int)));
    assert!(matches!(ArgumentType::new("boolean".to_string()), Some(ArgumentType::Boolean)));
    match ArgumentType::new("java.lang.String".to_string()) {
        Some(ArgumentType::Object(n)) => assert_eq!(n, "java.lang.String"),
        other => panic!("unexpected {:?}", other),
    }
    let t = ArgumentType::new("[[I".to_string()).unwrap();
    assert_eq!(argument_type_to_signature(&t), "[[I");
    let t = ArgumentType::new("[Ljava.lang.String;".to_string()).unwrap();
    match &t {
        ArgumentType::Array(e) => match e.as_ref() {
            ArgumentType::Object(n) => assert_eq!(n, "java.lang.String"),
            other => panic!("unexpected {:?}", other),
        },
        other => panic!("unexpected {:?}", other),
    }
    assert_eq!(argument_type_to_signature(&t), "[Ljava/lang/String;");
}

#[test]
fn malformed_array_names() {
    assert!(ArgumentType::new("[".to_string()).is_none());
    assert!(ArgumentType::new("[Q".to_string()).is_none());
    assert!(ArgumentType::new("[Ljava.lang.String".to_string()).is_none());
}

#[test]
fn method_from_runtime_names() {
    let m = MethodEntry::new(
        "get".to_string(),
        true,
        vec!["int".to_string(), "[B".to_string()],
        "void".to_string(),
        "com.foo.Bar".to_string(),
    )
    .unwrap();
    assert_eq!(m.name, "get");
    assert!(m.is_static);
    assert_eq!(m.arguments.len(), 2);
    assert!(m.return_type.is_none());
    assert_eq!(generate_signature(&m), "(I[B)V");
    let m = MethodEntry::new(
        "f".to_string(),
        false,
        vec![],
        "java.lang.Object".to_string(),
        "com.foo.Bar".to_string(),
    )
    .unwrap();
    assert_eq!(generate_signature(&m), "()Ljava/lang/Object;");
    assert!(MethodEntry::new(
        "g".to_string(),
        false,
        vec!["[X".to_string()],
        "void".to_string(),
        "c.D".to_string()
    )
    .is_none());
}

#[test]
fn class_kinds() {
    assert_eq!(ClassType::new(true, false), ClassType::Interface);
    assert_eq!(ClassType::new(true, true), ClassType::Interface);
    assert_eq!(ClassType::new(false, true), ClassType::Annotation);
    assert_eq!(ClassType::new(false, false), ClassType::Class);
}

#[test]
fn primitive_rust_types() {
    let config = Config::empty();
    let expected = [
        (ArgumentType::Int, "i32"),
        (ArgumentType::Byte, "u8"),
        (ArgumentType::Double, "f64"),
        (ArgumentType::Float, "f32"),
        (ArgumentType::Short, "i16"),
        (ArgumentType::Char, "u16"),
        (ArgumentType::Boolean, "bool"),
        (ArgumentType::Long, "i64"),
    ];
    for (t, ty) in expected {
        assert_eq!(t.to_rust_type(&config), ty);
    }
}

#[test]
fn class_rust_type_without_override() {
    let config = Config::empty();
    let t = ArgumentType::Object("com.Foo.impl.Bar$Baz".to_string());
    assert_eq!(t.to_rust_type(&config), "com::foo::impl_k::bar_p::Baz");
    let t = ArgumentType::Object("[Ljava.lang.String;".to_string());
    assert_eq!(t.to_rust_type(&config), "java::lang::String");
}

#[test]
fn class_rust_type_with_override() {
    let mut config = Config::empty();
    config
        .generator
        .mappings
        .insert("java::lang::String".to_string(), "ejni::JavaString<'a>".to_string());
    let t = ArgumentType::Object("java.lang.String".to_string());
    assert_eq!(t.to_rust_type(&config), "ejni::JavaString<'a>");
    let other = ArgumentType::Object("java.lang.Object".to_string());
    assert_eq!(other.to_rust_type(&config), "java::lang::Object");
    let arr = ArgumentType::Array(Box::new(ArgumentType::Array(Box::new(t))));
    assert_eq!(arr.to_rust_type(&config), "Vec<Vec<ejni::JavaString<'a>>>");
}

#[test]
fn mapping_insert_replaces() {
    let mut config = Config::empty();
    assert!(config.generator.mappings.get("a::B").is_none());
    config.generator.mappings.insert("a::B".to_string(), "X".to_string());
    config.generator.mappings.insert("a::B".to_string(), "Y".to_string());
    assert_eq!(config.generator.mappings.get("a::B").unwrap(), "Y");
}

#[test]
fn raw_array_names_are_normalized() {
    let raw = ArgumentType::Array(Box::new(ArgumentType::Object("[Ljava.lang.String;".to_string())));
    let t = raw.format_to_rust();
    match &t {
        ArgumentType::Array(e) => match e.as_ref() {
            ArgumentType::Object(n) => assert_eq!(n, "java.lang.String"),
            other => panic!("unexpected {:?}", other),
        },
        other => panic!("unexpected {:?}", other),
    }
    assert_eq!(argument_type_to_signature(&t), "[Ljava/lang/String;");
    assert_eq!(t.to_rust_type(&Config::empty()), "Vec<java::lang::String>");
    let plain = ArgumentType::Object("java.lang.String".to_string()).format_to_rust();
    assert_eq!(argument_type_to_signature(&plain), "Ljava/lang/String;");
    match ArgumentType::Object("[I".to_string()).format_to_rust() {
        ArgumentType::Object(n) => assert_eq!(n, "[I"),
        other => panic!("unexpected {:?}", other),
    }
    let nested = ArgumentType::Array(Box::new(ArgumentType::Array(Box::new(ArgumentType::Int))));
    assert_eq!(argument_type_to_signature(&nested.format_to_rust()), "[[I");
    assert!(matches!(ArgumentType::Int.format_to_rust(), ArgumentType::Int));
}
