use jvm_bindgen::{assemble_path, case_normalize, escape_keywords, format_name, rename_class_fq};

#[test]
fn simple_class() {
    let input = "com.foo.example.Bar";
    let output = rename_class_fq(input);

    assert_eq!("com.foo.example.Bar", &output);
}

#[test]
fn with_keywords() {
    let input = "com.foo.impl.Bar";
    let output = rename_class_fq(input);

    assert_eq!(format!("com.foo.impl{}.Bar", "_k"), output);
}

#[test]
fn one_subclass() {
    let input = "com.foo.example.Bar$Baz";
    let output = rename_class_fq(input);

    assert_eq!(format!("com.foo.example.bar{}.Baz", "_p"), output);
}

#[test]
fn two_subclasses() {
    let input = "com.foo.example.Bar$Baz$Quix";
    let output = rename_class_fq(input);

    assert_eq!(format!("com.foo.example.bar{0}.baz{0}.Quix", "_p"), output);
}

#[test]
fn three_subclasses() {
    let input = "com.foo.example.Bar$Baz$Quix$Example";
    let output = rename_class_fq(input);

    assert_eq!(format!("com.foo.example.bar{0}.baz{0}.quix{0}.Example", "_p"), output);
}

#[test]
fn case_adjusting() {
    let input = "com.Foo.example.Bar";
    let output = rename_class_fq(input);

    assert_eq!("com.foo.example.Bar", &output);
}

#[test]
fn keyword_in_every_position() {
    assert_eq!(rename_class_fq("in.move.impl"), "in_k.move_k.impl_k");
}

#[test]
fn keyword_as_enclosing_class() {
    assert_eq!(rename_class_fq("a.Outer$Inner"), "a.outer_p.Inner");
    assert_eq!(rename_class_fq("a.in$Inner"), "a.in_k_p.Inner");
}

#[test]
fn class_without_package() {
    assert_eq!(rename_class_fq("Bar"), "Bar");
    assert_eq!(rename_class_fq(""), "");
}

#[test]
fn escape_only_exact_keywords() {
    assert_eq!(escape_keywords("impl"), "impl_k");
    assert_eq!(escape_keywords("move"), "move_k");
    assert_eq!(escape_keywords("in"), "in_k");
    assert_eq!(escape_keywords("int"), "int");
    assert_eq!(escape_keywords("Impl"), "Impl");
    assert_eq!(format_name("in"), "in_k");
    assert_eq!(format_name("foo"), "foo");
}

#[test]
fn case_normalization_is_idempotent() {
    for name in ["com.Foo.example.Bar", "org.MyPackage.sub.Baz", "x.HTTPServer.Y"] {
        let once = rename_class_fq(name);
        let twice = rename_class_fq(&once);
        assert_eq!(once, twice);
    }
}

#[test]
fn parent_suffix_differs_from_keyword_suffix() {
    let nested = rename_class_fq("a.Bar$Baz");
    let keyword = rename_class_fq("a.impl.Baz");
    assert!(nested.contains("_p."));
    assert!(keyword.contains("_k."));
}

#[test]
fn non_ascii_components_are_kept() {
    assert_eq!(rename_class_fq("com.éA.Bar"), "com.éA.Bar");
    assert_eq!(rename_class_fq("com.é_.Bar"), "com.é_.Bar");
    assert_eq!(rename_class_fq("com.Foo.Café$Crème"), "com.foo.Café_p.Crème");
}

#[test]
fn assembled_paths() {
    let packages = vec!["com".to_string(), "foo".to_string()];
    let parents = vec!["bar".to_string(), "baz".to_string()];
    assert_eq!(assemble_path(&packages, &parents, "Quix"), "com.foo.bar_p.baz_p.Quix");
    assert_eq!(assemble_path(&vec![], &vec![], "Top"), "Top");
    assert_eq!(assemble_path(&packages, &vec![], "Bar"), "com.foo.Bar");
}

#[test]
fn case_normalize_is_a_fixed_point_on_its_output() {
    for c in ["Foo", "HTTPServer", "myPackage2go", "already_snake", "Café"] {
        let once = case_normalize(c);
        assert_eq!(case_normalize(&once), once);
    }
    assert_eq!(case_normalize("MyPackage"), "my_package");
    assert_eq!(case_normalize("Café"), "Café");
}
