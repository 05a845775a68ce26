use jvm_bindgen::{
    generate_class, generated_classes, is_anonymous_class, generate_entry, generate_interface, generate_method, in_root, is_class_resource, output_path,
    plan_outputs, ArgumentType, ClassEntry, ClassType, Config, FormattedClassEntry, MethodEntry,
};

fn method(name: &str, is_static: bool, args: Vec<ArgumentType>, ret: Option<ArgumentType>) -> MethodEntry {
    MethodEntry {
        name: name.to_string(),
        is_static,
        arguments: args,
        return_type: ret,
        declaring_class: "com.foo.Bar".to_string(),
    }
}

#[test]
fn synthetic_methods_get_no_wrapper() {
    let config = Config::empty();
    let lambda = method("lambda$run$0", false, vec![], None);
    assert_eq!(generate_method(&lambda, &config), "");
    let access = method("access$000", true, vec![ArgumentType::Int], None);
    assert_eq!(generate_method(&access, &config), "");
    let takes_lambda = method(
        "apply",
        false,
        vec![ArgumentType::Object("com.foo.Bar$$lambda$1".to_string())],
        None,
    );
    assert_eq!(generate_method(&takes_lambda, &config), "");
    let plain = method("run", false, vec![], None);
    assert!(generate_method(&plain, &config).contains("pub fn run(&self)"));
}

#[test]
fn static_wrapper_text() {
    let config = Config::empty();
    let m = method("getValue", true, vec![ArgumentType::Int, ArgumentType::Boolean], Some(ArgumentType::Long));
    let text = generate_method(&m, &config);
    let expected = [
        "    pub fn get_value(env: &'a jni::JNIEnv<'a>, arg0: i32, arg1: bool) -> crate::JResult<i64> {\n",
        "        let arg0: jni::JValue = jni::JValue::Int(arg0);\n",
        "        let arg1: jni::JValue = jni::JValue::Bool(arg1 as u8);\n",
        "        let jvalue = env.call_static_method(\"com/foo/Bar\", \"getValue\", \"(IZ)J\", &[arg0, arg1])?;\n",
        "        let value = jvalue.j()?;\n",
        "        Ok(value)\n",
        "    }\n",
    ]
    .concat();
    assert_eq!(text, expected);
}

#[test]
fn instance_wrapper_text() {
    let config = Config::empty();
    let m = method(
        "in",
        false,
        vec![ArgumentType::Object("java.lang.String".to_string())],
        None,
    );
    let text = generate_method(&m, &config);
    let expected = [
        "    pub fn in_k(&self, arg0: java::lang::String) -> crate::JResult<()> {\n",
        "        let arg0: jni::JValue = arg0.into();\n",
        "        let jvalue = self.env.call_method(self.obj.inner, \"in\", \"(Ljava/lang/String;)V\", &[arg0])?;\n",
        "        Ok(())\n",
        "    }\n",
    ]
    .concat();
    assert_eq!(text, expected);
}

#[test]
fn pending_decoding_is_marked() {
    let config = Config::empty();
    let m = method("name", false, vec![], Some(ArgumentType::Object("java.lang.String".to_string())));
    let text = generate_method(&m, &config);
    assert!(text.contains("crate::pending_return_value(jvalue, \"Ljava/lang/String;\")"));
    let m = method("bytes", false, vec![ArgumentType::Array(Box::new(ArgumentType::Byte))], None);
    let text = generate_method(&m, &config);
    assert!(text.contains("crate::pending_array_argument(\"[B\", arg0)?"));
}

fn class(kind: ClassType, methods: Vec<MethodEntry>) -> ClassEntry {
    ClassEntry {
        name: "com.foo.Bar$Baz".to_string(),
        class_type: kind,
        methods,
        interfaces: vec!["java.lang.Runnable".to_string()],
    }
}

#[test]
fn class_module_text() {
    let config = Config::empty();
    let c = class(
        ClassType::Class,
        vec![method("run", false, vec![], None), method("lambda$x$1", false, vec![], None)],
    );
    let text = generate_entry(&c, &config);
    assert!(text.starts_with("pub struct Baz<'a> {\n"));
    assert!(text.contains("\"com/foo/Bar$Baz\""));
    assert!(text.contains("impl<'a> Runnable for Baz<'a> {}\n"));
    assert!(text.contains("pub fn run(&self)"));
    assert!(!text.contains("lambda"));
    assert_eq!(text.matches("    pub fn ").count(), 1);
}

#[test]
fn interface_and_annotation_text() {
    let config = Config::empty();
    let c = class(
        ClassType::Interface,
        vec![method("run", false, vec![], None), method("lambda$x$1", false, vec![], None)],
    );
    let text = generate_entry(&c, &config);
    assert!(text.starts_with("pub trait Baz {}\n\nimpl<'a> Baz for BazHandle<'a> {}\n\n"));
    assert!(text.contains("pub struct BazHandle<'a> {\n"));
    assert!(text.contains("\nimpl<'a> BazHandle<'a> {\n"));
    assert!(text.contains("pub fn run(&self)"));
    assert!(!text.contains("lambda"));
    assert_eq!(text.matches("    pub fn ").count(), 1);
    assert_eq!(generate_interface(&c), "pub trait Baz {}\n");
    let c = class(ClassType::Annotation, vec![]);
    assert_eq!(generate_entry(&c, &config), "");
}

#[test]
fn non_ascii_method_name_is_kept() {
    let config = Config::empty();
    let m = method("größeÄndern", false, vec![], None);
    assert!(generate_method(&m, &config).contains("pub fn größeÄndern(&self)"));
}

#[test]
fn output_paths_follow_renamed_names() {
    assert_eq!(output_path("com.Foo.Bar$Baz"), vec!["com", "foo", "bar_p", "Baz.rs"]);
    assert_eq!(output_path("Top"), vec!["Top.rs"]);
}

#[test]
fn one_output_file_per_class() {
    let names = ["com.foo.A", "com.foo.B", "com.foo.A$B", "com.bar.A"];
    let classes: Vec<ClassEntry> = names
        .iter()
        .map(|n| ClassEntry {
            name: n.to_string(),
            class_type: ClassType::Class,
            methods: vec![],
            interfaces: vec![],
        })
        .collect();
    let plan = plan_outputs(&classes);
    assert_eq!(plan.len(), names.len());
    for i in 0..plan.len() {
        for j in 0..plan.len() {
            if i != j {
                assert_ne!(plan[i], plan[j]);
            }
        }
    }
}

#[test]
fn class_selection() {
    assert!(in_root("com.itextpdf.Foo", "com.itextpdf."));
    assert!(!in_root("org.Foo", "com.itextpdf."));
    assert!(!is_class_resource("module-info"));
    assert!(!is_class_resource("META-INF.versions.9.Foo"));
    assert!(is_class_resource("com.foo.Bar"));
}

#[test]
fn formatted_class_entry() {
    let c = ClassEntry {
        name: "com.Foo.Bar$Baz".to_string(),
        class_type: ClassType::Class,
        methods: vec![method("getValue", true, vec![ArgumentType::Int], None)],
        interfaces: vec!["java.util.Map$Entry".to_string()],
    };
    let f = FormattedClassEntry::from_class(c);
    assert_eq!(f.name, "com.foo.bar_p.Baz");
    assert_eq!(f.interfaces, vec!["java.util.map_p.Entry".to_string()]);
    assert_eq!(f.methods.len(), 1);
    let m = &f.methods[0];
    assert_eq!(m.rust_name, "get_value");
    assert_eq!(m.java_name, "getValue");
    assert_eq!(m.jni_signature, "(I)V");
    assert_eq!(m.declaring_class_rust, "com.foo.Bar");
    assert_eq!(m.declaring_class_java, "com.foo.Bar");
    assert!(m.is_static);
}

#[test]
fn marker_impls_name_interfaces_by_simple_name() {
    let c = ClassEntry {
        name: "com.foo.Bar".to_string(),
        class_type: ClassType::Class,
        methods: vec![],
        interfaces: vec!["java.util.Map$Entry".to_string(), "com.impl.Iface".to_string()],
    };
    let text = generate_class(&c);
    assert!(text.ends_with("impl<'a> Entry for Bar<'a> {}\nimpl<'a> Iface for Bar<'a> {}\n"));
}

#[test]
fn anonymous_classes_are_skipped() {
    assert!(is_anonymous_class("com.foo.Bar$1"));
    assert!(is_anonymous_class("com.foo.Bar$Baz$12"));
    assert!(!is_anonymous_class("com.foo.Bar$Baz"));
    assert!(!is_anonymous_class("com.foo.Bar"));
    assert!(!is_anonymous_class("com.foo.V1"));
    assert!(!is_anonymous_class("com.foo.Bar$"));
    assert!(!is_anonymous_class("com.foo.Bar$1a"));
    let classes: Vec<ClassEntry> = ["a.B", "a.B$1", "a.B$C", "a.D$2"]
        .iter()
        .map(|n| ClassEntry {
            name: n.to_string(),
            class_type: ClassType::Class,
            methods: vec![],
            interfaces: vec![],
        })
        .collect();
    let kept: Vec<String> = generated_classes(classes).into_iter().map(|c| c.name).collect();
    assert_eq!(kept, vec!["a.B".to_string(), "a.B$C".to_string()]);
}
