//! Source text of the bindings: a handle type per class, a marker trait per
//! interface, and one wrapper function per method that calls through the
//! bridge with the method's wire descriptor.
use crate::config::{Config, Mapping};
use crate::model::{ArgumentType, ClassEntry, ClassType, MethodEntry};
use crate::naming::{escape, escape_keywords, rename, rename_class_fq, snake_case, to_snake};
use crate::signature::{descriptor, generate_signature, argument_type_to_signature, method_descriptor};
use crate::text::{all_ascii, contains_char, contains_text, has_infix, replace_char, replace_text, split, split_text};
use crate::typemap::rust_type;
use vstd::prelude::*;

verus! {

/// The decimal digits of `n`.
pub open spec fn decimal(n: nat) -> Seq<char>
    decreases n,
{
    if n < 10 {
        seq!["0123456789"@[n as int]]
    } else {
        decimal(n / 10) + seq!["0123456789"@[(n % 10) as int]]
    }
}

/// The decimal text of `n`.
pub fn decimal_text(n: usize) -> (r: String)
    ensures
        r@ == decimal(n as nat),
    decreases n,
{
    proof {
        reveal_strlit("0123456789");
    }
    let digits = "0123456789";
    if n < 10 {
        let r = String::from_str(digits.substring_char(n, n + 1));
        assert(r@ =~= decimal(n as nat));
        r
    } else {
        let mut r = decimal_text(n / 10);
        r.append(digits.substring_char(n % 10, n % 10 + 1));
        assert(r@ =~= decimal(n as nat));
        r
    }
}

/// The name of the `i`-th parameter of a wrapper: `arg0`, `arg1`, ...
pub open spec fn arg_name(i: nat) -> Seq<char> {
    "arg"@ + decimal(i)
}

/// The parameter declarations of a wrapper, each led by `, `.
pub open spec fn arg_decls(args: Seq<ArgumentType>, m: Mapping) -> Seq<char>
    decreases args.len(),
{
    if args.len() == 0 {
        Seq::<char>::empty()
    } else {
        arg_decls(args.drop_last(), m) + ", "@ + arg_name((args.len() - 1) as nat) + ": "@
            + rust_type(args.last(), m)
    }
}

/// The text before the parameter name in the expression that turns a
/// parameter into a wire value.
pub open spec fn marshal_prefix(t: ArgumentType) -> Seq<char> {
    match t {
        ArgumentType::Boolean => "jni::JValue::Bool("@,
        ArgumentType::Byte => "jni::JValue::Byte("@,
        ArgumentType::Char => "jni::JValue::Char("@,
        ArgumentType::Short => "jni::JValue::Short("@,
        ArgumentType::Int => "jni::JValue::Int("@,
        ArgumentType::Long => "jni::JValue::Long("@,
        ArgumentType::Float => "jni::JValue::Float("@,
        ArgumentType::Double => "jni::JValue::Double("@,
        ArgumentType::Object(_) => Seq::<char>::empty(),
        ArgumentType::Array(_) => "crate::pending_array_argument(\""@ + descriptor(t) + "\", "@,
    }
}

/// The text after the parameter name in the expression that turns a
/// parameter into a wire value.
pub open spec fn marshal_suffix(t: ArgumentType) -> Seq<char> {
    match t {
        ArgumentType::Boolean => " as u8)"@,
        ArgumentType::Byte => " as i8)"@,
        ArgumentType::Object(_) => ".into()"@,
        ArgumentType::Array(_) => ")?"@,
        _ => ")"@,
    }
}

/// The statement that turns the `i`-th parameter into a wire value.
pub open spec fn marshal_line(i: nat, t: ArgumentType) -> Seq<char> {
    "        let "@ + arg_name(i) + ": jni::JValue = "@ + marshal_prefix(t) + arg_name(i)
        + marshal_suffix(t) + ";\n"@
}

/// The statements that turn all parameters into wire values.
pub open spec fn marshal_lines(args: Seq<ArgumentType>) -> Seq<char>
    decreases args.len(),
{
    if args.len() == 0 {
        Seq::<char>::empty()
    } else {
        marshal_lines(args.drop_last()) + marshal_line((args.len() - 1) as nat, args.last())
    }
}

/// The first `k` parameter names, separated by `, `.
pub open spec fn arg_list(k: nat) -> Seq<char>
    decreases k,
{
    if k == 0 {
        Seq::<char>::empty()
    } else if k == 1 {
        arg_name(0)
    } else {
        arg_list((k - 1) as nat) + ", "@ + arg_name((k - 1) as nat)
    }
}

/// The wire values handed to the bridge: `&[arg0, arg1]`.
pub open spec fn value_array(n: nat) -> Seq<char> {
    "&["@ + arg_list(n) + "]"@
}

/// `argI` for the `i`-th parameter.
fn arg_name_text(i: usize) -> (r: String)
    ensures
        r@ == arg_name(i as nat),
{
    let mut r = String::from_str("arg");
    let d = decimal_text(i);
    r.append(d.as_str());
    r
}

/// The parameter declarations of a wrapper.
fn generate_rust_arguments(args: &Vec<ArgumentType>, config: &Config) -> (r: String)
    ensures
        r@ == arg_decls(args@, config.generator.mappings),
{
    let mut r = String::new();
    let mut i: usize = 0;
    while i < args.len()
        invariant
            i <= args@.len(),
            r@ == arg_decls(args@.take(i as int), config.generator.mappings),
        decreases args@.len() - i,
    {
        let ghost before = r@;
        r.append(", ");
        let name = arg_name_text(i);
        r.append(name.as_str());
        r.append(": ");
        let ty = args[i].to_rust_type(config);
        r.append(ty.as_str());
        let ghost next = args@.take(i + 1);
        assert(next.drop_last() =~= args@.take(i as int));
        assert(r@ =~= arg_decls(next, config.generator.mappings));
        i = i + 1;
    }
    assert(args@.take(i as int) =~= args@);
    r
}

/// The statement that turns the `i`-th parameter into a wire value.
fn generate_marshal_line(i: usize, t: &ArgumentType) -> (r: String)
    ensures
        r@ == marshal_line(i as nat, *t),
{
    let name = arg_name_text(i);
    let mut r = String::from_str("        let ");
    r.append(name.as_str());
    r.append(": jni::JValue = ");
    match t {
        ArgumentType::Boolean => r.append("jni::JValue::Bool("),
        ArgumentType::Byte => r.append("jni::JValue::Byte("),
        ArgumentType::Char => r.append("jni::JValue::Char("),
        ArgumentType::Short => r.append("jni::JValue::Short("),
        ArgumentType::Int => r.append("jni::JValue::Int("),
        ArgumentType::Long => r.append("jni::JValue::Long("),
        ArgumentType::Float => r.append("jni::JValue::Float("),
        ArgumentType::Double => r.append("jni::JValue::Double("),
        ArgumentType::Object(_) => {},
        ArgumentType::Array(_) => {
            r.append("crate::pending_array_argument(\"");
            let d = argument_type_to_signature(t);
            r.append(d.as_str());
            r.append("\", ");
        },
    }
    r.append(name.as_str());
    match t {
        ArgumentType::Boolean => r.append(" as u8)"),
        ArgumentType::Byte => r.append(" as i8)"),
        ArgumentType::Object(_) => r.append(".into()"),
        ArgumentType::Array(_) => r.append(")?"),
        _ => r.append(")"),
    }
    r.append(";\n");
    assert(r@ =~= marshal_line(i as nat, *t));
    r
}

/// The statements that turn all parameters of a wrapper into wire values.
fn generate_jvalue_arguments(args: &Vec<ArgumentType>) -> (r: String)
    ensures
        r@ == marshal_lines(args@),
{
    let mut r = String::new();
    let mut i: usize = 0;
    while i < args.len()
        invariant
            i <= args@.len(),
            r@ == marshal_lines(args@.take(i as int)),
        decreases args@.len() - i,
    {
        let line = generate_marshal_line(i, &args[i]);
        r.append(line.as_str());
        let ghost next = args@.take(i + 1);
        assert(next.drop_last() =~= args@.take(i as int));
        i = i + 1;
    }
    assert(args@.take(i as int) =~= args@);
    r
}

/// The wire values handed to the bridge: `&[arg0, arg1]`.
fn generate_jvalue_array(n: usize) -> (r: String)
    ensures
        r@ == value_array(n as nat),
{
    let mut list = String::new();
    let mut i: usize = 0;
    while i < n
        invariant
            i <= n,
            list@ == arg_list(i as nat),
        decreases n - i,
    {
        if i > 0 {
            list.append(", ");
        }
        let name = arg_name_text(i);
        list.append(name.as_str());
        i = i + 1;
        assert(list@ =~= arg_list(i as nat));
    }
    let mut r = String::from_str("&[");
    r.append(list.as_str());
    r.append("]");
    r
}

/// The name of the bridge accessor that reads a primitive wire value.
pub open spec fn getter(t: ArgumentType) -> Seq<char> {
    match t {
        ArgumentType::Boolean => "z"@,
        ArgumentType::Byte => "b"@,
        ArgumentType::Char => "c"@,
        ArgumentType::Short => "s"@,
        ArgumentType::Int => "i"@,
        ArgumentType::Long => "j"@,
        ArgumentType::Float => "f"@,
        _ => "d"@,
    }
}

/// The statements that decode the wire value `jvalue` into the result of
/// a wrapper. Decoding of class and array values is left to a function of
/// the generated crate that reports it as pending.
pub open spec fn return_handler(ret: Option<ArgumentType>) -> Seq<char> {
    match ret {
        None => "        Ok(())\n"@,
        Some(t) => match t {
            ArgumentType::Object(_) => "        crate::pending_return_value(jvalue, \""@
                + descriptor(t) + "\")\n"@,
            ArgumentType::Array(_) => "        crate::pending_return_value(jvalue, \""@
                + descriptor(t) + "\")\n"@,
            ArgumentType::Byte => "        let value = jvalue.b()? as u8;\n        Ok(value)\n"@,
            _ => "        let value = jvalue."@ + getter(t) + "()?;\n        Ok(value)\n"@,
        },
    }
}

/// The result type of a wrapper.
pub open spec fn return_type_text(ret: Option<ArgumentType>, m: Mapping) -> Seq<char> {
    match ret {
        None => "crate::JResult<()>"@,
        Some(t) => "crate::JResult<"@ + rust_type(t, m) + ">"@,
    }
}

/// The Rust name of a method's wrapper: put in snake case (where it is
/// ASCII), then escaped.
pub open spec fn wrapper_name(name: Seq<char>) -> Seq<char> {
    escape(snake_case(name))
}

/// A class type whose name marks a compiler-generated lambda class.
pub open spec fn is_lambda_class(t: ArgumentType) -> bool {
    t matches ArgumentType::Object(n) && has_infix(n@, "lambda$"@)
}

/// A method that the compiler generated (a lambda body, an accessor): its
/// name holds `$`, or one of its class parameters is a lambda class.
pub open spec fn is_synthetic(m: MethodEntry) -> bool {
    m.name@.contains('$') || exists|i: int|
        0 <= i < m.arguments@.len() && is_lambda_class(#[trigger] m.arguments@[i])
}

/// The line of a wrapper that calls through the bridge.
pub open spec fn call_line(m: MethodEntry) -> Seq<char> {
    let call_args = ", \""@ + m.name@ + "\", \""@ + method_descriptor(m.arguments@, m.return_type)
        + "\", "@ + value_array(m.arguments@.len()) + ")?;\n"@;
    if m.is_static {
        "        let jvalue = env.call_static_method(\""@ + replace_char(
            m.declaring_class@,
            '.',
            "/"@,
        ) + "\""@ + call_args
    } else {
        "        let jvalue = self.env.call_method(self.obj.inner"@ + call_args
    }
}

/// The first line of a wrapper, up to its opening brace.
pub open spec fn wrapper_head(m: MethodEntry, c: Mapping) -> Seq<char> {
    "    pub fn "@ + wrapper_name(m.name@) + (if m.is_static {
        "(env: &'a jni::JNIEnv<'a>"@
    } else {
        "(&self"@
    }) + arg_decls(m.arguments@, c) + ") -> "@ + return_type_text(m.return_type, c) + " {\n"@
}

/// The wrapper function of a method; nothing for a synthetic method.
pub open spec fn wrapper_text(m: MethodEntry, c: Mapping) -> Seq<char> {
    if is_synthetic(m) {
        Seq::<char>::empty()
    } else {
        wrapper_head(m, c) + marshal_lines(m.arguments@) + call_line(m) + return_handler(
            m.return_type,
        ) + "    }\n"@
    }
}

/// The statements that decode the wire value into a wrapper's result.
fn generate_return_handler(ret: &Option<ArgumentType>) -> (r: String)
    ensures
        r@ == return_handler(*ret),
{
    match ret {
        None => String::from_str("        Ok(())\n"),
        Some(t) => match t {
            ArgumentType::Object(_) | ArgumentType::Array(_) => {
                let mut r = String::from_str("        crate::pending_return_value(jvalue, \"");
                let d = argument_type_to_signature(t);
                r.append(d.as_str());
                r.append("\")\n");
                r
            },
            ArgumentType::Byte => String::from_str(
                "        let value = jvalue.b()? as u8;\n        Ok(value)\n",
            ),
            _ => {
                let mut r = String::from_str("        let value = jvalue.");
                match t {
                    ArgumentType::Boolean => r.append("z"),
                    ArgumentType::Char => r.append("c"),
                    ArgumentType::Short => r.append("s"),
                    ArgumentType::Int => r.append("i"),
                    ArgumentType::Long => r.append("j"),
                    ArgumentType::Float => r.append("f"),
                    _ => r.append("d"),
                }
                r.append("()?;\n        Ok(value)\n");
                r
            },
        },
    }
}

/// The result type of a wrapper.
fn generate_return_type(ret: &Option<ArgumentType>, config: &Config) -> (r: String)
    ensures
        r@ == return_type_text(*ret, config.generator.mappings),
{
    match ret {
        None => String::from_str("crate::JResult<()>"),
        Some(t) => {
            let mut r = String::from_str("crate::JResult<");
            let ty = t.to_rust_type(config);
            r.append(ty.as_str());
            r.append(">");
            r
        },
    }
}

/// The Rust name of a method's wrapper.
pub(crate) fn generate_wrapper_name(name: &str) -> (r: String)
    ensures
        r@ == wrapper_name(name@),
{
    let name_snake = if all_ascii(name) {
        to_snake(name)
    } else {
        String::from_str(name)
    };
    String::from_str(escape_keywords(name_snake.as_str()))
}

/// Whether a method was generated by the compiler and gets no wrapper.
pub fn is_synthetic_method(method: &MethodEntry) -> (r: bool)
    ensures
        r == is_synthetic(*method),
{
    if contains_char(method.name.as_str(), '$') {
        return true;
    }
    let mut i: usize = 0;
    while i < method.arguments.len()
        invariant
            !method.name@.contains('$'),
            i <= method.arguments@.len(),
            forall|j: int|
                0 <= j < i ==> !is_lambda_class(#[trigger] method.arguments@[j]),
        decreases method.arguments@.len() - i,
    {
        match &method.arguments[i] {
            ArgumentType::Object(object) => {
                if contains_text(object.as_str(), "lambda$") {
                    return true;
                }
            },
            _ => {},
        }
        i = i + 1;
    }
    false
}

/// The line of a wrapper that calls through the bridge.
fn generate_call(method: &MethodEntry) -> (r: String)
    ensures
        r@ == call_line(*method),
{
    let mut tail = String::from_str(", \"");
    tail.append(method.name.as_str());
    tail.append("\", \"");
    let signature = generate_signature(method);
    tail.append(signature.as_str());
    tail.append("\", ");
    let values = generate_jvalue_array(method.arguments.len());
    tail.append(values.as_str());
    tail.append(")?;\n");
    assert(tail@ =~= ", \""@ + method.name@ + "\", \""@ + method_descriptor(
        method.arguments@,
        method.return_type,
    ) + "\", "@ + value_array(method.arguments@.len()) + ")?;\n"@);
    let mut r = if method.is_static {
        let mut r = String::from_str("        let jvalue = env.call_static_method(\"");
        let class_name = replace_text(method.declaring_class.as_str(), '.', "/");
        r.append(class_name.as_str());
        r.append("\"");
        r
    } else {
        String::from_str("        let jvalue = self.env.call_method(self.obj.inner")
    };
    r.append(tail.as_str());
    r
}

/// The wrapper function of a method, which calls it through the bridge;
/// empty for a synthetic method.
pub fn generate_method(method: &MethodEntry, config: &Config) -> (r: String)
    ensures
        r@ == wrapper_text(*method, config.generator.mappings),
{
    if is_synthetic_method(method) {
        return String::new();
    }
    let mut r = String::from_str("    pub fn ");
    let name = generate_wrapper_name(method.name.as_str());
    r.append(name.as_str());
    if method.is_static {
        r.append("(env: &'a jni::JNIEnv<'a>");
    } else {
        r.append("(&self");
    }
    let arguments = generate_rust_arguments(&method.arguments, config);
    r.append(arguments.as_str());
    r.append(") -> ");
    let return_type = generate_return_type(&method.return_type, config);
    r.append(return_type.as_str());
    r.append(" {\n");
    let jvalues = generate_jvalue_arguments(&method.arguments);
    r.append(jvalues.as_str());
    let call = generate_call(method);
    r.append(call.as_str());
    let handler = generate_return_handler(&method.return_type);
    r.append(handler.as_str());
    r.append("    }\n");
    assert(r@ =~= wrapper_text(*method, config.generator.mappings));
    r
}

/// The wrappers of a list of methods, one after another.
pub open spec fn methods_text(ms: Seq<MethodEntry>, c: Mapping) -> Seq<char>
    decreases ms.len(),
{
    if ms.len() == 0 {
        Seq::<char>::empty()
    } else {
        methods_text(ms.drop_last(), c) + wrapper_text(ms.last(), c)
    }
}

/// Synthetic methods leave no trace in the output: the wrappers of a list
/// of methods are those of its methods that are not synthetic.
pub proof fn lemma_synthetic_methods_omitted(ms: Seq<MethodEntry>, c: Mapping)
    ensures
        methods_text(ms, c) == methods_text(ms.filter(|m: MethodEntry| !is_synthetic(m)), c),
    decreases ms.len(),
{
    reveal(Seq::filter);
    if ms.len() > 0 {
        lemma_synthetic_methods_omitted(ms.drop_last(), c);
        let f = ms.drop_last().filter(|m: MethodEntry| !is_synthetic(m));
        if !is_synthetic(ms.last()) {
            assert(f.push(ms.last()).drop_last() =~= f);
        }
    }
}

/// The simple name of the handle type of a class: the last segment of its
/// renamed name.
pub open spec fn class_ident(name: Seq<char>) -> Seq<char> {
    split(rename(name), '.').last()
}

/// The handle type of a class: a reference to the bridge and the object.
pub open spec fn struct_text(id: Seq<char>) -> Seq<char> {
    "pub struct "@ + id
        + "<'a> {\n    env: &'a jni::JNIEnv<'a>,\n    obj: ejni::Object<'a>,\n}\n\n"@
}

/// The impls that give a handle type its class path, a constructor from a
/// raw object, and a conversion into a wire value.
pub open spec fn struct_impls_text(id: Seq<char>, class_path: Seq<char>) -> Seq<char> {
    "impl<'a> crate::ClassName for "@ + id
        + "<'a> {\n    fn class_name() -> &'static str {\n        \""@ + class_path
        + "\"\n    }\n}\n\nimpl<'a> crate::FromRaw<'a> for "@ + id
        + "<'a> {\n    fn from_raw(env: &'a jni::JNIEnv<'a>, obj: ejni::Object<'a>) -> Self {\n        Self { env, obj }\n    }\n}\n\nimpl<'a> Into<jni::JValue<'a>> for "@
        + id
        + "<'a> {\n    fn into(self) -> jni::JValue<'a> {\n        self.obj.into()\n    }\n}\n\n"@
}

/// The marker impls of the interfaces that a class implements.
pub open spec fn interface_impls_text(id: Seq<char>, ifaces: Seq<String>) -> Seq<char>
    decreases ifaces.len(),
{
    if ifaces.len() == 0 {
        Seq::<char>::empty()
    } else {
        interface_impls_text(id, ifaces.drop_last()) + "impl<'a> "@ + class_ident(ifaces.last()@)
            + " for "@ + id + "<'a> {}\n"@
    }
}

/// The handle type `id` of a class with its impls, the marker impls of the
/// class's interfaces, and the wrappers of its methods.
pub open spec fn handle_text(id: Seq<char>, class: ClassEntry, c: Mapping) -> Seq<char> {
    struct_text(id) + struct_impls_text(id, replace_char(class.name@, '.', "/"@))
        + interface_impls_text(id, class.interfaces@) + "\nimpl<'a> "@ + id + "<'a> {\n"@
        + methods_text(class.methods@, c) + "}\n"@
}

/// The name of the handle type of an interface `id`, whose own name is
/// taken by its marker trait.
pub open spec fn interface_handle(id: Seq<char>) -> Seq<char> {
    id + "Handle"@
}

/// The generated module of a class: for a class, its handle type with the
/// marker impls and wrappers; for an interface, its member-less marker trait
/// and a handle type that carries the trait and the wrappers; for an
/// annotation, nothing.
pub open spec fn entry_text(class: ClassEntry, c: Mapping) -> Seq<char> {
    let id = class_ident(class.name@);
    match class.class_type {
        ClassType::Class => handle_text(id, class, c),
        ClassType::Interface => "pub trait "@ + id + " {}\n\nimpl<'a> "@ + id + " for "@
            + interface_handle(id) + "<'a> {}\n\n"@ + handle_text(interface_handle(id), class, c),
        ClassType::Annotation => Seq::<char>::empty(),
    }
}

/// The simple name of the handle type of a class.
fn generate_class_ident(name: &str) -> (r: String)
    ensures
        r@ == class_ident(name@),
{
    let renamed = rename_class_fq(name);
    let mut parts = split_text(renamed.as_str(), '.');
    let ghost all = parts@;
    match parts.pop() {
        Some(last) => {
            assert(last@ == crate::text::views(all).last());
            last
        },
        None => String::new(),
    }
}

/// The handle type of a class.
fn generate_struct(id: &str) -> (r: String)
    ensures
        r@ == struct_text(id@),
{
    let mut r = String::from_str("pub struct ");
    r.append(id);
    r.append("<'a> {\n    env: &'a jni::JNIEnv<'a>,\n    obj: ejni::Object<'a>,\n}\n\n");
    r
}

/// The impls of a handle type.
fn generate_struct_trait_impls(id: &str, class_path: &str) -> (r: String)
    ensures
        r@ == struct_impls_text(id@, class_path@),
{
    let mut r = String::from_str("impl<'a> crate::ClassName for ");
    r.append(id);
    r.append("<'a> {\n    fn class_name() -> &'static str {\n        \"");
    r.append(class_path);
    r.append("\"\n    }\n}\n\nimpl<'a> crate::FromRaw<'a> for ");
    r.append(id);
    r.append(
        "<'a> {\n    fn from_raw(env: &'a jni::JNIEnv<'a>, obj: ejni::Object<'a>) -> Self {\n        Self { env, obj }\n    }\n}\n\nimpl<'a> Into<jni::JValue<'a>> for ",
    );
    r.append(id);
    r.append("<'a> {\n    fn into(self) -> jni::JValue<'a> {\n        self.obj.into()\n    }\n}\n\n");
    assert(r@ =~= struct_impls_text(id@, class_path@));
    r
}

/// The marker impl of one interface, named by the simple name of its
/// marker trait.
fn generate_interface_impl(id: &str, interface: &str) -> (r: String)
    ensures
        r@ == "impl<'a> "@ + class_ident(interface@) + " for "@ + id@ + "<'a> {}\n"@,
{
    let mut r = String::from_str("impl<'a> ");
    let name = generate_class_ident(interface);
    r.append(name.as_str());
    r.append(" for ");
    r.append(id);
    r.append("<'a> {}\n");
    r
}

/// The member-less marker trait of an interface.
pub fn generate_interface(class: &ClassEntry) -> (r: String)
    ensures
        r@ == "pub trait "@ + class_ident(class.name@) + " {}\n"@,
{
    let id = generate_class_ident(class.name.as_str());
    let mut r = String::from_str("pub trait ");
    r.append(id.as_str());
    r.append(" {}\n");
    r
}

/// The wrappers of a list of methods.
fn generate_methods(methods: &Vec<MethodEntry>, config: &Config) -> (r: String)
    ensures
        r@ == methods_text(methods@, config.generator.mappings),
{
    let mut r = String::new();
    let mut i: usize = 0;
    while i < methods.len()
        invariant
            i <= methods@.len(),
            r@ == methods_text(methods@.take(i as int), config.generator.mappings),
        decreases methods@.len() - i,
    {
        let w = generate_method(&methods[i], config);
        r.append(w.as_str());
        let ghost next = methods@.take(i + 1);
        assert(next.drop_last() =~= methods@.take(i as int));
        i = i + 1;
    }
    assert(methods@.take(i as int) =~= methods@);
    r
}

/// The handle type `id` of a class with its impls and the marker impls of
/// its interfaces.
fn generate_handle_decls(class: &ClassEntry, id: &str) -> (r: String)
    ensures
        r@ == struct_text(id@) + struct_impls_text(id@, replace_char(class.name@, '.', "/"@))
            + interface_impls_text(id@, class.interfaces@),
{
    let mut r = generate_struct(id);
    let class_path = replace_text(class.name.as_str(), '.', "/");
    let impls = generate_struct_trait_impls(id, class_path.as_str());
    r.append(impls.as_str());
    let ghost head = r@;
    let mut i: usize = 0;
    while i < class.interfaces.len()
        invariant
            i <= class.interfaces@.len(),
            r@ == head + interface_impls_text(id@, class.interfaces@.take(i as int)),
        decreases class.interfaces@.len() - i,
    {
        let one = generate_interface_impl(id, class.interfaces[i].as_str());
        r.append(one.as_str());
        let ghost next = class.interfaces@.take(i + 1);
        assert(next.drop_last() =~= class.interfaces@.take(i as int));
        assert(r@ =~= head + interface_impls_text(id@, next));
        i = i + 1;
    }
    assert(class.interfaces@.take(i as int) =~= class.interfaces@);
    r
}

/// The handle type `id` of a class with everything that belongs to it.
fn generate_handle(class: &ClassEntry, id: &str, config: &Config) -> (r: String)
    ensures
        r@ == handle_text(id@, *class, config.generator.mappings),
{
    let mut r = generate_handle_decls(class, id);
    r.append("\nimpl<'a> ");
    r.append(id);
    r.append("<'a> {\n");
    let methods = generate_methods(&class.methods, config);
    r.append(methods.as_str());
    r.append("}\n");
    assert(r@ =~= handle_text(id@, *class, config.generator.mappings));
    r
}

/// The handle type of a class with its impls and the marker impls of its
/// interfaces.
pub fn generate_class(class: &ClassEntry) -> (r: String)
    ensures
        r@ == struct_text(class_ident(class.name@)) + struct_impls_text(
            class_ident(class.name@),
            replace_char(class.name@, '.', "/"@),
        ) + interface_impls_text(class_ident(class.name@), class.interfaces@),
{
    let id = generate_class_ident(class.name.as_str());
    generate_handle_decls(class, id.as_str())
}

/// The generated module of a class.
pub fn generate_entry(class: &ClassEntry, config: &Config) -> (r: String)
    ensures
        r@ == entry_text(*class, config.generator.mappings),
{
    match class.class_type {
        ClassType::Class => {
            let id = generate_class_ident(class.name.as_str());
            generate_handle(class, id.as_str(), config)
        },
        ClassType::Interface => {
            let id = generate_class_ident(class.name.as_str());
            let mut handle = id.clone();
            handle.append("Handle");
            let mut r = String::from_str("pub trait ");
            r.append(id.as_str());
            r.append(" {}\n\nimpl<'a> ");
            r.append(id.as_str());
            r.append(" for ");
            r.append(handle.as_str());
            r.append("<'a> {}\n\n");
            let body = generate_handle(class, handle.as_str(), config);
            r.append(body.as_str());
            assert(r@ =~= entry_text(*class, config.generator.mappings));
            r
        },
        ClassType::Annotation => String::new(),
    }
}

} // verus!
