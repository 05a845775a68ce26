//! Rust type expressions for foreign types, with operator overrides.
use crate::config::{Config, Mapping};
use crate::model::ArgumentType;
use crate::naming::{rename, rename_class_fq};
use crate::text::{replace_char, replace_text};
use vstd::prelude::*;

verus! {

/// An element code with its array markers and `L...;` wrapper removed:
/// `[[Ljava.lang.String;` gives `java.lang.String`.
pub open spec fn unwrap_element(d: Seq<char>) -> Seq<char>
    decreases d.len(),
{
    if d.len() > 0 && d[0] == '[' {
        unwrap_element(d.drop_first())
    } else if d.len() >= 2 && d[0] == 'L' && d.last() == ';' {
        d.subrange(1, d.len() - 1)
    } else {
        d
    }
}

/// A class name with residual descriptor punctuation removed; a name that
/// does not start with `[` is kept.
pub open spec fn strip_marks(n: Seq<char>) -> Seq<char> {
    if n.len() > 0 && n[0] == '[' {
        unwrap_element(n)
    } else {
        n
    }
}

/// The canonical Rust path of a foreign class: `com.foo.Bar$Baz` gives
/// `com::foo::bar_p::Baz`.
pub open spec fn type_path(n: Seq<char>) -> Seq<char> {
    replace_char(rename(strip_marks(n)), '.', "::"@)
}

/// The Rust type used for a foreign class: the override stored for its
/// canonical path, else that path.
pub open spec fn resolve(n: Seq<char>, m: Mapping) -> Seq<char> {
    match m.spec_get(type_path(n)) {
        Some(v) => v,
        None => type_path(n),
    }
}

/// The Rust type expression of a foreign type.
pub open spec fn rust_type(t: ArgumentType, m: Mapping) -> Seq<char>
    decreases t,
{
    match t {
        ArgumentType::Int => "i32"@,
        ArgumentType::Byte => "u8"@,
        ArgumentType::Double => "f64"@,
        ArgumentType::Float => "f32"@,
        ArgumentType::Short => "i16"@,
        ArgumentType::Char => "u16"@,
        ArgumentType::Boolean => "bool"@,
        ArgumentType::Long => "i64"@,
        ArgumentType::Object(n) => resolve(n@, m),
        ArgumentType::Array(e) => "Vec<"@ + rust_type(*e, m) + ">"@,
    }
}

/// An override in the table takes precedence: where the canonical path of
/// a class is stored in the table, its type text is the stored value
/// exactly; where it is not, the type text is the canonical path.
pub proof fn lemma_mapping_override(n: String, config: Config)
    ensures
        config.generator.mappings.spec_get(type_path(n@)) matches Some(v) ==> rust_type(
            ArgumentType::Object(n),
            config.generator.mappings,
        ) == v,
        config.generator.mappings.spec_get(type_path(n@)) is None ==> rust_type(
            ArgumentType::Object(n),
            config.generator.mappings,
        ) == type_path(n@),
{
}

/// Removes residual descriptor punctuation from a class name.
pub(crate) fn strip_descriptor_marks(name: &str) -> (r: String)
    ensures
        r@ == strip_marks(name@),
{
    let n = name.unicode_len();
    if n == 0 || name.get_char(0) != '[' {
        return String::from_str(name);
    }
    let mut i: usize = 0;
    assert(name@.subrange(0, n as int) =~= name@);
    while i < n && name.get_char(i) == '['
        invariant
            n == name@.len(),
            i <= n,
            unwrap_element(name@) == unwrap_element(name@.subrange(i as int, n as int)),
        decreases n - i,
    {
        assert(name@.subrange(i as int, n as int).drop_first() =~= name@.subrange(i + 1, n as int));
        i = i + 1;
    }
    let rest = name.substring_char(i, n);
    let m = n - i;
    if m >= 2 && rest.get_char(0) == 'L' && rest.get_char(m - 1) == ';' {
        String::from_str(rest.substring_char(1, m - 1))
    } else {
        String::from_str(rest)
    }
}

/// The canonical Rust path of a foreign class.
pub fn rust_type_path(class_fq: &str) -> (r: String)
    ensures
        r@ == type_path(class_fq@),
{
    let cleaned = strip_descriptor_marks(class_fq);
    let renamed = rename_class_fq(cleaned.as_str());
    replace_text(renamed.as_str(), '.', "::")
}

impl ArgumentType {
    /// The Rust type expression of this type; classes go through the
    /// configured overrides.
    pub fn to_rust_type(&self, config: &Config) -> (r: String)
        ensures
            r@ == rust_type(*self, config.generator.mappings),
        decreases self,
    {
        match self {
            ArgumentType::Int => String::from_str("i32"),
            ArgumentType::Byte => String::from_str("u8"),
            ArgumentType::Double => String::from_str("f64"),
            ArgumentType::Float => String::from_str("f32"),
            ArgumentType::Short => String::from_str("i16"),
            ArgumentType::Char => String::from_str("u16"),
            ArgumentType::Boolean => String::from_str("bool"),
            ArgumentType::Long => String::from_str("i64"),
            ArgumentType::Object(class_fq) => {
                let type_path = rust_type_path(class_fq.as_str());
                match config.generator.mappings.get(type_path.as_str()) {
                    Some(mapped) => mapped,
                    None => type_path,
                }
            },
            ArgumentType::Array(element) => {
                let mut r = String::from_str("Vec<");
                let inner = element.to_rust_type(config);
                r.append(inner.as_str());
                r.append(">");
                r
            },
        }
    }
}

} // verus!
