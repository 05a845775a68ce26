//! The metadata model: classes, methods and the types that methods take and
//! return, built from what the foreign runtime reports.
use crate::typemap::{strip_descriptor_marks, strip_marks};
use vstd::prelude::*;

verus! {

/// The kind of a foreign class.
#[derive(Debug, Clone, Copy, PartialEq, Eq, Structural)]
pub enum ClassType {
    Class,
    Interface,
    Annotation,
}

/// A type that a foreign method takes or returns.
#[derive(Debug)]
pub enum ArgumentType {
    Boolean,
    Byte,
    Char,
    Short,
    Int,
    Long,
    Float,
    Double,
    /// A class, by its fully-qualified dotted name.
    Object(String),
    /// An array; one level of nesting per dimension.
    Array(Box<ArgumentType>),
}

/// A foreign method.
#[derive(Debug)]
pub struct MethodEntry {
    pub name: String,
    pub is_static: bool,
    pub arguments: Vec<ArgumentType>,
    pub return_type: Option<ArgumentType>,
    pub declaring_class: String,
}

/// A foreign class.
#[derive(Debug)]
pub struct ClassEntry {
    pub name: String,
    pub class_type: ClassType,
    pub methods: Vec<MethodEntry>,
    pub interfaces: Vec<String>,
}

/// Whether the type is one of the eight primitive kinds.
pub open spec fn is_primitive_type(t: ArgumentType) -> bool {
    !(t is Object) && !(t is Array)
}

/// The one-letter wire code of a primitive kind.
pub open spec fn primitive_letter(t: ArgumentType) -> char {
    match t {
        ArgumentType::Boolean => 'Z',
        ArgumentType::Byte => 'B',
        ArgumentType::Char => 'C',
        ArgumentType::Short => 'S',
        ArgumentType::Int => 'I',
        ArgumentType::Long => 'J',
        ArgumentType::Float => 'F',
        ArgumentType::Double => 'D',
        _ => ' ',
    }
}

/// The primitive kind that a one-letter wire code stands for.
pub open spec fn letter_type(c: char) -> Option<ArgumentType> {
    if c == 'Z' {
        Some(ArgumentType::Boolean)
    } else if c == 'B' {
        Some(ArgumentType::Byte)
    } else if c == 'C' {
        Some(ArgumentType::Char)
    } else if c == 'S' {
        Some(ArgumentType::Short)
    } else if c == 'I' {
        Some(ArgumentType::Int)
    } else if c == 'J' {
        Some(ArgumentType::Long)
    } else if c == 'F' {
        Some(ArgumentType::Float)
    } else if c == 'D' {
        Some(ArgumentType::Double)
    } else {
        None
    }
}

/// The primitive kind that a one-letter wire descriptor stands for.
pub open spec fn decode_primitive(s: Seq<char>) -> Option<ArgumentType> {
    if s.len() == 1 {
        letter_type(s[0])
    } else {
        None
    }
}

/// The primitive kind that the runtime names by `s` (`int`, `boolean`, ...).
pub open spec fn keyword_type(s: Seq<char>) -> Option<ArgumentType> {
    if s == "boolean"@ {
        Some(ArgumentType::Boolean)
    } else if s == "byte"@ {
        Some(ArgumentType::Byte)
    } else if s == "char"@ {
        Some(ArgumentType::Char)
    } else if s == "short"@ {
        Some(ArgumentType::Short)
    } else if s == "int"@ {
        Some(ArgumentType::Int)
    } else if s == "long"@ {
        Some(ArgumentType::Long)
    } else if s == "float"@ {
        Some(ArgumentType::Float)
    } else if s == "double"@ {
        Some(ArgumentType::Double)
    } else {
        None
    }
}

/// How an array element type is written inside the runtime's name of an
/// array class: `[I`, `[Ljava.lang.String;`, `[[D`.
pub open spec fn element_code(t: ArgumentType) -> Seq<char>
    decreases t,
{
    match t {
        ArgumentType::Object(n) => seq!['L'] + n@ + seq![';'],
        ArgumentType::Array(e) => seq!['['] + element_code(*e),
        _ => seq![primitive_letter(t)],
    }
}

/// Whether `d` is the element code of some type.
pub open spec fn is_element_code(d: Seq<char>) -> bool
    decreases d.len(),
{
    if d.len() == 0 {
        false
    } else if d[0] == '[' {
        is_element_code(d.drop_first())
    } else if d.len() == 1 {
        letter_type(d[0]) is Some
    } else {
        d[0] == 'L' && d.last() == ';'
    }
}

/// Whether `name` starts with the array marker `[`.
pub open spec fn is_array_name(name: Seq<char>) -> bool {
    name.len() > 0 && name[0] == '['
}

/// Whether the runtime's class name `s` describes a type: it is anything
/// but an array class name with a malformed element code.
pub open spec fn name_parses(s: Seq<char>) -> bool {
    keyword_type(s) is Some || !is_array_name(s) || is_element_code(s.drop_first())
}

/// Whether `t` is the type that the runtime's class name `s` describes.
pub open spec fn names_type(s: Seq<char>, t: ArgumentType) -> bool {
    if keyword_type(s) is Some {
        keyword_type(s) == Some(t)
    } else if is_array_name(s) {
        t is Array && element_code(t) == s
    } else {
        t matches ArgumentType::Object(n) && n@ == s
    }
}

/// Whether `r` is `t` with the element class of a one-level array stripped
/// of residual descriptor punctuation (`[Ljava.lang.String;` gives
/// `java.lang.String`); any other type is kept.
pub open spec fn normalizes(t: ArgumentType, r: ArgumentType) -> bool {
    match t {
        ArgumentType::Array(e) => match *e {
            ArgumentType::Object(n) => match r {
                ArgumentType::Array(re) => match *re {
                    ArgumentType::Object(m) => m@ == strip_marks(n@),
                    _ => false,
                },
                _ => false,
            },
            _ => r == t,
        },
        _ => r == t,
    }
}

impl ClassType {
    /// The kind of a class from what the runtime reports of it.
    pub fn new(is_interface: bool, is_annotation: bool) -> (r: Self)
        ensures
            is_interface ==> r == ClassType::Interface,
            !is_interface && is_annotation ==> r == ClassType::Annotation,
            !is_interface && !is_annotation ==> r == ClassType::Class,
    {
        if is_interface {
            ClassType::Interface
        } else if is_annotation {
            ClassType::Annotation
        } else {
            ClassType::Class
        }
    }
}

impl MethodEntry {
    /// Builds a method from what the runtime reports of it: its name,
    /// whether it is static, the class names of its parameters, the class
    /// name of its return type (`void` for none) and its declaring class.
    /// `None` where one of the class names is a malformed array name.
    pub fn new(
        name: String,
        is_static: bool,
        argument_names: Vec<String>,
        return_name: String,
        declaring_class: String,
    ) -> (r: Option<Self>)
        ensures
            r is Some <==> (forall|i: int|
                0 <= i < argument_names@.len() ==> name_parses(#[trigger] argument_names@[i]@))
                && (return_name@ != "void"@ ==> name_parses(return_name@)),
            r matches Some(m) ==> {
                &&& m.name == name
                &&& m.is_static == is_static
                &&& m.declaring_class == declaring_class
                &&& m.arguments@.len() == argument_names@.len()
                &&& forall|i: int|
                    0 <= i < argument_names@.len() ==> names_type(
                        #[trigger] argument_names@[i]@,
                        m.arguments@[i],
                    )
                &&& return_name@ == "void"@ ==> m.return_type is None
                &&& return_name@ != "void"@ ==> (m.return_type matches Some(t) && names_type(
                    return_name@,
                    t,
                ))
            },
    {
        let mut arguments: Vec<ArgumentType> = Vec::new();
        let mut i: usize = 0;
        while i < argument_names.len()
            invariant
                i <= argument_names@.len(),
                arguments@.len() == i,
                forall|j: int| 0 <= j < i ==> name_parses(#[trigger] argument_names@[j]@),
                forall|j: int| 0 <= j < i ==> names_type(#[trigger] argument_names@[j]@, arguments@[j]),
            decreases argument_names@.len() - i,
        {
            match ArgumentType::new(argument_names[i].clone()) {
                Some(t) => arguments.push(t),
                None => return None,
            }
            i = i + 1;
        }
        let return_type = if crate::text::same_text(return_name.as_str(), "void") {
            None
        } else {
            match ArgumentType::new(return_name) {
                Some(t) => Some(t),
                None => return None,
            }
        };
        Some(MethodEntry { name, is_static, arguments, return_type, declaring_class })
    }
}

impl ArgumentType {
    /// Whether this is one of the eight primitive kinds.
    pub fn is_primitive(&self) -> (r: bool)
        ensures
            r == is_primitive_type(*self),
    {
        match self {
            ArgumentType::Object(_) | ArgumentType::Array(_) => false,
            _ => true,
        }
    }

    /// Decodes a one-letter wire descriptor of a primitive kind.
    pub fn from_signature_type(i: &str) -> (r: Option<Self>)
        ensures
            r == decode_primitive(i@),
    {
        if i.unicode_len() != 1 {
            return None;
        }
        match i.get_char(0) {
            'B' => Some(ArgumentType::Byte),
            'Z' => Some(ArgumentType::Boolean),
            'J' => Some(ArgumentType::Long),
            'I' => Some(ArgumentType::Int),
            'F' => Some(ArgumentType::Float),
            'D' => Some(ArgumentType::Double),
            'S' => Some(ArgumentType::Short),
            'C' => Some(ArgumentType::Char),
            _ => None,
        }
    }

    /// Parses the element code of an array class name.
    fn parse_element(d: &str) -> (r: Option<Self>)
        ensures
            r is Some <==> is_element_code(d@),
            r matches Some(t) ==> element_code(t) == d@,
        decreases d@.len(),
    {
        let n = d.unicode_len();
        if n == 0 {
            return None;
        }
        let first = d.get_char(0);
        if first == '[' {
            let rest = d.substring_char(1, n);
            assert(rest@ =~= d@.drop_first());
            match Self::parse_element(rest) {
                Some(e) => {
                    assert(element_code(ArgumentType::Array(Box::new(e))) =~= d@);
                    Some(ArgumentType::Array(Box::new(e)))
                },
                None => None,
            }
        } else if n == 1 {
            let r = Self::from_signature_type(d);
            proof {
                if r is Some {
                    assert(element_code(r->0) =~= d@);
                }
            }
            r
        } else if first == 'L' && d.get_char(n - 1) == ';' {
            let inner = String::from_str(d.substring_char(1, n - 1));
            assert(element_code(ArgumentType::Object(inner)) =~= d@);
            Some(ArgumentType::Object(inner))
        } else {
            None
        }
    }

    /// Builds a type from the name the runtime gives its class: a primitive
    /// keyword (`int`), an array class (`[I`, `[[Ljava.lang.String;`), or
    /// any other class name. `None` where an array class name is malformed.
    pub fn new(name: String) -> (r: Option<ArgumentType>)
        ensures
            r is Some <==> name_parses(name@),
            r matches Some(t) ==> names_type(name@, t),
    {
        if let Some(t) = Self::from_keyword(name.as_str()) {
            return Some(t);
        }
        let n = name.unicode_len();
        if n > 0 && name.as_str().get_char(0) == '[' {
            let rest = name.as_str().substring_char(1, n);
            assert(rest@ =~= name@.drop_first());
            match Self::parse_element(rest) {
                Some(e) => {
                    assert(element_code(ArgumentType::Array(Box::new(e))) =~= name@);
                    Some(ArgumentType::Array(Box::new(e)))
                },
                None => None,
            }
        } else {
            Some(ArgumentType::Object(name))
        }
    }

    /// Strips residual descriptor punctuation from the element class of an
    /// array; other types are kept.
    pub fn format_to_rust(self) -> (r: Self)
        ensures
            normalizes(self, r),
    {
        match self {
            ArgumentType::Array(element) => match *element {
                ArgumentType::Object(class_fq) => {
                    let cleaned = strip_descriptor_marks(class_fq.as_str());
                    ArgumentType::Array(Box::new(ArgumentType::Object(cleaned)))
                },
                other => ArgumentType::Array(Box::new(other)),
            },
            other => other,
        }
    }

    /// The primitive kind that the runtime names by `s`.
    fn from_keyword(s: &str) -> (r: Option<Self>)
        ensures
            r == keyword_type(s@),
    {
        if crate::text::same_text(s, "boolean") {
            Some(ArgumentType::Boolean)
        } else if crate::text::same_text(s, "byte") {
            Some(ArgumentType::Byte)
        } else if crate::text::same_text(s, "char") {
            Some(ArgumentType::Char)
        } else if crate::text::same_text(s, "short") {
            Some(ArgumentType::Short)
        } else if crate::text::same_text(s, "int") {
            Some(ArgumentType::Int)
        } else if crate::text::same_text(s, "long") {
            Some(ArgumentType::Long)
        } else if crate::text::same_text(s, "float") {
            Some(ArgumentType::Float)
        } else if crate::text::same_text(s, "double") {
            Some(ArgumentType::Double)
        } else {
            None
        }
    }
}

} // verus!
