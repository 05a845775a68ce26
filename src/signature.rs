//! Wire descriptors of types and methods, as the foreign runtime's call
//! bridge looks methods up by them.
use crate::model::{
    decode_primitive, is_primitive_type, primitive_letter, ArgumentType, MethodEntry,
};
use crate::text::{replace_char, replace_text};
use vstd::prelude::*;

verus! {

/// The wire descriptor of a type: `I`, `Ljava/lang/String;`, `[[I`.
pub open spec fn descriptor(t: ArgumentType) -> Seq<char>
    decreases t,
{
    match t {
        ArgumentType::Object(n) => seq!['L'] + replace_char(n@, '.', seq!['/']) + seq![';'],
        ArgumentType::Array(e) => seq!['['] + descriptor(*e),
        _ => seq![primitive_letter(t)],
    }
}

/// The descriptors of a list of types, one after another.
pub open spec fn descriptors(ts: Seq<ArgumentType>) -> Seq<char>
    decreases ts.len(),
{
    if ts.len() == 0 {
        Seq::<char>::empty()
    } else {
        descriptors(ts.drop_last()) + descriptor(ts.last())
    }
}

/// The wire descriptor of a method: `(` argument descriptors `)` and the
/// return descriptor, `V` where nothing is returned.
pub open spec fn method_descriptor(args: Seq<ArgumentType>, ret: Option<ArgumentType>) -> Seq<
    char,
> {
    seq!['('] + descriptors(args) + seq![')'] + match ret {
        Some(t) => descriptor(t),
        None => seq!['V'],
    }
}

/// Every primitive kind encodes to its one-letter descriptor and decodes
/// back to the same kind.
pub proof fn lemma_primitive_descriptor_round_trip(t: ArgumentType)
    requires
        is_primitive_type(t),
    ensures
        descriptor(t).len() == 1,
        decode_primitive(descriptor(t)) == Some(t),
{
    assert(descriptor(t) == seq![primitive_letter(t)]);
}

impl ArgumentType {
    /// The one-letter descriptor of a primitive kind.
    pub fn primitive_to_jni_signature(&self) -> (r: String)
        requires
            is_primitive_type(*self),
        ensures
            r@ == descriptor(*self),
    {
        proof {
            reveal_strlit("I");
            reveal_strlit("B");
            reveal_strlit("D");
            reveal_strlit("F");
            reveal_strlit("S");
            reveal_strlit("C");
            reveal_strlit("Z");
            reveal_strlit("J");
        }
        let r = match self {
            ArgumentType::Int => String::from_str("I"),
            ArgumentType::Byte => String::from_str("B"),
            ArgumentType::Double => String::from_str("D"),
            ArgumentType::Float => String::from_str("F"),
            ArgumentType::Short => String::from_str("S"),
            ArgumentType::Char => String::from_str("C"),
            ArgumentType::Boolean => String::from_str("Z"),
            _ => String::from_str("J"),
        };
        assert(r@ =~= descriptor(*self));
        r
    }

    /// The descriptors of the given types, one after another.
    pub fn to_jni_signature(this: &[Self]) -> (r: String)
        ensures
            r@ == descriptors(this@),
    {
        let mut r = String::new();
        let mut i: usize = 0;
        while i < this.len()
            invariant
                i <= this@.len(),
                r@ == descriptors(this@.take(i as int)),
            decreases this@.len() - i,
        {
            let d = argument_type_to_signature(&this[i]);
            r.append(d.as_str());
            assert(this@.take(i + 1).drop_last() =~= this@.take(i as int));
            i = i + 1;
        }
        assert(this@.take(i as int) =~= this@);
        r
    }
}

/// The wire descriptor of a type.
pub fn argument_type_to_signature(argument_type: &ArgumentType) -> (r: String)
    ensures
        r@ == descriptor(*argument_type),
    decreases argument_type,
{
    proof {
        reveal_strlit("L");
        reveal_strlit(";");
        reveal_strlit("[");
        reveal_strlit("/");
    }
    match argument_type {
        ArgumentType::Object(name) => {
            assert("/"@ =~= seq!['/']);
            assert("L"@ =~= seq!['L']);
            assert(";"@ =~= seq![';']);
            let mut r = String::from_str("L");
            let slashed = replace_text(name.as_str(), '.', "/");
            r.append(slashed.as_str());
            r.append(";");
            assert(r@ =~= descriptor(*argument_type));
            r
        },
        ArgumentType::Array(element) => {
            let mut r = String::from_str("[");
            let inner = argument_type_to_signature(element);
            r.append(inner.as_str());
            assert(r@ =~= descriptor(*argument_type));
            r
        },
        _ => argument_type.primitive_to_jni_signature(),
    }
}

/// The wire descriptor of a method.
pub fn generate_signature(method: &MethodEntry) -> (r: String)
    ensures
        r@ == method_descriptor(method.arguments@, method.return_type),
{
    proof {
        reveal_strlit("(");
        reveal_strlit(")");
        reveal_strlit("V");
    }
    let mut r = String::from_str("(");
    let arguments = ArgumentType::to_jni_signature(method.arguments.as_slice());
    r.append(arguments.as_str());
    r.append(")");
    match &method.return_type {
        Some(ret) => {
            let d = argument_type_to_signature(ret);
            r.append(d.as_str());
        },
        None => {
            r.append("V");
        },
    }
    r
}

} // verus!
