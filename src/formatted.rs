//! Classes and methods with their Rust-side names and wire descriptors
//! worked out.
use crate::emitter::{generate_wrapper_name, wrapper_name};
use crate::model::{normalizes, ArgumentType, ClassEntry, ClassType, MethodEntry};
use crate::naming::{escape, escape_keywords, rename, rename_class_fq};
use crate::signature::{generate_signature, method_descriptor};
use crate::text::views;
use vstd::prelude::*;

verus! {

/// A method with its Rust name and wire descriptor.
#[derive(Debug)]
pub struct FormattedMethodEntry {
    pub rust_name: String,
    pub java_name: String,
    pub is_static: bool,
    pub arguments: Vec<ArgumentType>,
    pub jni_signature: String,
    pub return_type: Option<ArgumentType>,
    pub declaring_class_rust: String,
    pub declaring_class_java: String,
}

/// A class with its renamed path and its formatted methods.
#[derive(Debug)]
pub struct FormattedClassEntry {
    pub name: String,
    pub methods: Vec<FormattedMethodEntry>,
    pub class_type: ClassType,
    pub interfaces: Vec<String>,
}

/// Whether `f` is the formatted form of the method `o`.
pub open spec fn formats_method(o: MethodEntry, f: FormattedMethodEntry) -> bool {
    &&& f.rust_name@ == wrapper_name(o.name@)
    &&& f.java_name == o.name
    &&& f.is_static == o.is_static
    &&& f.arguments@.len() == o.arguments@.len()
    &&& forall|i: int|
        0 <= i < o.arguments@.len() ==> normalizes(#[trigger] o.arguments@[i], f.arguments@[i])
    &&& f.jni_signature@ == method_descriptor(o.arguments@, o.return_type)
    &&& o.return_type is None ==> f.return_type is None
    &&& o.return_type matches Some(t) ==> (f.return_type matches Some(u) && normalizes(t, u))
    &&& f.declaring_class_rust@ == rename(o.declaring_class@)
    &&& f.declaring_class_java == o.declaring_class
}

/// A single name component with the keyword suffix added where it is a
/// reserved word.
pub fn format_name(x: &str) -> (r: &str)
    ensures
        r@ == escape(x@),
{
    escape_keywords(x)
}

impl FormattedMethodEntry {
    /// Works out the Rust name, the wire descriptor and the renamed
    /// declaring class of a method.
    pub fn from_method(original: MethodEntry) -> (r: Self)
        ensures
            formats_method(original, r),
    {
        let rust_name = generate_wrapper_name(original.name.as_str());
        let declaring_class_rust = rename_class_fq(original.declaring_class.as_str());
        let jni_signature = generate_signature(&original);
        let ghost all = original.arguments@;
        let mut rest = original.arguments;
        let mut arguments: Vec<ArgumentType> = Vec::new();
        while rest.len() > 0
            invariant
                arguments@.len() + rest@.len() == all.len(),
                rest@ == all.subrange(arguments@.len() as int, all.len() as int),
                forall|j: int| 0 <= j < arguments@.len() ==> normalizes(all[j], #[trigger] arguments@[j]),
            decreases rest@.len(),
        {
            let ghost k = arguments@.len();
            let a = rest.remove(0);
            assert(a == all[k as int]);
            arguments.push(a.format_to_rust());
            assert(rest@ =~= all.subrange(arguments@.len() as int, all.len() as int));
        }
        let return_type = match original.return_type {
            Some(t) => Some(t.format_to_rust()),
            None => None,
        };
        FormattedMethodEntry {
            rust_name,
            java_name: original.name,
            is_static: original.is_static,
            arguments,
            jni_signature,
            return_type,
            declaring_class_rust,
            declaring_class_java: original.declaring_class,
        }
    }
}

impl FormattedClassEntry {
    /// Renames a class and its interfaces and formats its methods.
    pub fn from_class(original: ClassEntry) -> (r: Self)
        ensures
            r.name@ == rename(original.name@),
            r.class_type == original.class_type,
            r.methods@.len() == original.methods@.len(),
            forall|i: int|
                0 <= i < original.methods@.len() ==> formats_method(
                    #[trigger] original.methods@[i],
                    r.methods@[i],
                ),
            views(r.interfaces@) == views(original.interfaces@).map_values(
                |x: Seq<char>| rename(x),
            ),
    {
        let name = rename_class_fq(original.name.as_str());
        let ghost all = original.methods@;
        let mut rest = original.methods;
        let mut methods: Vec<FormattedMethodEntry> = Vec::new();
        while rest.len() > 0
            invariant
                methods@.len() + rest@.len() == all.len(),
                rest@ == all.subrange(methods@.len() as int, all.len() as int),
                forall|j: int| 0 <= j < methods@.len() ==> formats_method(all[j], #[trigger] methods@[j]),
            decreases rest@.len(),
        {
            let ghost k = methods@.len();
            let m = rest.remove(0);
            assert(m == all[k as int]);
            methods.push(FormattedMethodEntry::from_method(m));
            assert(rest@ =~= all.subrange(methods@.len() as int, all.len() as int));
        }
        let mut interfaces: Vec<String> = Vec::new();
        let mut i: usize = 0;
        while i < original.interfaces.len()
            invariant
                i <= original.interfaces@.len(),
                views(interfaces@) == views(original.interfaces@).take(i as int).map_values(
                    |x: Seq<char>| rename(x),
                ),
            decreases original.interfaces@.len() - i,
        {
            let renamed = rename_class_fq(original.interfaces[i].as_str());
            let ghost before = views(interfaces@);
            interfaces.push(renamed);
            assert(views(interfaces@) =~= before.push(renamed@));
            assert(views(original.interfaces@).take(i + 1) =~= views(original.interfaces@).take(
                i as int,
            ).push(original.interfaces@[i as int]@));
            i = i + 1;
        }
        assert(views(original.interfaces@).take(i as int) =~= views(original.interfaces@));
        FormattedClassEntry { name, methods, class_type: original.class_type, interfaces }
    }
}

} // verus!
