//! Where generated modules go and which classes are generated.
use crate::config::Mapping;
use crate::emitter::entry_text;
use crate::model::ClassEntry;
use crate::naming::{rename, rename_class_fq};
use crate::text::{ends_with_text, split, split_text, starts_with_text, views};
use vstd::prelude::*;

verus! {

/// The path of the generated module of a class, segment by segment: the
/// directories of its renamed package path (enclosing classes included) and
/// the file `<Name>.rs`.
pub open spec fn output_segments(name: Seq<char>) -> Seq<Seq<char>> {
    let segs = split(rename(name), '.');
    segs.drop_last().push(segs.last() + ".rs"@)
}

/// Classes with distinct renamed names get distinct output files, so a set
/// of classes whose renamed names are pairwise distinct yields one file per
/// class, whatever order they are written in.
pub proof fn lemma_distinct_outputs(names: Seq<Seq<char>>)
    requires
        forall|i: int, j: int|
            0 <= i < names.len() && 0 <= j < names.len() && i != j ==> rename(names[i]) != rename(
                names[j],
            ),
    ensures
        forall|i: int, j: int|
            0 <= i < names.len() && 0 <= j < names.len() && i != j ==> output_segments(names[i])
                != output_segments(names[j]),
{
    assert forall|i: int, j: int|
        0 <= i < names.len() && 0 <= j < names.len() && i != j implies output_segments(names[i])
        != output_segments(names[j]) by {
        if output_segments(names[i]) == output_segments(names[j]) {
            lemma_output_injective(names[i], names[j]);
        }
    }
}

/// Equal output paths come from equal renamed names.
pub proof fn lemma_output_injective(a: Seq<char>, b: Seq<char>)
    requires
        output_segments(a) == output_segments(b),
    ensures
        rename(a) == rename(b),
{
    let sa = split(rename(a), '.');
    let sb = split(rename(b), '.');
    crate::text::lemma_split_nonempty(rename(a), '.');
    crate::text::lemma_split_nonempty(rename(b), '.');
    let oa = output_segments(a);
    let ob = output_segments(b);
    assert(oa.len() == ob.len());
    assert(sa.len() == sb.len());
    let n = sa.len() - 1;
    assert(oa[n] == sa.last() + ".rs"@);
    assert(sa.last() =~= oa[n].subrange(0, oa[n].len() - ".rs"@.len()));
    assert(sb.last() =~= ob[n].subrange(0, ob[n].len() - ".rs"@.len()));
    assert forall|k: int| 0 <= k < sa.len() implies sa[k] == sb[k] by {
        if k < n {
            assert(oa[k] == sa[k]);
            assert(ob[k] == sb[k]);
        }
    }
    assert(sa =~= sb);
    crate::text::lemma_join_split(rename(a), '.');
    crate::text::lemma_join_split(rename(b), '.');
}

/// What generation writes for a list of classes: for each class, its output
/// path and the contents of its module.
pub open spec fn class_outputs(classes: Seq<ClassEntry>, m: Mapping) -> Seq<
    (Seq<Seq<char>>, Seq<char>),
> {
    classes.map_values(|c: ClassEntry| (output_segments(c.name@), entry_text(c, m)))
}

/// The files written do not depend on the order in which classes come or
/// are processed: two lists holding the same classes give the same paths
/// with the same contents.
pub proof fn lemma_outputs_order_independent(a: Seq<ClassEntry>, b: Seq<ClassEntry>, m: Mapping)
    requires
        forall|c: ClassEntry| a.contains(c) <==> b.contains(c),
    ensures
        forall|x: (Seq<Seq<char>>, Seq<char>)|
            class_outputs(a, m).contains(x) <==> class_outputs(b, m).contains(x),
{
    lemma_outputs_included(a, b, m);
    lemma_outputs_included(b, a, m);
}

/// Every output of a list of classes is an output of a list holding all its
/// classes.
pub proof fn lemma_outputs_included(a: Seq<ClassEntry>, b: Seq<ClassEntry>, m: Mapping)
    requires
        forall|c: ClassEntry| a.contains(c) ==> b.contains(c),
    ensures
        forall|x: (Seq<Seq<char>>, Seq<char>)|
            class_outputs(a, m).contains(x) ==> class_outputs(b, m).contains(x),
{
    assert forall|x: (Seq<Seq<char>>, Seq<char>)|
        class_outputs(a, m).contains(x) implies class_outputs(b, m).contains(x) by {
        let i = choose|i: int| 0 <= i < class_outputs(a, m).len() && class_outputs(a, m)[i] == x;
        assert(a.contains(a[i]));
        let j = choose|j: int| 0 <= j < b.len() && b[j] == a[i];
        assert(class_outputs(b, m)[j] == x);
    }
}

/// The output path of the generated module of a class, segment by segment.
pub fn output_path(name: &str) -> (r: Vec<String>)
    ensures
        views(r@) == output_segments(name@),
{
    let renamed = rename_class_fq(name);
    let mut segs = split_text(renamed.as_str(), '.');
    let ghost all = views(segs@);
    let last = match segs.pop() {
        Some(l) => l,
        None => String::new(),
    };
    assert(views(segs@) =~= all.drop_last());
    let mut file = last;
    file.append(".rs");
    let ghost before = views(segs@);
    segs.push(file);
    assert(views(segs@) =~= before.push(file@));
    segs
}

/// The output paths of a list of classes, one per class and in order.
pub fn plan_outputs(classes: &Vec<ClassEntry>) -> (r: Vec<Vec<String>>)
    ensures
        r@.len() == classes@.len(),
        forall|i: int|
            0 <= i < classes@.len() ==> views(#[trigger] r@[i]@) == output_segments(
                classes@[i].name@,
            ),
{
    let mut r: Vec<Vec<String>> = Vec::new();
    let mut i: usize = 0;
    while i < classes.len()
        invariant
            i <= classes@.len(),
            r@.len() == i,
            forall|j: int|
                0 <= j < i ==> views(#[trigger] r@[j]@) == output_segments(classes@[j].name@),
        decreases classes@.len() - i,
    {
        r.push(output_path(classes[i].name.as_str()));
        i = i + 1;
    }
    r
}

/// Whether a class path entry names a class: module descriptors and
/// entries under `META-INF` are not classes.
pub fn is_class_resource(name: &str) -> (r: bool)
    ensures
        r == !((name@.len() >= "module-info"@.len() && name@.subrange(
            name@.len() - "module-info"@.len(),
            name@.len() as int,
        ) == "module-info"@) || (name@.len() >= "META-INF"@.len() && name@.subrange(
            0,
            "META-INF"@.len() as int,
        ) == "META-INF"@)),
{
    !(ends_with_text(name, "module-info") || starts_with_text(name, "META-INF"))
}

/// Whether a class lies under the root package prefix that generation is
/// restricted to.
pub fn in_root(name: &str, root: &str) -> (r: bool)
    ensures
        r == (root@.len() <= name@.len() && name@.subrange(0, root@.len() as int) == root@),
{
    starts_with_text(name, root)
}

/// A non-empty text of ASCII digits.
pub open spec fn is_digit_text(s: Seq<char>) -> bool {
    s.len() > 0 && forall|i: int| 0 <= i < s.len() ==> '0' <= #[trigger] s[i] <= '9'
}

/// An anonymous class (`Outer$1`): a nested class whose innermost name is a
/// number, which is no Rust identifier.
pub open spec fn is_anonymous_name(name: Seq<char>) -> bool {
    let parts = split(split(name, '.').last(), '$');
    parts.len() > 1 && is_digit_text(parts.last())
}

/// Whether a class is anonymous and gets no module.
pub fn is_anonymous_class(name: &str) -> (r: bool)
    ensures
        r == is_anonymous_name(name@),
{
    let mut comps = split_text(name, '.');
    let ghost all = views(comps@);
    let last = match comps.pop() {
        Some(l) => l,
        None => String::new(),
    };
    assert(last@ == all.last());
    let mut parts = split_text(last.as_str(), '$');
    if parts.len() < 2 {
        return false;
    }
    let ghost ps = views(parts@);
    let leaf = match parts.pop() {
        Some(l) => l,
        None => String::new(),
    };
    assert(leaf@ == ps.last());
    let n = leaf.unicode_len();
    if n == 0 {
        return false;
    }
    let mut i: usize = 0;
    while i < n
        invariant
            n == leaf@.len(),
            i <= n,
            leaf@ == split(split(name@, '.').last(), '$').last(),
            split(split(name@, '.').last(), '$').len() > 1,
            forall|j: int| 0 <= j < i ==> '0' <= #[trigger] leaf@[j] <= '9',
        decreases n - i,
    {
        let c = leaf.as_str().get_char(i);
        if !('0' <= c && c <= '9') {
            assert(!('0' <= leaf@[i as int] <= '9'));
            assert(!is_digit_text(leaf@));
            return false;
        }
        i = i + 1;
    }
    true
}

/// The classes that get a module: all but the anonymous ones, in order.
pub fn generated_classes(classes: Vec<ClassEntry>) -> (r: Vec<ClassEntry>)
    ensures
        r@ == classes@.filter(|c: ClassEntry| !is_anonymous_name(c.name@)),
{
    let ghost all = classes@;
    let ghost keep = |c: ClassEntry| !is_anonymous_name(c.name@);
    let mut rest = classes;
    let mut r: Vec<ClassEntry> = Vec::new();
    let ghost mut k: int = 0;
    while rest.len() > 0
        invariant
            0 <= k <= all.len(),
            rest@ == all.subrange(k, all.len() as int),
            r@ == all.take(k).filter(keep),
            keep == (|c: ClassEntry| !is_anonymous_name(c.name@)),
        decreases rest@.len(),
    {
        let c = rest.remove(0);
        assert(c == all[k]);
        proof {
            reveal(Seq::filter);
            assert(all.take(k + 1).drop_last() =~= all.take(k));
            assert(all.take(k + 1).last() == c);
        }
        if !is_anonymous_class(c.name.as_str()) {
            r.push(c);
        }
        proof {
            k = k + 1;
        }
        assert(rest@ =~= all.subrange(k, all.len() as int));
    }
    assert(all.take(k) =~= all);
    r
}

} // verus!
