//! Renaming of foreign fully-qualified class names into Rust-safe paths.
use crate::text::{
    all_ascii, is_ascii_text, join, join_text, lemma_split_without_sep, same_text, split, split_text,
    views,
};
use convert_case::{Case, Casing};
use vstd::prelude::*;

verus! {

/// What `to_case(Case::Snake)` of convert_case makes of a text.
pub uninterp spec fn snake_of(s: Seq<char>) -> Seq<char>;

/// Relies on convert_case's `Casing::to_case` with `Case::Snake`, which
/// splits the text into words and joins them lower-cased with `_`; the
/// result depends on the characters alone. It finds word boundaries by
/// character count and cuts the text by byte position, so it is called on
/// ASCII text only, where the two agree. On ASCII text the result is ASCII,
/// non-empty lower-cased words joined by `_`; every lower/digit pair in it
/// was a boundary already, so converting it again gives it back.
#[verifier::external_body]
pub(crate) fn to_snake(s: &str) -> (r: String)
    requires
        is_ascii_text(s@),
    ensures
        r@ == snake_of(s@),
        is_ascii_text(r@),
        snake_of(r@) == r@,
{
    s.to_case(Case::Snake)
}

/// A name component with the keyword suffix `_k` added when it is one of
/// the reserved words `impl`, `move` or `in`.
pub open spec fn escape(s: Seq<char>) -> Seq<char> {
    if s == "impl"@ {
        "impl_k"@
    } else if s == "move"@ {
        "move_k"@
    } else if s == "in"@ {
        "in_k"@
    } else {
        s
    }
}

/// A text in module-naming case: snake-cased where it is ASCII; other text
/// is kept as it is, since the snake-casing cannot split it safely.
pub open spec fn snake_case(c: Seq<char>) -> Seq<char> {
    if is_ascii_text(c) {
        snake_of(c)
    } else {
        c
    }
}

/// A package component: escaped, then put in module-naming case.
pub open spec fn package_segment(c: Seq<char>) -> Seq<char> {
    snake_case(escape(c))
}

/// An enclosing class turned into a path segment: a package segment marked
/// with the parent suffix `_p`.
pub open spec fn parent_segment(c: Seq<char>) -> Seq<char> {
    package_segment(c) + "_p"@
}

/// The segments of a class-name component `Outer$Inner$Leaf`: one parent
/// segment per enclosing class, then the innermost name unchanged.
pub open spec fn nested_segments(t: Seq<char>) -> Seq<Seq<char>> {
    let parts = split(t, '$');
    parts.drop_last().map_values(|p: Seq<char>| parent_segment(p)).push(parts.last())
}

/// The path segments of a renamed fully-qualified name.
pub open spec fn rename_segments(s: Seq<char>) -> Seq<Seq<char>> {
    let comps = split(s, '.');
    comps.drop_last().map_values(|c: Seq<char>| package_segment(c)) + nested_segments(
        escape(comps.last()),
    )
}

/// The renamed fully-qualified name, segments joined with `.`.
pub open spec fn rename(s: Seq<char>) -> Seq<char> {
    join(rename_segments(s), '.')
}

/// Adds the keyword suffix to a single name component that is a reserved
/// word of the target language.
pub fn escape_keywords<'a>(x: &'a str) -> (r: &'a str)
    ensures
        r@ == escape(x@),
{
    if same_text(x, "impl") {
        "impl_k"
    } else if same_text(x, "move") {
        "move_k"
    } else if same_text(x, "in") {
        "in_k"
    } else {
        x
    }
}

/// A name component escaped and put in module-naming case.
pub(crate) fn normalize_segment(c: &str) -> (r: String)
    ensures
        r@ == package_segment(c@),
{
    let escaped = escape_keywords(c);
    case_normalize(escaped)
}

/// Puts a name component in module-naming case. Normalizing the result
/// again leaves it unchanged.
pub fn case_normalize(c: &str) -> (r: String)
    ensures
        r@ == snake_case(c@),
        snake_case(r@) == r@,
{
    if all_ascii(c) {
        to_snake(c)
    } else {
        String::from_str(c)
    }
}

/// Where a class name component is cut into a package segment and leaf
/// segments, the renamed path without nesting: package components, then
/// enclosing classes, then the leaf; a class-name component that is not
/// nested keeps its case, and reserved words are escaped in every position.
pub proof fn lemma_rename_without_nesting(s: Seq<char>)
    requires
        !split(s, '.').last().contains('$'),
    ensures
        rename_segments(s) == split(s, '.').drop_last().map_values(|c: Seq<char>| package_segment(c)).push(
            escape(split(s, '.').last()),
        ),
{
    let last = split(s, '.').last();
    reveal_strlit("impl_k");
    reveal_strlit("move_k");
    reveal_strlit("in_k");
    assert(!escape(last).contains('$')) by {
        if escape(last) != last {
            if escape(last).contains('$') {
                let k = choose|k: int| 0 <= k < escape(last).len() && escape(last)[k] == '$';
            }
        }
    }
    lemma_split_without_sep(escape(last), '$');
    let parts = split(escape(last), '$');
    assert(parts.drop_last() =~= Seq::<Seq<char>>::empty());
    assert(nested_segments(escape(last)) =~= seq![escape(last)]);
    assert(rename_segments(s) =~= split(s, '.').drop_last().map_values(
        |c: Seq<char>| package_segment(c),
    ).push(escape(last)));
}

/// The renamed path from its segments already in module-naming case: the
/// package segments, one segment with the parent suffix `_p` per enclosing
/// class, and the leaf, joined with `.`.
pub fn assemble_path(packages: &Vec<String>, parents: &Vec<String>, leaf: &str) -> (r: String)
    ensures
        r@ == join(
            views(packages@) + views(parents@).map_values(|p: Seq<char>| p + "_p"@) + seq![leaf@],
            '.',
        ),
{
    let mut out: Vec<String> = Vec::new();
    let mut i: usize = 0;
    while i < packages.len()
        invariant
            i <= packages@.len(),
            views(out@) == views(packages@).take(i as int),
        decreases packages@.len() - i,
    {
        let ghost before = views(out@);
        let seg = packages[i].clone();
        assert(seg@ == views(packages@)[i as int]);
        out.push(seg);
        assert(views(out@) =~= before.push(seg@));
        assert(views(packages@).take(i + 1) =~= views(packages@).take(i as int).push(seg@));
        i = i + 1;
    }
    assert(views(packages@).take(i as int) =~= views(packages@));
    let ghost marked = views(parents@).map_values(|p: Seq<char>| p + "_p"@);
    let mut j: usize = 0;
    while j < parents.len()
        invariant
            j <= parents@.len(),
            marked == views(parents@).map_values(|p: Seq<char>| p + "_p"@),
            views(out@) == views(packages@) + marked.take(j as int),
        decreases parents@.len() - j,
    {
        let mut seg = parents[j].clone();
        seg.append("_p");
        let ghost before = views(out@);
        out.push(seg);
        assert(views(out@) =~= before.push(seg@));
        assert(marked.take(j + 1) =~= marked.take(j as int).push(seg@));
        j = j + 1;
    }
    assert(marked.take(j as int) =~= marked);
    let leaf_owned = String::from_str(leaf);
    let ghost before = views(out@);
    out.push(leaf_owned);
    assert(views(out@) =~= before.push(leaf@));
    assert(views(out@) =~= views(packages@) + marked + seq![leaf@]);
    proof {
        reveal_strlit(".");
    }
    join_text(&out, ".")
}

/// Renames a fully-qualified class name such as `com.foo.Bar$Baz`: package
/// components are escaped and put in module-naming case, each enclosing
/// class becomes a segment of its own, and the innermost class name is kept.
pub fn rename_class_fq(input: &str) -> (r: String)
    ensures
        r@ == rename(input@),
{
    let mut components = split_text(input, '.');
    let ghost comps = views(components@);
    let class_name = match components.pop() {
        Some(c) => c,
        None => String::new(),
    };
    assert(views(components@) =~= comps.drop_last());
    let ghost pkgs = comps.drop_last().map_values(|c: Seq<char>| package_segment(c));
    let mut packages: Vec<String> = Vec::new();
    let mut i: usize = 0;
    while i < components.len()
        invariant
            i <= components@.len(),
            views(components@) == comps.drop_last(),
            pkgs == comps.drop_last().map_values(|c: Seq<char>| package_segment(c)),
            views(packages@) == pkgs.take(i as int),
        decreases components@.len() - i,
    {
        let seg = normalize_segment(components[i].as_str());
        assert(views(components@)[i as int] == components@[i as int]@);
        let ghost before = views(packages@);
        packages.push(seg);
        assert(views(packages@) =~= before.push(seg@));
        assert(pkgs.take(i + 1) =~= pkgs.take(i as int).push(seg@));
        i = i + 1;
    }
    assert(pkgs.take(i as int) =~= pkgs);
    let escaped = escape_keywords(class_name.as_str());
    let parts = split_text(escaped, '$');
    let ghost bases = views(parts@).drop_last().map_values(|p: Seq<char>| package_segment(p));
    let mut parents: Vec<String> = Vec::new();
    let mut j: usize = 0;
    while j < parts.len() - 1
        invariant
            parts@.len() >= 1,
            j + 1 <= parts@.len(),
            bases == views(parts@).drop_last().map_values(|p: Seq<char>| package_segment(p)),
            views(parents@) == bases.take(j as int),
        decreases parts@.len() - j,
    {
        let seg = normalize_segment(parts[j].as_str());
        assert(views(parts@)[j as int] == parts@[j as int]@);
        let ghost before = views(parents@);
        parents.push(seg);
        assert(views(parents@) =~= before.push(seg@));
        assert(bases.take(j + 1) =~= bases.take(j as int).push(seg@));
        j = j + 1;
    }
    assert(bases.take(j as int) =~= bases);
    assert(views(parents@).map_values(|p: Seq<char>| p + "_p"@) =~= views(parts@).drop_last().map_values(
        |p: Seq<char>| parent_segment(p),
    ));
    let r = assemble_path(&packages, &parents, parts[j].as_str());
    assert(views(parts@)[j as int] == parts@[j as int]@);
    assert(pkgs + views(parents@).map_values(|p: Seq<char>| p + "_p"@) + seq![parts@[j as int]@]
        =~= rename_segments(input@));
    r
}

} // verus!
