//! The mapping from a source path to its place in the output tree.
//!
//! A path is mapped in three steps: the source root is taken off its front,
//! then one leading `/`, and for a document the extension `.md` gives way to
//! `.html`. What remains is put below the output root.

use crate::text::{ends_with, starts_with, string_of, to_chars};
use vstd::prelude::*;

verus! {

/// `path` without the source root in front; `path` itself where it does not
/// begin with the source root.
pub open spec fn strip_root(source_dir: Seq<char>, path: Seq<char>) -> Seq<char> {
    if source_dir.is_prefix_of(path) {
        path.skip(source_dir.len() as int)
    } else {
        path
    }
}

/// `path` without one leading `/`.
pub open spec fn strip_separator(path: Seq<char>) -> Seq<char> {
    if path.len() > 0 && path[0] == '/' {
        path.skip(1)
    } else {
        path
    }
}

/// The path of a source file relative to the source root.
pub open spec fn relative_path(source_dir: Seq<char>, path: Seq<char>) -> Seq<char> {
    strip_separator(strip_root(source_dir, path))
}

/// `path` with a final `.md` rewritten to `.html`; `path` itself where it
/// does not end in `.md`.
pub open spec fn html_name(path: Seq<char>) -> Seq<char> {
    if ".md"@.is_suffix_of(path) {
        path.take(path.len() - ".md"@.len()) + ".html"@
    } else {
        path
    }
}

/// Where the page of the document at `path` is written.
pub open spec fn page_path(build_dir: Seq<char>, source_dir: Seq<char>, path: Seq<char>) -> Seq<
    char,
> {
    build_dir + "/"@ + html_name(relative_path(source_dir, path))
}

/// Where the asset at `path` is copied to.
pub open spec fn asset_path(build_dir: Seq<char>, source_dir: Seq<char>, path: Seq<char>) -> Seq<
    char,
> {
    build_dir + "/"@ + relative_path(source_dir, path)
}

/// Whether `path` is the path of an entry below the source root, as a walk
/// from that root writes it: the root, then one `/` unless the root already
/// ends in one, then a relative path that is not empty and does not begin
/// with `/`.
pub open spec fn lies_under(source_dir: Seq<char>, path: Seq<char>) -> bool {
    let rest = path.skip(source_dir.len() as int);
    let name = strip_separator(rest);
    &&& source_dir.is_prefix_of(path)
    &&& name.len() > 0
    &&& name[0] != '/'
    &&& (rest.len() > 0 && rest[0] == '/') != (source_dir.len() > 0 && source_dir.last() == '/')
}

fn relative_chars(source_dir: &str, path: &str) -> (rel: Vec<char>)
    ensures
        rel@ == relative_path(source_dir@, path@),
{
    let root = to_chars(source_dir);
    let full = to_chars(path);
    let mut from: usize = 0;
    if starts_with(&full, &root) {
        from = root.len();
    }
    if from < full.len() && full[from] == '/' {
        from = from + 1;
    }
    let mut rel: Vec<char> = Vec::new();
    let mut i: usize = from;
    while i < full.len()
        invariant
            from <= i <= full.len(),
            rel@ == full@.subrange(from as int, i as int),
        decreases full.len() - i,
    {
        rel.push(full[i]);
        assert(full@.subrange(from as int, i + 1) =~= full@.subrange(from as int, i as int).push(
            full@[i as int],
        ));
        i += 1;
    }
    assert(rel@ =~= relative_path(source_dir@, path@));
    rel
}

/// The output path of the page for the document at `path`.
pub fn page_output_path(build_dir: &str, source_dir: &str, path: &str) -> (out: String)
    ensures
        out@ == page_path(build_dir@, source_dir@, path@),
{
    let rel = relative_chars(source_dir, path);
    let extension = to_chars(".md");
    let mut out = String::from_str(build_dir);
    out.append("/");
    if ends_with(&rel, &extension) {
        let stem = string_of(&rel, 0, rel.len() - extension.len());
        out.append(stem.as_str());
        out.append(".html");
        assert(out@ =~= page_path(build_dir@, source_dir@, path@));
    } else {
        let name = string_of(&rel, 0, rel.len());
        out.append(name.as_str());
        assert(out@ =~= page_path(build_dir@, source_dir@, path@));
    }
    out
}

/// The output path of the copy of the asset at `path`.
pub fn asset_output_path(build_dir: &str, source_dir: &str, path: &str) -> (out: String)
    ensures
        out@ == asset_path(build_dir@, source_dir@, path@),
{
    let rel = relative_chars(source_dir, path);
    let name = string_of(&rel, 0, rel.len());
    let mut out = String::from_str(build_dir);
    out.append("/");
    out.append(name.as_str());
    assert(out@ =~= asset_path(build_dir@, source_dir@, path@));
    out
}

/// Two texts with the same front are equal only where what follows the
/// front is equal.
proof fn lemma_same_front(front: Seq<char>, x: Seq<char>, y: Seq<char>)
    requires
        front + x == front + y,
    ensures
        x == y,
{
    assert((front + x).skip(front.len() as int) =~= x);
    assert((front + y).skip(front.len() as int) =~= y);
}

/// Below one source root, different paths have different relative paths.
proof fn lemma_relative_paths_distinct(source_dir: Seq<char>, a: Seq<char>, b: Seq<char>)
    requires
        lies_under(source_dir, a),
        lies_under(source_dir, b),
        a != b,
    ensures
        relative_path(source_dir, a) != relative_path(source_dir, b),
{
    let n = source_dir.len() as int;
    let rest_a = a.skip(n);
    let rest_b = b.skip(n);
    assert(a =~= source_dir + rest_a);
    assert(b =~= source_dir + rest_b);
    if relative_path(source_dir, a) == relative_path(source_dir, b) {
        if rest_a.len() > 0 && rest_a[0] == '/' {
            assert(rest_a =~= seq!['/'] + rest_a.skip(1));
            assert(rest_b =~= seq!['/'] + rest_b.skip(1));
        }
        assert(rest_a == rest_b);
    }
}

/// The relative path of a document below the source root ends in `.md` as
/// the document's path does.
proof fn lemma_relative_path_keeps_extension(source_dir: Seq<char>, path: Seq<char>)
    requires
        lies_under(source_dir, path),
        ".md"@.is_suffix_of(path),
    ensures
        ".md"@.is_suffix_of(relative_path(source_dir, path)),
{
    reveal_strlit(".md");
    let n = source_dir.len() as int;
    let rest = path.skip(n);
    let rel = relative_path(source_dir, path);
    let cut = path.len() - rel.len();
    assert(rel =~= path.skip(cut));
    assert(cut >= 1);
    assert(path[cut - 1] == '/') by {
        if rest.len() > 0 && rest[0] == '/' {
            assert(path[n] == rest[0]);
        } else {
            assert(source_dir.last() == path.subrange(0, n)[n - 1]);
        }
    }
    let tail = path.subrange(path.len() - 3, path.len() as int);
    assert(tail =~= ".md"@);
    if rel.len() < 3 {
        assert(tail[cut - 1 - (path.len() - 3)] == path[cut - 1]);
        assert(false);
    }
    assert(rel.subrange(rel.len() - 3, rel.len() as int) =~= tail);
}

/// Below one source root, two different documents are never written to the
/// same page: the mapping from a document's path to its output path is
/// injective.
pub proof fn lemma_page_paths_distinct(
    build_dir: Seq<char>,
    source_dir: Seq<char>,
    a: Seq<char>,
    b: Seq<char>,
)
    requires
        lies_under(source_dir, a),
        lies_under(source_dir, b),
        ".md"@.is_suffix_of(a),
        ".md"@.is_suffix_of(b),
        a != b,
    ensures
        page_path(build_dir, source_dir, a) != page_path(build_dir, source_dir, b),
{
    reveal_strlit(".md");
    reveal_strlit(".html");
    let rel_a = relative_path(source_dir, a);
    let rel_b = relative_path(source_dir, b);
    lemma_relative_paths_distinct(source_dir, a, b);
    lemma_relative_path_keeps_extension(source_dir, a);
    lemma_relative_path_keeps_extension(source_dir, b);
    if page_path(build_dir, source_dir, a) == page_path(build_dir, source_dir, b) {
        lemma_same_front(build_dir + "/"@, html_name(rel_a), html_name(rel_b));
        let stem_a = rel_a.take(rel_a.len() - 3);
        let stem_b = rel_b.take(rel_b.len() - 3);
        assert(stem_a.len() + 5 == stem_b.len() + 5) by {
            assert(html_name(rel_a).len() == html_name(rel_b).len());
        }
        assert(stem_a =~= html_name(rel_a).take(stem_a.len() as int));
        assert(stem_b =~= html_name(rel_b).take(stem_b.len() as int));
        assert(rel_a =~= stem_a + ".md"@);
        assert(rel_b =~= stem_b + ".md"@);
        assert(false);
    }
}

/// Below one source root, two different assets are never copied to the same
/// place.
pub proof fn lemma_asset_paths_distinct(
    build_dir: Seq<char>,
    source_dir: Seq<char>,
    a: Seq<char>,
    b: Seq<char>,
)
    requires
        lies_under(source_dir, a),
        lies_under(source_dir, b),
        a != b,
    ensures
        asset_path(build_dir, source_dir, a) != asset_path(build_dir, source_dir, b),
{
    lemma_relative_paths_distinct(source_dir, a, b);
    if asset_path(build_dir, source_dir, a) == asset_path(build_dir, source_dir, b) {
        lemma_same_front(
            build_dir + "/"@,
            relative_path(source_dir, a),
            relative_path(source_dir, b),
        );
    }
}

} // verus!
