//! The rules of the file commands that need no disk: which paths are taken
//! from the project root, how the entries of a directory listing are named,
//! and in which order a listing is shown.

use core::cmp::Ordering;
use vstd::prelude::*;
use vstd::string::*;
use vstd::utf8::encode_utf8;
use crate::text::optional_text;

verus! {

/// Whether a path is written from the project root: it starts with `./`.
pub open spec fn is_project_relative(path: Seq<char>) -> bool {
    path.len() >= 2 && path[0] == '.' && path[1] == '/'
}

/// The part of a path behind its leading `./`, for a path that is written
/// from the project root.
pub open spec fn below_root(path: Seq<char>) -> Option<Seq<char>> {
    if is_project_relative(path) {
        Some(path.skip(2))
    } else {
        None
    }
}

/// `text` with each `//` replaced by `/`, scanning from the left and never
/// looking again at what a replacement left: `a///b` becomes `a//b`.
pub open spec fn collapsed(text: Seq<char>) -> Seq<char>
    decreases text.len(),
{
    if text.len() == 0 {
        Seq::empty()
    } else if text.len() >= 2 && text[0] == '/' && text[1] == '/' {
        seq!['/'] + collapsed(text.skip(2))
    } else {
        seq![text[0]] + collapsed(text.skip(1))
    }
}

/// The path under which an entry `name` of the directory `parent` is shown.
pub open spec fn entry_path(parent: Seq<char>, name: Seq<char>) -> Seq<char> {
    collapsed(parent + "/"@ + name)
}

/// One entry of a directory listing.
#[derive(Debug)]
pub struct FileItemData {
    pub name: String,
    pub path: String,
    pub is_directory: bool,
    /// 0 for the entries of the listed directory itself.
    pub depth: u32,
    /// The shown path of the directory that holds the entry; none at depth 0.
    pub parent_path: Option<String>,
}

/// The mathematical content of a [`FileItemData`].
pub struct FileItemView {
    pub name: Seq<char>,
    pub path: Seq<char>,
    pub is_directory: bool,
    pub depth: u32,
    pub parent_path: Option<Seq<char>>,
}

impl View for FileItemData {
    type V = FileItemView;

    open spec fn view(&self) -> FileItemView {
        FileItemView {
            name: self.name@,
            path: self.path@,
            is_directory: self.is_directory,
            depth: self.depth,
            parent_path: optional_text(self.parent_path),
        }
    }
}

/// The entry for `name` in the directory that is shown as `parent` at
/// `depth`; none for an empty name.
pub open spec fn listed_item(
    parent: Seq<char>,
    name: Seq<char>,
    is_directory: bool,
    depth: u32,
) -> Option<FileItemView> {
    if name.len() == 0 {
        None
    } else {
        Some(
            FileItemView {
                name,
                path: entry_path(parent, name),
                is_directory,
                depth,
                parent_path: if depth == 0 {
                    None
                } else {
                    Some(parent)
                },
            },
        )
    }
}

/// Whether `a` stands before `b` where the two are compared byte by byte
/// from the left, a shorter one before its own extensions.
pub open spec fn bytes_before(a: Seq<u8>, b: Seq<u8>) -> bool
    decreases a.len(),
{
    if b.len() == 0 {
        false
    } else if a.len() == 0 {
        true
    } else if a[0] != b[0] {
        a[0] < b[0]
    } else {
        bytes_before(a.skip(1), b.skip(1))
    }
}

/// Whether `a` is shown before `b`: lower depth first; at the same depth
/// directories before files; among those by name, compared as bytes.
pub open spec fn shown_before(a: FileItemView, b: FileItemView) -> bool {
    if a.depth != b.depth {
        a.depth < b.depth
    } else if a.is_directory != b.is_directory {
        a.is_directory
    } else {
        bytes_before(encode_utf8(a.name), encode_utf8(b.name))
    }
}

/// The part of `path` behind a leading `./`; none for any other path, which
/// is taken as it stands.
pub fn project_relative(path: &str) -> (r: Option<String>)
    ensures
        optional_text(r) == below_root(path@),
{
    let n: usize = path.unicode_len();
    if n >= 2 && path.get_char(0) == '.' && path.get_char(1) == '/' {
        let rest = path.substring_char(2, n);
        proof {
            assert(path@.subrange(2, n as int) =~= path@.skip(2));
        }
        Some(String::from_str(rest))
    } else {
        None
    }
}

/// Replaces each `//` by `/`, scanning once from the left.
pub fn collapse_slashes(text: &str) -> (r: String)
    ensures
        r@ == collapsed(text@),
{
    let n: usize = text.unicode_len();
    let mut out = String::new();
    let mut i: usize = 0;
    proof {
        assert(text@.skip(0) =~= text@);
        assert(out@ + collapsed(text@) =~= collapsed(text@));
    }
    while i < n
        invariant
            i <= n,
            n == text@.len(),
            out@ + collapsed(text@.skip(i as int)) == collapsed(text@),
        decreases n - i,
    {
        let ghost rest = text@.skip(i as int);
        proof {
            assert(rest.len() == n - i);
            assert(rest[0] == text@[i as int]);
        }
        if n - i >= 2 && text.get_char(i) == '/' && text.get_char(i + 1) == '/' {
            proof {
                assert(rest[1] == text@[i as int + 1]);
                assert(rest.skip(2) =~= text@.skip(i as int + 2));
                assert(out@ + collapsed(rest) =~= out@ + seq!['/'] + collapsed(rest.skip(2)));
                reveal_strlit("/");
                assert("/"@ =~= seq!['/']);
            }
            out.append("/");
            i = i + 2;
        } else {
            proof {
                if n - i >= 2 {
                    assert(rest[1] == text@[i as int + 1]);
                }
                assert(rest.skip(1) =~= text@.skip(i as int + 1));
                assert(text@.subrange(i as int, i as int + 1) =~= seq![rest[0]]);
                assert(out@ + collapsed(rest) =~= out@ + seq![rest[0]] + collapsed(rest.skip(1)));
            }
            out.append(text.substring_char(i, i + 1));
            i = i + 1;
        }
    }
    proof {
        assert(text@.skip(n as int) =~= Seq::<char>::empty());
        assert(out@ + Seq::<char>::empty() =~= out@);
    }
    out
}

/// The entry of a listing for the file or directory `file_name` found in
/// the directory that is shown as `logical_path` at `depth`. A name that is
/// empty gives no entry.
pub fn directory_item(logical_path: &str, file_name: &str, is_directory: bool, depth: u32) -> (r:
    Option<FileItemData>)
    ensures
        match r {
            Some(item) => listed_item(logical_path@, file_name@, is_directory, depth) == Some(
                item@,
            ),
            None => listed_item(logical_path@, file_name@, is_directory, depth) is None,
        },
{
    if file_name.unicode_len() == 0 {
        None
    } else {
        let mut joined = String::from_str(logical_path);
        joined.append("/");
        joined.append(file_name);
        let path = collapse_slashes(joined.as_str());
        let parent_path = if depth == 0 {
            None
        } else {
            Some(String::from_str(logical_path))
        };
        Some(FileItemData { name: String::from_str(file_name), path, is_directory, depth, parent_path })
    }
}

/// How deep a listing goes where the caller names no depth: one level below
/// the listed directory.
pub fn listing_depth(max_depth: Option<u32>) -> (r: u32)
    ensures
        r == match max_depth {
            Some(d) => d,
            None => 1u32,
        },
{
    match max_depth {
        Some(d) => d,
        None => 1,
    }
}

/// Whether the entries below `item` belong to a listing of `max_depth`: it
/// is a directory above the deepest level.
pub fn lists_children(item: &FileItemData, max_depth: u32) -> (r: bool)
    ensures
        r == (item.is_directory && item.depth < max_depth),
{
    item.is_directory && item.depth < max_depth
}

/// Whether `a` stands before `b`, byte by byte from the left.
fn before_in_bytes(a: &[u8], b: &[u8]) -> (r: bool)
    ensures
        r == bytes_before(a@, b@),
{
    let mut i: usize = 0;
    proof {
        assert(a@.skip(0) =~= a@);
        assert(b@.skip(0) =~= b@);
    }
    while i < a.len() && i < b.len()
        invariant
            i <= a.len(),
            i <= b.len(),
            bytes_before(a@, b@) == bytes_before(a@.skip(i as int), b@.skip(i as int)),
        decreases a.len() - i,
    {
        let ghost ra = a@.skip(i as int);
        let ghost rb = b@.skip(i as int);
        proof {
            assert(ra[0] == a@[i as int]);
            assert(rb[0] == b@[i as int]);
            assert(ra.skip(1) =~= a@.skip(i as int + 1));
            assert(rb.skip(1) =~= b@.skip(i as int + 1));
        }
        if a[i] != b[i] {
            return a[i] < b[i];
        }
        i = i + 1;
    }
    proof {
        assert(a@.skip(i as int).len() == a@.len() - i);
        assert(b@.skip(i as int).len() == b@.len() - i);
    }
    i < b.len()
}

/// Whether `a` is shown before `b` in a listing.
pub fn shows_before(a: &FileItemData, b: &FileItemData) -> (r: bool)
    ensures
        r == shown_before(a@, b@),
{
    if a.depth != b.depth {
        a.depth < b.depth
    } else if a.is_directory != b.is_directory {
        a.is_directory
    } else {
        before_in_bytes(a.name.as_str().as_bytes(), b.name.as_str().as_bytes())
    }
}

/// The order of two entries of a listing, for a sort: `Less` where `a` is
/// shown before `b`, `Greater` where `b` is shown before `a`, and `Equal`
/// where neither is, which is where depth, kind and name agree.
pub fn listing_order(a: &FileItemData, b: &FileItemData) -> (r: Ordering)
    ensures
        r is Less <==> shown_before(a@, b@),
        r is Greater <==> !shown_before(a@, b@) && shown_before(b@, a@),
{
    if shows_before(a, b) {
        Ordering::Less
    } else if shows_before(b, a) {
        Ordering::Greater
    } else {
        Ordering::Equal
    }
}

/// Two byte strings of which neither stands before the other are the same.
pub proof fn lemma_bytes_order_is_total(a: Seq<u8>, b: Seq<u8>)
    requires
        !bytes_before(a, b),
        !bytes_before(b, a),
    ensures
        a == b,
    decreases a.len(),
{
    if a.len() == 0 || b.len() == 0 {
        assert(a =~= b);
    } else {
        lemma_bytes_order_is_total(a.skip(1), b.skip(1));
        assert(a =~= seq![a[0]] + a.skip(1));
        assert(b =~= seq![b[0]] + b.skip(1));
    }
}

/// No byte string stands before itself, and of two at most one stands
/// before the other.
pub proof fn lemma_bytes_order_is_strict(a: Seq<u8>, b: Seq<u8>)
    ensures
        !bytes_before(a, a),
        !(bytes_before(a, b) && bytes_before(b, a)),
    decreases a.len(),
{
    if a.len() > 0 {
        lemma_bytes_order_is_strict(a.skip(1), a.skip(1));
        if b.len() > 0 {
            lemma_bytes_order_is_strict(a.skip(1), b.skip(1));
        }
    }
}

/// What stands before something that stands before a third stands before
/// the third.
pub proof fn lemma_bytes_order_is_transitive(a: Seq<u8>, b: Seq<u8>, c: Seq<u8>)
    requires
        bytes_before(a, b),
        bytes_before(b, c),
    ensures
        bytes_before(a, c),
    decreases a.len(),
{
    if a.len() > 0 && b.len() > 0 && c.len() > 0 && a[0] == b[0] && b[0] == c[0] {
        lemma_bytes_order_is_transitive(a.skip(1), b.skip(1), c.skip(1));
    }
}

/// The order in which a listing is shown is a strict order that leaves no
/// two entries unordered but those that agree in depth, in kind and in the
/// bytes of their names: a sort by it has one outcome up to such entries.
pub proof fn lemma_listing_order_is_strict_and_total(
    a: FileItemView,
    b: FileItemView,
    c: FileItemView,
)
    ensures
        !shown_before(a, a),
        !(shown_before(a, b) && shown_before(b, a)),
        shown_before(a, b) && shown_before(b, c) ==> shown_before(a, c),
        !shown_before(a, b) && !shown_before(b, a) ==> a.depth == b.depth && a.is_directory
            == b.is_directory && encode_utf8(a.name) == encode_utf8(b.name),
{
    let na = encode_utf8(a.name);
    let nb = encode_utf8(b.name);
    let nc = encode_utf8(c.name);
    lemma_bytes_order_is_strict(na, na);
    lemma_bytes_order_is_strict(na, nb);
    if shown_before(a, b) && shown_before(b, c) {
        if a.depth == b.depth && b.depth == c.depth && a.is_directory == b.is_directory
            && b.is_directory == c.is_directory {
            lemma_bytes_order_is_transitive(na, nb, nc);
        }
    }
    if !shown_before(a, b) && !shown_before(b, a) {
        lemma_bytes_order_is_total(na, nb);
    }
}

} // verus!
