//! The values that a multipart upload saves for each form field, and the
//! names under which an uploaded image is kept and published.

use vstd::prelude::*;
use crate::text::{
    concatenate, is_white_space, starts_with, strip_all_prefixes, strip_all_prefixes_removes_copies,
    trim, trim_start_matches, trimmed, trimmed_keeps_the_core,
};

verus! {

/// One saved value of a multipart form field.
pub enum SavedValue {
    /// A short text field.
    Text(String),
    /// A field kept in memory as raw bytes.
    Bytes(Vec<u8>),
    /// A field written to a file at this path.
    File(String),
}

impl SavedValue {
    /// The path of a field saved to a file.
    pub open spec fn file_path(self) -> Option<Seq<char>> {
        match self {
            SavedValue::File(p) => Some(p@),
            _ => None,
        }
    }

    /// The text of a text field.
    pub open spec fn text(self) -> Option<Seq<char>> {
        match self {
            SavedValue::Text(t) => Some(t@),
            _ => None,
        }
    }
}

/// The saved file's path with `.png` appended.
pub open spec fn png_path(path: Seq<char>) -> Seq<char> {
    path + ".png"@
}

/// Where an uploaded file is moved: its `.png` path without surrounding
/// white space.
pub open spec fn renamed_path(path: Seq<char>) -> Seq<char> {
    trimmed(png_path(path))
}

/// The address under the static directory that is stored for an upload: the
/// `.png` path with every leading `static/` removed.
pub open spec fn static_url(path: Seq<char>) -> Seq<char> {
    strip_all_prefixes(png_path(path), "static/"@)
}

/// The address stored by the image uploader: the `.png` path with every
/// leading `/` removed.
pub open spec fn rooted_url(path: Seq<char>) -> Seq<char> {
    strip_all_prefixes(png_path(path), "/"@)
}

/// The path to which the file saved at `path` is renamed.
pub fn rename_target(path: &str) -> (r: String)
    ensures
        r@ == renamed_path(path@),
{
    let png = concatenate(path, ".png");
    String::from_str(trim(png.as_str()))
}

/// The address stored for the file saved at `path`, relative to the static
/// directory.
pub fn static_url_of(path: &str) -> (r: String)
    ensures
        r@ == static_url(path@),
{
    let png = concatenate(path, ".png");
    String::from_str(trim_start_matches(png.as_str(), "static/"))
}

/// The address stored by the image uploader for the file saved at `path`.
pub fn rooted_url_of(path: &str) -> (r: String)
    ensures
        r@ == rooted_url(path@),
{
    let png = concatenate(path, ".png");
    String::from_str(trim_start_matches(png.as_str(), "/"))
}

/// For a file saved under `static/` (once, with no white space around its
/// name), the stored address names the renamed file: `static/` followed by
/// the address is the path the file was moved to.
pub proof fn stored_url_names_renamed_file(rest: Seq<char>)
    requires
        !starts_with(rest, "static/"@),
        trimmed(png_path("static/"@ + rest)) == png_path("static/"@ + rest),
    ensures
        renamed_path("static/"@ + rest) == "static/"@ + static_url("static/"@ + rest),
{
    reveal_strlit("static/");
    reveal_strlit(".png");
    let s = "static/"@;
    let full = png_path(s + rest);
    let tail = rest + ".png"@;
    assert(full =~= s + tail);
    assert(full.take(7) =~= s);
    assert(full.skip(7) =~= tail);
    assert(!starts_with(tail, s)) by {
        if starts_with(tail, s) {
            if rest.len() >= 7 {
                assert(rest.take(7) =~= tail.take(7));
            } else {
                assert(tail.take(7)[6] == tail[6]);
                assert(tail[6] == ".png"@[6 - rest.len()]);
            }
        }
    }
    assert(strip_all_prefixes(tail, s) == tail);
    assert(strip_all_prefixes(full, s) == strip_all_prefixes(full.skip(7), s));
}

/// The image uploader's address is the `.png` path with only its leading
/// `/` characters removed; a path that does not begin with `/` is kept
/// whole.
pub proof fn rooted_url_strips_only_slashes(path: Seq<char>)
    ensures
        ({
            let s = path + ".png"@;
            let r = rooted_url(path);
            let d = s.len() - r.len();
            &&& 0 <= d <= s.len()
            &&& r == s.skip(d)
            &&& forall|i: int| 0 <= i < d ==> s[i] == '/'
            &&& r.len() > 0 && r[0] != '/'
        }),
        (path.len() == 0 || path[0] != '/') ==> rooted_url(path) == path + ".png"@,
{
    reveal_strlit("/");
    reveal_strlit(".png");
    let s = path + ".png"@;
    assert(png_path(path) == s);
    strip_all_prefixes_removes_copies(s, "/"@);
    let r = rooted_url(path);
    let d = s.len() - r.len();
    assert forall|i: int| 0 <= i < d implies s[i] == '/' by {
        assert(i % 1 == 0);
    }
    if r.len() == 0 {
        assert(s[s.len() - 1] == 'g');
        assert(s[s.len() - 1] == '/');
    }
    if r[0] == '/' {
        assert(r.take(1) =~= "/"@);
    }
    if path.len() == 0 || path[0] != '/' {
        assert(s[0] != '/');
        if starts_with(s, "/"@) {
            assert(s.take(1)[0] == s[0]);
        }
    }
}

/// The stored address of an upload is the `.png` path with whole leading
/// copies of `static/` removed, and it no longer begins with `static/`.
pub proof fn static_url_strips_only_static_dirs(path: Seq<char>)
    ensures
        ({
            let s = path + ".png"@;
            let r = static_url(path);
            let d = s.len() - r.len();
            &&& 0 <= d <= s.len()
            &&& r == s.skip(d)
            &&& d % 7 == 0
            &&& forall|i: int| 0 <= i < d ==> s[i] == "static/"@[i % 7]
            &&& !starts_with(r, "static/"@)
        }),
{
    reveal_strlit("static/");
    let s = path + ".png"@;
    assert(png_path(path) == s);
    strip_all_prefixes_removes_copies(s, "static/"@);
}

/// A file is renamed to its `.png` path without the white space around it:
/// a contiguous part of that path, with only white space before and after.
pub proof fn renamed_path_is_trimmed_png(path: Seq<char>)
    ensures
        exists|i: int, j: int|
            0 <= i <= j <= (path + ".png"@).len() && renamed_path(path) == (path
                + ".png"@).subrange(i, j) && (forall|k: int|
                0 <= k < i ==> is_white_space((path + ".png"@)[k])) && (forall|k: int|
                j <= k < (path + ".png"@).len() ==> is_white_space((path + ".png"@)[k])) && (i < j
                ==> !is_white_space((path + ".png"@)[i]) && !is_white_space(
                (path + ".png"@)[j - 1],
            )),
{
    assert(png_path(path) == path + ".png"@);
    trimmed_keeps_the_core(path + ".png"@);
}

} // verus!
