//! File-name logic: extracting an extension, matching it against the
//! supported raster formats ignoring ASCII case, and taking the
//! file-name part of a `/`-separated path.

use vstd::prelude::*;
use vstd::string::StrSliceExecFns;

use crate::constraint::OutputFormat;

verus! {

/// The index of the last occurrence of `c` in `s`, or `-1` if there is
/// none.
pub open spec fn last_index_of(s: Seq<char>, c: char) -> int
    decreases s.len(),
{
    if s.len() == 0 {
        -1
    } else if s[s.len() - 1] == c {
        s.len() - 1
    } else {
        last_index_of(s.drop_last(), c)
    }
}

/// Where `c` does not occur at or after position `j`, the last
/// occurrence in the whole sequence is the last occurrence in the
/// prefix before `j`.
proof fn lemma_last_index_take(s: Seq<char>, c: char, j: int)
    requires
        0 <= j <= s.len(),
        forall|k: int| j <= k < s.len() ==> s[k] != c,
    ensures
        last_index_of(s, c) == last_index_of(s.take(j), c),
    decreases s.len() - j,
{
    if j == s.len() {
        assert(s.take(j) =~= s);
    } else {
        assert(s.drop_last() =~= s.take(s.len() - 1));
        lemma_last_index_take(s.take(s.len() - 1), c, j);
        assert(s.take(s.len() - 1).take(j) =~= s.take(j));
    }
}

/// Find the index of the last occurrence of `c` in `s`, if any.
fn find_last(s: &str, c: char) -> (r: Option<usize>)
    ensures
        r matches Some(i) ==> i < s@.len() && last_index_of(s@, c) == i,
        r is None ==> last_index_of(s@, c) == -1,
{
    let len = s.unicode_len();
    let mut j = len;
    while j > 0
        invariant
            j <= len,
            len == s@.len(),
            forall|k: int| j <= k < s@.len() ==> s@[k] != c,
        decreases j,
    {
        let ch = s.get_char(j - 1);
        if ch == c {
            proof {
                lemma_last_index_take(s@, c, j as int);
                assert(s@.take(j as int)[j - 1] == s@[j - 1]);
            }
            return Some(j - 1);
        }
        j = j - 1;
    }
    proof {
        lemma_last_index_take(s@, c, 0);
    }
    None
}

/// The extension of a file name: what follows the last dot, unless
/// there is no dot or the name starts with its only dot (a hidden
/// file, which has no extension).
pub open spec fn ext_of(name: Seq<char>) -> Option<Seq<char>> {
    let j = last_index_of(name, '.');
    if j <= 0 {
        None
    } else {
        Some(name.subrange(j + 1, name.len() as int))
    }
}

/// Extract the extension of a file name, if it has one.
pub fn extension_of(name: &str) -> (r: Option<&str>)
    ensures
        r is Some <==> ext_of(name@) is Some,
        r matches Some(e) ==> e@ == ext_of(name@)->0,
{
    match find_last(name, '.') {
        Some(j) => {
            if j > 0 {
                let len = name.unicode_len();
                Some(name.substring_char(j + 1, len))
            } else {
                None
            }
        },
        None => None,
    }
}

/// Case-insensitive equality on one character, for ASCII letters: the
/// right-hand side is expected in lower case.
pub open spec fn chars_eq_ci(a: char, b: char) -> bool {
    a == b || (65 <= a as u32 <= 90 && a as u32 + 32 == b as u32)
}

/// Case-insensitive equality with a lower-case pattern.
pub open spec fn seq_eq_ci(s: Seq<char>, t: Seq<char>) -> bool {
    s.len() == t.len() && forall|i: int| 0 <= i < s.len() ==> chars_eq_ci(s[i], t[i])
}

/// Compare `s` with a lower-case pattern, ignoring ASCII case in `s`.
fn str_eq_ci(s: &str, pat: &str) -> (r: bool)
    ensures
        r == seq_eq_ci(s@, pat@),
{
    let n = s.unicode_len();
    let m = pat.unicode_len();
    if n != m {
        return false;
    }
    let mut i: usize = 0;
    while i < n
        invariant
            i <= n,
            n == s@.len(),
            n == pat@.len(),
            forall|k: int| 0 <= k < i ==> chars_eq_ci(s@[k], pat@[k]),
        decreases n - i,
    {
        let a = s.get_char(i);
        let b = pat.get_char(i);
        let au = a as u32;
        let bu = b as u32;
        if !(a == b || (65 <= au && au <= 90 && au + 32 == bu)) {
            assert(!chars_eq_ci(s@[i as int], pat@[i as int]));
            return false;
        }
        i = i + 1;
    }
    true
}

/// A file name the enumerator accepts: its extension is one of `jpg`,
/// `jpeg`, `png`, `gif`, `bmp`, ignoring ASCII case.
pub open spec fn supported_image_name(name: Seq<char>) -> bool {
    match ext_of(name) {
        Some(e) => seq_eq_ci(e, "jpg"@) || seq_eq_ci(e, "jpeg"@) || seq_eq_ci(e, "png"@)
            || seq_eq_ci(e, "gif"@) || seq_eq_ci(e, "bmp"@),
        None => false,
    }
}

/// Does the file name carry a supported raster-image extension?
pub fn is_supported_image_name(name: &str) -> (r: bool)
    ensures
        r == supported_image_name(name@),
{
    match extension_of(name) {
        Some(e) => str_eq_ci(e, "jpg") || str_eq_ci(e, "jpeg") || str_eq_ci(e, "png") || str_eq_ci(
            e,
            "gif",
        ) || str_eq_ci(e, "bmp"),
        None => false,
    }
}

/// The output format an extension resolves to, ignoring ASCII case.
pub open spec fn format_of_ext(e: Seq<char>) -> Option<OutputFormat> {
    if seq_eq_ci(e, "png"@) {
        Some(OutputFormat::Png)
    } else if seq_eq_ci(e, "jpg"@) || seq_eq_ci(e, "jpeg"@) {
        Some(OutputFormat::Jpeg)
    } else if seq_eq_ci(e, "gif"@) {
        Some(OutputFormat::Gif)
    } else if seq_eq_ci(e, "bmp"@) {
        Some(OutputFormat::Bmp)
    } else if seq_eq_ci(e, "ico"@) {
        Some(OutputFormat::Ico)
    } else if seq_eq_ci(e, "tif"@) || seq_eq_ci(e, "tiff"@) {
        Some(OutputFormat::Tiff)
    } else if seq_eq_ci(e, "tga"@) {
        Some(OutputFormat::Tga)
    } else if seq_eq_ci(e, "qoi"@) {
        Some(OutputFormat::Qoi)
    } else if seq_eq_ci(e, "pbm"@) || seq_eq_ci(e, "pam"@) || seq_eq_ci(e, "ppm"@) || seq_eq_ci(
        e,
        "pgm"@,
    ) {
        Some(OutputFormat::Pnm)
    } else if seq_eq_ci(e, "ff"@) || seq_eq_ci(e, "farbfeld"@) {
        Some(OutputFormat::Farbfeld)
    } else if seq_eq_ci(e, "exr"@) {
        Some(OutputFormat::OpenExr)
    } else if seq_eq_ci(e, "webp"@) {
        Some(OutputFormat::WebP)
    } else {
        None
    }
}

/// Resolve an extension to the output format it names, if any.
pub fn format_from_extension(e: &str) -> (r: Option<OutputFormat>)
    ensures
        r == format_of_ext(e@),
{
    if str_eq_ci(e, "png") {
        Some(OutputFormat::Png)
    } else if str_eq_ci(e, "jpg") || str_eq_ci(e, "jpeg") {
        Some(OutputFormat::Jpeg)
    } else if str_eq_ci(e, "gif") {
        Some(OutputFormat::Gif)
    } else if str_eq_ci(e, "bmp") {
        Some(OutputFormat::Bmp)
    } else if str_eq_ci(e, "ico") {
        Some(OutputFormat::Ico)
    } else if str_eq_ci(e, "tif") || str_eq_ci(e, "tiff") {
        Some(OutputFormat::Tiff)
    } else if str_eq_ci(e, "tga") {
        Some(OutputFormat::Tga)
    } else if str_eq_ci(e, "qoi") {
        Some(OutputFormat::Qoi)
    } else if str_eq_ci(e, "pbm") || str_eq_ci(e, "pam") || str_eq_ci(e, "ppm") || str_eq_ci(
        e,
        "pgm",
    ) {
        Some(OutputFormat::Pnm)
    } else if str_eq_ci(e, "ff") || str_eq_ci(e, "farbfeld") {
        Some(OutputFormat::Farbfeld)
    } else if str_eq_ci(e, "exr") {
        Some(OutputFormat::OpenExr)
    } else if str_eq_ci(e, "webp") {
        Some(OutputFormat::WebP)
    } else {
        None
    }
}

/// The file-name part of a path: everything after the last separator,
/// or the whole path if it has none.  Both `/` and `\` separate, so
/// paths of either convention are handled; a name that itself contains
/// a backslash is accordingly truncated at it.
pub open spec fn base_name_of(path: Seq<char>) -> Seq<char> {
    let j = if last_index_of(path, '/') >= last_index_of(path, '\\') {
        last_index_of(path, '/')
    } else {
        last_index_of(path, '\\')
    };
    path.subrange(j + 1, path.len() as int)
}

/// Take the file-name part of a path.
pub fn file_name_of(path: &str) -> (r: &str)
    ensures
        r@ == base_name_of(path@),
{
    let len = path.unicode_len();
    let fwd = find_last(path, '/');
    let back = find_last(path, '\\');
    let start: usize = match (fwd, back) {
        (Some(i), Some(j)) => if i >= j {
            i + 1
        } else {
            j + 1
        },
        (Some(i), None) => i + 1,
        (None, Some(j)) => j + 1,
        (None, None) => 0,
    };
    let r = path.substring_char(start, len);
    proof {
        assert(r@ =~= base_name_of(path@));
    }
    r
}

} // verus!
