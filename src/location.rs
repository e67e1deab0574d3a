use vstd::prelude::*;
use vstd::slice::slice_subrange;
use vstd::string::*;
use crate::diagnostics::LocationFailure;

verus! {

/// The text that a sequence of UTF-16 code units decodes to, or `None` when the
/// units are not well-formed UTF-16.
pub uninterp spec fn utf16_text(units: Seq<u16>) -> Option<Seq<char>>;

/// Relies on `String::from_utf16`: it fails exactly on ill-formed UTF-16, and its
/// text depends on the units alone.
#[verifier::external_body]
fn decode_utf16(units: &[u16]) -> (r: Option<String>)
    ensures
        match r {
            Some(s) => utf16_text(units@) == Some(s@),
            None => utf16_text(units@) is None,
        },
{
    String::from_utf16(units).ok()
}

pub open spec fn is_separator(c: char) -> bool {
    c == '\\' || c == '/'
}

/// `s[i]` is the dot that starts the extension of the last path component.
pub open spec fn is_extension_dot(s: Seq<char>, i: int) -> bool {
    &&& 0 <= i < s.len()
    &&& s[i] == '.'
    &&& forall|j: int| i < j < s.len() ==> s[j] != '.' && !is_separator(#[trigger] s[j])
}

/// The configuration path beside an image path: its extension replaced by `.ini`;
/// `None` when the file name has no extension.
pub open spec fn config_path_of(s: Seq<char>) -> Option<Seq<char>> {
    if exists|i: int| is_extension_dot(s, i) {
        let i = choose|i: int| is_extension_dot(s, i);
        Some(s.take(i) + ".ini"@)
    } else {
        None
    }
}

proof fn lemma_extension_dot_unique(s: Seq<char>, i: int, k: int)
    requires
        is_extension_dot(s, i),
        is_extension_dot(s, k),
    ensures
        i == k,
{
    if i < k {
        assert(s[k] != '.');
    }
    if k < i {
        assert(s[i] != '.');
    }
}

fn find_extension_dot(s: &str) -> (r: Option<usize>)
    ensures
        match r {
            Some(i) => is_extension_dot(s@, i as int),
            None => !exists|i: int| is_extension_dot(s@, i),
        },
{
    let n = s.unicode_len();
    let mut i: usize = n;
    while i > 0
        invariant
            n == s@.len(),
            i <= n,
            forall|j: int| i <= j < n ==> s@[j] != '.' && !is_separator(#[trigger] s@[j]),
        decreases i,
    {
        let c = s.get_char(i - 1);
        if c == '.' {
            return Some(i - 1);
        }
        if c == '\\' || c == '/' {
            assert forall|k: int| !is_extension_dot(s@, k) by {
                if is_extension_dot(s@, k) {
                    if k < i - 1 {
                        assert(!is_separator(s@[i - 1]));
                    }
                }
            }
            return None;
        }
        i = i - 1;
    }
    assert forall|k: int| !is_extension_dot(s@, k) by {
        if is_extension_dot(s@, k) {
            assert(s@[k] != '.');
        }
    }
    None
}

/// The configuration path beside the image at `image_path`; `None` when the
/// image's file name has no extension.
pub fn config_path_for(image_path: &str) -> (r: Option<String>)
    ensures
        match r {
            Some(p) => config_path_of(image_path@) == Some(p@),
            None => config_path_of(image_path@) is None,
        },
{
    match find_extension_dot(image_path) {
        Some(i) => {
            proof {
                let k = choose|k: int| is_extension_dot(image_path@, k);
                lemma_extension_dot_unique(image_path@, i as int, k);
            }
            let mut p = String::from_str(image_path.substring_char(0, i));
            p.append(".ini");
            assert(p@ =~= image_path@.take(i as int) + ".ini"@);
            Some(p)
        },
        None => None,
    }
}

/// Where the configuration file is, given the first `len` units of a buffer
/// that the operating system filled with the image path.
pub open spec fn located_config(units: Seq<u16>, len: nat) -> Result<Seq<char>, LocationFailure> {
    if len == 0 {
        Err(LocationFailure::EmptyPath)
    } else if len >= units.len() {
        Err(LocationFailure::Truncated)
    } else {
        match utf16_text(units.take(len as int)) {
            None => Err(LocationFailure::NotUtf16),
            Some(path) => match config_path_of(path) {
                None => Err(LocationFailure::NoExtension),
                Some(c) => Ok(c),
            },
        }
    }
}

/// Derives the configuration path from an image path buffer of which the operating
/// system reported `len` units as filled. A length that reaches the end of the
/// buffer means the path may have been cut short, and is refused.
pub fn config_path_from_module(units: &[u16], len: u32) -> (r: Result<String, LocationFailure>)
    ensures
        match r {
            Ok(p) => located_config(units@, len as nat) == Ok::<Seq<char>, LocationFailure>(p@),
            Err(e) => located_config(units@, len as nat) == Err::<Seq<char>, LocationFailure>(e),
        },
{
    let n = len as usize;
    if n == 0 {
        return Err(LocationFailure::EmptyPath);
    }
    if n >= units.len() {
        return Err(LocationFailure::Truncated);
    }
    let filled = slice_subrange(units, 0, n);
    assert(filled@ =~= units@.take(n as int));
    match decode_utf16(filled) {
        None => Err(LocationFailure::NotUtf16),
        Some(path) => match config_path_for(path.as_str()) {
            None => Err(LocationFailure::NoExtension),
            Some(p) => Ok(p),
        },
    }
}

/// An image path with no `.` at all gives no configuration path: the location fails
/// rather than anything being loaded.
pub proof fn lemma_path_without_dot_fails(units: Seq<u16>, len: nat)
    requires
        0 < len < units.len(),
        utf16_text(units.take(len as int)) is Some,
        forall|i: int|
            0 <= i < utf16_text(units.take(len as int))->0.len() ==> utf16_text(
                units.take(len as int),
            )->0[i] != '.',
    ensures
        located_config(units, len) == Err::<Seq<char>, LocationFailure>(LocationFailure::NoExtension),
{
    let path = utf16_text(units.take(len as int))->0;
    assert(!exists|i: int| is_extension_dot(path, i));
}

/// A reported length that reaches the end of the buffer is a location failure.
pub proof fn lemma_full_buffer_fails(units: Seq<u16>, len: nat)
    requires
        len > 0,
        len >= units.len(),
    ensures
        located_config(units, len) == Err::<Seq<char>, LocationFailure>(LocationFailure::Truncated),
{
}

} // verus!
