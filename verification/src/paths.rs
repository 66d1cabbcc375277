//! Output-path resolution.
//!
//! An output path is either given explicitly, and returned verbatim, or
//! derived from the input path as `{parent}/{stem}_p{size}.{extension}`.
//! The directory part of a path is everything before the last `/`; the file
//! name is everything after it; the extension is everything after the last
//! `.` of the file name, provided that `.` is not the file name's first
//! character (so a leading-dot name alone carries no extension).

use vstd::prelude::*;
use vstd::string::StrSliceExecFns;
use vstd::string::StringExecFns;

use crate::error::ThreshError;

verus! {

/// The digit character for a value below ten.
pub open spec fn digit_char(d: u8) -> char {
    if d == 0 {
        '0'
    } else if d == 1 {
        '1'
    } else if d == 2 {
        '2'
    } else if d == 3 {
        '3'
    } else if d == 4 {
        '4'
    } else if d == 5 {
        '5'
    } else if d == 6 {
        '6'
    } else if d == 7 {
        '7'
    } else if d == 8 {
        '8'
    } else {
        '9'
    }
}

/// The decimal rendering of an 8-bit value, without leading zeros.
pub open spec fn dec_str_u8(n: u8) -> Seq<char> {
    if n < 10 {
        seq![digit_char(n)]
    } else if n < 100 {
        seq![digit_char(n / 10), digit_char(n % 10)]
    } else {
        seq![digit_char(n / 100), digit_char((n / 10) % 10), digit_char(n % 10)]
    }
}

/// The one-character string for a digit.
fn digit_str(d: u8) -> (r: &'static str)
    requires
        d < 10,
    ensures
        r@ == seq![digit_char(d)],
{
    match d {
        0 => {
            proof {
                reveal_strlit("0");
                assert("0"@ =~= seq![digit_char(0u8)]);
            }
            "0"
        },
        1 => {
            proof {
                reveal_strlit("1");
                assert("1"@ =~= seq![digit_char(1u8)]);
            }
            "1"
        },
        2 => {
            proof {
                reveal_strlit("2");
                assert("2"@ =~= seq![digit_char(2u8)]);
            }
            "2"
        },
        3 => {
            proof {
                reveal_strlit("3");
                assert("3"@ =~= seq![digit_char(3u8)]);
            }
            "3"
        },
        4 => {
            proof {
                reveal_strlit("4");
                assert("4"@ =~= seq![digit_char(4u8)]);
            }
            "4"
        },
        5 => {
            proof {
                reveal_strlit("5");
                assert("5"@ =~= seq![digit_char(5u8)]);
            }
            "5"
        },
        6 => {
            proof {
                reveal_strlit("6");
                assert("6"@ =~= seq![digit_char(6u8)]);
            }
            "6"
        },
        7 => {
            proof {
                reveal_strlit("7");
                assert("7"@ =~= seq![digit_char(7u8)]);
            }
            "7"
        },
        8 => {
            proof {
                reveal_strlit("8");
                assert("8"@ =~= seq![digit_char(8u8)]);
            }
            "8"
        },
        _ => {
            proof {
                reveal_strlit("9");
                assert("9"@ =~= seq![digit_char(9u8)]);
            }
            "9"
        },
    }
}

/// Renders an 8-bit value in decimal, without leading zeros.
pub fn dec_string(n: u8) -> (s: String)
    ensures
        s@ == dec_str_u8(n),
{
    let mut s = String::new();
    if n >= 100 {
        s.append(digit_str(n / 100));
    }
    if n >= 10 {
        s.append(digit_str((n / 10) % 10));
    }
    s.append(digit_str(n % 10));
    proof {
        assert(s@ =~= dec_str_u8(n));
    }
    s
}

/// Finds the last occurrence of a character in a string, scanning from the
/// end; `None` when the character does not occur.
fn rfind_char(s: &str, c: char) -> (r: Option<usize>)
    ensures
        (r is Some) == (s@.index_of_last(c) is Some),
        r is Some ==> r->0 as int == s@.index_of_last(c)->0,
{
    proof {
        s@.index_of_last_ensures(c);
    }
    let n = s.unicode_len();
    let mut i = n;
    while i > 0
        invariant
            i <= n,
            n == s@.len(),
            forall|k: int| i <= k < n ==> s@[k] != c,
        decreases i,
    {
        i -= 1;
        if s.get_char(i) == c {
            proof {
                s@.index_of_last_ensures(c);
                assert(s@.contains(c));
                let w = s@.index_of_last(c)->0;
                assert(w == i) by {
                    if w < i {
                        assert(s@[i as int] != c);
                    }
                    if w > i {
                        assert(s@[w] != c);
                    }
                }
            }
            return Some(i);
        }
    }
    proof {
        s@.index_of_last_ensures(c);
        if s@.contains(c) {
            let w = choose|k: int| 0 <= k < s@.len() && s@[k] == c;
            assert(s@[w] != c);
        }
    }
    None
}

/// The file-name part of a path: everything after the last `/`, or the whole
/// path when there is no `/`.
pub open spec fn file_name_of(s: Seq<char>) -> Seq<char> {
    match s.index_of_last('/') {
        Some(i) => s.subrange(i + 1, s.len() as int),
        None => s,
    }
}

/// Whether a path carries everything output derivation needs: a directory
/// part, and a file name with a stem and an extension.
pub open spec fn has_path_components(s: Seq<char>) -> bool {
    &&& s.index_of_last('/') is Some
    &&& file_name_of(s).index_of_last('.') is Some
    &&& file_name_of(s).index_of_last('.')->0 >= 1
}

/// The output path derived from an input path and the pixel size:
/// `{parent}/{stem}_p{size}.{extension}`. Meaningful only on paths with all
/// components present.
pub open spec fn derived_output(s: Seq<char>, size: u8) -> Seq<char>
    recommends
        has_path_components(s),
{
    let i = s.index_of_last('/')->0;
    let f = file_name_of(s);
    let j = f.index_of_last('.')->0;
    s.subrange(0, i + 1) + f.subrange(0, j) + seq!['_', 'p'] + dec_str_u8(size) + seq!['.']
        + f.subrange(j + 1, f.len() as int)
}

/// Derives the output path `{parent}/{stem}_p{size}.{extension}` from the
/// input path; fails with `InvalidPath` exactly when the input path lacks a
/// directory part, a file stem or an extension.
fn derive_output_path(input_path: &str, pixel_size: u8) -> (r: Result<String, ThreshError>)
    ensures
        has_path_components(input_path@) ==> r is Ok && r->Ok_0@ == derived_output(
            input_path@,
            pixel_size,
        ),
        !has_path_components(input_path@) ==> r is Err && r->Err_0 == ThreshError::InvalidPath,
{
    let n = input_path.unicode_len();
    let si = match rfind_char(input_path, '/') {
        Some(i) => i,
        None => return Err(ThreshError::InvalidPath),
    };
    proof {
        input_path@.index_of_last_ensures('/');
    }
    let name = input_path.substring_char(si + 1, n);
    let m = name.unicode_len();
    let dj = match rfind_char(name, '.') {
        Some(j) if j >= 1 => j,
        _ => return Err(ThreshError::InvalidPath),
    };
    proof {
        name@.index_of_last_ensures('.');
    }
    let mut out = String::from_str(input_path.substring_char(0, si + 1));
    out.append(name.substring_char(0, dj));
    out.append("_p");
    let num = dec_string(pixel_size);
    out.append(num.as_str());
    out.append(".");
    out.append(name.substring_char(dj + 1, m));
    proof {
        reveal_strlit("_p");
        reveal_strlit(".");
        assert("_p"@ =~= seq!['_', 'p']);
        assert("."@ =~= seq!['.']);
        assert(out@ =~= derived_output(input_path@, pixel_size));
    }
    Ok(out)
}

/// Resolves the output path: an explicit output is returned verbatim with no
/// validation; otherwise the path is derived from the input path as
/// `{parent}/{stem}_p{size}.{extension}`, and the resolution fails with
/// `InvalidPath` exactly when the input path lacks a directory part, a file
/// stem or an extension.
pub fn resolve_output_path(input_path: &str, explicit_output: Option<String>, pixel_size: u8) -> (r:
    Result<String, ThreshError>)
    ensures
        explicit_output is Some ==> r is Ok && r->Ok_0@ == explicit_output->0@,
        explicit_output is None && has_path_components(input_path@) ==> r is Ok && r->Ok_0@
            == derived_output(input_path@, pixel_size),
        explicit_output is None && !has_path_components(input_path@) ==> r is Err && r->Err_0
            == ThreshError::InvalidPath,
{
    match explicit_output {
        Some(out) => Ok(out),
        None => derive_output_path(input_path, pixel_size),
    }
}

/// The directory part of an output path: everything before the last `/`.
/// Fails with `InvalidPath` exactly when the path has no `/` at all.
pub fn output_parent(path: &str) -> (r: Result<String, ThreshError>)
    ensures
        path@.index_of_last('/') is Some ==> r is Ok && r->Ok_0@ == path@.subrange(
            0,
            path@.index_of_last('/')->0,
        ),
        path@.index_of_last('/') is None ==> r is Err && r->Err_0 == ThreshError::InvalidPath,
{
    match rfind_char(path, '/') {
        Some(i) => {
            proof {
                path@.index_of_last_ensures('/');
            }
            Ok(String::from_str(path.substring_char(0, i)))
        },
        None => Err(ThreshError::InvalidPath),
    }
}

} // verus!
