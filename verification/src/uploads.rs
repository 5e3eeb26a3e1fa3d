//! The decision part of file-upload handling: which file name extensions
//! and content types an endpoint accepts, and the size cap.  Streaming,
//! storage and the sniffing that yields the content type belong to the
//! file-storage collaborator; this module only decides, from plain values,
//! whether an upload may be kept.

use vstd::prelude::*;

use crate::text::{lower_seq, views_of};
use crate::ApiError;

verus! {

/// The largest upload any endpoint accepts, in bytes.
pub const MAX_FILE_SIZE: usize = 10 * 1024 * 1024;

/// Position of the last dot strictly before `j`, if any.
pub open spec fn last_dot_before(s: Seq<char>, j: int) -> Option<int>
    decreases j,
{
    if j <= 0 || j > s.len() {
        None
    } else if s[j - 1] == '.' {
        Some(j - 1)
    } else {
        last_dot_before(s, j - 1)
    }
}

/// The extension of a file name: what follows the last dot, or the whole
/// name when it has no dot.
pub open spec fn extension_of(s: Seq<char>) -> Seq<char> {
    match last_dot_before(s, s.len() as int) {
        Some(d) => s.subrange(d + 1, s.len() as int),
        None => s,
    }
}

/// The extension equals one of the allowed ones, compared without regard to
/// ASCII case.
pub open spec fn ext_allowed(ext: Seq<char>, allowed: Seq<Seq<char>>) -> bool {
    exists|i: int| 0 <= i < allowed.len() && lower_seq(#[trigger] allowed[i]) == lower_seq(ext)
}

/// Extracts the extension of a file name, as [`extension_of`] gives it.
pub fn extension_of_exec(name: &str) -> (r: String)
    ensures
        r@ == extension_of(name@),
{
    proof {
        reveal_strlit(".");
    }
    let n = name.unicode_len();
    let mut j: usize = n;
    while j > 0
        invariant
            j <= n,
            n == name@.len(),
            last_dot_before(name@, n as int) == last_dot_before(name@, j as int),
        decreases j,
    {
        if name.get_char(j - 1) == '.' {
            let ext = name.substring_char(j, n);
            return String::from_str(ext);
        }
        j -= 1;
    }
    String::from_str(name)
}

fn seq_eq_ci(a: &str, b: &str) -> (r: bool)
    ensures
        r == (lower_seq(a@) == lower_seq(b@)),
{
    let al = a.unicode_len();
    let bl = b.unicode_len();
    if al != bl {
        proof {
            assert(lower_seq(a@).len() != lower_seq(b@).len());
        }
        return false;
    }
    let mut i: usize = 0;
    while i < al
        invariant
            i <= al,
            al == a@.len(),
            bl == b@.len(),
            al == bl,
            forall|k: int| 0 <= k < i ==> lower_seq(a@)[k] == lower_seq(b@)[k],
        decreases al - i,
    {
        let ca = a.get_char(i) as u32;
        let cb = b.get_char(i) as u32;
        let la = if 65 <= ca && ca <= 90 {
            ca + 32
        } else {
            ca
        };
        let lb = if 65 <= cb && cb <= 90 {
            cb + 32
        } else {
            cb
        };
        if la != lb {
            proof {
                assert(lower_seq(a@)[i as int] != lower_seq(b@)[i as int]);
            }
            return false;
        }
        i += 1;
    }
    proof {
        assert(lower_seq(a@) =~= lower_seq(b@));
    }
    true
}

/// Decides whether an upload may be kept: its size must not exceed
/// [`MAX_FILE_SIZE`] and the extension of its name must be on the
/// endpoint's allow-list.  On success the extension is returned, for the
/// storage collaborator to build the stored name from.
pub fn validate_upload(filename: &str, size: usize, allowed: &Vec<String>) -> (r: Result<
    String,
    ApiError,
>)
    ensures
        match r {
            Ok(ext) => {
                &&& ext@ == extension_of(filename@)
                &&& ext_allowed(ext@, views_of(allowed@))
                &&& size <= MAX_FILE_SIZE
            },
            Err(e) => e == ApiError::Validation && (size > MAX_FILE_SIZE || !ext_allowed(
                extension_of(filename@),
                views_of(allowed@),
            )),
        },
{
    if size > MAX_FILE_SIZE {
        return Err(ApiError::Validation);
    }
    let ext = extension_of_exec(filename);
    let mut i: usize = 0;
    while i < allowed.len()
        invariant
            i <= allowed@.len(),
            size <= MAX_FILE_SIZE,
            ext@ == extension_of(filename@),
            forall|k: int|
                0 <= k < i ==> lower_seq(views_of(allowed@)[k]) != lower_seq(ext@),
        decreases allowed@.len() - i,
    {
        if seq_eq_ci(allowed[i].as_str(), ext.as_str()) {
            proof {
                assert(views_of(allowed@)[i as int] == allowed@[i as int]@);
                assert(lower_seq(views_of(allowed@)[i as int]) == lower_seq(ext@));
            }
            return Ok(ext);
        }
        i += 1;
    }
    Err(ApiError::Validation)
}

/// The detected content type equals one of the allowed ones exactly.
pub open spec fn mime_allowed(mime: Seq<char>, allowed: Seq<Seq<char>>) -> bool {
    exists|i: int| 0 <= i < allowed.len() && #[trigger] allowed[i] == mime
}

/// Decides whether the content type detected for an upload is on the
/// endpoint's allow-list; a disallowed type is rejected as invalid.  The
/// detection itself, from the upload's leading bytes, is the storage
/// collaborator's work; this function decides on its result.
pub fn validate_content_type(mime: &str, allowed: &Vec<String>) -> (r: Result<(), ApiError>)
    ensures
        match r {
            Ok(_) => mime_allowed(mime@, views_of(allowed@)),
            Err(e) => e == ApiError::Validation && !mime_allowed(mime@, views_of(allowed@)),
        },
{
    let mut i: usize = 0;
    while i < allowed.len()
        invariant
            i <= allowed@.len(),
            forall|k: int| 0 <= k < i ==> views_of(allowed@)[k] != mime@,
        decreases allowed@.len() - i,
    {
        if crate::text::str_eq_str(allowed[i].as_str(), mime) {
            proof {
                assert(views_of(allowed@)[i as int] == allowed@[i as int]@);
            }
            return Ok(());
        }
        i += 1;
    }
    Err(ApiError::Validation)
}

} // verus!
