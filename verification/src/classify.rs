//! The unsupported-media classifier: a single predicate that maps an
//! error's human-readable message, lowercased, against a fixed set of
//! media-capability substrings (missing decoder/encoder/demuxer/muxer, no
//! suitable element, not negotiated, unsupported format or caps, and so
//! on). It is used for parse failures at pipeline construction and for
//! runtime error messages seen by the bus watcher.

use vstd::prelude::*;

use crate::text::str_to_chars;

verus! {

/// What `str::to_lowercase` returns for a string; the result depends on
/// the characters alone.
pub uninterp spec fn lower_of(s: Seq<char>) -> Seq<char>;

/// Relies on `str::to_lowercase`: the lowercase mapping of the string,
/// which is a function of its characters alone.
#[verifier::external_body]
fn lowercase(s: &str) -> (r: String)
    ensures
        r@ == lower_of(s@),
{
    s.to_lowercase()
}

/// True when `needle` occurs contiguously inside `hay`.
pub open spec fn is_substring_of(needle: Seq<char>, hay: Seq<char>) -> bool {
    exists|k: int|
        0 <= k <= hay.len() - needle.len() && #[trigger] hay.subrange(k, k + needle.len() as int)
            == needle
}

/// True when the (already lowercased) message matches the curated set of
/// media-capability patterns.
pub open spec fn has_media_pattern(s: Seq<char>) -> bool {
    ||| is_substring_of("no suitable"@, s)
    ||| is_substring_of("missing plugin"@, s)
    ||| is_substring_of("missing element"@, s)
    ||| is_substring_of("codec not found"@, s)
    ||| is_substring_of("could not determine type"@, s)
    ||| is_substring_of("unhandled"@, s)
    ||| is_substring_of("not supported"@, s)
    ||| is_substring_of("unsupported"@, s)
    ||| is_substring_of("no decoder"@, s)
    ||| is_substring_of("no encoder"@, s)
    ||| is_substring_of("no demuxer"@, s)
    ||| is_substring_of("no muxer"@, s)
    ||| is_substring_of("format not supported"@, s)
    ||| is_substring_of("caps not supported"@, s)
    ||| is_substring_of("not negotiated"@, s)
    ||| is_substring_of("stream type not supported"@, s)
}

/// Whether `needle` occurs contiguously inside `hay`.
pub fn contains_substring(hay: &Vec<char>, needle: &str) -> (r: bool)
    ensures
        r == is_substring_of(needle@, hay@),
{
    let ncs = str_to_chars(needle);
    let n = ncs.len();
    let h = hay.len();
    if n > h {
        assert(!is_substring_of(needle@, hay@));
        return false;
    }
    if n == 0 {
        assert(is_substring_of(needle@, hay@)) by {
            assert(hay@.subrange(0, 0 + needle@.len() as int) =~= needle@);
        }
        return true;
    }
    let mut k: usize = 0;
    while k <= h - n
        invariant
            1 <= n <= h,
            n == ncs@.len(),
            ncs@ == needle@,
            h == hay@.len(),
            k <= h - n + 1,
            forall|k2: int|
                0 <= k2 < k ==> #[trigger] hay@.subrange(k2, k2 + n as int) != needle@,
        decreases h - n + 1 - k,
    {
        let mut j: usize = 0;
        let mut matched = true;
        while j < n
            invariant
                n == ncs@.len(),
                ncs@ == needle@,
                h == hay@.len(),
                k + n <= h,
                j <= n,
                matched ==> forall|j2: int|
                    0 <= j2 < j ==> hay@[k + j2] == #[trigger] needle@[j2],
                !matched ==> hay@.subrange(k as int, k as int + n as int) != needle@,
            decreases n - j,
        {
            if matched && hay[k + j] != ncs[j] {
                assert(hay@.subrange(k as int, k as int + n as int)[j as int] != needle@[j as int]);
                matched = false;
            }
            j += 1;
        }
        if matched {
            assert(hay@.subrange(k as int, k as int + n as int) =~= needle@);
            return true;
        }
        k += 1;
    }
    assert forall|k2: int|
        0 <= k2 <= hay@.len() - needle@.len() implies #[trigger] hay@.subrange(
        k2,
        k2 + needle@.len() as int,
    ) != needle@ by {
        assert(k2 < k);
    }
    false
}

/// Whether the already-lowercased message matches the media-capability
/// pattern set.
pub fn matches_media_pattern(lowered: &str) -> (r: bool)
    ensures
        r == has_media_pattern(lowered@),
{
    let h = str_to_chars(lowered);
    contains_substring(&h, "no suitable") || contains_substring(&h, "missing plugin")
        || contains_substring(&h, "missing element") || contains_substring(&h, "codec not found")
        || contains_substring(&h, "could not determine type") || contains_substring(&h, "unhandled")
        || contains_substring(&h, "not supported") || contains_substring(&h, "unsupported")
        || contains_substring(&h, "no decoder") || contains_substring(&h, "no encoder")
        || contains_substring(&h, "no demuxer") || contains_substring(&h, "no muxer")
        || contains_substring(&h, "format not supported") || contains_substring(
        &h,
        "caps not supported",
    ) || contains_substring(&h, "not negotiated") || contains_substring(
        &h,
        "stream type not supported",
    )
}

/// Checks whether a framework error message indicates unsupported media
/// (missing codec, format, and so on). Returns the original, unlowercased
/// message when it does, and `None` otherwise. Allocates one lowercased
/// copy of the message per invocation.
pub fn is_media_not_supported_error(message: &str) -> (r: Option<String>)
    ensures
        match r {
            Some(m) => has_media_pattern(lower_of(message@)) && m@ == message@,
            None => !has_media_pattern(lower_of(message@)),
        },
{
    let low = lowercase(message);
    if matches_media_pattern(low.as_str()) {
        Some(message.to_owned())
    } else {
        None
    }
}

} // verus!
