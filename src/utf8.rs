//! UTF-8 well-formedness, and the two decoders of std that the terminal
//! and log files rely on.
use vstd::prelude::*;

verus! {

/// A continuation byte: `10xxxxxx`.
pub open spec fn is_cont(b: u8) -> bool {
    0x80 <= b <= 0xBF
}

/// Well-formed UTF-8, byte by byte as the Unicode standard's table of
/// well-formed sequences gives it: no overlong forms, no surrogates,
/// nothing above U+10FFFF.
pub open spec fn valid_utf8(s: Seq<u8>) -> bool
    decreases s.len(),
{
    if s.len() == 0 {
        true
    } else {
        let b0 = s[0];
        if b0 < 0x80 {
            valid_utf8(s.subrange(1, s.len() as int))
        } else if 0xC2 <= b0 <= 0xDF {
            s.len() >= 2 && is_cont(s[1]) && valid_utf8(s.subrange(2, s.len() as int))
        } else if 0xE0 <= b0 <= 0xEF {
            s.len() >= 3 && is_cont(s[1]) && is_cont(s[2]) && (b0 == 0xE0 ==> s[1] >= 0xA0) && (
            b0 == 0xED ==> s[1] <= 0x9F) && valid_utf8(s.subrange(3, s.len() as int))
        } else if 0xF0 <= b0 <= 0xF4 {
            s.len() >= 4 && is_cont(s[1]) && is_cont(s[2]) && is_cont(s[3]) && (b0 == 0xF0
                ==> s[1] >= 0x90) && (b0 == 0xF4 ==> s[1] <= 0x8F) && valid_utf8(
                s.subrange(4, s.len() as int),
            )
        } else {
            false
        }
    }
}

/// The text that `String::from_utf8` decodes from well-formed bytes.
pub uninterp spec fn utf8_text(b: Seq<u8>) -> Seq<char>;

/// The text that `String::from_utf8_lossy` makes of any bytes.
pub uninterp spec fn lossy_text(b: Seq<u8>) -> Seq<char>;

/// Relies on `String::from_utf8`: it succeeds exactly on well-formed UTF-8,
/// and then holds the decoded text.
#[verifier::external_body]
pub(crate) fn decode_utf8(bytes: Vec<u8>) -> (r: Option<String>)
    ensures
        r is Some <==> valid_utf8(bytes@),
        r is Some ==> r->Some_0@ == utf8_text(bytes@),
{
    String::from_utf8(bytes).ok()
}

/// Relies on `String::from_utf8_lossy`: well-formed input decodes as
/// `String::from_utf8` decodes it, and every ill-formed sequence is
/// replaced by U+FFFD, so ill-formed input always yields that character.
#[verifier::external_body]
pub(crate) fn decode_lossy(bytes: &[u8]) -> (r: String)
    ensures
        r@ == lossy_text(bytes@),
        valid_utf8(bytes@) ==> r@ == utf8_text(bytes@),
        !valid_utf8(bytes@) ==> r@.contains('\u{FFFD}'),
{
    String::from_utf8_lossy(bytes).into_owned()
}

} // verus!
