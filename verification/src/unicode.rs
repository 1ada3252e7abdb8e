//! What Unicode says of characters and bytes, from the standard library.
use vstd::prelude::*;
use vstd::utf8::{decode_utf8, is_ascii_chars, valid_utf8};

verus! {

/// A letter or a digit of ASCII.
pub open spec fn ascii_alphanumeric(c: char) -> bool {
    ||| 'a' <= c <= 'z'
    ||| 'A' <= c <= 'Z'
    ||| '0' <= c <= '9'
}

/// The small letter of a capital of ASCII, and any other character itself.
pub open spec fn ascii_lower(c: char) -> char {
    if 'A' <= c <= 'Z' {
        ((c as u32) + 32) as char
    } else {
        c
    }
}

/// What `str::to_lowercase` gives for a text that is not ASCII throughout.
pub uninterp spec fn unicode_lowercase(text: Seq<char>) -> Seq<char>;

/// What `String::from_utf8_lossy` gives for bytes that are not valid UTF-8.
pub uninterp spec fn replaced_text(bytes: Seq<u8>) -> Seq<char>;

/// Whether a character is a blank: it has the property White_Space of Unicode.
pub open spec fn whitespace(c: char) -> bool {
    ||| '\t' <= c <= '\r'
    ||| c == ' ' || c == '\u{85}' || c == '\u{a0}' || c == '\u{1680}'
    ||| '\u{2000}' <= c <= '\u{200a}'
    ||| c == '\u{2028}' || c == '\u{2029}' || c == '\u{202f}' || c == '\u{205f}' || c == '\u{3000}'
}

/// A text in small letters.
pub open spec fn lowercase(text: Seq<char>) -> Seq<char> {
    if is_ascii_chars(text) {
        text.map_values(|c: char| ascii_lower(c))
    } else {
        unicode_lowercase(text)
    }
}

/// The text that bytes encode; where they are not valid UTF-8, the text with
/// replacement characters for what is not.
pub open spec fn lossy_text(bytes: Seq<u8>) -> Seq<char> {
    if valid_utf8(bytes) {
        decode_utf8(bytes)
    } else {
        replaced_text(bytes)
    }
}

/// `char::is_whitespace`. Claimed of it: it holds of exactly the characters
/// with the property White_Space of Unicode.
#[verifier::external_body]
pub(crate) fn is_whitespace(c: char) -> (r: bool)
    ensures
        r == whitespace(c),
{
    c.is_whitespace()
}

/// `str::to_lowercase`. Claimed of it: it turns the capitals of an ASCII text
/// into small letters and leaves the rest, and for any other text the result
/// depends on the text alone.
#[verifier::external_body]
pub(crate) fn to_lowercase(text: &str) -> (r: String)
    ensures
        is_ascii_chars(text@) ==> r@ == text@.map_values(|c: char| ascii_lower(c)),
        !is_ascii_chars(text@) ==> r@ == unicode_lowercase(text@),
{
    text.to_lowercase()
}

/// `String::from_utf8_lossy`. Claimed of it: valid UTF-8 comes back as the
/// text that it encodes, and for any other bytes the result depends on the
/// bytes alone.
#[verifier::external_body]
pub(crate) fn from_utf8_lossy(bytes: &[u8]) -> (r: String)
    ensures
        valid_utf8(bytes@) ==> r@ == decode_utf8(bytes@),
        !valid_utf8(bytes@) ==> r@ == replaced_text(bytes@),
{
    String::from_utf8_lossy(bytes).into_owned()
}

// Laws

/// Whether two characters are the same but for the case of a letter of ASCII.
pub open spec fn same_letter(a: char, b: char) -> bool {
    ||| a == b
    ||| 'A' <= a <= 'Z' && b as u32 == a as u32 + 32
    ||| 'A' <= b <= 'Z' && a as u32 == b as u32 + 32
}

/// Small letters are equal exactly where the characters are, but for their
/// case: of texts of ASCII with as many characters.
pub proof fn law_small_letters_forget_the_case(a: Seq<char>, b: Seq<char>)
    requires
        is_ascii_chars(a),
        is_ascii_chars(b),
    ensures
        lowercase(a) == lowercase(b) <==> a.len() == b.len() && forall|i: int|
            0 <= i < a.len() ==> same_letter(#[trigger] a[i], b[i]),
        lowercase(a).len() == a.len(),
        forall|i: int| 0 <= i < a.len() ==> !('A' <= #[trigger] lowercase(a)[i] <= 'Z'),
        lowercase(lowercase(a)) == lowercase(a),
        (forall|i: int| 0 <= i < a.len() ==> !('A' <= #[trigger] a[i] <= 'Z')) ==> lowercase(a)
            == a,
{
    let la = lowercase(a);
    let lb = lowercase(b);
    assert(la.len() == a.len() && lb.len() == b.len());
    if la == lb {
        assert forall|i: int| 0 <= i < a.len() implies same_letter(#[trigger] a[i], b[i]) by {
            assert(la[i] == lb[i]);
            assert(la[i] == ascii_lower(a[i]) && lb[i] == ascii_lower(b[i]));
        }
    }
    if a.len() == b.len() && forall|i: int| 0 <= i < a.len() ==> same_letter(#[trigger] a[i], b[i]) {
        assert forall|i: int| 0 <= i < a.len() implies la[i] == lb[i] by {
            assert(same_letter(a[i], b[i]));
        }
        assert(la =~= lb);
    }
    assert forall|i: int| 0 <= i < la.len() implies '\0' <= #[trigger] la[i] <= '\u{7f}' by {
        assert('\0' <= a[i] <= '\u{7f}');
    }
    assert(is_ascii_chars(la));
    assert(lowercase(la) =~= la);
    if forall|i: int| 0 <= i < a.len() ==> !('A' <= #[trigger] a[i] <= 'Z') {
        assert(la =~= a);
    }
}

} // verus!
