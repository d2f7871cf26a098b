//! Strings on the character model.

use vstd::prelude::*;
use vstd::string::*;

verus! {

/// The characters of each name in a list.
pub open spec fn names_view(names: Seq<&str>) -> Seq<Seq<char>> {
    Seq::new(names.len(), |i: int| names[i]@)
}

/// Two strings with the same UTF-8 encoding hold the same characters.
pub proof fn lemma_encoding_is_injective(a: Seq<char>, b: Seq<char>)
    requires
        vstd::utf8::encode_utf8(a) == vstd::utf8::encode_utf8(b),
    ensures
        a == b,
{
    vstd::utf8::encode_utf8_decode_utf8(a);
    vstd::utf8::encode_utf8_decode_utf8(b);
}

/// Whether two byte strings are equal.
pub fn bytes_equal(a: &[u8], b: &[u8]) -> (r: bool)
    ensures
        r == (a@ == b@),
{
    if a.len() != b.len() {
        return false;
    }
    let mut i: usize = 0;
    while i < a.len()
        invariant
            a@.len() == b@.len(),
            i <= a@.len(),
            forall|j: int| 0 <= j < i ==> a@[j] == b@[j],
        decreases a@.len() - i,
    {
        if a[i] != b[i] {
            return false;
        }
        i = i + 1;
    }
    assert(a@ =~= b@);
    true
}

/// Whether two strings hold the same characters.
pub fn str_equal(a: &str, b: &str) -> (r: bool)
    ensures
        r == (a@ == b@),
{
    let r = bytes_equal(a.as_bytes(), b.as_bytes());
    proof {
        if r {
            lemma_encoding_is_injective(a@, b@);
        }
    }
    r
}

/// What follows `prefix` in `text`; `None` where `text` does not start so.
pub fn strip_prefix<'a>(text: &'a str, prefix: &str) -> (r: Option<&'a str>)
    ensures
        r is Some <==> prefix@.is_prefix_of(text@),
        r matches Some(rest) ==> rest@ == text@.skip(prefix@.len() as int),
{
    let text_len: usize = text.unicode_len();
    let prefix_len: usize = prefix.unicode_len();
    if prefix_len > text_len {
        return None;
    }
    if str_equal(text.substring_char(0, prefix_len), prefix) {
        assert(text@.subrange(0, prefix_len as int) =~= prefix@);
        assert(text@.subrange(prefix_len as int, text_len as int) =~= text@.skip(
            prefix_len as int,
        ));
        Some(text.substring_char(prefix_len, text_len))
    } else {
        assert(!(prefix@ =~= text@.subrange(0, prefix_len as int)));
        None
    }
}

/// What `{:?}` prints for a string.
pub uninterp spec fn debug_text(text: Seq<char>) -> Seq<char>;

/// What `String::from_utf8_lossy` reads in these bytes.
pub uninterp spec fn lossy_text(bytes: Seq<u8>) -> Seq<char>;

/// Whether a string holds only ASCII letters, digits and underscores.
pub open spec fn is_word(text: Seq<char>) -> bool {
    forall|i: int|
        0 <= i < text.len() ==> {
            let c = #[trigger] text[i];
            ('a' <= c && c <= 'z') || ('A' <= c && c <= 'Z') || ('0' <= c && c <= '9') || c == '_'
        }
}

/// A string in double quotes.
pub open spec fn quoted(text: Seq<char>) -> Seq<char> {
    "\""@ + text + "\""@
}

/// A string as `{:?}` prints it: a word just stands in quotes.
pub open spec fn debug_form(text: Seq<char>) -> Seq<char> {
    if is_word(text) {
        quoted(text)
    } else {
        debug_text(text)
    }
}

/// Bytes as text: what they encode, or else what can be read of them.
pub open spec fn readable(bytes: Seq<u8>) -> Seq<char> {
    if vstd::utf8::valid_utf8(bytes) {
        vstd::utf8::decode_utf8(bytes)
    } else {
        lossy_text(bytes)
    }
}

/// Calls the `Debug` formatting of `str`. It puts the string in double quotes
/// and escapes some of its characters, but no letter, digit or underscore.
#[verifier::external_body]
pub(crate) fn debug_quote(text: &str) -> (r: String)
    ensures
        r@ == debug_text(text@),
        is_word(text@) ==> r@ == quoted(text@),
{
    format!("{text:?}")
}

/// Calls `String::from_utf8_lossy`. It reads valid UTF-8 as what it encodes,
/// and puts replacement characters where bytes are not valid.
#[verifier::external_body]
pub(crate) fn read_lossy(bytes: &[u8]) -> (r: String)
    ensures
        r@ == lossy_text(bytes@),
        vstd::utf8::valid_utf8(bytes@) ==> r@ == vstd::utf8::decode_utf8(bytes@),
{
    String::from_utf8_lossy(bytes).into_owned()
}

} // verus!
