//! Text clean-up before synthesis: canonical composition, then only the
//! characters that carry speech are kept.

use vstd::prelude::*;

use unicode_normalization::UnicodeNormalization;

use crate::text::chars_of;

verus! {

/// The canonical composition (NFC) of a text.
pub uninterp spec fn nfc(s: Seq<char>) -> Seq<char>;

/// Whether a character is alphabetic, as `char::is_alphabetic` says.
pub uninterp spec fn alphabetic(c: char) -> bool;

/// Whether a character is numeric, as `char::is_numeric` says.
pub uninterp spec fn numeric(c: char) -> bool;

/// Whether a character is white space, as `char::is_whitespace` says.
pub uninterp spec fn whitespace(c: char) -> bool;

/// Relies on `UnicodeNormalization::nfc` of unicode-normalization: the
/// canonical composition, which depends on the text alone.
#[verifier::external_body]
fn compose(s: &str) -> (r: String)
    ensures
        r@ == nfc(s@),
{
    s.nfc().collect::<String>()
}

/// Relies on `char::is_alphabetic`.
#[verifier::external_body]
fn is_alphabetic(c: char) -> (r: bool)
    ensures
        r == alphabetic(c),
{
    c.is_alphabetic()
}

/// Relies on `char::is_numeric`.
#[verifier::external_body]
fn is_numeric(c: char) -> (r: bool)
    ensures
        r == numeric(c),
{
    c.is_numeric()
}

/// Relies on `char::is_whitespace`.
#[verifier::external_body]
fn is_whitespace(c: char) -> (r: bool)
    ensures
        r == whitespace(c),
{
    c.is_whitespace()
}

/// Relies on `String::push`: the character is appended.
#[verifier::external_body]
fn push_char(s: &mut String, c: char)
    ensures
        final(s)@ == old(s)@.push(c),
{
    s.push(c)
}

/// Relies on `str::trim`: leading and trailing characters with the Unicode
/// White_Space property (those for which `char::is_whitespace` holds) are removed.
#[verifier::external_body]
fn trim(s: &str) -> (r: String)
    ensures
        r@ == trim_end(trim_start(s@)),
{
    s.trim().to_owned()
}

/// `s` without its leading white space.
pub open spec fn trim_start(s: Seq<char>) -> Seq<char>
    decreases s.len(),
{
    if s.len() > 0 && whitespace(s[0]) {
        trim_start(s.drop_first())
    } else {
        s
    }
}

/// `s` without its trailing white space.
pub open spec fn trim_end(s: Seq<char>) -> Seq<char>
    decreases s.len(),
{
    if s.len() > 0 && whitespace(s.last()) {
        trim_end(s.drop_last())
    } else {
        s
    }
}

/// Punctuation that shapes prosody and is kept.
pub open spec fn is_speech_punctuation(c: char) -> bool {
    c == '.' || c == ',' || c == '!' || c == '?' || c == ':' || c == ';' || c == '-' || c == '\''
        || c == '"'
}

/// Letters, digits, white space and prosodic punctuation are kept.
pub open spec fn kept(c: char) -> bool {
    alphabetic(c) || numeric(c) || whitespace(c) || is_speech_punctuation(c)
}

/// The kept characters of `s`, in order.
pub open spec fn kept_chars(s: Seq<char>) -> Seq<char>
    decreases s.len(),
{
    if s.len() == 0 {
        s
    } else if kept(s.last()) {
        kept_chars(s.drop_last()).push(s.last())
    } else {
        kept_chars(s.drop_last())
    }
}

/// The text handed to synthesis when nothing speakable is left.
pub open spec fn fallback_text() -> Seq<char> {
    "Hello world"@
}

/// The clean-up of an already composed text: kept characters, trimmed, or
/// the fallback text when that leaves nothing.
pub open spec fn cleaned(composed: Seq<char>) -> Seq<char> {
    let t = trim_end(trim_start(kept_chars(composed)));
    if t.len() == 0 {
        fallback_text()
    } else {
        t
    }
}

fn keeps(c: char) -> (r: bool)
    ensures
        r == kept(c),
{
    is_alphabetic(c) || is_numeric(c) || is_whitespace(c) || c == '.' || c == ',' || c == '!'
        || c == '?' || c == ':' || c == ';' || c == '-' || c == '\'' || c == '"'
}

/// Clean up a text that is already in canonical composition.
pub fn clean_composed(composed: &str) -> (r: String)
    ensures
        r@ == cleaned(composed@),
{
    let chars = chars_of(composed);
    let mut out = String::new();
    let mut i: usize = 0;
    while i < chars.len()
        invariant
            chars@ == composed@,
            i <= chars@.len(),
            out@ == kept_chars(composed@.subrange(0, i as int)),
        decreases chars@.len() - i,
    {
        let c = chars[i];
        assert(composed@.subrange(0, i + 1).drop_last() =~= composed@.subrange(0, i as int));
        if keeps(c) {
            push_char(&mut out, c);
        }
        i = i + 1;
    }
    assert(composed@.subrange(0, i as int) =~= composed@);
    let t = trim(out.as_str());
    if t.as_str().is_empty() {
        String::from_str("Hello world")
    } else {
        t
    }
}

/// Prepare a text for synthesis: compose it canonically (NFC), keep letters,
/// digits, white space and prosodic punctuation, and trim it; a text with
/// nothing speakable left becomes `Hello world`.
pub fn preprocess_text(text: &str) -> (r: String)
    ensures
        r@ == cleaned(nfc(text@)),
{
    let composed = compose(text);
    clean_composed(composed.as_str())
}

} // verus!
