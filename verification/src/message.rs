//! Texts that describe errors.
use vstd::prelude::*;
use vstd::utf8::{encode_utf8, valid_utf8};

verus! {

/// Whether `r` is a message of which `text` is known: all of it, or, where
/// `open_ended`, its beginning (a message of the operating system follows).
pub open spec fn describes(r: Seq<char>, text: Seq<char>, open_ended: bool) -> bool {
    if open_ended {
        text.is_prefix_of(r)
    } else {
        r == text
    }
}

/// Whether appending a message to `before` gave `after`, the message being
/// one of which `text` is known as [`describes`] says.
pub open spec fn appended(before: Seq<char>, after: Seq<char>, text: Seq<char>, open_ended: bool) -> bool {
    before.is_prefix_of(after) && describes(after.skip(before.len() as int), text, open_ended)
}

/// Appending a text known in full.
pub proof fn lemma_appended_exact(before: Seq<char>, text: Seq<char>)
    ensures
        appended(before, before + text, text, false),
{
    assert((before + text).skip(before.len() as int) =~= text);
    assert(before.is_prefix_of(before + text)) by {
        assert((before + text).take(before.len() as int) =~= before);
    }
}

/// Appending a known text, then anything.
pub proof fn lemma_appended_open(before: Seq<char>, text: Seq<char>, rest: Seq<char>)
    ensures
        appended(before, before + text + rest, text, true),
{
    let after = before + text + rest;
    assert(after.skip(before.len() as int) =~= text + rest);
    assert(text.is_prefix_of(text + rest)) by {
        assert((text + rest).take(text.len() as int) =~= text);
    }
    assert(before.is_prefix_of(after)) by {
        assert(after.take(before.len() as int) =~= before);
    }
}

/// Appending a known text and then a message that itself is appended.
pub proof fn lemma_appended_nested(
    before: Seq<char>,
    prefix: Seq<char>,
    after: Seq<char>,
    text: Seq<char>,
    open_ended: bool,
)
    requires
        appended(before + prefix, after, text, open_ended),
    ensures
        appended(before, after, prefix + text, open_ended),
{
    let mid = before + prefix;
    assert(mid.is_prefix_of(after));
    assert(after.take(mid.len() as int) =~= mid);
    assert(before.is_prefix_of(after)) by {
        assert(after.take(before.len() as int) =~= mid.take(before.len() as int));
        assert(mid.take(before.len() as int) =~= before);
    }
    let tail = after.skip(before.len() as int);
    assert(tail =~= prefix + after.skip(mid.len() as int)) by {
        assert(after =~= mid + after.skip(mid.len() as int));
    }
    if open_ended {
        let t2 = after.skip(mid.len() as int);
        assert(text.is_prefix_of(t2));
        assert((prefix + text).is_prefix_of(tail)) by {
            assert(tail.take((prefix + text).len() as int) =~= prefix + t2.take(text.len() as int));
        }
    }
}

/// The message of an input or output error (`Display` of `std::io::Error`).
/// Nothing is claimed of it: it comes from the operating system.
#[verifier::external_body]
pub(crate) fn io_error_text(e: &std::io::Error) -> (r: String) {
    e.to_string()
}

/// `String::from_utf8_lossy`: the text of a byte string, each invalid
/// sequence replaced. Claimed, as its documentation says: UTF-8 bytes are
/// read as they are.
#[verifier::external_body]
pub(crate) fn lossy_text(b: &[u8]) -> (r: String)
    ensures
        valid_utf8(b@) ==> encode_utf8(r@) == b@,
{
    String::from_utf8_lossy(b).into_owned()
}

/// The text that UTF-8 bytes encode.
pub open spec fn utf8_text(b: Seq<u8>) -> Seq<char> {
    vstd::utf8::decode_utf8(b)
}

/// Bytes read back as text: what they encode where they are UTF-8.
pub proof fn lemma_lossy_text(b: Seq<u8>, r: Seq<char>)
    requires
        valid_utf8(b),
        encode_utf8(r) == b,
    ensures
        r == utf8_text(b),
{
    vstd::utf8::encode_utf8_decode_utf8(r);
}

} // verus!
