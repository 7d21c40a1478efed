//! Texts as they cross the boundary: a run of bytes that may be missing and
//! need not be UTF-8.

use vstd::prelude::*;
use vstd::utf8::{decode_utf8, valid_utf8};
use crate::text::bytes_of;

verus! {

/// What a text argument stands for. A missing text stands for the default;
/// bytes that are UTF-8 stand for the text they encode; other bytes stand
/// for nothing, and the call that got them fails.
pub open spec fn text_or(arg: Option<&[u8]>, default: Seq<char>) -> Option<Seq<char>> {
    match arg {
        None => Some(default),
        Some(bytes) => if valid_utf8(bytes@) {
            Some(decode_utf8(bytes@))
        } else {
            None
        },
    }
}

/// Calls `core::str::from_utf8`, which returns the bytes as a string slice
/// exactly when they are valid UTF-8. `None` stands for its error.
#[verifier::external_body]
pub(crate) fn decode_text(bytes: &[u8]) -> (text: Option<&str>)
    ensures
        text is Some <==> valid_utf8(bytes@),
        text is Some ==> bytes_of(text->0@) == bytes@,
{
    core::str::from_utf8(bytes).ok()
}

/// The text that an argument stands for, if it stands for one.
pub fn text_argument(arg: Option<&[u8]>, default: &str) -> (text: Option<String>)
    ensures
        match text_or(arg, default@) {
            Some(t) => text is Some && text->0@ == t,
            None => text is None,
        },
{
    match arg {
        None => Some(default.to_owned()),
        Some(bytes) => match decode_text(bytes) {
            Some(text) => {
                proof {
                    vstd::utf8::encode_utf8_decode_utf8(text@);
                }
                Some(text.to_owned())
            },
            None => None,
        },
    }
}

} // verus!
