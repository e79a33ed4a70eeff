use vstd::prelude::*;

verus! {

/// What `serde_json` reads from the text `text` for the member `key`:
/// `None` when the text is not JSON, `Some(Some(s))` when the text is an
/// object whose member `key` is the string `s`, `Some(None)` otherwise.
pub uninterp spec fn json_text_str_member(text: Seq<char>, key: Seq<char>) -> Option<Option<Seq<char>>>;

/// The same as [`json_text_str_member`], for JSON given as bytes.
pub uninterp spec fn json_bytes_str_member(bytes: Seq<u8>, key: Seq<char>) -> Option<Option<Seq<char>>>;

/// The message of the error that `serde_json` gives for the text `text`
/// when it is not JSON.
pub uninterp spec fn json_text_error(text: Seq<char>) -> Seq<char>;

/// The message of the error that `serde_json` gives for the bytes `bytes`
/// when they are not JSON.
pub uninterp spec fn json_bytes_error(bytes: Seq<u8>) -> Seq<char>;

/// What a member lookup gave, taken by its view: the member, or the
/// message of the parse error.
pub open spec fn lookup_view(r: Result<Option<String>, String>) -> Result<Option<Seq<char>>, Seq<char>> {
    match r {
        Ok(m) => Ok(opt_text(m)),
        Err(e) => Err(e@),
    }
}

/// The member `key` of the JSON text `text`, or the parse error's message.
pub open spec fn text_member(text: Seq<char>, key: Seq<char>) -> Result<Option<Seq<char>>, Seq<char>> {
    match json_text_str_member(text, key) {
        Some(m) => Ok(m),
        None => Err(json_text_error(text)),
    }
}

/// The member `key` of the JSON bytes `bytes`, or the parse error's message.
pub open spec fn bytes_member(bytes: Seq<u8>, key: Seq<char>) -> Result<Option<Seq<char>>, Seq<char>> {
    match json_bytes_str_member(bytes, key) {
        Some(m) => Ok(m),
        None => Err(json_bytes_error(bytes)),
    }
}

/// `Option<String>` taken by its view.
pub open spec fn opt_text(o: Option<String>) -> Option<Seq<char>> {
    match o {
        Some(s) => Some(s@),
        None => None,
    }
}

/// What a member lookup of [`str_member_of_text`] or
/// [`str_member_of_bytes`] returned, taken by its view; the message of a
/// parse error is left out.
pub open spec fn member_view(r: Result<Option<String>, String>) -> Option<Option<Seq<char>>> {
    match r {
        Ok(m) => Some(opt_text(m)),
        Err(_) => None,
    }
}

/// `serde_json::from_str::<serde_json::Value>(text)`, then `value[key].as_str()`:
/// the member `key` of the parsed value when it is a string. A text that is
/// not JSON gives the parse error's message (its `Display`).
#[verifier::external_body]
pub(crate) fn str_member_of_text(text: &str, key: &str) -> (r: Result<Option<String>, String>)
    ensures
        member_view(r) == json_text_str_member(text@, key@),
        r matches Err(e) ==> e@ == json_text_error(text@),
{
    match serde_json::from_str::<serde_json::Value>(text) {
        Ok(value) => Ok(value[key].as_str().map(String::from)),
        Err(e) => Err(e.to_string()),
    }
}

/// `serde_json::from_slice::<serde_json::Value>(bytes)`, then
/// `value[key].as_str()`, as [`str_member_of_text`] does for text.
#[verifier::external_body]
pub(crate) fn str_member_of_bytes(bytes: &[u8], key: &str) -> (r: Result<Option<String>, String>)
    ensures
        member_view(r) == json_bytes_str_member(bytes@, key@),
        r matches Err(e) ==> e@ == json_bytes_error(bytes@),
{
    match serde_json::from_slice::<serde_json::Value>(bytes) {
        Ok(value) => Ok(value[key].as_str().map(String::from)),
        Err(e) => Err(e.to_string()),
    }
}

} // verus!
