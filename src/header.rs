use crate::cookie::{header_text, opt_view, CookieOptions, CookieOptionsView};
use crate::error::SessionError;
use http::header::HeaderValue;
use vstd::prelude::*;

verus! {

/// A character whose UTF-8 bytes may all stand in a header value: a tab,
/// or no ASCII control character. (Bytes from 0x80 up, which make up every
/// non-ASCII character, are accepted as opaque octets.)
pub open spec fn header_char_ok(c: char) -> bool {
    c == '\t' || (c as u32 >= 32 && c as u32 != 127)
}

pub open spec fn header_text_ok(s: Seq<char>) -> bool {
    forall|i: int| 0 <= i < s.len() ==> header_char_ok(#[trigger] s[i])
}

/// The `Set-Cookie` header text that the options call for: the full header
/// text where a cookie value was decided, none otherwise.
pub open spec fn set_cookie_text(o: CookieOptionsView) -> Option<Seq<char>> {
    match o.value {
        Some(_) => Some(header_text(o)),
        None => None,
    }
}

/// Relies on `http::header::HeaderValue::from_str` (http 0.2): it checks each
/// byte of the text and fails exactly where one is below 32 but not a tab,
/// or is 127.
#[verifier::external_body]
fn is_header_value(s: &str) -> (r: bool)
    ensures
        r == header_text_ok(s@),
{
    HeaderValue::from_str(s).is_ok()
}

/// The `Set-Cookie` header text for these options: none while no cookie
/// value was decided, the full header text where it can stand in a header
/// value, and `CookieEncodingError` where it holds a character that a
/// header value cannot carry.
pub fn set_cookie_header(cookie_options: &CookieOptions) -> (r: Result<Option<String>, SessionError>)
    ensures
        r is Err <==> (cookie_options@.value is Some && !header_text_ok(header_text(cookie_options@))),
        r is Err ==> r->Err_0 is CookieEncodingError,
        r is Ok ==> opt_view(r->Ok_0) == set_cookie_text(cookie_options@),
{
    match &cookie_options.cookie_value {
        None => Ok(None),
        Some(_) => {
            let text = cookie_options.to_header_string();
            if is_header_value(text.as_str()) {
                Ok(Some(text))
            } else {
                Err(SessionError::CookieEncodingError)
            }
        },
    }
}

} // verus!
