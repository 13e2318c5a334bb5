//! The value of an `Authorization` header for HTTP Basic authentication.

use vstd::prelude::*;
use vstd::string::StringExecFns;

verus! {

/// The scheme that a Basic `Authorization` value starts with.
pub const BASIC_SCHEME: &'static str = "Basic ";

/// What `base64::encode` makes of the UTF-8 bytes of a text: their base64
/// form in the standard alphabet, padded.
pub uninterp spec fn base64_text(text: Seq<char>) -> Seq<char>;

/// `base64::encode` on the bytes of a string. What it returns depends on
/// the text alone. It panics only where the length of the output does not
/// fit in `usize`, and a string slice is too short for that: its own length
/// is at most `isize::MAX`, and the output is a third longer.
#[verifier::external_body]
fn base64_encode(text: &str) -> (encoded: String)
    ensures
        encoded@ == base64_text(text@),
{
    base64::encode(text)
}

/// The credentials that Basic authentication encodes: the user name, a
/// colon, and the password where there is one.
pub open spec fn credentials(username: Seq<char>, password: Option<Seq<char>>) -> Seq<char> {
    match password {
        Some(password) => username + seq![':'] + password,
        None => username + seq![':'],
    }
}

/// The value of the `Authorization` header for these credentials.
pub open spec fn basic_auth(username: Seq<char>, password: Option<Seq<char>>) -> Seq<char> {
    BASIC_SCHEME@ + base64_text(credentials(username, password))
}

/// What `password` holds, as a sequence of characters.
pub open spec fn password_view(password: Option<&str>) -> Option<Seq<char>> {
    match password {
        Some(password) => Some(password@),
        None => None,
    }
}

/// Makes the value of the `Authorization` header for a user name and an
/// optional password.
pub fn basic_auth_value(username: &str, password: Option<&str>) -> (value: String)
    ensures
        value@ == basic_auth(username@, password_view(password)),
{
    proof {
        reveal_strlit(":");
    }
    let mut auth = username.to_owned();
    auth.append(":");
    assert(":"@ =~= seq![':']);
    match password {
        Some(password) => {
            auth.append(password);
        },
        None => {},
    }
    assert(auth@ =~= credentials(username@, password_view(password)));
    let encoded = base64_encode(auth.as_str());
    let mut value = BASIC_SCHEME.to_owned();
    value.append(encoded.as_str());
    value
}

} // verus!
