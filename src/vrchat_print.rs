//! The decisions of the VRChat login flow, on the values that its responses
//! carry.
use vstd::prelude::*;

use crate::encoding::{base64_standard, base64_standard_of, percent_encoded, url_encode};
use crate::error::AppError;
use crate::text::str_eq;
use vstd::utf8::encode_utf8;

verus! {

/// A second factor that VRChat asks for.
#[derive(PartialEq, Eq, Debug)]
pub enum TwoFactorMethod {
    Totp,
    EmailOtp,
    Unknown(String),
}

/// How a login attempt ended.
#[derive(Debug)]
pub enum LoginResult {
    Success,
    RequiresTwoFactorAuth(Vec<TwoFactorMethod>),
}

impl TwoFactorMethod {
    /// The method that VRChat names `name`.
    pub fn from_name(name: &str) -> (m: TwoFactorMethod)
        ensures
            name@ == "totp"@ ==> m is Totp,
            name@ == "emailOtp"@ ==> m is EmailOtp,
            name@ != "totp"@ && name@ != "emailOtp"@ ==> (m matches TwoFactorMethod::Unknown(n)
                && n@ == name@),
    {
        proof {
            reveal_strlit("totp");
            reveal_strlit("emailOtp");
            assert("totp"@.len() != "emailOtp"@.len());
        }
        if str_eq(name, "totp") {
            TwoFactorMethod::Totp
        } else if str_eq(name, "emailOtp") {
            TwoFactorMethod::EmailOtp
        } else {
            TwoFactorMethod::Unknown(String::from_str(name))
        }
    }
}

/// What a successful login response says: the user is signed in (it names
/// the user), or it lists the second factors it requires, or neither.
pub enum LoginResponse {
    SignedIn,
    RequiresTwoFactorAuth(Vec<TwoFactorMethod>),
    Unrecognised,
}

/// The result of a login whose response said `response` and set the
/// authentication cookie `auth_cookie`, and the cookie to keep as the API
/// key. A response that signs in or asks for a second factor without a
/// cookie, or that does neither, is an error.
pub fn login_result(response: LoginResponse, auth_cookie: Option<String>) -> (r: Result<
    (LoginResult, String),
    AppError,
>)
    ensures
        r is Ok <==> auth_cookie is Some && !(response is Unrecognised),
        r matches Ok((result, key)) ==> key@ == auth_cookie->Some_0@ && match response {
            LoginResponse::SignedIn => result is Success,
            LoginResponse::RequiresTwoFactorAuth(methods) => (result matches LoginResult::RequiresTwoFactorAuth(
                m,
            ) && m == methods),
            LoginResponse::Unrecognised => false,
        },
        r matches Err(e) ==> e is Unknown,
{
    match response {
        LoginResponse::SignedIn => match auth_cookie {
            Some(cookie) => Ok((LoginResult::Success, cookie)),
            None => Err(
                AppError::Unknown(String::from_str("Login succeeded but auth cookie not found")),
            ),
        },
        LoginResponse::RequiresTwoFactorAuth(methods) => match auth_cookie {
            Some(cookie) => Ok((LoginResult::RequiresTwoFactorAuth(methods), cookie)),
            None => Err(
                AppError::Unknown(String::from_str("2FA required but auth cookie not found")),
            ),
        },
        LoginResponse::Unrecognised => Err(
            AppError::Unknown(String::from_str("Login failed for unknown reasons")),
        ),
    }
}

/// The stored API key, if one is set and not empty; otherwise the error that
/// asks the user to sign in.
pub fn require_api_key(stored: Option<String>) -> (r: Result<String, AppError>)
    ensures
        r matches Ok(k) ==> stored matches Some(s) && k@ == s@ && k@.len() > 0,
        r is Err <==> (stored is None || stored->Some_0@.len() == 0),
        r matches Err(e) ==> e is VrchatAuthRequired,
{
    match stored {
        None => Err(
            AppError::VrchatAuthRequired(
                String::from_str("VRChat API key is not set in configuration"),
            ),
        ),
        Some(key) => {
            if key.as_str().is_empty() {
                Err(
                    AppError::VrchatAuthRequired(
                        String::from_str("VRChat API key is empty in configuration"),
                    ),
                )
            } else {
                Ok(key)
            }
        },
    }
}

/// The user name and password as VRChat reads them: each percent-encoded,
/// joined by a colon.
pub open spec fn credentials_text(username: Seq<char>, password: Seq<char>) -> Seq<char> {
    percent_encoded(encode_utf8(username)) + ":"@ + percent_encoded(encode_utf8(password))
}

/// The credentials of a `Basic` authorization for VRChat: the Base64 text of
/// the percent-encoded user name and password joined by a colon.
pub fn basic_credentials(username: &str, password: &str) -> (r: String)
    ensures
        r@ == base64_standard_of(encode_utf8(credentials_text(username@, password@))),
{
    let mut text = url_encode(username);
    text.append(":");
    let p = url_encode(password);
    text.append(p.as_str());
    base64_standard(text.as_str())
}

/// `s` with a backslash before every double quote.
pub open spec fn escape_quotes(s: Seq<char>) -> Seq<char>
    decreases s.len(),
{
    if s.len() == 0 {
        Seq::empty()
    } else {
        let head = if s[0] == '"' {
            seq!['\\', '"']
        } else {
            seq![s[0]]
        };
        head + escape_quotes(s.drop_first())
    }
}

proof fn lemma_escape_push(s: Seq<char>, c: char)
    ensures
        escape_quotes(s.push(c)) == escape_quotes(s) + escape_quotes(seq![c]),
    decreases s.len(),
{
    if s.len() > 0 {
        assert(s.push(c).drop_first() =~= s.drop_first().push(c));
        lemma_escape_push(s.drop_first(), c);
    } else {
        assert(s.push(c) =~= seq![c]);
    }
}

/// The JSON body that submits a second-factor code: `{"code":"..."}`, with
/// the code's double quotes escaped.
pub fn verification_body(code: &str) -> (r: String)
    ensures
        r@ == "{\"code\":\""@ + escape_quotes(code@) + "\"}"@,
{
    let mut body = String::from_str("{\"code\":\"");
    let ghost start = body@;
    let n = code.unicode_len();
    let mut i: usize = 0;
    proof {
        assert(code@.subrange(0, 0) =~= Seq::<char>::empty());
        assert(escape_quotes(Seq::<char>::empty()) =~= Seq::<char>::empty());
    }
    while i < n
        invariant
            n == code@.len(),
            i <= n,
            body@ == start + escape_quotes(code@.subrange(0, i as int)),
        decreases n - i,
    {
        let c = code.get_char(i);
        proof {
            assert(code@.subrange(0, i + 1) =~= code@.subrange(0, i as int).push(c));
            lemma_escape_push(code@.subrange(0, i as int), c);
            assert(seq![c].drop_first() =~= Seq::<char>::empty());
            assert(escape_quotes(Seq::<char>::empty()) =~= Seq::<char>::empty());
            assert(escape_quotes(seq![c]) =~= if c == '"' {
                seq!['\\', '"']
            } else {
                seq![c]
            });
        }
        if c == '"' {
            proof {
                reveal_strlit("\\\"");
                assert("\\\""@ =~= seq!['\\', '"']);
            }
            body.append("\\\"");
        } else {
            let one = code.substring_char(i, i + 1);
            assert(one@ =~= seq![c]);
            body.append(one);
        }
        assert(body@ =~= start + escape_quotes(code@.subrange(0, i + 1)));
        i = i + 1;
    }
    assert(code@.subrange(0, n as int) =~= code@);
    body.append("\"}");
    body
}

/// The name of the signed-in user, from the answer to the current-user
/// request: HTTP status `status` and the `displayName` text, if the answer
/// holds one. An unauthorised status means the stored key is no longer
/// valid.
pub fn current_user_result(status: u16, display_name: Option<String>) -> (r: Result<
    String,
    AppError,
>)
    ensures
        status == 401 ==> (r matches Err(e) && e is VrchatAuthRequired),
        status != 401 && status != 200 ==> (r matches Err(e) && e is Unknown),
        status == 200 ==> match display_name {
            Some(n) => (r matches Ok(m) && m@ == n@),
            None => (r matches Err(e) && e is Unknown),
        },
{
    if status == 401 {
        return Err(
            AppError::VrchatAuthRequired(String::from_str("VRChat API key is invalid or expired")),
        );
    }
    if status != 200 {
        return Err(AppError::Unknown(String::from_str("Get current user failed")));
    }
    match display_name {
        Some(n) => Ok(n),
        None => Err(
            AppError::Unknown(
                String::from_str("Get current user response does not contain displayName"),
            ),
        ),
    }
}

} // verus!
