//! Request bodies of the registration and login routes.

use vstd::prelude::*;
use vstd::utf8::encode_utf8;

verus! {

/// The length of a string in bytes, as UTF-8 encodes it.
pub open spec fn byte_len(s: Seq<char>) -> int {
    encode_utf8(s).len() as int
}

/// The username is between 2 and 32 bytes long.
pub open spec fn username_ok(username: Seq<char>) -> bool {
    2 <= byte_len(username) <= 32
}

/// The password, if one is given, is between 1 and 72 bytes long.
pub open spec fn password_ok(password: Option<String>) -> bool {
    match password {
        Some(p) => 1 <= byte_len(p@) <= 72,
        None => true,
    }
}

/// The message of a refused username.
pub open spec fn username_message() -> Seq<char> {
    "Username must be between 2 and 32 characters"@
}

/// The message of a refused password.
pub open spec fn password_message() -> Seq<char> {
    "Password must be between 1 and 72 characters."@
}

/// The body of an account registration.
#[derive(Debug)]
pub struct RegisterSchema {
    pub username: String,
    pub password: Option<String>,
    pub consent: bool,
    pub email: Option<String>,
    pub fingerprint: Option<String>,
    pub invite: Option<String>,
    pub date_of_birth: Option<String>,
    pub gift_code_sku_id: Option<String>,
    pub captcha_key: Option<String>,
    pub promotional_email_opt_in: Option<bool>,
}

/// Why a registration body was refused.
#[derive(Debug)]
pub struct RegisterSchemaError {
    pub message: String,
}

impl RegisterSchemaError {
    /// An error carrying `message`.
    pub fn new(message: String) -> (r: Self)
        ensures
            r.message == message,
    {
        RegisterSchemaError { message }
    }

    /// The error's message.
    pub fn to_string(&self) -> (r: String)
        ensures
            r@ == self.message@,
    {
        self.message.clone()
    }
}

/// The length in bytes of a string.
fn len_in_bytes(s: &String) -> (r: usize)
    ensures
        r == byte_len(s@),
{
    s.as_str().as_bytes().len()
}

impl RegisterSchema {
    /// A registration body, checked: the username must be 2 to 32 bytes long
    /// and a password, when given, 1 to 72 bytes long. The username is
    /// checked first.
    pub fn new(
        username: String,
        password: Option<String>,
        consent: bool,
        email: Option<String>,
        fingerprint: Option<String>,
        invite: Option<String>,
        date_of_birth: Option<String>,
        gift_code_sku_id: Option<String>,
        captcha_key: Option<String>,
        promotional_email_opt_in: Option<bool>,
    ) -> (r: Result<RegisterSchema, RegisterSchemaError>)
        ensures
            r is Ok <==> username_ok(username@) && password_ok(password),
            !username_ok(username@) ==> r is Err && r->Err_0.message@ == username_message(),
            username_ok(username@) && !password_ok(password) ==> r is Err
                && r->Err_0.message@ == password_message(),
            r matches Ok(s) ==> (s.username == username && s.password == password && s.consent
                == consent && s.email == email && s.fingerprint == fingerprint && s.invite
                == invite && s.date_of_birth == date_of_birth && s.gift_code_sku_id
                == gift_code_sku_id && s.captcha_key == captcha_key
                && s.promotional_email_opt_in == promotional_email_opt_in),
    {
        let username_len = len_in_bytes(&username);
        if username_len < 2 || username_len > 32 {
            return Err(
                RegisterSchemaError::new(
                    String::from_str("Username must be between 2 and 32 characters"),
                ),
            );
        }
        let password_refused = match &password {
            Some(p) => {
                let n = len_in_bytes(p);
                n < 1 || n > 72
            },
            None => false,
        };
        if password_refused {
            return Err(
                RegisterSchemaError {
                    message: String::from_str("Password must be between 1 and 72 characters."),
                },
            );
        }
        Ok(
            RegisterSchema {
                username,
                password,
                consent,
                email,
                fingerprint,
                invite,
                date_of_birth,
                gift_code_sku_id,
                captcha_key,
                promotional_email_opt_in,
            },
        )
    }
}

/// The body of a login.
#[derive(Debug)]
pub struct LoginSchema {
    pub login: String,
    pub password: String,
    pub undelete: Option<bool>,
    pub captcha_key: Option<String>,
    pub login_source: Option<String>,
    pub gift_code_sku_id: Option<String>,
}

/// The body of a second-factor login with a one-time code.
#[derive(Debug)]
pub struct TotpSchema {
    pub code: String,
    pub ticket: String,
    pub gift_code_sku_id: Option<String>,
    pub login_source: Option<String>,
}

} // verus!
