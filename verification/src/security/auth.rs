//! Whether a client presents the gateway's secret.
use crate::application::config::AuthMode;
use crate::protocol::errors::{unavailable, ErrorShape, ERROR_UNAVAILABLE};
use crate::protocol::frames::ConnectAuth;
use crate::text::{kept, lemma_kept, not_blank, opt_text, trim_non_empty, trimmed};
use vstd::prelude::*;
use vstd::utf8::encode_utf8_decode_utf8;

verus! {

/// Why a client is turned away.
#[derive(Debug, Clone, Copy, PartialEq, Eq, Structural)]
pub enum AuthFailureReason {
    MissingCredentials,
    InvalidCredentials,
}

/// What comes of the secret that was presented where another was expected: it is trimmed, and
/// must then be the same.
pub open spec fn secret_outcome(provided: Option<Seq<char>>, expected: Seq<char>) -> Result<
    (),
    AuthFailureReason,
> {
    match provided {
        None => Err(AuthFailureReason::MissingCredentials),
        Some(p) => match kept(p) {
            None => Err(AuthFailureReason::MissingCredentials),
            Some(secret) => if secret == expected {
                Ok(())
            } else {
                Err(AuthFailureReason::InvalidCredentials)
            },
        },
    }
}

/// What comes of a client's secrets under the gateway's mode.
pub open spec fn auth_outcome(mode: AuthMode, auth: Option<&ConnectAuth>) -> Result<
    (),
    AuthFailureReason,
> {
    match mode {
        AuthMode::NoAuth => Ok(()),
        AuthMode::Token(expected) => secret_outcome(
            match auth {
                Some(a) => opt_text(a.token),
                None => None,
            },
            expected@,
        ),
        AuthMode::Password(expected) => secret_outcome(
            match auth {
                Some(a) => opt_text(a.password),
                None => None,
            },
            expected@,
        ),
    }
}

/// `subtle::ConstantTimeEq::ct_eq` on two byte slices: true where both have the same bytes.
#[verifier::external_body]
fn constant_time_eq(a: &[u8], b: &[u8]) -> (r: bool)
    ensures
        r == (a@ == b@),
{
    subtle::ConstantTimeEq::ct_eq(a, b).into()
}

/// Whether two texts are the same, found in a time that does not depend on where they differ.
pub fn same_secret(found: &str, expected: &str) -> (r: bool)
    ensures
        r == (found@ == expected@),
{
    proof {
        encode_utf8_decode_utf8(found@);
        encode_utf8_decode_utf8(expected@);
    }
    constant_time_eq(found.as_bytes(), expected.as_bytes())
}

/// Whether the client presents the secret that the mode asks for.
pub fn authorize(mode: &AuthMode, auth: Option<&ConnectAuth>) -> (r: Result<(), AuthFailureReason>)
    ensures
        r == auth_outcome(*mode, auth),
{
    match mode {
        AuthMode::NoAuth => Ok(()),
        AuthMode::Token(expected) => {
            let provided = match auth {
                Some(a) => &a.token,
                None => &None,
            };
            verify_secret(provided, expected.as_str())
        },
        AuthMode::Password(expected) => {
            let provided = match auth {
                Some(a) => &a.password,
                None => &None,
            };
            verify_secret(provided, expected.as_str())
        },
    }
}

/// Whether the secret that was presented is the one that was expected.
pub fn verify_secret(provided: &Option<String>, expected: &str) -> (r: Result<
    (),
    AuthFailureReason,
>)
    ensures
        r == secret_outcome(opt_text(*provided), expected@),
{
    let secret = match provided {
        Some(p) => trim_non_empty(p.as_str()),
        None => None,
    };
    match secret {
        None => Err(AuthFailureReason::MissingCredentials),
        Some(secret) => if same_secret(secret.as_str(), expected) {
            Ok(())
        } else {
            Err(AuthFailureReason::InvalidCredentials)
        },
    }
}

/// What a client that is turned away is told.
pub fn auth_failure_error(reason: AuthFailureReason) -> (r: ErrorShape)
    ensures
        r@ == unavailable(
            match reason {
                AuthFailureReason::MissingCredentials => "unauthorized: missing credentials"@,
                AuthFailureReason::InvalidCredentials => "unauthorized: invalid credentials"@,
            },
        ),
{
    match reason {
        AuthFailureReason::MissingCredentials => ErrorShape::new(
            ERROR_UNAVAILABLE,
            "unauthorized: missing credentials",
        ),
        AuthFailureReason::InvalidCredentials => ErrorShape::new(
            ERROR_UNAVAILABLE,
            "unauthorized: invalid credentials",
        ),
    }
}

/// A gateway with a secret lets nobody in who presents another text, or none.
pub proof fn law_only_the_secret_opens(expected: Seq<char>, provided: Option<Seq<char>>)
    requires
        secret_outcome(provided, expected) is Ok,
    ensures
        provided is Some,
        kept(provided->0) == Some(expected),
{
}

/// A gateway without a secret lets everybody in. One with a token lets in exactly who presents it as
/// the token, and one with a password exactly who presents it as the password, white space around it
/// aside; who presents nothing is told that it is missing, and who presents another that it is wrong.
pub proof fn law_secrets(
    mode: &AuthMode,
    auth: Option<&ConnectAuth>,
    r: Result<(), AuthFailureReason>,
    presented: Option<String>,
    secret: Seq<char>,
)
    requires
        call_ensures(authorize, (mode, auth), r),
        match *mode {
            AuthMode::NoAuth => true,
            AuthMode::Token(s) => s@ == secret && presented == (match auth {
                Some(a) => a.token,
                None => None,
            }),
            AuthMode::Password(s) => s@ == secret && presented == (match auth {
                Some(a) => a.password,
                None => None,
            }),
        },
    ensures
        *mode == AuthMode::NoAuth ==> r is Ok,
        *mode != AuthMode::NoAuth ==> match presented {
            None => r == Err::<(), AuthFailureReason>(AuthFailureReason::MissingCredentials),
            Some(text) => if !not_blank(text@) {
                r == Err::<(), AuthFailureReason>(AuthFailureReason::MissingCredentials)
            } else if trimmed(text@) == secret {
                r is Ok
            } else {
                r == Err::<(), AuthFailureReason>(AuthFailureReason::InvalidCredentials)
            },
        },
{
    if presented is Some {
        lemma_kept(presented->0@);
    }
}

/// Who is turned away is told whether a secret is missing or wrong, and never which one is right.
pub proof fn law_refusals_tell_no_secret(reason: AuthFailureReason, r: ErrorShape)
    requires
        call_ensures(auth_failure_error, (reason,), r),
    ensures
        r.code@ == "UNAVAILABLE"@,
        reason is MissingCredentials ==> r.message@ == "unauthorized: missing credentials"@,
        reason is InvalidCredentials ==> r.message@ == "unauthorized: invalid credentials"@,
        r.details is None,
{
}

/// Two secrets are the same exactly where they have the same characters.
pub proof fn law_same_secrets(found: &str, expected: &str, r: bool)
    requires
        call_ensures(same_secret, (found, expected), r),
    ensures
        r <==> found@.len() == expected@.len() && forall|i: int|
            0 <= i < found@.len() ==> #[trigger] found@[i] == expected@[i],
{
    if found@.len() == expected@.len() && forall|i: int|
        0 <= i < found@.len() ==> #[trigger] found@[i] == expected@[i] {
        assert(found@ =~= expected@);
    }
}

} // verus!
