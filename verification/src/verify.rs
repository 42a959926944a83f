//! The subscription-confirmation handshake: a read-only comparison of the
//! presented credentials against the shared secret, echoing the challenge
//! on success and denying everything else.

use vstd::prelude::*;
use crate::model::{Hub, HubView};
use crate::response::{Response, ResponseView, STATUS_FORBIDDEN, STATUS_OK};
use crate::secret::{spec_trim, trim_secret, SecretLoad};
use crate::text::str_eq;

verus! {

/// Whether a handshake request is granted: mode and token are both
/// present, the mode is the subscription mode, the secret resource was
/// readable, and the token equals its trimmed contents. When the secret
/// cannot be read, the request fails closed.
pub open spec fn verification_granted(h: HubView, secret: Option<Seq<char>>) -> bool {
    &&& h.mode matches Some(m)
    &&& h.token matches Some(t)
    &&& secret matches Some(raw)
    &&& m == "subscribe"@
    &&& t == spec_trim(raw)
}

/// The response the handshake owes: the challenge, echoed verbatim with a
/// success status, exactly when the request is granted; otherwise a denial
/// with an empty body.
pub open spec fn spec_verify(h: HubView, secret: Option<Seq<char>>) -> ResponseView {
    if verification_granted(h, secret) {
        ResponseView { status: STATUS_OK as int, body: h.challenge }
    } else {
        ResponseView { status: STATUS_FORBIDDEN as int, body: Seq::<char>::empty() }
    }
}

/// Answers a verification request against the loaded secret.
pub fn verify(hub: &Hub, load: &SecretLoad) -> (r: Response)
    ensures
        r@ == spec_verify(hub@, load@),
{
    match (&hub.mode, &hub.token) {
        (Some(mode), Some(token)) => {
            match load {
                SecretLoad::Loaded(raw) => {
                    let expected = trim_secret(raw.as_str());
                    if str_eq(mode.as_str(), "subscribe") && *token == expected {
                        Response::ok(hub.challenge.clone())
                    } else {
                        Response::empty(STATUS_FORBIDDEN)
                    }
                },
                SecretLoad::Unavailable => Response::empty(STATUS_FORBIDDEN),
            }
        },
        _ => Response::empty(STATUS_FORBIDDEN),
    }
}

} // verus!
