//! The bearer-token check that guards registration.
//!
//! The caller hands in the raw value of the `Authorization` header, if the
//! request had one, and the configured secret. The token is compared with
//! the secret in time that does not depend on where the two first differ.

use crate::errors::{ServiceError, ServiceErrorView};
use vstd::prelude::*;
use vstd::slice::slice_subrange;

verus! {

/// `constant_time_eq::constant_time_eq` reports whether two byte strings
/// are equal: the same length and the same byte at every position. Strings
/// of different lengths compare unequal; the function never panics.
pub assume_specification[ constant_time_eq::constant_time_eq ](a: &[u8], b: &[u8]) -> (equal: bool)
    ensures
        equal == (a@ == b@),
;

/// Whether a header byte is text: a visible ASCII character, a space or a
/// horizontal tab.
pub open spec fn is_visible_ascii(b: u8) -> bool {
    32 <= b < 127 || b == 9
}

/// Whether a header value can be read as text: every byte of it is.
pub open spec fn is_text(value: Seq<u8>) -> bool {
    forall|i: int| 0 <= i < value.len() ==> is_visible_ascii(#[trigger] value[i])
}

/// The bytes of `Bearer `, the scheme and the space that precede the token.
pub open spec fn bearer_prefix() -> Seq<u8> {
    seq![0x42u8, 0x65u8, 0x61u8, 0x72u8, 0x65u8, 0x72u8, 0x20u8]
}

/// Whether a header value starts with `Bearer `.
pub open spec fn has_bearer_prefix(value: Seq<u8>) -> bool {
    value.len() >= 7 && value.subrange(0, 7) == bearer_prefix()
}

/// The token of a header value that starts with `Bearer `: what follows
/// the prefix.
pub open spec fn bearer_token(value: Seq<u8>) -> Seq<u8> {
    value.subrange(7, value.len() as int)
}

/// Whether a request with this `Authorization` header is let through: the
/// header is there, is text, starts with `Bearer ` and carries the secret.
pub open spec fn authorized(header: Option<Seq<u8>>, secret: Seq<u8>) -> bool {
    &&& header matches Some(value)
    &&& is_text(value)
    &&& has_bearer_prefix(value)
    &&& bearer_token(value) == secret
}

/// The outcome of the check: success, or the first of the four failures
/// that applies, each with a message that says no more than which it was.
pub open spec fn authorization(header: Option<Seq<u8>>, secret: Seq<u8>) -> Result<
    (),
    ServiceErrorView,
> {
    match header {
        None => Err(ServiceErrorView::Unauthorized { message: "missing Authorization header"@ }),
        Some(value) => if !is_text(value) {
            Err(ServiceErrorView::Unauthorized { message: "bad Authorization header"@ })
        } else if !has_bearer_prefix(value) {
            Err(ServiceErrorView::Unauthorized { message: "bad Bearer token format"@ })
        } else if bearer_token(value) != secret {
            Err(ServiceErrorView::Unauthorized { message: "bad token"@ })
        } else {
            Ok(())
        },
    }
}

/// The header as the specification sees it.
pub open spec fn header_bytes(header: Option<&[u8]>) -> Option<Seq<u8>> {
    match header {
        Some(value) => Some(value@),
        None => None,
    }
}

fn is_text_value(value: &[u8]) -> (text: bool)
    ensures
        text == is_text(value@),
{
    let mut i: usize = 0;
    while i < value.len()
        invariant
            i <= value.len(),
            forall|j: int| 0 <= j < i ==> is_visible_ascii(#[trigger] value@[j]),
        decreases value.len() - i,
    {
        let b = value[i];
        if !(32 <= b && b < 127 || b == 9) {
            return false;
        }
        i += 1;
    }
    true
}

fn starts_with_bearer(value: &[u8]) -> (found: bool)
    ensures
        found == has_bearer_prefix(value@),
{
    if value.len() < 7 {
        return false;
    }
    let found = value[0] == 0x42 && value[1] == 0x65 && value[2] == 0x61 && value[3] == 0x72
        && value[4] == 0x65 && value[5] == 0x72 && value[6] == 0x20;
    proof {
        if found {
            assert(value@.subrange(0, 7) =~= bearer_prefix());
        } else {
            let head = value@.subrange(0, 7);
            assert(head[0] == value@[0] && head[1] == value@[1] && head[2] == value@[2] && head[3]
                == value@[3] && head[4] == value@[4] && head[5] == value@[5] && head[6]
                == value@[6]);
        }
    }
    found
}

/// Checks the bearer credential of a request against the configured secret.
///
/// `header` is the raw value of the `Authorization` header, `None` if the
/// request has none. The request is let through exactly if the header is
/// text, starts with `Bearer ` and the rest equals `secret`; otherwise the
/// first failure that applies is reported as `Unauthorized`.
pub fn authorize(header: Option<&[u8]>, secret: &[u8]) -> (outcome: Result<(), ServiceError>)
    ensures
        outcome is Ok == authorized(header_bytes(header), secret@),
        match outcome {
            Ok(_) => authorization(header_bytes(header), secret@) is Ok,
            Err(e) => authorization(header_bytes(header), secret@) == Err::<(), ServiceErrorView>(
                e@,
            ),
        },
{
    let value = match header {
        Some(value) => value,
        None => {
            return Err(
                ServiceError::Unauthorized { message: "missing Authorization header".to_owned() },
            );
        },
    };
    if !is_text_value(value) {
        return Err(ServiceError::Unauthorized { message: "bad Authorization header".to_owned() });
    }
    if !starts_with_bearer(value) {
        return Err(ServiceError::Unauthorized { message: "bad Bearer token format".to_owned() });
    }
    let token = slice_subrange(value, 7, value.len());
    if !constant_time_eq::constant_time_eq(token, secret) {
        return Err(ServiceError::Unauthorized { message: "bad token".to_owned() });
    }
    Ok(())
}

} // verus!
