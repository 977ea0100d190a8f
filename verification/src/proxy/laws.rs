//! What holds of registration, lookup and sweeping taken together.
//!
//! Each statement is over the specification functions that the contracts
//! of the executable functions are written in, so it holds of every run of
//! those functions.

use crate::auth::authorized;
use crate::errors::ServiceErrorView;
use crate::proxy::policy::{ttl_allowed, ttl_range_message};
use crate::proxy::types::{deadline, expired_ids, is_live, pruned, ProxyView};
use crate::proxy::{forward_target, registered, registration_check};
use vstd::prelude::*;

verus! {

/// A registration with a valid credential and a time to live within the
/// accepted range goes ahead, and the identifier it was stored under
/// resolves to the registered target at every instant before the deadline
/// and is refused as a bad identifier at the deadline and ever after.
pub proof fn lemma_registration_resolves_until_deadline(
    entries: Map<u128, ProxyView>,
    header: Option<Seq<u8>>,
    secret: Seq<u8>,
    min_ttl: nat,
    max_ttl: nat,
    id: u128,
    url: Seq<char>,
    ttl: nat,
    now: nat,
    at: nat,
)
    requires
        authorized(header, secret),
        ttl_allowed(min_ttl, max_ttl, ttl),
    ensures
        registration_check(header, secret, ttl, min_ttl, max_ttl) is Ok,
        at < deadline(now, ttl) ==> forward_target(registered(entries, id, url, ttl, now), id, at)
            == Ok::<Seq<char>, ServiceErrorView>(url),
        at >= deadline(now, ttl) ==> forward_target(registered(entries, id, url, ttl, now), id, at)
            == Err::<Seq<char>, ServiceErrorView>(
            ServiceErrorView::BadRequest { message: "bad id"@ },
        ),
{
}

/// A sweep changes no answer: whatever an identifier resolves to at some
/// instant, it resolves to the same after a sweep at that instant or any
/// earlier one. The expiry check of a lookup does not wait for the sweep.
pub proof fn lemma_sweep_changes_no_answer(
    entries: Map<u128, ProxyView>,
    swept_at: nat,
    id: u128,
    at: nat,
)
    requires
        swept_at <= at,
    ensures
        forward_target(pruned(entries, swept_at), id, at) == forward_target(entries, id, at),
{
}

/// A sweep removes exactly the entries whose deadline has been reached and
/// leaves the others as they were; a second sweep at the same instant
/// finds nothing to remove.
pub proof fn lemma_sweep_removes_the_expired(entries: Map<u128, ProxyView>, now: nat)
    ensures
        forall|id: u128| #[trigger]
            pruned(entries, now).contains_key(id) <==> entries.contains_key(id)
                && entries[id].valid_until > now,
        forall|id: u128| #[trigger]
            pruned(entries, now).contains_key(id) ==> pruned(entries, now)[id] == entries[id],
        expired_ids(pruned(entries, now), now) == Set::<u128>::empty(),
        pruned(pruned(entries, now), now) == pruned(entries, now),
{
}

/// With a valid credential, a time to live outside the accepted range is
/// refused as a bad request whose message names the range.
pub proof fn lemma_ttl_out_of_range_is_bad_request(
    header: Option<Seq<u8>>,
    secret: Seq<u8>,
    min_ttl: nat,
    max_ttl: nat,
    ttl: nat,
)
    requires
        authorized(header, secret),
        !ttl_allowed(min_ttl, max_ttl, ttl),
    ensures
        registration_check(header, secret, ttl, min_ttl, max_ttl) == Err::<(), ServiceErrorView>(
            ServiceErrorView::BadRequest { message: ttl_range_message(min_ttl, max_ttl) },
        ),
        registration_check(header, secret, ttl, min_ttl, max_ttl)->Err_0.status() == 400,
{
}

/// Whatever the credential, a time to live outside the accepted range is
/// refused.
pub proof fn lemma_ttl_out_of_range_is_refused(
    header: Option<Seq<u8>>,
    secret: Seq<u8>,
    min_ttl: nat,
    max_ttl: nat,
    ttl: nat,
)
    requires
        !ttl_allowed(min_ttl, max_ttl, ttl),
    ensures
        registration_check(header, secret, ttl, min_ttl, max_ttl) is Err,
{
}

/// Without a valid credential a registration is refused as unauthorized,
/// whatever time to live it asks for.
pub proof fn lemma_bad_credential_is_unauthorized(
    header: Option<Seq<u8>>,
    secret: Seq<u8>,
    min_ttl: nat,
    max_ttl: nat,
    ttl: nat,
)
    requires
        !authorized(header, secret),
    ensures
        registration_check(header, secret, ttl, min_ttl, max_ttl) is Err,
        registration_check(header, secret, ttl, min_ttl, max_ttl)->Err_0 is Unauthorized,
        registration_check(header, secret, ttl, min_ttl, max_ttl)->Err_0.status() == 401,
{
}

/// An identifier that was never registered and one whose deadline has
/// passed get the same answer.
pub proof fn lemma_unknown_and_expired_look_alike(
    entries: Map<u128, ProxyView>,
    unknown: u128,
    expired: u128,
    now: nat,
)
    requires
        !entries.contains_key(unknown),
        entries.contains_key(expired),
        entries[expired].valid_until <= now,
    ensures
        forward_target(entries, unknown, now) == forward_target(entries, expired, now),
        forward_target(entries, unknown, now) == Err::<Seq<char>, ServiceErrorView>(
            ServiceErrorView::BadRequest { message: "bad id"@ },
        ),
        forward_target(entries, unknown, now)->Err_0.status() == 400,
{
}

/// Lookups of an identifier that still resolves agree: at any two instants
/// before its deadline the answer is its target.
pub proof fn lemma_lookups_agree(entries: Map<u128, ProxyView>, id: u128, first: nat, second: nat)
    requires
        is_live(entries, id, first),
        is_live(entries, id, second),
    ensures
        forward_target(entries, id, first) == forward_target(entries, id, second),
        forward_target(entries, id, first) == Ok::<Seq<char>, ServiceErrorView>(entries[id].url),
{
}

} // verus!
