//! Registration and forwarding of proxied targets.
//!
//! Registration checks the caller's credential and the requested time to
//! live, draws an identifier and stores the target under it. Forwarding
//! resolves an identifier, leaves the outbound request to the caller and
//! turns what came back into the response that is passed on.

pub mod headers;
pub mod laws;
pub mod policy;
pub mod types;

use crate::auth::{authorization, authorize, header_bytes};
use crate::errors::{ServiceError, ServiceErrorView};
use crate::proxy::headers::{filter_headers, passed_on, Header, HeaderView};
use crate::proxy::policy::{ttl_allowed, ttl_range_message, Policy};
use crate::proxy::types::{deadline, resolve, Proxies, ProxyID, ProxyURL, ProxyView};
use vstd::prelude::*;

verus! {

/// Whether `id` has the shape of a random UUID: version 4 in bits 76 to 79
/// and the RFC 4122 variant in bits 62 and 63.
pub open spec fn is_random_uuid(id: u128) -> bool {
    id & 0x0000_0000_0000_f000_c000_0000_0000_0000u128
        == 0x0000_0000_0000_4000_8000_0000_0000_0000u128
}

/// `uuid::Uuid::new_v4` draws 128 bits from the operating system's random
/// source and overwrites six of them with the version and the variant;
/// `Uuid::as_u128` reads the sixteen bytes as one big-endian number. All
/// that is claimed of the result is those six bits. The call panics if the
/// operating system cannot supply random bytes.
#[verifier::external_body]
fn new_id() -> (id: u128)
    ensures
        is_random_uuid(id),
{
    uuid::Uuid::new_v4().as_u128()
}

/// What registration answers before anything is stored: the failure of the
/// credential check if there is one, else a `BadRequest` that names the
/// accepted range if the time to live lies outside it, else success.
pub open spec fn registration_check(
    header: Option<Seq<u8>>,
    secret: Seq<u8>,
    ttl: nat,
    min_ttl: nat,
    max_ttl: nat,
) -> Result<(), ServiceErrorView> {
    match authorization(header, secret) {
        Err(e) => Err(e),
        Ok(_) => if ttl_allowed(min_ttl, max_ttl, ttl) {
            Ok(())
        } else {
            Err(ServiceErrorView::BadRequest { message: ttl_range_message(min_ttl, max_ttl) })
        },
    }
}

/// The store after `url` has been registered under `id` at `now` for `ttl`
/// seconds.
pub open spec fn registered(
    entries: Map<u128, ProxyView>,
    id: u128,
    url: Seq<char>,
    ttl: nat,
    now: nat,
) -> Map<u128, ProxyView> {
    entries.insert(id, ProxyView { url, valid_until: deadline(now, ttl) })
}

/// Decides whether a registration may go ahead: the credential first, then
/// the time to live.
pub fn check_registration(
    header: Option<&[u8]>,
    secret: &[u8],
    ttl: u64,
    policy: &Policy,
) -> (outcome: Result<(), ServiceError>)
    ensures
        match outcome {
            Ok(_) => registration_check(
                header_bytes(header),
                secret@,
                ttl as nat,
                policy.min_ttl as nat,
                policy.max_ttl as nat,
            ) is Ok,
            Err(e) => registration_check(
                header_bytes(header),
                secret@,
                ttl as nat,
                policy.min_ttl as nat,
                policy.max_ttl as nat,
            ) == Err::<(), ServiceErrorView>(e@),
        },
{
    match authorize(header, secret) {
        Err(e) => Err(e),
        Ok(_) => {
            if policy.accepts_ttl(ttl) {
                Ok(())
            } else {
                Err(ServiceError::BadRequest { message: policy.ttl_message() })
            }
        },
    }
}

/// Stores the target of `data` under `id` and answers with the identifier.
/// The entry resolves from `now` until its time to live has run out.
pub fn register(id: u128, data: ProxyURL, proxies: &mut Proxies, now: u64) -> (answer: ProxyID)
    ensures
        answer.id == id,
        final(proxies)@ == registered(old(proxies)@, id, data.url@, data.ttl as nat, now as nat),
{
    let ProxyURL { url, ttl } = data;
    proxies.insert(id, url, ttl, now);
    ProxyID { id }
}

/// Handles a registration request made at `now`.
///
/// `header` is the raw `Authorization` header of the request, if it has
/// one, and `secret` the configured access token. A request that fails the
/// credential check or asks for a time to live outside the policy's range
/// is refused and the store stays as it was. Otherwise the target is
/// stored under a newly drawn random identifier, which is the answer.
pub fn post_proxy(
    header: Option<&[u8]>,
    secret: &[u8],
    data: ProxyURL,
    proxies: &mut Proxies,
    policy: &Policy,
    now: u64,
) -> (answer: Result<ProxyID, ServiceError>)
    ensures
        match answer {
            Ok(issued) => {
                &&& registration_check(
                    header_bytes(header),
                    secret@,
                    data.ttl as nat,
                    policy.min_ttl as nat,
                    policy.max_ttl as nat,
                ) is Ok
                &&& is_random_uuid(issued.id)
                &&& final(proxies)@ == registered(
                    old(proxies)@,
                    issued.id,
                    data.url@,
                    data.ttl as nat,
                    now as nat,
                )
            },
            Err(e) => {
                &&& registration_check(
                    header_bytes(header),
                    secret@,
                    data.ttl as nat,
                    policy.min_ttl as nat,
                    policy.max_ttl as nat,
                ) == Err::<(), ServiceErrorView>(e@)
                &&& final(proxies)@ == old(proxies)@
            },
        },
{
    match check_registration(header, secret, data.ttl, policy) {
        Err(e) => Err(e),
        Ok(_) => {
            let id = new_id();
            Ok(register(id, data, proxies, now))
        },
    }
}

/// What a lookup for forwarding answers: the target if `id` resolves at
/// `now`, else a `BadRequest` that does not say whether the identifier was
/// never issued or has expired.
pub open spec fn forward_target(entries: Map<u128, ProxyView>, id: u128, now: nat) -> Result<
    Seq<char>,
    ServiceErrorView,
> {
    match resolve(entries, id, now) {
        Some(url) => Ok(url),
        None => Err(ServiceErrorView::BadRequest { message: "bad id"@ }),
    }
}

/// Resolves `id` at `now` to the URL that the outbound request goes to.
/// The store is not changed.
pub fn get_proxy(id: u128, proxies: &Proxies, now: u64) -> (target: Result<String, ServiceError>)
    ensures
        match target {
            Ok(url) => forward_target(proxies@, id, now as nat) == Ok::<
                Seq<char>,
                ServiceErrorView,
            >(url@),
            Err(e) => forward_target(proxies@, id, now as nat) == Err::<
                Seq<char>,
                ServiceErrorView,
            >(e@),
        },
{
    match proxies.lookup(id, now) {
        Some(url) => Ok(url),
        None => Err(ServiceError::BadRequest { message: "bad id".to_owned() }),
    }
}

/// The status line and the headers of a response, without its body.
#[derive(Debug, Clone, PartialEq, Eq)]
pub struct ResponseHead {
    pub status: u16,
    pub headers: Vec<Header>,
}

/// The mathematical value of a [`ResponseHead`].
pub struct ResponseHeadView {
    pub status: u16,
    pub headers: Seq<HeaderView>,
}

impl View for ResponseHead {
    type V = ResponseHeadView;

    open spec fn view(&self) -> ResponseHeadView {
        ResponseHeadView { status: self.status, headers: self.headers.deep_view() }
    }
}

/// How the outbound request ended.
#[derive(Debug, Clone, PartialEq, Eq)]
pub enum FetchOutcome {
    /// No response arrived: the connection failed, was refused or timed out.
    Failed,
    /// The upstream answered with this status and these headers.
    Replied(ResponseHead),
}

/// The mathematical value of a [`FetchOutcome`].
pub enum FetchOutcomeView {
    Failed,
    Replied(ResponseHeadView),
}

impl View for FetchOutcome {
    type V = FetchOutcomeView;

    open spec fn view(&self) -> FetchOutcomeView {
        match self {
            FetchOutcome::Failed => FetchOutcomeView::Failed,
            FetchOutcome::Replied(head) => FetchOutcomeView::Replied(head@),
        }
    }
}

/// The head of the response that is passed on for a given outcome of the
/// outbound request: the upstream's status with the upstream's headers
/// minus those held back, or a `BadRequest` that gives no detail if no
/// response arrived.
pub open spec fn forwarded(outcome: FetchOutcomeView, ignored: Seq<Seq<char>>) -> Result<
    ResponseHeadView,
    ServiceErrorView,
> {
    match outcome {
        FetchOutcomeView::Failed => Err(
            ServiceErrorView::BadRequest { message: "request failed"@ },
        ),
        FetchOutcomeView::Replied(head) => Ok(
            ResponseHeadView { status: head.status, headers: passed_on(head.headers, ignored) },
        ),
    }
}

/// Turns the outcome of the outbound request into the head of the response
/// that is passed on. The body is streamed through by the caller.
pub fn forward_response(outcome: FetchOutcome, policy: &Policy) -> (response: Result<
    ResponseHead,
    ServiceError,
>)
    ensures
        match response {
            Ok(head) => forwarded(outcome@, policy.ignored()) == Ok::<
                ResponseHeadView,
                ServiceErrorView,
            >(head@),
            Err(e) => forwarded(outcome@, policy.ignored()) == Err::<
                ResponseHeadView,
                ServiceErrorView,
            >(e@),
        },
{
    match outcome {
        FetchOutcome::Failed => Err(
            ServiceError::BadRequest { message: "request failed".to_owned() },
        ),
        FetchOutcome::Replied(head) => {
            let ResponseHead { status, headers } = head;
            let kept = filter_headers(headers, &policy.ignored_headers);
            Ok(ResponseHead { status, headers: kept })
        },
    }
}

} // verus!
