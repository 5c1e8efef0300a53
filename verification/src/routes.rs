//! The `/check-ip` endpoint as decisions: from the header's value to the
//! client's address text, and from each stage of a check to the next step
//! or the response.

use vstd::prelude::*;
use vstd::string::*;
use crate::config::Config;
use crate::httpbl::{
    outcome_reputation,
    policy_blocks,
    query_name,
    CheckStep,
    HttpblResolver,
    ResolverOutcome,
};
use crate::net::IpAddress;

verus! {

/// Status and body of an HTTP response.
#[derive(Clone, Debug, PartialEq, Eq)]
pub struct Response {
    pub status: u16,
    pub body: String,
}

/// What the endpoint does next: answer, or have one name resolved.
#[derive(Clone, Debug, PartialEq, Eq)]
pub enum RouteStep {
    Respond(Response),
    Resolve(String),
}

/// White space in the sense of Unicode's `White_Space` property.
pub open spec fn is_whitespace(c: char) -> bool {
    let u = c as u32;
    (0x09 <= u <= 0x0D) || u == 0x20 || u == 0x85 || u == 0xA0 || u == 0x1680 || (0x2000 <= u
        <= 0x200A) || u == 0x2028 || u == 0x2029 || u == 0x202F || u == 0x205F || u == 0x3000
}

/// Whether `text` is `value[start..end]`, the first comma-separated entry
/// of `value` (which ends at `stop`) without the white space around it.
pub open spec fn is_trimmed_first_entry(
    value: Seq<char>,
    text: Seq<char>,
    start: int,
    end: int,
    stop: int,
) -> bool {
    &&& 0 <= start <= end <= stop <= value.len()
    &&& text == value.subrange(start, end)
    &&& forall|i: int| 0 <= i < stop ==> value[i] != ','
    &&& stop == value.len() || value[stop] == ','
    &&& forall|i: int| 0 <= i < start ==> is_whitespace(value[i])
    &&& forall|i: int| end <= i < stop ==> is_whitespace(value[i])
    &&& start < end ==> !is_whitespace(value[start]) && !is_whitespace(value[end - 1])
}

/// Whether `text` is the first comma-separated entry of `value` without
/// the white space around it.
pub open spec fn is_client_ip_text(value: Seq<char>, text: Seq<char>) -> bool {
    exists|start: int, end: int, stop: int|
        is_trimmed_first_entry(value, text, start, end, stop)
}

/// The status for a decision: 403 where the client is blocked, else 200.
pub open spec fn verdict_status(block: bool) -> u16 {
    if block {
        403
    } else {
        200
    }
}

/// The body that goes with the verdict.
pub open spec fn verdict_body(block: bool) -> Seq<char> {
    if block {
        "Access denied."@
    } else {
        "Access allowed."@
    }
}

/// The body that answers a request without a usable client address.
pub open spec fn missing_ip_body(header_name: Seq<char>) -> Seq<char> {
    "Invalid or missing client IP header ("@ + header_name + ")"@
}

/// The lower-case form of a text, as the standard library computes it.
pub uninterp spec fn lowercase(text: Seq<char>) -> Seq<char>;

/// Calls `str::to_lowercase`. Believed, not proved: the string that comes
/// back is the lower-case form of `text`, which depends on `text` alone.
#[verifier::external_body]
fn to_lowercase(text: &str) -> (lower: String)
    ensures
        lower@ == lowercase(text@),
{
    text.to_lowercase()
}

/// The name under which the client's address is looked up among the
/// request's headers: the configured name in lower case.
pub fn header_lookup_name(config: &Config) -> (name: String)
    ensures
        name@ == lowercase(config.client_ip_header@),
{
    to_lowercase(config.client_ip_header.as_str())
}

/// Whether `c` is white space.
pub fn is_whitespace_char(c: char) -> (b: bool)
    ensures
        b == is_whitespace(c),
{
    let u: u32 = c as u32;
    (0x09 <= u && u <= 0x0D) || u == 0x20 || u == 0x85 || u == 0xA0 || u == 0x1680 || (0x2000 <= u
        && u <= 0x200A) || u == 0x2028 || u == 0x2029 || u == 0x202F || u == 0x205F || u
        == 0x3000
}

/// The client's address as the header gives it: of a comma-separated
/// list the first entry, without the white space around it.
pub fn client_ip_text(value: &str) -> (text: &str)
    ensures
        is_client_ip_text(value@, text@),
{
    let n: usize = value.unicode_len();
    let mut stop: usize = 0;
    while stop < n && value.get_char(stop) != ','
        invariant
            n == value@.len(),
            0 <= stop <= n,
            forall|i: int| 0 <= i < stop ==> value@[i] != ',',
        decreases n - stop,
    {
        stop += 1;
    }
    let mut start: usize = 0;
    while start < stop && is_whitespace_char(value.get_char(start))
        invariant
            n == value@.len(),
            0 <= start <= stop <= n,
            forall|i: int| 0 <= i < start ==> is_whitespace(value@[i]),
        decreases stop - start,
    {
        start += 1;
    }
    let mut end: usize = stop;
    while end > start && is_whitespace_char(value.get_char(end - 1))
        invariant
            n == value@.len(),
            0 <= start <= end <= stop <= n,
            forall|i: int| end <= i < stop ==> is_whitespace(value@[i]),
        decreases end - start,
    {
        end -= 1;
    }
    let text = value.substring_char(start, end);
    assert(is_trimmed_first_entry(value@, text@, start as int, end as int, stop as int));
    text
}

/// The response that carries the verdict.
pub fn verdict_response(block: bool) -> (response: Response)
    ensures
        response.status == verdict_status(block),
        response.body@ == verdict_body(block),
{
    let mut body = String::new();
    if block {
        body.append("Access denied.");
        assert(body@ =~= "Access denied."@);
        Response { status: 403, body }
    } else {
        body.append("Access allowed.");
        assert(body@ =~= "Access allowed."@);
        Response { status: 200, body }
    }
}

/// The response to a request whose header `header_name` gave no usable
/// address: it is denied.
pub fn missing_ip_response(header_name: &str) -> (response: Response)
    ensures
        response.status == 403,
        response.body@ == missing_ip_body(header_name@),
{
    let mut body = String::new();
    body.append("Invalid or missing client IP header (");
    body.append(header_name);
    body.append(")");
    assert(body@ =~= missing_ip_body(header_name@));
    Response { status: 403, body }
}

/// Begins a request. `client_ip` is the address that the header gave, or
/// `None` where the header was missing or held no address. Without an
/// address the request is denied and nothing is resolved; an address that
/// needs no lookup is answered at once; for any other the step names the
/// query to resolve.
pub fn check_ip(client_ip: Option<IpAddress>, resolver: &HttpblResolver, config: &Config) -> (step:
    RouteStep)
    ensures
        client_ip is None ==> step is Respond && step->Respond_0.status == 403
            && step->Respond_0.body@ == missing_ip_body(config.client_ip_header@),
        client_ip is Some && client_ip->Some_0 is V6 ==> step is Respond
            && step->Respond_0.status == 200 && step->Respond_0.body@ == verdict_body(false),
        client_ip is Some && client_ip->Some_0 is V4 ==> step is Resolve && step->Resolve_0@
            == query_name(resolver.access_key@, client_ip->Some_0->V4_0),
{
    match client_ip {
        None => RouteStep::Respond(missing_ip_response(config.client_ip_header.as_str())),
        Some(ip) => match resolver.check(&ip, &config.policy()) {
            CheckStep::Decided(block) => RouteStep::Respond(verdict_response(block)),
            CheckStep::Query(name) => RouteStep::Resolve(name),
        },
    }
}

/// Ends a request with what the resolver said of the query: 403 where the
/// policy blocks the lookup's result, 200 where it does not. A name that
/// does not exist and a failed resolution both let the client pass.
pub fn check_ip_resolved(outcome: &ResolverOutcome, resolver: &HttpblResolver, config: &Config) -> (
    response: Response
)
    ensures
        response.status == verdict_status(
            policy_blocks(outcome_reputation(*outcome), config.policy_spec()),
        ),
        response.body@ == verdict_body(
            policy_blocks(outcome_reputation(*outcome), config.policy_spec()),
        ),
        *outcome is NotFound || *outcome is Failed ==> response.status == 200,
        outcome_reputation(*outcome) is Error ==> response.status == 200,
{
    let block = resolver.finish_check(outcome, &config.policy());
    verdict_response(block)
}

} // verus!
