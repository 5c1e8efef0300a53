//! The http:BL protocol: query names, the meaning of an answer, and the
//! steps of one lookup.

use vstd::prelude::*;
use vstd::string::*;
use crate::config::{Config, Policy};
use crate::net::{IpAddress, Ipv4Address};
use crate::text::{append_dotted, ipv4_text, ipv4_to_string, reversed_ipv4_text};

verus! {

/// What one lookup found.
#[derive(Clone, Debug, PartialEq, Eq)]
pub enum HttpblResult {
    /// The blocklist does not know the address.
    NotListed,
    /// A verified crawler, with the serial number of its engine.
    SearchEngine(u8),
    /// A listed address.
    Listed {
        /// Days since the address was last seen.
        days: u8,
        /// Threat score, 0 to 255.
        threat: u8,
        /// Bit mask: 1 = suspicious, 2 = harvester, 4 = comment spammer.
        type_mask: u8,
    },
    /// The lookup or its decoding failed.
    Error(String),
}

/// The mathematical value of an [`HttpblResult`].
pub enum Reputation {
    NotListed,
    SearchEngine { serial: u8 },
    Listed { days: u8, threat: u8, type_mask: u8 },
    Error { message: Seq<char> },
}

impl View for HttpblResult {
    type V = Reputation;

    open spec fn view(&self) -> Reputation {
        match self {
            HttpblResult::NotListed => Reputation::NotListed,
            HttpblResult::SearchEngine(serial) => Reputation::SearchEngine { serial: *serial },
            HttpblResult::Listed { days, threat, type_mask } => Reputation::Listed {
                days: *days,
                threat: *threat,
                type_mask: *type_mask,
            },
            HttpblResult::Error(message) => Reputation::Error { message: message@ },
        }
    }
}

/// What the DNS resolver said of one query name.
#[derive(Clone, Debug, PartialEq, Eq)]
pub enum ResolverOutcome {
    /// The name resolved to these addresses, in the order received.
    Records(Vec<IpAddress>),
    /// The name does not exist.
    NotFound,
    /// Resolution failed otherwise; the text describes the failure.
    Failed(String),
}

/// The first step of a lookup: either the result is known at once, or one
/// name has to be resolved.
#[derive(Clone, Debug, PartialEq, Eq)]
pub enum LookupStep {
    Finished(HttpblResult),
    Query(String),
}

/// The first step of a check: either the decision is known at once
/// (`true` blocks), or one name has to be resolved.
#[derive(Clone, Debug, PartialEq, Eq)]
pub enum CheckStep {
    Decided(bool),
    Query(String),
}

/// The name to resolve for `ip` under `access_key`: the key, the octets of
/// the address last to first, and the zone of the blocklist.
pub open spec fn query_name(access_key: Seq<char>, ip: Ipv4Address) -> Seq<char> {
    access_key + "."@ + reversed_ipv4_text(ip) + ".dnsbl.httpbl.org"@
}

/// What an answer address means. The first octet must be 127; the others
/// are days, threat and type mask, where zero days with an empty mask mark
/// a search engine whose serial number stands in the threat's place.
pub open spec fn decode_address(ip: Ipv4Address) -> Reputation {
    let days = ip.octets@[1];
    let threat = ip.octets@[2];
    let type_mask = ip.octets@[3];
    if ip.octets@[0] != 127 {
        Reputation::Error { message: "Unexpected IP format: "@ + ipv4_text(ip) }
    } else if days == 0 && type_mask == 0 {
        Reputation::SearchEngine { serial: threat }
    } else {
        Reputation::Listed { days, threat, type_mask }
    }
}

/// What the address that decides means, or the error of an empty answer.
pub open spec fn decode_first(first: Option<Ipv4Address>) -> Reputation {
    match first {
        Some(ip) => decode_address(ip),
        None => Reputation::Error { message: "No A records found"@ },
    }
}

/// What a sequence of answer addresses means: the first one decides.
pub open spec fn decode(addresses: Seq<Ipv4Address>) -> Reputation {
    decode_first(
        if addresses.len() == 0 {
            None
        } else {
            Some(addresses[0])
        },
    )
}

/// The first IPv4 address among `addresses`, if there is one.
pub open spec fn first_ipv4(addresses: Seq<IpAddress>) -> Option<Ipv4Address>
    decreases addresses.len(),
{
    if addresses.len() == 0 {
        None
    } else {
        match addresses[0] {
            IpAddress::V4(ip) => Some(ip),
            IpAddress::V6(_) => first_ipv4(addresses.drop_first()),
        }
    }
}

/// What the resolver's outcome means for the address asked about.
pub open spec fn outcome_reputation(outcome: ResolverOutcome) -> Reputation {
    match outcome {
        ResolverOutcome::Records(addresses) => decode_first(first_ipv4(addresses@)),
        ResolverOutcome::NotFound => Reputation::NotListed,
        ResolverOutcome::Failed(description) => Reputation::Error {
            message: "DNS resolution failed: "@ + description@,
        },
    }
}

/// Whether `policy` blocks a client with this reputation. An unknown
/// address and a failed lookup pass.
pub open spec fn policy_blocks(record: Reputation, policy: Policy) -> bool {
    match record {
        Reputation::NotListed => false,
        Reputation::SearchEngine { .. } => !policy.allow_search_engines,
        Reputation::Listed { threat, type_mask, .. } => threat >= policy.block_min_threat_score
            || (type_mask & policy.block_type_mask) != 0,
        Reputation::Error { .. } => false,
    }
}

/// Builds the name to resolve for `ip`.
pub fn build_query_name(access_key: &str, ip: &Ipv4Address) -> (name: String)
    ensures
        name@ == query_name(access_key@, *ip),
        name@ == access_key@ + "."@ + crate::text::dotted(
            ip.octets@[3],
            ip.octets@[2],
            ip.octets@[1],
            ip.octets@[0],
        ) + ".dnsbl.httpbl.org"@,
{
    let mut name = String::new();
    name.append(access_key);
    name.append(".");
    append_dotted(&mut name, ip.octets[3], ip.octets[2], ip.octets[1], ip.octets[0]);
    name.append(".dnsbl.httpbl.org");
    assert(name@ =~= query_name(access_key@, *ip));
    name
}

/// Decodes one answer address.
pub fn decode_one(ip: &Ipv4Address) -> (result: HttpblResult)
    ensures
        result@ == decode_address(*ip),
{
    if ip.octets[0] == 127 {
        let days = ip.octets[1];
        let threat = ip.octets[2];
        let type_mask = ip.octets[3];
        if days == 0 && type_mask == 0 {
            HttpblResult::SearchEngine(threat)
        } else {
            HttpblResult::Listed { days, threat, type_mask }
        }
    } else {
        let mut message = String::new();
        message.append("Unexpected IP format: ");
        let shown = ipv4_to_string(ip);
        message.append(shown.as_str());
        assert(message@ =~= "Unexpected IP format: "@ + ipv4_text(*ip));
        HttpblResult::Error(message)
    }
}

fn no_records() -> (result: HttpblResult)
    ensures
        result@ == decode_first(None),
{
    let mut message = String::new();
    message.append("No A records found");
    assert(message@ =~= "No A records found"@);
    HttpblResult::Error(message)
}

/// Decodes the answer to a query: the first address decides, whatever
/// follows it; an empty answer is an error.
pub fn decode_response(addresses: &Vec<Ipv4Address>) -> (result: HttpblResult)
    ensures
        result@ == decode(addresses@),
        addresses@.len() == 0 ==> result@ is Error,
        addresses@.len() > 0 && addresses@[0].octets@[0] != 127 ==> result@ is Error,
        addresses@.len() > 0 && addresses@[0].octets@[0] == 127 ==> !(result@ is Error) && !(
        result@ is NotListed),
{
    if addresses.len() == 0 {
        no_records()
    } else {
        decode_one(&addresses[0])
    }
}

/// Among the first `n` addresses none but IPv6 ones stand exactly when the
/// first IPv4 address of the whole is that of the rest.
pub proof fn lemma_first_ipv4_skip(addresses: Seq<IpAddress>, n: int)
    requires
        0 <= n <= addresses.len(),
        forall|j: int| 0 <= j < n ==> addresses[j] is V6,
    ensures
        first_ipv4(addresses) == first_ipv4(addresses.skip(n)),
    decreases n,
{
    if n == 0 {
        assert(addresses.skip(0) =~= addresses);
    } else {
        let rest = addresses.drop_first();
        assert forall|j: int| 0 <= j < n - 1 implies rest[j] is V6 by {
            assert(rest[j] == addresses[j + 1]);
        }
        lemma_first_ipv4_skip(rest, n - 1);
        assert(rest.skip(n - 1) =~= addresses.skip(n));
    }
}

/// An answer of IPv4 addresses alone means the same whether it is read as
/// a mixed answer or as a plain one.
pub proof fn lemma_ipv4_only_answer(addresses: Seq<IpAddress>, plain: Seq<Ipv4Address>)
    requires
        addresses.len() == plain.len(),
        forall|i: int| 0 <= i < plain.len() ==> addresses[i] == IpAddress::V4(plain[i]),
    ensures
        decode_first(first_ipv4(addresses)) == decode(plain),
{
}

/// The service's side of the blocklist: it holds the access key, says what to
/// resolve, and reads what came back.
#[derive(Clone, Debug)]
pub struct HttpblResolver {
    pub access_key: String,
}

impl HttpblResolver {
    /// A resolver that asks under `access_key`.
    pub fn new(access_key: String) -> (resolver: HttpblResolver)
        ensures
            resolver.access_key@ == access_key@,
    {
        HttpblResolver { access_key }
    }

    /// The octets of `ip` in decimal, last to first, with dots between.
    pub fn reverse_ipv4_octets(ip: &Ipv4Address) -> (reversed: String)
        ensures
            reversed@ == reversed_ipv4_text(*ip),
    {
        let mut reversed = String::new();
        append_dotted(&mut reversed, ip.octets[3], ip.octets[2], ip.octets[1], ip.octets[0]);
        assert(reversed@ =~= reversed_ipv4_text(*ip));
        reversed
    }

    /// Begins a lookup. An IPv6 address is not listed, and nothing is to be
    /// resolved for it; for an IPv4 address the step names the query.
    pub fn lookup(&self, ip: &IpAddress) -> (step: LookupStep)
        ensures
            *ip is V6 ==> step == LookupStep::Finished(HttpblResult::NotListed),
            *ip is V4 ==> step is Query && step->Query_0@ == query_name(
                self.access_key@,
                ip->V4_0,
            ),
    {
        match ip {
            IpAddress::V6(_) => LookupStep::Finished(HttpblResult::NotListed),
            IpAddress::V4(ipv4) => LookupStep::Query(
                build_query_name(self.access_key.as_str(), ipv4),
            ),
        }
    }

    /// Ends a lookup with what the resolver said of the query: a missing
    /// name means not listed, a failure is an error that carries its
    /// description, and an answer is decoded.
    pub fn finish_lookup(&self, outcome: &ResolverOutcome) -> (result: HttpblResult)
        ensures
            result@ == outcome_reputation(*outcome),
            *outcome is NotFound ==> result@ is NotListed,
            *outcome is Failed ==> result@ is Error,
    {
        match outcome {
            ResolverOutcome::Records(addresses) => self.parse_response(addresses),
            ResolverOutcome::NotFound => HttpblResult::NotListed,
            ResolverOutcome::Failed(description) => {
                let mut message = String::new();
                message.append("DNS resolution failed: ");
                message.append(description.as_str());
                assert(message@ =~= "DNS resolution failed: "@ + description@);
                HttpblResult::Error(message)
            },
        }
    }

    /// Reads an answer that may mix address families: the first IPv4
    /// address decides, and an answer without one is an error.
    pub fn parse_response(&self, addresses: &Vec<IpAddress>) -> (result: HttpblResult)
        ensures
            result@ == decode_first(first_ipv4(addresses@)),
    {
        let mut i: usize = 0;
        while i < addresses.len()
            invariant
                0 <= i <= addresses.len(),
                forall|j: int| 0 <= j < i ==> addresses@[j] is V6,
            decreases addresses.len() - i,
        {
            match &addresses[i] {
                IpAddress::V4(ipv4) => {
                    proof {
                        lemma_first_ipv4_skip(addresses@, i as int);
                        assert(addresses@.skip(i as int)[0] == addresses@[i as int]);
                    }
                    return decode_one(ipv4);
                },
                IpAddress::V6(_) => {},
            }
            i += 1;
        }
        proof {
            lemma_first_ipv4_skip(addresses@, addresses@.len() as int);
            assert(addresses@.skip(addresses@.len() as int).len() == 0);
        }
        no_records()
    }

    /// Whether the settings block a client with this lookup result.
    pub fn apply_policy(&self, result: &HttpblResult, policy: &Config) -> (block: bool)
        ensures
            block == policy_blocks(result@, policy.policy_spec()),
    {
        evaluate_policy(result, &policy.policy())
    }

    /// Begins a check of `ip`: the decision for an address that needs no
    /// lookup, else the query to resolve.
    pub fn check(&self, ip: &IpAddress, policy: &Policy) -> (step: CheckStep)
        ensures
            *ip is V6 ==> step == CheckStep::Decided(false),
            *ip is V4 ==> step is Query && step->Query_0@ == query_name(
                self.access_key@,
                ip->V4_0,
            ),
    {
        match self.lookup(ip) {
            LookupStep::Finished(result) => CheckStep::Decided(evaluate_policy(&result, policy)),
            LookupStep::Query(name) => CheckStep::Query(name),
        }
    }

    /// Ends a check with what the resolver said: the policy's verdict on
    /// the lookup's result.
    pub fn finish_check(&self, outcome: &ResolverOutcome, policy: &Policy) -> (block: bool)
        ensures
            block == policy_blocks(outcome_reputation(*outcome), *policy),
            *outcome is NotFound || *outcome is Failed ==> !block,
    {
        let result = self.finish_lookup(outcome);
        evaluate_policy(&result, policy)
    }
}

/// Whether `policy` blocks a client with this lookup result.
pub fn evaluate_policy(record: &HttpblResult, policy: &Policy) -> (block: bool)
    ensures
        block == policy_blocks(record@, *policy),
        record@ is NotListed ==> !block,
        record@ is SearchEngine ==> block == !policy.allow_search_engines,
        record@ is Listed ==> (block <==> (record@->threat >= policy.block_min_threat_score || (
        record@->type_mask & policy.block_type_mask) != 0)),
        record@ is Error ==> !block,
{
    match record {
        HttpblResult::NotListed => false,
        HttpblResult::SearchEngine(_) => !policy.allow_search_engines,
        HttpblResult::Listed { days: _, threat, type_mask } => {
            let block_by_threat = *threat >= policy.block_min_threat_score;
            let block_by_type = (*type_mask & policy.block_type_mask) != 0;
            block_by_threat || block_by_type
        },
        HttpblResult::Error(_) => false,
    }
}

} // verus!
