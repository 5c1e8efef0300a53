use httpbl_auth::config::{Config, Policy};
use httpbl_auth::httpbl::{
    evaluate_policy, CheckStep, HttpblResolver, HttpblResult, LookupStep, ResolverOutcome,
};
use httpbl_auth::net::{IpAddress, Ipv4Address, Ipv6Address};

fn v4(a: u8, b: u8, c: u8, d: u8) -> IpAddress {
    IpAddress::V4(Ipv4Address::new(a, b, c, d))
}

fn v6() -> IpAddress {
    IpAddress::V6(Ipv6Address { octets: [0, 0, 0, 0, 0, 0, 0, 0, 0, 0, 0, 0, 0, 0, 0, 1] })
}

fn policy(min: u8, mask: u8, allow: bool) -> Policy {
    Policy { block_min_threat_score: min, block_type_mask: mask, allow_search_engines: allow }
}

fn settings(min: u8, mask: u8, allow: bool) -> Config {
    Config::from_env(
        String::from("abc"),
        String::from("127.0.0.1:8080"),
        String::from("x-real-ip"),
        min,
        mask,
        allow,
    )
}

#[test]
fn settings_keep_what_they_were_given() {
    let config = Config::from_env(
        String::from("secretkey"),
        String::from("0.0.0.0:9000"),
        String::from("X-Forwarded-For"),
        25,
        6,
        true,
    );
    assert_eq!(config.access_key, "secretkey");
    assert_eq!(config.bind_address, "0.0.0.0:9000");
    assert_eq!(config.client_ip_header, "X-Forwarded-For");
    assert_eq!(config.block_min_threat_score, 25);
    assert_eq!(config.block_type_mask, 6);
    assert!(config.allow_search_engines);
    assert_eq!(config.policy(), policy(25, 6, true));
}

#[test]
fn resolver_keeps_its_access_key() {
    let resolver = HttpblResolver::new(String::from("abc"));
    assert_eq!(resolver.access_key, "abc");
}

#[test]
fn lookup_of_ipv6_is_not_listed_and_asks_nothing() {
    let resolver = HttpblResolver::new(String::from("abc"));
    assert_eq!(resolver.lookup(&v6()), LookupStep::Finished(HttpblResult::NotListed));
}

#[test]
fn lookup_of_ipv4_names_the_query() {
    let resolver = HttpblResolver::new(String::from("abc"));
    assert_eq!(
        resolver.lookup(&v4(1, 2, 3, 4)),
        LookupStep::Query(String::from("abc.4.3.2.1.dnsbl.httpbl.org"))
    );
}

#[test]
fn missing_name_means_not_listed() {
    let resolver = HttpblResolver::new(String::from("abc"));
    assert_eq!(resolver.finish_lookup(&ResolverOutcome::NotFound), HttpblResult::NotListed);
}

#[test]
fn failed_resolution_carries_its_description() {
    let resolver = HttpblResolver::new(String::from("abc"));
    let outcome = ResolverOutcome::Failed(String::from("request timed out"));
    assert_eq!(
        resolver.finish_lookup(&outcome),
        HttpblResult::Error(String::from("DNS resolution failed: request timed out"))
    );
}

#[test]
fn answer_is_decoded() {
    let resolver = HttpblResolver::new(String::from("abc"));
    let outcome = ResolverOutcome::Records(vec![v4(127, 5, 50, 4)]);
    assert_eq!(
        resolver.finish_lookup(&outcome),
        HttpblResult::Listed { days: 5, threat: 50, type_mask: 4 }
    );
    let outcome = ResolverOutcome::Records(vec![]);
    assert_eq!(
        resolver.finish_lookup(&outcome),
        HttpblResult::Error(String::from("No A records found"))
    );
}

#[test]
fn unknown_address_passes() {
    assert!(!evaluate_policy(&HttpblResult::NotListed, &policy(0, 255, false)));
}

#[test]
fn search_engine_follows_the_switch() {
    let mut serial: u32 = 0;
    while serial <= 255 {
        let record = HttpblResult::SearchEngine(serial as u8);
        assert!(!evaluate_policy(&record, &policy(0, 255, true)));
        assert!(evaluate_policy(&record, &policy(255, 0, false)));
        serial += 1;
    }
}

#[test]
fn listed_is_blocked_by_threat_or_by_type() {
    let mins: [u8; 5] = [0, 1, 20, 200, 255];
    let masks: [u8; 6] = [0, 1, 2, 4, 7, 255];
    let types: [u8; 7] = [0, 1, 2, 3, 4, 7, 8];
    for min in mins.iter() {
        for mask in masks.iter() {
            for type_mask in types.iter() {
                let mut threat: u32 = 0;
                while threat <= 255 {
                    let record = HttpblResult::Listed {
                        days: 1,
                        threat: threat as u8,
                        type_mask: *type_mask,
                    };
                    let expected = (threat as u8) >= *min || (*type_mask & *mask) != 0;
                    assert_eq!(evaluate_policy(&record, &policy(*min, *mask, true)), expected);
                    assert_eq!(evaluate_policy(&record, &policy(*min, *mask, false)), expected);
                    threat += 1;
                }
            }
        }
    }
}

#[test]
fn listed_exact_cases() {
    let record = HttpblResult::Listed { days: 5, threat: 50, type_mask: 4 };
    assert!(evaluate_policy(&record, &policy(20, 0, true)));
    assert!(evaluate_policy(&record, &policy(50, 0, true)));
    assert!(!evaluate_policy(&record, &policy(51, 0, true)));
    assert!(evaluate_policy(&record, &policy(51, 4, true)));
    assert!(evaluate_policy(&record, &policy(51, 6, true)));
    assert!(!evaluate_policy(&record, &policy(51, 3, true)));
    let quiet = HttpblResult::Listed { days: 9, threat: 0, type_mask: 0 };
    assert!(evaluate_policy(&quiet, &policy(0, 0, true)));
    assert!(!evaluate_policy(&quiet, &policy(1, 255, true)));
}

#[test]
fn lookup_error_never_blocks() {
    let record = HttpblResult::Error(String::from("anything"));
    assert!(!evaluate_policy(&record, &policy(0, 255, false)));
    assert!(!evaluate_policy(&record, &policy(255, 0, true)));
}

#[test]
fn apply_policy_reads_the_settings() {
    let resolver = HttpblResolver::new(String::from("abc"));
    let record = HttpblResult::Listed { days: 5, threat: 50, type_mask: 4 };
    assert!(resolver.apply_policy(&record, &settings(20, 0, true)));
    assert!(!resolver.apply_policy(&record, &settings(60, 3, true)));
    assert!(resolver.apply_policy(&HttpblResult::SearchEngine(3), &settings(60, 3, false)));
    assert!(!resolver.apply_policy(&HttpblResult::SearchEngine(3), &settings(60, 3, true)));
    assert!(!resolver.apply_policy(&HttpblResult::NotListed, &settings(0, 255, false)));
    assert!(!resolver.apply_policy(&HttpblResult::Error(String::from("e")), &settings(0, 255, false)));
}

#[test]
fn check_begins_with_the_query_or_the_verdict() {
    let resolver = HttpblResolver::new(String::from("abc"));
    assert_eq!(resolver.check(&v6(), &policy(0, 255, false)), CheckStep::Decided(false));
    assert_eq!(
        resolver.check(&v4(127, 5, 50, 4), &policy(0, 255, false)),
        CheckStep::Query(String::from("abc.4.50.5.127.dnsbl.httpbl.org"))
    );
}

#[test]
fn check_ends_with_the_policy_on_the_result() {
    let resolver = HttpblResolver::new(String::from("abc"));
    let listed = ResolverOutcome::Records(vec![v4(127, 5, 50, 4)]);
    assert!(resolver.finish_check(&listed, &policy(20, 0, true)));
    assert!(!resolver.finish_check(&listed, &policy(51, 3, true)));
    let crawler = ResolverOutcome::Records(vec![v4(127, 0, 5, 0)]);
    assert!(resolver.finish_check(&crawler, &policy(255, 0, false)));
    assert!(!resolver.finish_check(&crawler, &policy(0, 255, true)));
    assert!(!resolver.finish_check(&ResolverOutcome::NotFound, &policy(0, 255, false)));
    let failed = ResolverOutcome::Failed(String::from("no connection"));
    assert!(!resolver.finish_check(&failed, &policy(0, 255, false)));
    let malformed = ResolverOutcome::Records(vec![v4(10, 0, 0, 1)]);
    assert!(!resolver.finish_check(&malformed, &policy(0, 255, false)));
}
