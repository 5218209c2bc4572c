use eventful::nsq::{nsq_url_at, rand_nsq_url, rand_nsqd_url, Daemon, FleetNSQ};
use eventful::err::{ErrorKind, EventfulError};
use eventful::text::{lookup, parse_port, split_at_commas};

fn env_of(pairs: &[(&str, &str)]) -> Vec<(String, String)> {
    pairs.iter().map(|(k, v)| (k.to_string(), v.to_string())).collect()
}

fn full_env() -> Vec<(String, String)> {
    env_of(&[
        ("NSQ1_HOST", "nsq-nsqd1"),
        ("NSQ1_HTTP_PORT", "4151"),
        ("NSQ1_TCP_PORT", "4150"),
        ("NSQ2_HOST", "nsq-nsqd2"),
        ("NSQ2_HTTP_PORT", "4251"),
        ("NSQ2_TCP_PORT", "4250"),
        ("NSQ3_HOST", "nsq-nsqd3"),
        ("NSQ3_HTTP_PORT", "4351"),
        ("NSQ3_TCP_PORT", "4350"),
    ])
}

fn config_text(e: EventfulError) -> String {
    match e {
        EventfulError::Config(m) => m,
        _ => panic!("expected a configuration error"),
    }
}

#[test]
fn daemon_new_writes_both_addresses() {
    let d = Daemon::new("127.0.0.1", 4151, 4150);
    assert_eq!(d.host, "127.0.0.1");
    assert_eq!(d.http_port, 4151);
    assert_eq!(d.tcp_port, 4150);
    assert_eq!(d.pub_url, "http://127.0.0.1:4151");
    assert_eq!(d.cons_address, "127.0.0.1:4150");
}

#[test]
fn daemon_new_port_edges() {
    let d = Daemon::new("h", 0, 65535);
    assert_eq!(d.pub_url, "http://h:0");
    assert_eq!(d.cons_address, "h:65535");
    let d = Daemon::new("h", 10, 9);
    assert_eq!(d.pub_url, "http://h:10");
    assert_eq!(d.cons_address, "h:9");
}

#[test]
fn parse_port_accepts_decimal_ports() {
    assert_eq!(parse_port("4151"), Some(4151));
    assert_eq!(parse_port("0"), Some(0));
    assert_eq!(parse_port("65535"), Some(65535));
    assert_eq!(parse_port("004150"), Some(4150));
    assert_eq!(parse_port("+4151"), Some(4151));
}

#[test]
fn parse_port_rejects_malformed_text() {
    assert_eq!(parse_port(""), None);
    assert_eq!(parse_port("65536"), None);
    assert_eq!(parse_port("99999999999999999999"), None);
    assert_eq!(parse_port("41a1"), None);
    assert_eq!(parse_port("-1"), None);
    assert_eq!(parse_port(" 4151"), None);
    assert_eq!(parse_port("+"), None);
    assert_eq!(parse_port("++1"), None);
    assert_eq!(parse_port("+65536"), None);
}

#[test]
fn split_keeps_empty_pieces() {
    assert_eq!(split_at_commas("a,,b"), vec!["a", "", "b"]);
    assert_eq!(split_at_commas(""), vec![""]);
    assert_eq!(split_at_commas("http://a:1,http://b:2"), vec!["http://a:1", "http://b:2"]);
    assert_eq!(split_at_commas(","), vec!["", ""]);
}

#[test]
fn lookup_takes_the_first_entry() {
    let env = env_of(&[("A", "1"), ("B", "2"), ("A", "3")]);
    assert_eq!(lookup(&env, "A"), Some("1".to_string()));
    assert_eq!(lookup(&env, "B"), Some("2".to_string()));
    assert_eq!(lookup(&env, "C"), None);
    assert_eq!(lookup(&Vec::new(), "A"), None);
}

#[test]
fn daemon_from_env_reads_three_variables() {
    let env = env_of(&[("H", "nsqd"), ("P", "4151"), ("T", "4150")]);
    let d = Daemon::new_from_env(&env, "H", "P", "T").ok().unwrap();
    assert_eq!(d.host, "nsqd");
    assert_eq!(d.pub_url, "http://nsqd:4151");
    assert_eq!(d.cons_address, "nsqd:4150");
}

#[test]
fn daemon_from_env_names_the_first_bad_variable() {
    let env = env_of(&[("P", "4151"), ("T", "4150")]);
    let e = Daemon::new_from_env(&env, "H", "P", "T").err().unwrap();
    assert!(e.kind() == ErrorKind::Configuration);
    assert_eq!(config_text(e), "H");
    let env = env_of(&[("H", "nsqd"), ("P", "port"), ("T", "4150")]);
    assert_eq!(config_text(Daemon::new_from_env(&env, "H", "P", "T").err().unwrap()), "P");
    let env = env_of(&[("H", "nsqd"), ("P", "4151")]);
    assert_eq!(config_text(Daemon::new_from_env(&env, "H", "P", "T").err().unwrap()), "T");
}

#[test]
fn fleet_from_env_reads_three_daemons() {
    let f = FleetNSQ::new_from_env(&full_env()).ok().unwrap();
    assert_eq!(f.d1.pub_url, "http://nsq-nsqd1:4151");
    assert_eq!(f.d2.cons_address, "nsq-nsqd2:4250");
    assert_eq!(f.d3.pub_url, "http://nsq-nsqd3:4351");
    let refs = f.as_refs();
    assert_eq!(refs[0].host, "nsq-nsqd1");
    assert_eq!(refs[1].host, "nsq-nsqd2");
    assert_eq!(refs[2].host, "nsq-nsqd3");
}

#[test]
fn fleet_from_env_names_the_missing_variable() {
    let mut env = full_env();
    env.retain(|(k, _)| k != "NSQ2_TCP_PORT");
    let e = FleetNSQ::new_from_env(&env).err().unwrap();
    assert_eq!(config_text(e), "NSQ2_TCP_PORT");
    assert_eq!(config_text(FleetNSQ::new_from_env(&Vec::new()).err().unwrap()), "NSQ1_HOST");
}

#[test]
fn fleet_pick_follows_the_order() {
    let f = FleetNSQ::new_from_env(&full_env()).ok().unwrap();
    assert_eq!(f.pick(0).host, "nsq-nsqd1");
    assert_eq!(f.pick(1).host, "nsq-nsqd2");
    assert_eq!(f.pick(2).host, "nsq-nsqd3");
}

#[test]
fn fleet_rand_returns_members_and_reaches_all() {
    let f = FleetNSQ::new_from_env(&full_env()).ok().unwrap();
    let mut seen = [false; 3];
    for _ in 0..600 {
        let d = f.rand();
        let i = ["nsq-nsqd1", "nsq-nsqd2", "nsq-nsqd3"].iter().position(|h| *h == d.host).unwrap();
        seen[i] = true;
    }
    assert_eq!(seen, [true, true, true]);
}

#[test]
fn rand_nsqd_url_picks_a_listed_url() {
    let mut seen = std::collections::HashSet::new();
    for _ in 0..400 {
        let u = rand_nsqd_url("http://a:4151,http://b:4151");
        assert!(u == "http://a:4151" || u == "http://b:4151");
        seen.insert(u);
    }
    assert_eq!(seen.len(), 2);
    assert_eq!(rand_nsqd_url("http://only:1"), "http://only:1");
    assert_eq!(rand_nsqd_url(""), "");
}

#[test]
fn nsq_url_falls_back_to_the_local_default() {
    let env = full_env();
    assert_eq!(nsq_url_at(&env, 2), "http://nsq-nsqd2:4251");
    assert_eq!(nsq_url_at(&Vec::new(), 1), "http://127.0.0.1:4151");
    let bad = env_of(&[("NSQ1_HOST", "x"), ("NSQ1_HTTP_PORT", "70000")]);
    assert_eq!(nsq_url_at(&bad, 1), "http://127.0.0.1:4151");
    let u = rand_nsq_url(&env);
    assert!(u == "http://nsq-nsqd1:4151" || u == "http://nsq-nsqd2:4251" || u == "http://nsq-nsqd3:4351");
    assert_eq!(rand_nsq_url(&Vec::new()), "http://127.0.0.1:4151");
}
