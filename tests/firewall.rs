use forward_proxy::firewall::{
    filter_patterns, ip_matches, Firewall, ListFile, ListKind, ListSource, ModTime,
};
use forward_proxy::proxy_listener::ProxyError;

fn strings(v: &[&str]) -> Vec<String> {
    v.iter().map(|s| s.to_string()).collect()
}

fn at(secs: u64) -> ModTime {
    ModTime { before_epoch: false, secs, nanos: 0 }
}

fn source(path: &str, lines: &[&str], modified: Option<ModTime>) -> ListSource {
    ListSource { path: path.to_string(), lines: strings(lines), modified }
}

#[test]
fn wildcard_segments_match_any_value() {
    assert!(ip_matches("127.0.0.*", "127.0.0.1"));
    assert!(ip_matches("127.0.0.*", "127.0.0.255"));
    assert!(ip_matches("*.*.*.*", "8.8.4.4"));
    assert!(ip_matches("10.*.3.*", "10.200.3.9"));
    assert!(ip_matches("93.184.216.34", "93.184.216.34"));
}

#[test]
fn non_wildcard_segments_must_be_equal() {
    assert!(!ip_matches("127.0.0.*", "127.0.1.1"));
    assert!(!ip_matches("10.*.3.*", "10.200.4.9"));
    assert!(!ip_matches("93.184.216.34", "93.184.216.35"));
    assert!(!ip_matches("1.2.3.4", "1.2.3.40"));
}

#[test]
fn wrong_segment_counts_never_match() {
    assert!(!ip_matches("1.2.3", "1.2.3.4"));
    assert!(!ip_matches("*.*.*.*.*", "1.2.3.4"));
    assert!(!ip_matches("*.*.*.*", "1.2.3"));
    assert!(!ip_matches("*.*.*.*", "1.2.3.4.5"));
    assert!(!ip_matches("", ""));
}

#[test]
fn loading_skips_lines_without_four_segments() {
    let lines = strings(&["127.0.0.1", "bad", "1.2.3", "*.*.*.*", "", "1.2.3.4.5", "10.0.*.1"]);
    assert_eq!(filter_patterns(&lines), strings(&["127.0.0.1", "*.*.*.*", "10.0.*.1"]));
    assert!(filter_patterns(&Vec::new()).is_empty());
}

#[test]
fn new_firewall_loads_both_lists() {
    let fw = Firewall::new(
        source("whitelist.txt", &["127.0.0.*", "junk"], Some(at(1))),
        source("blacklist.txt", &["93.184.216.34"], Some(at(2))),
    );
    assert!(fw.tracks_modification());
    assert_eq!(fw.patterns(ListKind::Whitelist), &strings(&["127.0.0.*"]));
    assert_eq!(fw.patterns(ListKind::Blacklist), &strings(&["93.184.216.34"]));
    assert_eq!(fw.source_path(ListKind::Whitelist), "whitelist.txt");
    assert_eq!(fw.source_path(ListKind::Blacklist), "blacklist.txt");
    assert!(fw.check_list("whitelist", "127.0.0.1"));
    assert!(!fw.check_list("whitelist", "127.0.1.1"));
    assert!(fw.check_list("blacklist", "93.184.216.34"));
    assert!(!fw.check_list("blacklist", "127.0.0.1"));
    assert!(!fw.check_list("greylist", "127.0.0.1"));
}

#[test]
fn tracking_needs_both_times() {
    let fw = Firewall::new(
        source("whitelist.txt", &["127.0.0.*"], Some(at(1))),
        source("blacklist.txt", &[], None),
    );
    assert!(!fw.tracks_modification());
    assert!(!fw.needs_reload(ListKind::Whitelist, at(5)));
}

#[test]
fn reload_follows_a_new_modification_time() {
    let mut fw = Firewall::new(
        source("whitelist.txt", &["127.0.0.*"], Some(at(1))),
        source("blacklist.txt", &[], Some(at(1))),
    );
    assert!(fw.in_whitelist("127.0.0.1", None));
    assert!(!fw.needs_reload(ListKind::Whitelist, at(1)));
    assert!(fw.needs_reload(ListKind::Whitelist, at(2)));
    let update = ListFile { lines: strings(&["10.0.0.*"]), modified: at(2) };
    assert!(!fw.in_whitelist("127.0.0.1", Some(update)));
    assert!(fw.in_whitelist("10.0.0.7", None));
    assert!(!fw.needs_reload(ListKind::Whitelist, at(2)));
    assert_eq!(fw.patterns(ListKind::Whitelist), &strings(&["10.0.0.*"]));
    // the same time again: the contents handed over are not taken
    let stale = ListFile { lines: strings(&["127.0.0.*"]), modified: at(2) };
    assert!(!fw.in_whitelist("127.0.0.1", Some(stale)));
    // the blacklist follows its own file
    let bl = ListFile { lines: strings(&["10.0.0.7"]), modified: at(3) };
    assert!(fw.in_blacklist("10.0.0.7", Some(bl)));
    assert!(fw.in_whitelist("10.0.0.7", None));
}

#[test]
fn without_tracking_lists_stay_as_loaded() {
    let mut fw = Firewall::new(
        source("whitelist.txt", &["127.0.0.*"], None),
        source("blacklist.txt", &["6.6.6.6"], None),
    );
    let update = ListFile { lines: strings(&["10.0.0.*"]), modified: at(9) };
    assert!(fw.in_whitelist("127.0.0.1", Some(update)));
    assert!(!fw.in_whitelist("10.0.0.1", None));
    let bl = ListFile { lines: strings(&[]), modified: at(9) };
    assert!(fw.in_blacklist("6.6.6.6", Some(bl)));
}

#[test]
fn authorization_checks_whitelist_then_blacklist() {
    let mut fw = Firewall::new(
        source("whitelist.txt", &["127.0.0.*"], Some(at(1))),
        source("blacklist.txt", &["6.6.*.*"], Some(at(1))),
    );
    assert!(matches!(fw.authorize("127.0.0.1", "93.184.216.34", None, None), Ok(())));
    assert!(matches!(
        fw.authorize("192.168.1.1", "93.184.216.34", None, None),
        Err(ProxyError::WhiteListDeny)
    ));
    assert!(matches!(
        fw.authorize("192.168.1.1", "6.6.1.1", None, None),
        Err(ProxyError::WhiteListDeny)
    ));
    assert!(matches!(
        fw.authorize("127.0.0.1", "6.6.1.1", None, None),
        Err(ProxyError::BlackListDeny)
    ));
}

#[test]
fn denied_client_leaves_blacklist_untouched() {
    let mut fw = Firewall::new(
        source("whitelist.txt", &["127.0.0.*"], Some(at(1))),
        source("blacklist.txt", &["6.6.*.*"], Some(at(1))),
    );
    let bl = ListFile { lines: strings(&["1.1.1.1"]), modified: at(2) };
    assert!(matches!(
        fw.authorize("192.168.1.1", "1.1.1.1", None, Some(bl)),
        Err(ProxyError::WhiteListDeny)
    ));
    assert_eq!(fw.patterns(ListKind::Blacklist), &strings(&["6.6.*.*"]));
}

#[test]
fn every_wildcard_subset_matches_exactly_on_the_fixed_segments() {
    let ip = ["10", "20", "30", "40"];
    let other = ["11", "21", "31", "41"];
    for mask in 0..16u32 {
        let pattern: Vec<&str> =
            (0..4).map(|i| if mask & (1 << i) != 0 { "*" } else { ip[i] }).collect();
        let pattern = pattern.join(".");
        assert!(ip_matches(&pattern, &ip.join(".")), "{}", pattern);
        for changed in 0..4 {
            let mut probe = ip;
            probe[changed] = other[changed];
            let wildcarded = mask & (1 << changed) != 0;
            assert_eq!(ip_matches(&pattern, &probe.join(".")), wildcarded, "{} {:?}", pattern, probe);
        }
    }
}
