use rafilter::nft::{
    create_nftables_objects, find_counter_packets, ra_counter_name, table_name, RuleStep,
    RulesetEntry,
};

#[test]
fn fixed_names_match_between_install_and_lookup() {
    assert_eq!(table_name(), "rafilter");
    assert_eq!(ra_counter_name(), "RA_counter");
    let rs = create_nftables_objects(&None);
    assert_eq!(rs.table.name, table_name());
    assert_eq!(rs.counter.name, ra_counter_name());
}

#[test]
fn ruleset_without_interface_has_three_steps() {
    let rs = create_nftables_objects(&None);
    assert_eq!(rs.table.name, "rafilter");
    assert_eq!(rs.chain.table, "rafilter");
    assert_eq!(rs.chain.name, "input");
    assert_eq!(rs.chain.prio, 0);
    assert!(rs.chain.policy_accept);
    assert_eq!(rs.rule.table, "rafilter");
    assert_eq!(rs.rule.chain, "input");
    assert_eq!(rs.counter.table, "rafilter");
    assert_eq!(rs.counter.name, "RA_counter");
    assert_eq!(rs.rule.steps.len(), 3);
    assert!(matches!(
        rs.rule.steps[0],
        RuleStep::MatchIcmpv6Type { msg_type: 134 }
    ));
    assert!(matches!(&rs.rule.steps[1], RuleStep::CountNamed { counter } if counter == "RA_counter"));
    assert!(matches!(rs.rule.steps[2], RuleStep::EnqueueTo { queue_num: 0 }));
}

#[test]
fn ruleset_with_interface_prepends_its_match() {
    let rs = create_nftables_objects(&Some("eth0".to_string()));
    assert_eq!(rs.rule.steps.len(), 4);
    assert!(matches!(&rs.rule.steps[0], RuleStep::MatchIifname { iface } if iface == "eth0"));
    assert!(matches!(
        rs.rule.steps[1],
        RuleStep::MatchIcmpv6Type { msg_type: 134 }
    ));
    assert!(matches!(&rs.rule.steps[2], RuleStep::CountNamed { counter } if counter == "RA_counter"));
    assert!(matches!(rs.rule.steps[3], RuleStep::EnqueueTo { queue_num: 0 }));
}

#[test]
fn counter_lookup_fresh_counter_reads_zero() {
    let entries = vec![
        RulesetEntry::OtherEntry,
        RulesetEntry::CounterEntry { name: "RA_counter".to_string(), packets: Some(0) },
    ];
    assert_eq!(
        find_counter_packets(&entries, &"RA_counter".to_string()),
        Some(0)
    );
}

#[test]
fn counter_lookup_reads_observed_packets() {
    let entries = vec![
        RulesetEntry::OtherEntry,
        RulesetEntry::CounterEntry { name: "other".to_string(), packets: Some(9) },
        RulesetEntry::CounterEntry { name: "RA_counter".to_string(), packets: Some(42) },
    ];
    assert_eq!(
        find_counter_packets(&entries, &"RA_counter".to_string()),
        Some(42)
    );
}

#[test]
fn counter_lookup_absent_name_reads_none() {
    let entries = vec![
        RulesetEntry::OtherEntry,
        RulesetEntry::CounterEntry { name: "other".to_string(), packets: Some(9) },
    ];
    assert_eq!(find_counter_packets(&entries, &"RA_counter".to_string()), None);
    assert_eq!(find_counter_packets(&Vec::new(), &"RA_counter".to_string()), None);
}

#[test]
fn counter_lookup_takes_first_match() {
    let entries = vec![
        RulesetEntry::CounterEntry { name: "RA_counter".to_string(), packets: Some(7) },
        RulesetEntry::CounterEntry { name: "RA_counter".to_string(), packets: Some(11) },
    ];
    assert_eq!(
        find_counter_packets(&entries, &"RA_counter".to_string()),
        Some(7)
    );
}

#[test]
fn counter_lookup_without_count_reads_none() {
    let entries = vec![RulesetEntry::CounterEntry { name: "RA_counter".to_string(), packets: None }];
    assert_eq!(find_counter_packets(&entries, &"RA_counter".to_string()), None);
}
