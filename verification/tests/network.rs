use std::collections::HashMap;

use mainnet_client::ids::AccountRef;
use mainnet_client::network::mainnet_client_settings;

#[test]
fn mainnet_settings() {
    let settings = mainnet_client_settings();
    assert_eq!(settings.request_timeout_secs, 300);
    assert_eq!(settings.max_attempts, 20);
    let table: Vec<(String, u64)> =
        settings.nodes.iter().map(|n| (n.address.clone(), n.node_account.num)).collect();
    assert_eq!(
        table,
        vec![
            ("35.237.200.180:50211".to_string(), 3),
            ("35.186.191.247:50211".to_string(), 4),
            ("35.192.2.25:50211".to_string(), 5),
            ("35.199.161.108:50211".to_string(), 6),
            ("35.236.5.219:50211".to_string(), 8),
            ("35.242.233.154:50211".to_string(), 10),
            ("35.240.118.96:50211".to_string(), 11),
            ("35.204.86.32:50211".to_string(), 12),
        ]
    );
    for n in settings.nodes.iter() {
        assert_eq!(n.node_account.shard, 0);
        assert_eq!(n.node_account.realm, 0);
        assert_eq!(n.node_account.alias, None);
        assert_eq!(n.node_account.evm_address, None);
        assert!(n.address.ends_with(":50211"));
    }
}

#[test]
fn node_table_keeps_every_node_in_a_map() {
    let settings = mainnet_client_settings();
    let map: HashMap<String, AccountRef> =
        settings.nodes.iter().map(|n| (n.address.clone(), n.node_account)).collect();
    assert_eq!(map.len(), 8);
}
