use vstd::prelude::*;
use vstd::string::StringExecFns;
use crate::ids::{account_num, AccountRef};

verus! {

/// One consensus node: its gRPC address and the account it runs as.
#[derive(Debug, PartialEq)]
pub struct NodeEntry {
    pub address: String,
    pub node_account: AccountRef,
}

/// How the client talks to mainnet.
#[derive(Debug, PartialEq)]
pub struct ClientSettings {
    /// The nodes that requests go to.
    pub nodes: Vec<NodeEntry>,
    /// How long one request may take, in seconds.
    pub request_timeout_secs: u64,
    /// How many times the client tries a request.
    pub max_attempts: usize,
}

/// The mainnet nodes the client uses: address and node account number, all
/// on the gRPC port 50211.
pub open spec fn mainnet_node_table() -> Seq<(Seq<char>, u64)> {
    seq![
        ("35.237.200.180:50211"@, 3u64),
        ("35.186.191.247:50211"@, 4u64),
        ("35.192.2.25:50211"@, 5u64),
        ("35.199.161.108:50211"@, 6u64),
        ("35.236.5.219:50211"@, 8u64),
        ("35.242.233.154:50211"@, 10u64),
        ("35.240.118.96:50211"@, 11u64),
        ("35.204.86.32:50211"@, 12u64),
    ]
}

/// `node` is the `i`-th row of the mainnet node table.
pub open spec fn is_table_row(node: NodeEntry, i: int) -> bool {
    &&& node.address@ == mainnet_node_table()[i].0
    &&& node.node_account == account_num(mainnet_node_table()[i].1)
}

fn node(address: &str, num: u64) -> (r: NodeEntry)
    ensures
        r.address@ == address@,
        r.node_account == account_num(num),
{
    NodeEntry { address: String::from_str(address), node_account: AccountRef::from_num(num) }
}

/// The settings for mainnet: the node table, a request timeout of 300
/// seconds and up to 20 attempts per request.
pub fn mainnet_client_settings() -> (r: ClientSettings)
    ensures
        r.nodes@.len() == mainnet_node_table().len(),
        forall|i: int| 0 <= i < r.nodes@.len() ==> is_table_row(#[trigger] r.nodes@[i], i),
        r.request_timeout_secs == 300,
        r.max_attempts == 20,
{
    let mut nodes: Vec<NodeEntry> = Vec::new();
    nodes.push(node("35.237.200.180:50211", 3));
    nodes.push(node("35.186.191.247:50211", 4));
    nodes.push(node("35.192.2.25:50211", 5));
    nodes.push(node("35.199.161.108:50211", 6));
    nodes.push(node("35.236.5.219:50211", 8));
    nodes.push(node("35.242.233.154:50211", 10));
    nodes.push(node("35.240.118.96:50211", 11));
    nodes.push(node("35.204.86.32:50211", 12));
    ClientSettings { nodes, request_timeout_secs: 300, max_attempts: 20 }
}

/// The node table names each address and each node account once, so a
/// network map built from it keeps all of its nodes; every address is on
/// port 50211 of a node in the 35.x.x.x range.
pub proof fn law_node_table_distinct()
    ensures
        forall|i: int, j: int|
            0 <= i < j < mainnet_node_table().len() ==> #[trigger] mainnet_node_table()[i].0
                != #[trigger] mainnet_node_table()[j].0 && mainnet_node_table()[i].1
                != mainnet_node_table()[j].1,
        forall|i: int|
            0 <= i < mainnet_node_table().len() ==> {
                let a = #[trigger] mainnet_node_table()[i].0;
                &&& a.len() > 9
                &&& a.take(3) == "35."@
                &&& a.skip(a.len() - 6) == ":50211"@
            },
{
    reveal_strlit("35.237.200.180:50211");
    reveal_strlit("35.186.191.247:50211");
    reveal_strlit("35.192.2.25:50211");
    reveal_strlit("35.199.161.108:50211");
    reveal_strlit("35.236.5.219:50211");
    reveal_strlit("35.242.233.154:50211");
    reveal_strlit("35.240.118.96:50211");
    reveal_strlit("35.204.86.32:50211");
    reveal_strlit("35.");
    reveal_strlit(":50211");
    let t = mainnet_node_table();
    assert forall|i: int, j: int| 0 <= i < j < t.len() implies #[trigger] t[i].0 != #[trigger] t[j].0 by {
        assert(t[i].0[3] != t[j].0[3] || t[i].0[4] != t[j].0[4] || t[i].0[5] != t[j].0[5] || t[i].0[6] != t[j].0[6]);
    }
    assert forall|i: int| 0 <= i < t.len() implies {
        let a = #[trigger] t[i].0;
        &&& a.len() > 9
        &&& a.take(3) == "35."@
        &&& a.skip(a.len() - 6) == ":50211"@
    } by {
        let a = t[i].0;
        assert(a.take(3) =~= "35."@);
        assert(a.skip(a.len() - 6) =~= ":50211"@);
    }
}

} // verus!
