//! Node identities and the batch of monitored-item requests built from them.

use vstd::prelude::*;

verus! {

/// A node on the server: a namespace index and a string identifier.
#[derive(Clone, Debug)]
pub struct NodeId {
    pub namespace: u16,
    pub identifier: String,
}

/// The character of a decimal digit.
pub open spec fn digit_char(d: nat) -> char {
    seq!['0', '1', '2', '3', '4', '5', '6', '7', '8', '9'][d as int]
}

/// A number in decimal, without leading zeros.
pub open spec fn decimal(n: nat) -> Seq<char>
    decreases n,
{
    if n < 10 {
        seq![digit_char(n)]
    } else {
        decimal(n / 10) + seq![digit_char(n % 10)]
    }
}

/// The text OPC UA shows for a node with a string identifier: the namespace
/// index, unless it is zero, then the identifier marked as a string.
pub open spec fn node_id_text(namespace: u16, identifier: Seq<char>) -> Seq<char> {
    if namespace != 0 {
        "ns="@ + decimal(namespace as nat) + ";s="@ + identifier
    } else {
        "s="@ + identifier
    }
}

/// Relies on opcua's `Display` for a `NodeId` built with `NodeId::new` from a
/// namespace and a string: `ns=<namespace>;s=<identifier>`, without the
/// `ns=` part in namespace zero.
#[verifier::external_body]
pub(crate) fn node_text(node: &NodeId) -> (r: String)
    ensures
        r@ == node_id_text(node.namespace, node.identifier@),
{
    opcua::types::NodeId::new(node.namespace, node.identifier.clone()).to_string()
}

/// The node a topic names in the given namespace.
pub open spec fn requested_node(namespace: u16, topic: Seq<char>, node: NodeId) -> bool {
    node.namespace == namespace && node.identifier@ == topic
}

/// One request per topic, in the order of the topics, each for the node
/// that the topic names in `namespace`.
pub fn monitored_item_requests(namespace: u16, topics: &Vec<String>) -> (r: Vec<NodeId>)
    ensures
        r@.len() == topics@.len(),
        forall|i: int| 0 <= i < r@.len() ==> requested_node(namespace, #[trigger] topics@[i]@, r@[i]),
{
    let mut r: Vec<NodeId> = Vec::new();
    let mut i: usize = 0;
    while i < topics.len()
        invariant
            i <= topics@.len(),
            r@.len() == i,
            forall|k: int| 0 <= k < i ==> requested_node(namespace, #[trigger] topics@[k]@, r@[k]),
        decreases topics@.len() - i,
    {
        let identifier = topics[i].clone();
        r.push(NodeId { namespace, identifier });
        i = i + 1;
    }
    r
}

} // verus!
