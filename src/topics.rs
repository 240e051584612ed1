//! Names of the gossip topics, suffixed with the network namespace.
use vstd::prelude::*;
use vstd::string::*;

verus! {

/// Gossip topic identifier for blocks.
pub const PUBSUB_BLOCK_STR: &'static str = "/fil/blocks";

/// Gossip topic identifier for messages.
pub const PUBSUB_MSG_STR: &'static str = "/fil/msgs";

/// The characters of the blocks topic base name.
pub open spec fn block_base() -> Seq<char> {
    seq!['/', 'f', 'i', 'l', '/', 'b', 'l', 'o', 'c', 'k', 's']
}

/// The characters of the messages topic base name.
pub open spec fn msg_base() -> Seq<char> {
    seq!['/', 'f', 'i', 'l', '/', 'm', 's', 'g', 's']
}

/// A topic name: the base, a slash, then the network namespace.
pub open spec fn topic_spec(base: Seq<char>, network_name: Seq<char>) -> Seq<char> {
    base + seq!['/'] + network_name
}

/// The two topics a node subscribes to on the given network.
pub open spec fn subscribed_topics(network_name: Seq<char>) -> Set<Seq<char>> {
    set![topic_spec(block_base(), network_name), topic_spec(msg_base(), network_name)]
}

/// Builds `<base>/<network_name>`.
pub fn topic_name(base: &str, network_name: &str) -> (r: String)
    ensures
        r@ == topic_spec(base@, network_name@),
{
    let mut r = base.to_owned();
    let sep = "/";
    proof {
        reveal_strlit("/");
    }
    r.append(sep);
    r.append(network_name);
    r
}

/// The hash under which gossip keys an identity topic.
///
/// Relies on libp2p's `gossipsub::IdentTopic::new(..).hash()`: the identity
/// hasher returns the topic's name itself as the hash.
#[verifier::external_body]
pub(crate) fn ident_topic_hash(name: String) -> (r: String)
    ensures
        r@ == name@,
{
    libp2p::gossipsub::IdentTopic::new(name).hash().into_string()
}

/// The blocks topic of a network.
pub fn block_topic(network_name: &str) -> (r: String)
    ensures
        r@ == topic_spec(block_base(), network_name@),
{
    proof {
        reveal_strlit("/fil/blocks");
    }
    topic_name(PUBSUB_BLOCK_STR, network_name)
}

/// The messages topic of a network.
pub fn msg_topic(network_name: &str) -> (r: String)
    ensures
        r@ == topic_spec(msg_base(), network_name@),
{
    proof {
        reveal_strlit("/fil/msgs");
    }
    topic_name(PUBSUB_MSG_STR, network_name)
}

/// The topics to subscribe to, blocks first, then messages.
pub fn subscription_topics(network_name: &str) -> (r: Vec<String>)
    ensures
        r@.len() == 2,
        r@[0]@ == topic_spec(block_base(), network_name@),
        r@[1]@ == topic_spec(msg_base(), network_name@),
{
    let mut r: Vec<String> = Vec::new();
    r.push(block_topic(network_name));
    r.push(msg_topic(network_name));
    r
}

/// Topics of two different networks never coincide, and on one network the
/// blocks topic and the messages topic differ.
pub proof fn lemma_topics_disjoint(n1: Seq<char>, n2: Seq<char>)
    ensures
        topic_spec(block_base(), n1) != topic_spec(msg_base(), n2),
        n1 != n2 ==> topic_spec(block_base(), n1) != topic_spec(block_base(), n2),
        n1 != n2 ==> topic_spec(msg_base(), n1) != topic_spec(msg_base(), n2),
        n1 != n2 ==> subscribed_topics(n1).disjoint(subscribed_topics(n2)),
{
    let b1 = topic_spec(block_base(), n1);
    let m2 = topic_spec(msg_base(), n2);
    assert(b1[5] == 'b');
    assert(m2[5] == 'm');
    lemma_same_base_injective(block_base(), n1, n2);
    lemma_same_base_injective(msg_base(), n1, n2);
    let m1 = topic_spec(msg_base(), n1);
    let b2 = topic_spec(block_base(), n2);
    assert(m1[5] == 'm');
    assert(b2[5] == 'b');
    assert(b1 != m2);
    assert(m1 != b2);
}

/// With one base, the topic name determines the namespace.
pub proof fn lemma_same_base_injective(base: Seq<char>, n1: Seq<char>, n2: Seq<char>)
    ensures
        topic_spec(base, n1) == topic_spec(base, n2) ==> n1 == n2,
{
    if topic_spec(base, n1) == topic_spec(base, n2) {
        let k = base.len() + 1;
        assert(topic_spec(base, n1).subrange(k as int, topic_spec(base, n1).len() as int) =~= n1);
        assert(topic_spec(base, n2).subrange(k as int, topic_spec(base, n2).len() as int) =~= n2);
    }
}

} // verus!
