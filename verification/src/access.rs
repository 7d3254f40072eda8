//! Which peers may use the node, by the channels they have with it.

use vstd::prelude::*;
use vstd::string::*;

use crate::payments::NodeId;
use crate::text::opt_is;

verus! {

/// A channel, as far as access goes.
#[derive(Debug)]
pub struct PeerChannel {
    pub peer: NodeId,
    /// The funding transaction, once there is one.
    pub funding_txid: Option<String>,
}

/// How many of some channels are with a peer.
pub open spec fn channels_with(channels: Seq<PeerChannel>, peer: NodeId) -> nat
    decreases channels.len(),
{
    if channels.len() == 0 {
        0
    } else {
        channels_with(channels.drop_last(), peer) + if channels.last().peer == peer {
            1nat
        } else {
            0
        }
    }
}

/// How many channels the node has with a peer, unfunded ones among them.
pub fn channel_count_with(channels: &Vec<PeerChannel>, peer: NodeId) -> (r: usize)
    ensures
        r == channels_with(channels@, peer),
{
    let n: usize = channels.len();
    let mut count: usize = 0;
    let mut i: usize = 0;
    while i < n
        invariant
            i <= n,
            n == channels@.len(),
            count == channels_with(channels@.take(i as int), peer),
            count <= i,
        decreases n - i,
    {
        assert(channels@.take(i + 1).drop_last() =~= channels@.take(i as int));
        if channels[i].peer == peer {
            count += 1;
        }
        i += 1;
    }
    assert(channels@.take(n as int) =~= channels@);
    count
}

/// Whether a channel is funded by a transaction.
pub open spec fn is_funded_by(channel: PeerChannel, funding_txid: Seq<char>) -> bool {
    channel.funding_txid matches Some(txid) && txid@ == funding_txid
}

/// Whether one of some channels is funded by a transaction.
pub open spec fn any_funded_by(channels: Seq<PeerChannel>, funding_txid: Seq<char>) -> bool {
    exists|i: int| 0 <= i < channels.len() && is_funded_by(#[trigger] channels[i], funding_txid)
}

/// Whether the node has a channel that a transaction funds.
pub fn has_channel_funded_by(channels: &Vec<PeerChannel>, funding_txid: &str) -> (r: bool)
    ensures
        r == any_funded_by(channels@, funding_txid@),
{
    let mut i: usize = 0;
    while i < channels.len()
        invariant
            i <= channels@.len(),
            forall|j: int| 0 <= j < i ==> !is_funded_by(#[trigger] channels@[j], funding_txid@),
        decreases channels@.len() - i,
    {
        if opt_is(&channels[i].funding_txid, funding_txid) {
            assert(is_funded_by(channels@[i as int], funding_txid@));
            return true;
        }
        i += 1;
    }
    false
}

/// Whether a peer is one of those with a usable channel.
pub fn peer_has_live_channel(usable: &Vec<NodeId>, peer: NodeId) -> (r: bool)
    ensures
        r == usable@.contains(peer),
{
    let mut i: usize = 0;
    while i < usable.len()
        invariant
            i <= usable@.len(),
            forall|j: int| 0 <= j < i ==> #[trigger] usable@[j] != peer,
        decreases usable@.len() - i,
    {
        if usable[i] == peer {
            assert(usable@[i as int] == peer);
            return true;
        }
        i += 1;
    }
    false
}

/// Access for the peers that have a usable channel at the time.
#[derive(Debug)]
pub struct LiveChannelAccess {
    /// The peers of the usable channels.
    pub usable: Vec<NodeId>,
}

impl LiveChannelAccess {
    /// Access for the peers of the usable channels.
    pub fn new(usable: Vec<NodeId>) -> (r: Self)
        ensures
            r.usable == usable,
    {
        LiveChannelAccess { usable }
    }

    /// Whether a peer may send the node's own messages.
    pub fn allows_peer(&self, peer: NodeId) -> (r: bool)
        ensures
            r == self.usable@.contains(peer),
    {
        peer_has_live_channel(&self.usable, peer)
    }
}

/// Counting channels adds up: one more channel counts for its peer and for no other, and a peer with a
/// channel counts.
pub proof fn law_channels_count_for_their_peer(
    channels: Seq<PeerChannel>,
    added: PeerChannel,
    peer: NodeId,
)
    ensures
        channels_with(channels.push(added), peer) == channels_with(channels, peer) + if added.peer
            == peer {
            1int
        } else {
            0
        },
        channels_with(channels, peer) <= channels.len(),
        channels_with(channels, peer) > 0 <==> exists|i: int|
            0 <= i < channels.len() && (#[trigger] channels[i]).peer == peer,
    decreases channels.len(),
{
    assert(channels.push(added).drop_last() == channels);
    if channels.len() > 0 {
        let rest = channels.drop_last();
        let last = channels.last();
        law_channels_count_for_their_peer(rest, last, peer);
        if channels_with(rest, peer) > 0 {
            let i = choose|i: int| 0 <= i < rest.len() && (#[trigger] rest[i]).peer == peer;
            assert(channels[i].peer == peer);
        }
        if last.peer == peer {
            assert(channels[channels.len() - 1].peer == peer);
        }
        if exists|i: int| 0 <= i < channels.len() && (#[trigger] channels[i]).peer == peer {
            let i = choose|i: int| 0 <= i < channels.len() && (#[trigger] channels[i]).peer == peer;
            if i < rest.len() {
                assert(rest[i].peer == peer);
            }
        }
    }
}

/// A transaction funds a channel of the node exactly where it is the funding transaction of one; a
/// channel without one is funded by none.
pub proof fn law_transactions_fund_their_channels(
    channels: Seq<PeerChannel>,
    funding_txid: Seq<char>,
    i: int,
)
    requires
        0 <= i < channels.len(),
    ensures
        channels[i].funding_txid is Some && channels[i].funding_txid->0@ == funding_txid
            ==> any_funded_by(channels, funding_txid),
        (forall|k: int|
            0 <= k < channels.len() ==> (#[trigger] channels[k]).funding_txid is None
                || channels[k].funding_txid->0@ != funding_txid) ==> !any_funded_by(
            channels,
            funding_txid,
        ),
{
    if channels[i].funding_txid is Some && channels[i].funding_txid->0@ == funding_txid {
        assert(is_funded_by(channels[i], funding_txid));
    }
}

} // verus!
