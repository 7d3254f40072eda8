//! Virtual channels: channels between trusting peers whose funding is never broadcast.

use vstd::prelude::*;
use vstd::string::*;
use vstd::utf8::*;

use crate::crypto::{sha256, sha256_of};
use crate::error::APIError;
use crate::network::BitcoinNetwork;
use crate::payments::NodeId;
use crate::sender_funding::RgbInfo;
use crate::table::{lemma_slot_of, lemma_slots, Id, Table};
use crate::text::{
    bytes_at, bytes_less, bytes_lt, decimal, join2, join3, lemma_bytes_lt_irreflexive, lemma_bytes_lt_total,
    lemma_bytes_lt_transitive, number, same, text,
};

verus! {

/// An output of a transaction.
#[derive(Clone, Copy, Debug, PartialEq, Eq, Structural)]
pub struct Outpoint {
    pub txid: Id,
    pub index: u16,
}

/// A virtual channel that is being opened.
#[derive(Clone, Copy, Debug, PartialEq, Eq, Structural)]
pub struct VirtualChannelDraft {
    pub created_at: u64,
    pub peer_id: NodeId,
    pub temporary_channel_id: Id,
}

#[derive(Clone, Copy, Debug, PartialEq, Eq, Structural)]
pub enum VirtualChannelSessionStatus {
    Active,
    AbandonPending,
    Abandoned,
}

/// An open virtual channel.
#[derive(Clone, Copy, Debug, PartialEq, Eq, Structural)]
pub struct VirtualChannelSession {
    pub channel_id: Id,
    pub created_at: u64,
    pub former_temporary_channel_id: Id,
    pub peer_id: NodeId,
    pub status: VirtualChannelSessionStatus,
    pub virtual_funding_txo: Outpoint,
    pub updated_at: u64,
}

/// The virtual channels of a node, and the final IDs of the channels that were opened under
/// temporary ones.
#[derive(Debug)]
pub struct VirtualChannels {
    pub drafts: Table<VirtualChannelDraft>,
    pub sessions: Table<VirtualChannelSession>,
    pub channel_ids: Table<Id>,
}

// ---------------------------------------------------------------------------------------------
// The synthetic outpoint
// ---------------------------------------------------------------------------------------------

/// What is hashed for a pair of nodes: a domain, the network, and the two keys in order.
pub open spec fn synthetic_preimage(network: BitcoinNetwork, a: Seq<u8>, b: Seq<u8>) -> Seq<u8> {
    let (first, second) = if bytes_lt(b, a) {
        (b, a)
    } else {
        (a, b)
    };
    encode_utf8("rln_virtual_channels_v0"@) + encode_utf8(network.name()) + first + second
}

fn append(out: &mut Vec<u8>, bytes: &[u8])
    ensures
        final(out)@ == old(out)@ + bytes@,
{
    let mut i: usize = 0;
    assert(out@ =~= old(out)@ + bytes@.take(0));
    while i < bytes.len()
        invariant
            i <= bytes@.len(),
            out@ == old(out)@ + bytes@.take(i as int),
        decreases bytes@.len() - i,
    {
        out.push(bytes[i]);
        i = i + 1;
        assert(bytes@.take(i as int) =~= bytes@.take(i - 1).push(bytes@[i - 1]));
        assert(out@ =~= old(out)@ + bytes@.take(i as int));
    }
    assert(bytes@.take(i as int) =~= bytes@);
}

/// The funding outpoint of a virtual channel: the digest that both peers compute, as a transaction
/// ID in memory order, with index 0.
pub fn virtual_channel_synthetic_outpoint(
    network: BitcoinNetwork,
    local_node_id: &[u8; 33],
    peer_node_id: &[u8; 33],
) -> (r: ([u8; 32], u16))
    ensures
        r.0@ == sha256(synthetic_preimage(network, local_node_id@, peer_node_id@)),
        r.1 == 0,
{
    let mut preimage: Vec<u8> = Vec::new();
    append(&mut preimage, "rln_virtual_channels_v0".as_bytes());
    append(&mut preimage, network.tag().as_bytes());
    if bytes_less(peer_node_id.as_slice(), local_node_id.as_slice()) {
        append(&mut preimage, peer_node_id.as_slice());
        append(&mut preimage, local_node_id.as_slice());
    } else {
        append(&mut preimage, local_node_id.as_slice());
        append(&mut preimage, peer_node_id.as_slice());
    }
    assert(preimage@ =~= synthetic_preimage(network, local_node_id@, peer_node_id@));
    (sha256_of(preimage.as_slice()), 0)
}

/// Both peers compute the same outpoint.
pub proof fn law_synthetic_outpoint_is_symmetric(network: BitcoinNetwork, a: Seq<u8>, b: Seq<u8>)
    ensures
        synthetic_preimage(network, a, b) == synthetic_preimage(network, b, a),
{
    if a != b {
        lemma_bytes_lt_total(a, b);
        if bytes_lt(a, b) && bytes_lt(b, a) {
            lemma_bytes_lt_transitive(a, b, a);
            lemma_bytes_lt_irreflexive(a);
        }
    }
}

// ---------------------------------------------------------------------------------------------
// Drafts and sessions
// ---------------------------------------------------------------------------------------------

/// Where the temporary ID of a new virtual channel comes from.
#[derive(Clone, Copy, Debug, PartialEq, Eq, Structural)]
pub enum TemporaryId {
    /// The caller asked for it.
    Requested(Id),
    /// It was drawn at random.
    Drawn(Id),
}

/// What becomes of the intent to open a virtual channel.
#[derive(Debug, PartialEq, Eq)]
pub enum Intent {
    Added(Id),
    /// The drawn ID is in use; another one is to be drawn.
    DrawAgain,
}

/// Whether a peer has a draft.
pub open spec fn has_draft(drafts: Map<Id, VirtualChannelDraft>, peer: NodeId) -> bool {
    exists|id: Id| #[trigger] drafts.dom().contains(id) && drafts[id].peer_id == peer
}

/// Whether a peer has a session.
pub open spec fn has_session(sessions: Map<Id, VirtualChannelSession>, peer: NodeId) -> bool {
    exists|id: Id| #[trigger] sessions.dom().contains(id) && sessions[id].peer_id == peer
}

/// Whether virtual channels are what recording an intent makes of others, and a result what is answered.
pub open spec fn intends(
    before: VirtualChannels,
    after: VirtualChannels,
    peer_id: NodeId,
    temporary_channel_id: TemporaryId,
    now: u64,
    r: Result<Intent, APIError>,
) -> bool {
    let id = match temporary_channel_id {
        TemporaryId::Requested(id) => id,
        TemporaryId::Drawn(id) => id,
    };
    &&& after.sessions == before.sessions
    &&& after.channel_ids == before.channel_ids
    &&& if has_draft(before.drafts@, peer_id) {
        &&& (r matches Err(APIError::InvalidRequest(e)) && e@
            == "virtual channel draft already exists for this peer pair"@)
        &&& after.drafts@ == before.drafts@
    } else if has_session(before.sessions@, peer_id) {
        &&& (r matches Err(APIError::InvalidRequest(e)) && e@
            == "virtual channel session already exists for this peer pair"@)
        &&& after.drafts@ == before.drafts@
    } else if before.is_used(id) {
        &&& r == (if temporary_channel_id is Requested {
            Err(APIError::TemporaryChannelIdAlreadyUsed)
        } else {
            Ok::<Intent, APIError>(Intent::DrawAgain)
        })
        &&& after.drafts@ == before.drafts@
    } else {
        &&& r == Ok::<Intent, APIError>(Intent::Added(id))
        &&& after.drafts@ == before.drafts@.insert(
            id,
            VirtualChannelDraft { created_at: now, peer_id, temporary_channel_id: id },
        )
    }
}

/// Whether virtual channels are what completing a draft makes of others, and a result the session that
/// came of it.
pub open spec fn completes(
    before: VirtualChannels,
    after: VirtualChannels,
    temporary_channel_id: Id,
    channel_id: Id,
    virtual_funding_txo: Outpoint,
    now: u64,
    r: Option<VirtualChannelSession>,
) -> bool {
    &&& after.channel_ids == before.channel_ids
    &&& if before.drafts@.dom().contains(temporary_channel_id) {
        let draft = before.drafts@[temporary_channel_id];
        let session = VirtualChannelSession {
            channel_id,
            created_at: draft.created_at,
            former_temporary_channel_id: temporary_channel_id,
            peer_id: draft.peer_id,
            status: VirtualChannelSessionStatus::Active,
            virtual_funding_txo,
            updated_at: now,
        };
        &&& r == Some(session)
        &&& after.sessions@ == before.sessions@.insert(channel_id, session)
        &&& after.drafts@ == before.drafts@.remove(temporary_channel_id)
    } else {
        r is None && after == before
    }
}

/// Whether a session is funded by an outpoint.
pub open spec fn is_funded_by(
    job: VirtualChannels,
    virtual_funding_txo: Outpoint,
    r: bool,
) -> bool {
    &&& r <==> exists|id: Id| #[trigger]
                job.sessions@.dom().contains(id) && job.sessions@[id].virtual_funding_txo
                    == virtual_funding_txo
}

/// What dropping a draft makes of the virtual channels.
pub open spec fn is_draft_deleted(
    before: VirtualChannels,
    temporary_channel_id: Id,
    after: VirtualChannels,
) -> bool {
    &&& after.drafts@ == before.drafts@.remove(temporary_channel_id)
    &&& after.sessions == before.sessions
    &&& after.channel_ids == before.channel_ids
}

/// What a new status of a session makes of the virtual channels.
pub open spec fn is_status_recorded(
    before: VirtualChannels,
    session: VirtualChannelSession,
    status: VirtualChannelSessionStatus,
    now: u64,
    after: VirtualChannels,
) -> bool {
    &&& after.sessions@ == before.sessions@.insert(
                session.channel_id,
                VirtualChannelSession { status, updated_at: now, ..session },
            )
    &&& after.drafts == before.drafts
    &&& after.channel_ids == before.channel_ids
}

/// What dropping a channel makes of the virtual channels, and the temporary ID that it had.
pub open spec fn is_channel_dropped(
    before: VirtualChannels,
    channel_id: Id,
    after: VirtualChannels,
    r: Option<Id>,
) -> bool {
    &&& after.drafts == before.drafts
    &&& after.sessions == before.sessions
    &&& match r {
                Some(temporary) => {
                    &&& before.channel_ids@.dom().contains(temporary)
                    &&& before.channel_ids@[temporary] == channel_id
                    &&& after.channel_ids@ == before.channel_ids@.remove(temporary)
                },
                None => {
                    &&& after.channel_ids@ == before.channel_ids@
                    &&& forall|id: Id| #[trigger]
                        before.channel_ids@.dom().contains(id) ==> before.channel_ids@[id]
                            != channel_id
                },
            }
}

impl VirtualChannels {
    pub open spec fn wf(self) -> bool {
        self.drafts.wf() && self.sessions.wf() && self.channel_ids.wf()
    }

    /// Whether a temporary ID is in use.
    pub open spec fn is_used(self, id: Id) -> bool {
        self.channel_ids@.dom().contains(id) || self.drafts@.dom().contains(id)
    }

    fn peer_has_draft(&self, peer: NodeId) -> (r: bool)
        requires
            self.wf(),
        ensures
            r == has_draft(self.drafts@, peer),
    {
        let mut i: usize = 0;
        while i < self.drafts.slots.len()
            invariant
                self.wf(),
                i <= self.drafts.slots@.len(),
                forall|j: int|
                    0 <= j < i ==> (#[trigger] self.drafts.slots@[j]).1.peer_id != peer,
            decreases self.drafts.slots@.len() - i,
        {
            if self.drafts.slots[i].1.peer_id == peer {
                proof {
                    lemma_slots(self.drafts, i as int);
                }
                return true;
            }
            i = i + 1;
        }
        proof {
            assert forall|id: Id| #[trigger]
                self.drafts@.dom().contains(id) implies self.drafts@[id].peer_id != peer by {
                let j = lemma_slot_of(self.drafts, id);
            }
        }
        false
    }

    fn peer_has_session(&self, peer: NodeId) -> (r: bool)
        requires
            self.wf(),
        ensures
            r == has_session(self.sessions@, peer),
    {
        let mut i: usize = 0;
        while i < self.sessions.slots.len()
            invariant
                self.wf(),
                i <= self.sessions.slots@.len(),
                forall|j: int|
                    0 <= j < i ==> (#[trigger] self.sessions.slots@[j]).1.peer_id != peer,
            decreases self.sessions.slots@.len() - i,
        {
            if self.sessions.slots[i].1.peer_id == peer {
                proof {
                    lemma_slots(self.sessions, i as int);
                }
                return true;
            }
            i = i + 1;
        }
        proof {
            assert forall|id: Id| #[trigger]
                self.sessions@.dom().contains(id) implies self.sessions@[id].peer_id != peer by {
                let j = lemma_slot_of(self.sessions, id);
            }
        }
        false
    }

    /// Whether a session is funded by an outpoint.
    pub fn contains_virtual_funding_txo(&self, virtual_funding_txo: Outpoint) -> (r: bool)
        requires
            self.wf(),
        ensures
            is_funded_by(*self, virtual_funding_txo, r),
    {
        let mut i: usize = 0;
        while i < self.sessions.slots.len()
            invariant
                self.wf(),
                i <= self.sessions.slots@.len(),
                forall|j: int|
                    0 <= j < i ==> (#[trigger] self.sessions.slots@[j]).1.virtual_funding_txo
                        != virtual_funding_txo,
            decreases self.sessions.slots@.len() - i,
        {
            if self.sessions.slots[i].1.virtual_funding_txo == virtual_funding_txo {
                proof {
                    lemma_slots(self.sessions, i as int);
                }
                return true;
            }
            i = i + 1;
        }
        proof {
            assert forall|id: Id| #[trigger]
                self.sessions@.dom().contains(
                    id,
                ) implies self.sessions@[id].virtual_funding_txo != virtual_funding_txo by {
                let j = lemma_slot_of(self.sessions, id);
            }
        }
        false
    }

    /// Records the intent to open a virtual channel with a peer, which may have neither a draft nor
    /// a session yet.
    pub fn virtual_channel_add_intent(
        &mut self,
        peer_id: NodeId,
        temporary_channel_id: TemporaryId,
        now: u64,
    ) -> (r: Result<Intent, APIError>)
        requires
            old(self).wf(),
        ensures
            final(self).wf(),
            intends(*old(self), *final(self), peer_id, temporary_channel_id, now, r),
    {
        if self.peer_has_draft(peer_id) {
            return Err(
                APIError::InvalidRequest(
                    text("virtual channel draft already exists for this peer pair"),
                ),
            );
        }
        if self.peer_has_session(peer_id) {
            return Err(
                APIError::InvalidRequest(
                    text("virtual channel session already exists for this peer pair"),
                ),
            );
        }
        let (id, requested) = match temporary_channel_id {
            TemporaryId::Requested(id) => (id, true),
            TemporaryId::Drawn(id) => (id, false),
        };
        if self.channel_ids.contains(id) || self.drafts.contains(id) {
            return if requested {
                Err(APIError::TemporaryChannelIdAlreadyUsed)
            } else {
                Ok(Intent::DrawAgain)
            };
        }
        self.drafts.insert(
            id,
            VirtualChannelDraft { created_at: now, peer_id, temporary_channel_id: id },
        );
        Ok(Intent::Added(id))
    }

    /// Drops a draft.
    pub fn virtual_channel_draft_delete(&mut self, temporary_channel_id: Id)
        requires
            old(self).wf(),
        ensures
            final(self).wf(),
            is_draft_deleted(*old(self), temporary_channel_id, *final(self)),
    {
        self.drafts.remove(temporary_channel_id);
    }

    /// The draft of a channel.
    pub fn virtual_channel_draft_get(&self, temporary_channel_id: Id) -> (r: Option<
        VirtualChannelDraft,
    >)
        requires
            self.wf(),
        ensures
            r == (if self.drafts@.dom().contains(temporary_channel_id) {
                Some(self.drafts@[temporary_channel_id])
            } else {
                None
            }),
    {
        match self.drafts.get(temporary_channel_id) {
            Some(d) => Some(*d),
            None => None,
        }
    }

    /// Adds a session, in place of one with the same channel.
    pub fn virtual_channel_session_add(&mut self, session: VirtualChannelSession)
        requires
            old(self).wf(),
        ensures
            final(self).wf(),
            final(self).sessions@ == old(self).sessions@.insert(session.channel_id, session),
            final(self).drafts == old(self).drafts,
            final(self).channel_ids == old(self).channel_ids,
    {
        self.sessions.insert(session.channel_id, session);
    }

    /// Makes the session of a channel whose funding was registered, from its draft, which goes; `None`
    /// where there is no draft.
    pub fn virtual_channel_complete(
        &mut self,
        temporary_channel_id: Id,
        channel_id: Id,
        virtual_funding_txo: Outpoint,
        now: u64,
    ) -> (r: Option<VirtualChannelSession>)
        requires
            old(self).wf(),
        ensures
            final(self).wf(),
            completes(
                *old(self),
                *final(self),
                temporary_channel_id,
                channel_id,
                virtual_funding_txo,
                now,
                r,
            ),
    {
        let draft = match self.virtual_channel_draft_get(temporary_channel_id) {
            Some(draft) => draft,
            None => {
                return None;
            },
        };
        let session = VirtualChannelSession {
            channel_id,
            created_at: draft.created_at,
            former_temporary_channel_id: temporary_channel_id,
            peer_id: draft.peer_id,
            status: VirtualChannelSessionStatus::Active,
            virtual_funding_txo,
            updated_at: now,
        };
        self.virtual_channel_session_add(session);
        self.virtual_channel_draft_delete(temporary_channel_id);
        Some(session)
    }

    /// The session of a channel.
    pub fn virtual_channel_session_get(&self, channel_id: Id) -> (r: Option<VirtualChannelSession>)
        requires
            self.wf(),
        ensures
            r == (if self.sessions@.dom().contains(channel_id) {
                Some(self.sessions@[channel_id])
            } else {
                None
            }),
    {
        match self.sessions.get(channel_id) {
            Some(s) => Some(*s),
            None => None,
        }
    }

    /// Records the status of a session.
    pub fn virtual_channel_session_update_status(
        &mut self,
        session: &VirtualChannelSession,
        status: VirtualChannelSessionStatus,
        now: u64,
    )
        requires
            old(self).wf(),
        ensures
            final(self).wf(),
            is_status_recorded(*old(self), *session, status, now, *final(self)),
    {
        let mut updated_session = *session;
        updated_session.status = status;
        updated_session.updated_at = now;
        self.virtual_channel_session_add(updated_session);
    }

    /// Records the final ID of a channel.
    pub fn add_channel_id(&mut self, former_temporary_channel_id: Id, channel_id: Id)
        requires
            old(self).wf(),
        ensures
            final(self).wf(),
            final(self).channel_ids@ == old(self).channel_ids@.insert(
                former_temporary_channel_id,
                channel_id,
            ),
            final(self).drafts == old(self).drafts,
            final(self).sessions == old(self).sessions,
    {
        self.channel_ids.insert(former_temporary_channel_id, channel_id);
    }

    /// Drops a channel by its final ID, and gives back its temporary one. Should there be several,
    /// one of them is dropped.
    pub fn delete_channel_id(&mut self, channel_id: Id) -> (r: Option<Id>)
        requires
            old(self).wf(),
        ensures
            final(self).wf(),
            is_channel_dropped(*old(self), channel_id, *final(self), r),
    {
        let mut i: usize = 0;
        while i < self.channel_ids.slots.len()
            invariant
                self.wf(),
                *self == *old(self),
                i <= self.channel_ids.slots@.len(),
                forall|j: int|
                    0 <= j < i ==> (#[trigger] self.channel_ids.slots@[j]).1 != channel_id,
            decreases self.channel_ids.slots@.len() - i,
        {
            if self.channel_ids.slots[i].1 == channel_id {
                let temporary: Id = self.channel_ids.slots[i].0;
                proof {
                    lemma_slots(self.channel_ids, i as int);
                }
                self.channel_ids.remove(temporary);
                return Some(temporary);
            }
            i = i + 1;
        }
        proof {
            assert forall|id: Id| #[trigger]
                self.channel_ids@.dom().contains(id) implies self.channel_ids@[id]
                != channel_id by {
                let j = lemma_slot_of(self.channel_ids, id);
            }
        }
        None
    }
}

/// What a closed channel makes of the virtual channels, and the draft that went with it.
pub open spec fn is_channel_forgotten(
    before: VirtualChannels,
    channel_id: Id,
    after: VirtualChannels,
    r: Option<Id>,
) -> bool {
    &&& after.sessions == before.sessions
    &&& exists|former: Option<Id>| #[trigger]
                forgets(before.channel_ids@, after.channel_ids@, channel_id, former) && r
                    == before.closed_draft(channel_id, former)
    &&& after.drafts@ == (match r {
                Some(id) => before.drafts@.remove(id),
                None => before.drafts@,
            })
}

impl VirtualChannels {
    /// The temporary ID under which a closed channel has a draft: its own ID, or the temporary one
    /// that it was opened under.
    pub open spec fn closed_draft(self, channel_id: Id, former: Option<Id>) -> Option<Id> {
        if self.drafts@.dom().contains(channel_id) {
            Some(channel_id)
        } else {
            match former {
                Some(id) => if self.drafts@.dom().contains(id) {
                    Some(id)
                } else {
                    None
                },
                None => None,
            }
        }
    }

    /// Forgets a channel that was closed, with the draft of a virtual open that failed. Gives back
    /// the temporary ID of that draft: its marker, and that of the channel, are to be removed.
    pub fn channel_closed(&mut self, channel_id: Id) -> (r: Option<Id>)
        requires
            old(self).wf(),
        ensures
            final(self).wf(),
            is_channel_forgotten(*old(self), channel_id, *final(self), r),
    {
        let former = self.delete_channel_id(channel_id);
        assert(forgets(old(self).channel_ids@, self.channel_ids@, channel_id, former));
        let draft = if self.drafts.contains(channel_id) {
            Some(channel_id)
        } else {
            match former {
                Some(id) => if self.drafts.contains(id) {
                    Some(id)
                } else {
                    None
                },
                None => None,
            }
        };
        if let Some(id) = draft {
            self.virtual_channel_draft_delete(id);
        }
        draft
    }
}

/// A channel is dropped by its final ID; `former` is the temporary one that it had, if any.
pub open spec fn forgets(
    before: Map<Id, Id>,
    after: Map<Id, Id>,
    channel_id: Id,
    former: Option<Id>,
) -> bool {
    match former {
        Some(id) => before.dom().contains(id) && before[id] == channel_id && after == before.remove(
            id,
        ),
        None => after == before && forall|id: Id| #[trigger]
            before.dom().contains(id) ==> before[id] != channel_id,
    }
}

/// The key of the marker of a virtual channel.
pub fn virtual_channel_key(channel_id: &str) -> (r: String)
    ensures
        r@ == "virtual_channel_"@ + channel_id@,
{
    join2("virtual_channel_", channel_id)
}

/// Whether each peer has one draft or one session at most, and not both.
pub open spec fn one_per_peer(
    drafts: Map<Id, VirtualChannelDraft>,
    sessions: Map<Id, VirtualChannelSession>,
) -> bool {
    &&& forall|a: Id, b: Id| #[trigger]
        drafts.dom().contains(a) && #[trigger] drafts.dom().contains(b) && drafts[a].peer_id
            == drafts[b].peer_id ==> a == b
    &&& forall|a: Id, b: Id| #[trigger]
        sessions.dom().contains(a) && #[trigger] sessions.dom().contains(b) && sessions[a].peer_id
            == sessions[b].peer_id ==> a == b
    &&& forall|a: Id, b: Id| #[trigger]
        drafts.dom().contains(a) && #[trigger] sessions.dom().contains(b) ==> drafts[a].peer_id
            != sessions[b].peer_id
}

/// A peer gets at most one virtual channel: an intent is only recorded for a peer that has none, and
/// once it is, no other one is accepted from that peer, whatever ID it asks for.
pub proof fn law_one_virtual_channel_per_peer(
    before: VirtualChannels,
    after: VirtualChannels,
    peer_id: NodeId,
    temporary_channel_id: TemporaryId,
    now: u64,
    r: Result<Intent, APIError>,
    later: VirtualChannels,
    other_id: TemporaryId,
    later_now: u64,
    again: Result<Intent, APIError>,
)
    requires
        one_per_peer(before.drafts@, before.sessions@),
        intends(before, after, peer_id, temporary_channel_id, now, r),
        intends(after, later, peer_id, other_id, later_now, again),
    ensures
        one_per_peer(after.drafts@, after.sessions@),
        r matches Ok(Intent::Added(_)) ==> !has_draft(before.drafts@, peer_id) && !has_session(
            before.sessions@,
            peer_id,
        ) && has_draft(after.drafts@, peer_id) && again is Err && later.drafts@ == after.drafts@,
{
    let id = match temporary_channel_id {
        TemporaryId::Requested(id) => id,
        TemporaryId::Drawn(id) => id,
    };
    if r matches Ok(Intent::Added(_)) {
        assert(after.drafts@.dom().contains(id));
    }
}

/// Completing a draft, or dropping one, leaves each peer with at most one virtual channel.
pub proof fn law_completion_keeps_one_channel_per_peer(
    before: VirtualChannels,
    after: VirtualChannels,
    temporary_channel_id: Id,
    channel_id: Id,
    virtual_funding_txo: Outpoint,
    now: u64,
    r: Option<VirtualChannelSession>,
)
    requires
        one_per_peer(before.drafts@, before.sessions@),
        completes(
            before,
            after,
            temporary_channel_id,
            channel_id,
            virtual_funding_txo,
            now,
            r,
        ),
    ensures
        one_per_peer(after.drafts@, after.sessions@),
        one_per_peer(before.drafts@.remove(temporary_channel_id), before.sessions@),
{
}

// ---------------------------------------------------------------------------------------------
// Cleanup
// ---------------------------------------------------------------------------------------------

/// Whether a key names a pending payment of a channel.
pub open spec fn is_pending_artifact(key: Seq<u8>, channel_id: Seq<u8>) -> bool {
    let suffix = encode_utf8("_pending"@);
    &&& key.len() > channel_id.len()
    &&& key.take(channel_id.len() as int) == channel_id
    &&& key.len() >= suffix.len()
    &&& key.skip(key.len() - suffix.len()) == suffix
}

/// Whether any key names a pending payment of a channel.
pub open spec fn has_artifact(keys: Seq<String>, channel_id: Seq<char>) -> bool {
    exists|i: int|
        0 <= i < keys.len() && is_pending_artifact(
            encode_utf8((#[trigger] keys[i])@),
            encode_utf8(channel_id),
        )
}

fn names_artifact(key: &str, channel_id: &str) -> (r: bool)
    ensures
        r == is_pending_artifact(encode_utf8(key@), encode_utf8(channel_id@)),
{
    let key = key.as_bytes();
    let channel_id = channel_id.as_bytes();
    let suffix = "_pending".as_bytes();
    if key.len() <= channel_id.len() || key.len() < suffix.len() {
        return false;
    }
    let at: usize = key.len() - suffix.len();
    let starts = bytes_at(key, 0, channel_id);
    let ends = bytes_at(key, at, suffix);
    assert(key@.subrange(0, channel_id@.len() as int) =~= key@.take(channel_id@.len() as int));
    assert(key@.subrange(at as int, at + suffix@.len()) =~= key@.skip(at as int));
    starts && ends
}

fn any_artifact(keys: &Vec<String>, channel_id: &str) -> (r: bool)
    ensures
        r == has_artifact(keys@, channel_id@),
{
    let mut i: usize = 0;
    while i < keys.len()
        invariant
            i <= keys@.len(),
            forall|j: int|
                0 <= j < i ==> !is_pending_artifact(
                    encode_utf8((#[trigger] keys@[j])@),
                    encode_utf8(channel_id@),
                ),
        decreases keys@.len() - i,
    {
        if names_artifact(keys[i].as_str(), channel_id) {
            return true;
        }
        i = i + 1;
    }
    false
}

/// Why a virtual channel with payments or BTC of the peer's cannot be cleaned up.
pub open spec fn payment_block(
    has_inflight_htlcs: bool,
    channel_id: Seq<char>,
    inbound_keys: Option<Seq<String>>,
    outbound_keys: Option<Seq<String>>,
    counterparty_balance_sats_floor: Option<u64>,
) -> Option<Seq<char>> {
    let unknown = Some("virtual cleanup could not inspect RGB temp artifacts"@);
    let remain = Some("virtual cleanup is blocked while RGB payment temp artifacts remain"@);
    if has_inflight_htlcs {
        Some("virtual cleanup is blocked while HTLCs are still in flight"@)
    } else if inbound_keys is None {
        unknown
    } else if has_artifact(inbound_keys->0, channel_id) {
        remain
    } else if outbound_keys is None {
        unknown
    } else if has_artifact(outbound_keys->0, channel_id) {
        remain
    } else {
        match counterparty_balance_sats_floor {
            Some(floor) => if floor == 0 {
                None
            } else {
                Some(
                    "virtual cleanup is blocked while counterparty BTC balance floor is "@
                        + decimal(floor as nat) + " sat"@,
                )
            },
            None => Some(
                "virtual cleanup requires an exact counterparty BTC balance floor proof"@,
            ),
        }
    }
}

/// The keys of a listing that succeeded.
pub open spec fn listed(keys: Option<Vec<String>>) -> Option<Seq<String>> {
    match keys {
        Some(k) => Some(k@),
        None => None,
    }
}

/// Whether a check's outcome is the given block.
pub open spec fn blocks(r: Result<(), String>, block: Option<Seq<char>>) -> bool {
    match block {
        Some(reason) => r matches Err(e) && e@ == reason,
        None => r is Ok,
    }
}

/// The first part of the proof that a virtual channel holds nothing of the peer's: no HTLC, no
/// pending payment, no BTC. The listings are those of the inbound and the outbound payment keys,
/// nothing where one failed.
pub fn virtual_channel_ensure_no_client_value(
    has_inflight_htlcs: bool,
    channel_id_hex: &str,
    inbound_keys: &Option<Vec<String>>,
    outbound_keys: &Option<Vec<String>>,
    counterparty_balance_sats_floor: Option<u64>,
) -> (r: Result<(), String>)
    ensures
        blocks(
            r,
            payment_block(
                has_inflight_htlcs,
                channel_id_hex@,
                listed(*inbound_keys),
                listed(*outbound_keys),
                counterparty_balance_sats_floor,
            ),
        ),
{
    if has_inflight_htlcs {
        return Err(text("virtual cleanup is blocked while HTLCs are still in flight"));
    }
    match inbound_keys {
        None => {
            return Err(text("virtual cleanup could not inspect RGB temp artifacts"));
        },
        Some(keys) => {
            if any_artifact(keys, channel_id_hex) {
                return Err(
                    text("virtual cleanup is blocked while RGB payment temp artifacts remain"),
                );
            }
        },
    }
    match outbound_keys {
        None => {
            return Err(text("virtual cleanup could not inspect RGB temp artifacts"));
        },
        Some(keys) => {
            if any_artifact(keys, channel_id_hex) {
                return Err(
                    text("virtual cleanup is blocked while RGB payment temp artifacts remain"),
                );
            }
        },
    }
    match counterparty_balance_sats_floor {
        Some(balance_floor) => if balance_floor == 0 {
            Ok(())
        } else {
            Err(
                join3(
                    "virtual cleanup is blocked while counterparty BTC balance floor is ",
                    number(balance_floor).as_str(),
                    " sat",
                ),
            )
        },
        None => Err(text("virtual cleanup requires an exact counterparty BTC balance floor proof")),
    }
}

/// Why a virtual channel with RGB of the peer's cannot be cleaned up.
pub open spec fn rgb_block(settled: Option<RgbInfo>, pending: Option<RgbInfo>) -> Option<Seq<char>> {
    match (settled, pending) {
        (None, None) => None,
        (Some(s), Some(p)) => if s.contract_id@ != p.contract_id@ || s.schema != p.schema
            || s.local_rgb_amount != p.local_rgb_amount || s.remote_rgb_amount
            != p.remote_rgb_amount {
            Some("virtual cleanup is blocked while RGB channel state is still diverged"@)
        } else if s.remote_rgb_amount != 0 {
            Some(
                "virtual cleanup is blocked while counterparty RGB balance is "@ + decimal(
                    s.remote_rgb_amount as nat,
                ),
            )
        } else {
            None
        },
        _ => Some("virtual cleanup requires both final and pending RGB channel state"@),
    }
}

/// The second part of the proof, after the pending RGB state was set to the settled one where there
/// is one: `settled` and `pending` are what the two then read as. A channel without RGB state holds
/// no RGB; one with it must have settled with nothing on the peer's side.
pub fn virtual_channel_ensure_no_client_rgb(
    settled: &Option<RgbInfo>,
    pending: &Option<RgbInfo>,
) -> (r: Result<(), String>)
    ensures
        blocks(r, rgb_block(*settled, *pending)),
{
    match (settled, pending) {
        (None, None) => Ok(()),
        (Some(s), Some(p)) => {
            if !same(s.contract_id.as_str(), p.contract_id.as_str()) || s.schema != p.schema
                || s.local_rgb_amount != p.local_rgb_amount || s.remote_rgb_amount
                != p.remote_rgb_amount {
                return Err(
                    text("virtual cleanup is blocked while RGB channel state is still diverged"),
                );
            }
            if s.remote_rgb_amount != 0 {
                return Err(
                    join2(
                        "virtual cleanup is blocked while counterparty RGB balance is ",
                        number(s.remote_rgb_amount).as_str(),
                    ),
                );
            }
            Ok(())
        },
        _ => Err(text("virtual cleanup requires both final and pending RGB channel state")),
    }
}

/// A cleanup that is not blocked leaves the peer without BTC and without RGB.
pub proof fn law_cleanup_takes_nothing_from_the_peer(
    has_inflight_htlcs: bool,
    channel_id: Seq<char>,
    inbound_keys: Option<Seq<String>>,
    outbound_keys: Option<Seq<String>>,
    floor: Option<u64>,
    settled: Option<RgbInfo>,
    pending: Option<RgbInfo>,
)
    requires
        payment_block(has_inflight_htlcs, channel_id, inbound_keys, outbound_keys, floor) is None,
        rgb_block(settled, pending) is None,
    ensures
        !has_inflight_htlcs,
        floor == Some(0u64),
        settled is Some ==> settled->0.remote_rgb_amount == 0,
        pending is Some ==> pending->0.remote_rgb_amount == 0,
{
}

/// What is hashed for two nodes is told by the network and by the two keys, whichever is whose, and by
/// nothing less: other keys on the same network give something else.
pub proof fn law_synthetic_outpoints_tell_nodes_apart(
    network: BitcoinNetwork,
    a: Seq<u8>,
    b: Seq<u8>,
    c: Seq<u8>,
    d: Seq<u8>,
)
    requires
        a.len() == 33 && b.len() == 33 && c.len() == 33 && d.len() == 33,
        synthetic_preimage(network, a, b) == synthetic_preimage(network, c, d),
    ensures
        (a == c && b == d) || (a == d && b == c),
{
    let start = encode_utf8("rln_virtual_channels_v0"@) + encode_utf8(network.name());
    let n = start.len() as int;
    let x = synthetic_preimage(network, a, b);
    let y = synthetic_preimage(network, c, d);
    assert(x.subrange(n, n + 33) == y.subrange(n, n + 33));
    assert(x.subrange(n + 33, n + 66) == y.subrange(n + 33, n + 66));
    if bytes_lt(b, a) {
        assert(x.subrange(n, n + 33) =~= b);
        assert(x.subrange(n + 33, n + 66) =~= a);
    } else {
        assert(x.subrange(n, n + 33) =~= a);
        assert(x.subrange(n + 33, n + 66) =~= b);
    }
    if bytes_lt(d, c) {
        assert(y.subrange(n, n + 33) =~= d);
        assert(y.subrange(n + 33, n + 66) =~= c);
    } else {
        assert(y.subrange(n, n + 33) =~= c);
        assert(y.subrange(n + 33, n + 66) =~= d);
    }
}

/// What is hashed starts with the domain and the network, so that nothing else is hashed to it.
pub proof fn law_synthetic_outpoints_have_their_own_domain(
    network: BitcoinNetwork,
    a: Seq<u8>,
    b: Seq<u8>,
)
    ensures
        ({
            let p = synthetic_preimage(network, a, b);
            let domain = encode_utf8("rln_virtual_channels_v0"@);
            let name = encode_utf8(network.name());
            &&& p.len() == domain.len() + name.len() + a.len() + b.len()
            &&& p.take(domain.len() as int) == domain
            &&& p.subrange(domain.len() as int, (domain.len() + name.len()) as int) == name
        }),
{
    let p = synthetic_preimage(network, a, b);
    let domain = encode_utf8("rln_virtual_channels_v0"@);
    let name = encode_utf8(network.name());
    assert(p.take(domain.len() as int) =~= domain);
    assert(p.subrange(domain.len() as int, (domain.len() + name.len()) as int) =~= name);
}

/// A peer without a draft and without a session gets a draft under an unused ID, the one asked for or
/// drawn, dated and under its own name; a used ID that was asked for is refused, one that was drawn is
/// drawn again.
pub proof fn law_intents_are_recorded_under_unused_ids(
    before: VirtualChannels,
    after: VirtualChannels,
    peer_id: NodeId,
    id: Id,
    now: u64,
    asked: Result<Intent, APIError>,
    drawn_after: VirtualChannels,
    drawn: Result<Intent, APIError>,
    other: Id,
)
    requires
        intends(before, after, peer_id, TemporaryId::Requested(id), now, asked),
        intends(before, drawn_after, peer_id, TemporaryId::Drawn(id), now, drawn),
        forall|k: Id| #[trigger]
            before.drafts@.dom().contains(k) ==> before.drafts@[k].peer_id != peer_id,
        forall|k: Id| #[trigger]
            before.sessions@.dom().contains(k) ==> before.sessions@[k].peer_id != peer_id,
    ensures
        !before.channel_ids@.dom().contains(id) && !before.drafts@.dom().contains(id) ==> {
            &&& asked == Ok::<Intent, APIError>(Intent::Added(id)) && drawn == asked
            &&& after.drafts@.dom().contains(id) && after.drafts@[id].peer_id == peer_id
            &&& after.drafts@[id].created_at == now && after.drafts@[id].temporary_channel_id == id
            &&& drawn_after.drafts@ == after.drafts@
        },
        before.channel_ids@.dom().contains(id) || before.drafts@.dom().contains(id) ==> {
            &&& asked == Err::<Intent, APIError>(APIError::TemporaryChannelIdAlreadyUsed)
            &&& drawn == Ok::<Intent, APIError>(Intent::DrawAgain)
            &&& after.drafts@ == before.drafts@ && drawn_after.drafts@ == before.drafts@
        },
        other != id ==> after.drafts@.dom().contains(other) == before.drafts@.dom().contains(other)
            && after.drafts@[other] == before.drafts@[other],
        after.sessions == before.sessions && after.channel_ids == before.channel_ids,
{
}

/// A completed draft becomes the active session of its peer, under the final ID and with the funding that
/// was registered; without a draft nothing happens.
pub proof fn law_drafts_become_sessions(
    before: VirtualChannels,
    after: VirtualChannels,
    temporary_channel_id: Id,
    channel_id: Id,
    virtual_funding_txo: Outpoint,
    now: u64,
    r: Option<VirtualChannelSession>,
    other: Id,
)
    requires
        completes(before, after, temporary_channel_id, channel_id, virtual_funding_txo, now, r),
    ensures
        r is Some <==> before.drafts@.dom().contains(temporary_channel_id),
        r matches Some(session) ==> {
            &&& !after.drafts@.dom().contains(temporary_channel_id)
            &&& after.sessions@.dom().contains(channel_id) && after.sessions@[channel_id] == session
            &&& session.channel_id == channel_id && session.former_temporary_channel_id
                == temporary_channel_id
            &&& session.peer_id == before.drafts@[temporary_channel_id].peer_id
            &&& session.created_at == before.drafts@[temporary_channel_id].created_at
            &&& session.updated_at == now
            &&& session.status == VirtualChannelSessionStatus::Active
            &&& session.virtual_funding_txo == virtual_funding_txo
        },
        r is None ==> after == before,
        other != temporary_channel_id ==> after.drafts@.dom().contains(other)
            == before.drafts@.dom().contains(other) && after.drafts@[other] == before.drafts@[other],
        other != channel_id ==> after.sessions@.dom().contains(other)
            == before.sessions@.dom().contains(other) && after.sessions@[other]
            == before.sessions@[other],
{
}

/// A new status of a session changes its status and the time of that, and no other session.
pub proof fn law_statuses_touch_one_session(
    before: VirtualChannels,
    session: VirtualChannelSession,
    status: VirtualChannelSessionStatus,
    now: u64,
    after: VirtualChannels,
    other: Id,
)
    requires
        is_status_recorded(before, session, status, now, after),
    ensures
        ({
            let s = after.sessions@[session.channel_id];
            &&& s.status == status && s.updated_at == now
            &&& s.peer_id == session.peer_id && s.created_at == session.created_at
            &&& s.virtual_funding_txo == session.virtual_funding_txo && s.channel_id
                == session.channel_id && s.former_temporary_channel_id
                == session.former_temporary_channel_id
        }),
        other != session.channel_id ==> after.sessions@[other] == before.sessions@[other],
        after.drafts == before.drafts && after.channel_ids == before.channel_ids,
{
}

/// A session is found by its funding exactly where one has it.
pub proof fn law_sessions_are_found_by_their_funding(
    channels: VirtualChannels,
    txo: Outpoint,
    r: bool,
    id: Id,
)
    requires
        is_funded_by(channels, txo, r),
    ensures
        channels.sessions@.dom().contains(id) && channels.sessions@[id].virtual_funding_txo == txo ==> r,
        (forall|k: Id| #[trigger]
            channels.sessions@.dom().contains(k) ==> channels.sessions@[k].virtual_funding_txo != txo)
            ==> !r,
{
}

/// A closed channel loses its own ID, and the draft under its ID or under the temporary one that it was
/// opened as; sessions, other drafts and other channels stay.
pub proof fn law_closed_channels_take_their_draft(
    before: VirtualChannels,
    channel_id: Id,
    after: VirtualChannels,
    r: Option<Id>,
    temporary: Id,
    other: Id,
)
    requires
        is_channel_forgotten(before, channel_id, after, r),
    ensures
        after.sessions == before.sessions,
        before.drafts@.dom().contains(channel_id) ==> r == Some(channel_id),
        r matches Some(id) ==> before.drafts@.dom().contains(id) && !after.drafts@.dom().contains(id)
            && (id == channel_id || (before.channel_ids@.dom().contains(id) && before.channel_ids@[id]
            == channel_id && !after.channel_ids@.dom().contains(id))),
        r is None ==> after.drafts@ == before.drafts@,
        r != Some(other) ==> after.drafts@.dom().contains(other) == before.drafts@.dom().contains(other)
            && after.drafts@[other] == before.drafts@[other],
        before.channel_ids@.dom().contains(other) && before.channel_ids@[other] != channel_id
            ==> after.channel_ids@.dom().contains(other) && after.channel_ids@[other]
            == before.channel_ids@[other],
        !before.drafts@.dom().contains(channel_id) && before.channel_ids@.dom().contains(temporary)
            && before.channel_ids@[temporary] == channel_id && before.drafts@.dom().contains(temporary)
            && (forall|k: Id| #[trigger]
            before.channel_ids@.dom().contains(k) && before.channel_ids@[k] == channel_id ==> k
                == temporary) ==> r == Some(temporary),
{
}

/// A channel is dropped by its final ID: one entry with it goes, where there is any, and no other.
pub proof fn law_dropped_channels_are_named_by_their_final_id(
    before: VirtualChannels,
    channel_id: Id,
    after: VirtualChannels,
    r: Option<Id>,
    other: Id,
)
    requires
        is_channel_dropped(before, channel_id, after, r),
    ensures
        r matches Some(id) ==> before.channel_ids@.dom().contains(id) && before.channel_ids@[id]
            == channel_id && !after.channel_ids@.dom().contains(id),
        before.channel_ids@.dom().contains(other) && before.channel_ids@[other] == channel_id
            ==> r is Some,
        r != Some(other) ==> after.channel_ids@.dom().contains(other)
            == before.channel_ids@.dom().contains(other) && after.channel_ids@[other]
            == before.channel_ids@[other],
        after.drafts == before.drafts && after.sessions == before.sessions,
{
}

/// A virtual channel is cleaned up where it provably holds nothing of the peer's: no HTLC is in flight,
/// both listings could be made and name no pending payment of it, the peer's BTC is known to be zero; and
/// where it has RGB state, both sides of it agree and hold nothing of the peer's.
pub proof fn law_cleanup_is_granted_where_nothing_is_the_peers(
    channel_id: Seq<char>,
    inbound_keys: Seq<String>,
    outbound_keys: Seq<String>,
    info: RgbInfo,
    pending: RgbInfo,
    key: int,
)
    ensures
        !has_artifact(inbound_keys, channel_id) && !has_artifact(outbound_keys, channel_id)
            ==> payment_block(
            false,
            channel_id,
            Some(inbound_keys),
            Some(outbound_keys),
            Some(0u64),
        ) is None,
        payment_block(true, channel_id, Some(inbound_keys), Some(outbound_keys), Some(0u64)) is Some,
        payment_block(false, channel_id, None, Some(outbound_keys), Some(0u64)) is Some,
        payment_block(false, channel_id, Some(inbound_keys), None, Some(0u64)) is Some,
        payment_block(false, channel_id, Some(inbound_keys), Some(outbound_keys), None) is Some,
        0 <= key < inbound_keys.len() && is_pending_artifact(
            encode_utf8(inbound_keys[key]@),
            encode_utf8(channel_id),
        ) ==> payment_block(
            false,
            channel_id,
            Some(inbound_keys),
            Some(outbound_keys),
            Some(0u64),
        ) is Some,
        0 <= key < outbound_keys.len() && is_pending_artifact(
            encode_utf8(outbound_keys[key]@),
            encode_utf8(channel_id),
        ) ==> payment_block(
            false,
            channel_id,
            Some(inbound_keys),
            Some(outbound_keys),
            Some(0u64),
        ) is Some,
        rgb_block(None, None) is None,
        rgb_block(Some(info), None) is Some,
        rgb_block(None, Some(info)) is Some,
        info.remote_rgb_amount == 0 ==> rgb_block(Some(info), Some(info)) is None,
        info.remote_rgb_amount > 0 ==> rgb_block(Some(info), Some(info)) is Some,
        info.local_rgb_amount != pending.local_rgb_amount || info.remote_rgb_amount
            != pending.remote_rgb_amount || info.contract_id@ != pending.contract_id@ || info.schema
            != pending.schema ==> rgb_block(Some(info), Some(pending)) is Some,
{
}

} // verus!
