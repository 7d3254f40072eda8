//! What a running node does in the background: watching its event processing, keeping peers
//! connected, helping parked signing operations on, and announcing itself.

use std::str::FromStr;

use lightning::ln::msgs::SocketAddress;
use vstd::prelude::*;
use vstd::string::*;
use vstd::utf8::encode_utf8;

use crate::error::APIError;
use crate::payments::NodeId;
use crate::text::{join2, join3, text};

verus! {

// ---------------------------------------------------------------------------------------------
// Event processing
// ---------------------------------------------------------------------------------------------

/// How the background processor came to its end.
#[derive(Debug)]
pub enum ProcessorEnd {
    Returned(Result<(), String>),
    /// It panicked; with the message, where the panic carried one.
    Panicked(Option<String>),
}

/// What is done about the end of the background processor.
#[derive(Debug)]
pub struct Supervision {
    /// The fatal error to record before the shutdown is requested; nothing where the end was expected.
    pub fatal: Option<String>,
    /// What the supervising task returns.
    pub result: Result<(), String>,
}

/// Whether a text is the given one.
pub open spec fn is_text(t: Option<String>, s: Seq<char>) -> bool {
    t matches Some(m) && m@ == s
}

/// The message of a panic.
pub open spec fn panic_message(message: Option<String>) -> Seq<char> {
    match message {
        Some(m) => m@,
        None => "unknown panic"@,
    }
}

/// Whether something is done about the end of the background processor as it should be.
pub open spec fn supervised(end: ProcessorEnd, stopping: bool, r: Supervision) -> bool {
    match end {
        ProcessorEnd::Returned(result) => {
            &&& r.result is Ok <==> result is Ok
            &&& result is Err ==> r.result == result
            &&& if stopping {
                r.fatal is None
            } else {
                match result {
                    Ok(_) => is_text(r.fatal, "background processor exited unexpectedly"@),
                    Err(e) => is_text(
                        r.fatal,
                        "background processor failed unexpectedly: "@ + e@,
                    ),
                }
            }
        },
        ProcessorEnd::Panicked(message) => {
            let told = "background processor panicked: "@ + panic_message(message);
            is_text(r.fatal, told) && (r.result matches Err(e) && e@ == told)
        },
    }
}

/// Decides what the end of the background processor means. A node must not go on without it: unless
/// the node is stopping, its end is fatal even where it returned cleanly, and a panic always is.
pub fn supervise_background_processor(end: ProcessorEnd, stopping: bool) -> (r: Supervision)
    ensures
        supervised(end, stopping, r),
{
    match end {
        ProcessorEnd::Returned(result) => {
            let fatal = if stopping {
                None
            } else {
                match &result {
                    Ok(_) => Some(text("background processor exited unexpectedly")),
                    Err(e) => Some(
                        join2("background processor failed unexpectedly: ", e.as_str()),
                    ),
                }
            };
            Supervision { fatal, result }
        },
        ProcessorEnd::Panicked(message) => {
            let message = match message {
                Some(m) => m,
                None => text("unknown panic"),
            };
            Supervision {
                fatal: Some(join2("background processor panicked: ", message.as_str())),
                result: Err(join2("background processor panicked: ", message.as_str())),
            }
        },
    }
}

/// A node that is not stopping never outlives its event processing.
pub proof fn law_node_never_runs_without_events(end: ProcessorEnd, stopping: bool, r: Supervision)
    requires
        supervised(end, stopping, r),
        !stopping || end is Panicked,
    ensures
        r.fatal is Some,
{
}

// ---------------------------------------------------------------------------------------------
// Peers
// ---------------------------------------------------------------------------------------------

/// The places of a peer among the known addresses.
pub open spec fn places_of(known: Seq<(NodeId, String)>, peer: NodeId) -> Seq<usize>
    decreases known.len(),
{
    if known.len() == 0 {
        Seq::empty()
    } else {
        let before = places_of(known.drop_last(), peer);
        if known.last().0 == peer {
            before.push((known.len() - 1) as usize)
        } else {
            before
        }
    }
}

/// The places of the addresses to try for the peer of a channel.
pub open spec fn places_to_try(known: Seq<(NodeId, String)>, peer: NodeId, connected: bool) -> Seq<
    usize,
> {
    if connected {
        Seq::empty()
    } else {
        places_of(known, peer)
    }
}

/// The addresses to try, by place, for the peer of a channel: every known one where it is not
/// connected, none where it is.
pub fn addresses_to_try(known: &Vec<(NodeId, String)>, peer: NodeId, connected: bool) -> (r: Vec<usize>)
    ensures
        r@ == places_to_try(known@, peer, connected),
{
    let mut places: Vec<usize> = Vec::new();
    if connected {
        return places;
    }
    let n: usize = known.len();
    let mut i: usize = 0;
    while i < n
        invariant
            i <= n,
            n == known@.len(),
            places@ == places_of(known@.take(i as int), peer),
        decreases n - i,
    {
        assert(known@.take(i + 1).drop_last() =~= known@.take(i as int));
        if known[i].0 == peer {
            places.push(i);
        }
        i += 1;
    }
    assert(known@.take(n as int) =~= known@);
    places
}

// ---------------------------------------------------------------------------------------------
// The link to a remote signer
// ---------------------------------------------------------------------------------------------

/// How long a healthy link is left alone before the node looks whether it should stop, in seconds.
pub const LINK_IDLE_SECS: u64 = 30;

/// How often parked operations are retried during an outage, in seconds.
pub const LINK_RETRY_SECS: u64 = 5;

/// What is to be done next about the link.
#[derive(Clone, Copy, Debug, PartialEq, Eq, Structural)]
pub enum LinkStep {
    /// Wait for the link to change, for the idle time at most.
    Idle,
    /// Retry what is parked, once, and go back to waiting.
    RetryOnce,
    /// Wait for the link to change, for the retry time at most; the first such wait of an outage ends
    /// at once.
    Outage,
    /// Retry what is parked, then look at the link.
    Retry,
    Stopped,
}

/// What happened.
#[derive(Clone, Copy, Debug, PartialEq, Eq, Structural)]
pub enum LinkEvent {
    /// A wait ended.
    Woken {
        /// Whether the link reported a change.
        changed: bool,
        connected: bool,
        stopping: bool,
    },
    /// What was parked was retried.
    Retried { connected: bool },
}

/// Whether an event answers a step.
pub open spec fn link_fits(step: LinkStep, event: LinkEvent) -> bool {
    match step {
        LinkStep::Idle | LinkStep::Outage => event is Woken,
        LinkStep::RetryOnce | LinkStep::Retry => event is Retried,
        LinkStep::Stopped => false,
    }
}

/// What follows an event.
pub open spec fn link_next(step: LinkStep, event: LinkEvent) -> LinkStep {
    match (step, event) {
        (LinkStep::Idle, LinkEvent::Woken { changed, connected, stopping }) => if stopping {
            LinkStep::Stopped
        } else if !connected {
            LinkStep::Outage
        } else if changed {
            LinkStep::RetryOnce
        } else {
            LinkStep::Idle
        },
        (LinkStep::RetryOnce, _) => LinkStep::Idle,
        (LinkStep::Outage, LinkEvent::Woken { stopping, .. }) => if stopping {
            LinkStep::Stopped
        } else {
            LinkStep::Retry
        },
        (LinkStep::Retry, LinkEvent::Retried { connected }) => if connected {
            LinkStep::Idle
        } else {
            LinkStep::Outage
        },
        _ => LinkStep::Stopped,
    }
}

/// Takes what happened after a step about the link.
pub fn advance_link(step: LinkStep, event: LinkEvent) -> (r: LinkStep)
    requires
        link_fits(step, event),
    ensures
        r == link_next(step, event),
{
    match (step, event) {
        (LinkStep::Idle, LinkEvent::Woken { changed, connected, stopping }) => if stopping {
            LinkStep::Stopped
        } else if !connected {
            LinkStep::Outage
        } else if changed {
            LinkStep::RetryOnce
        } else {
            LinkStep::Idle
        },
        (LinkStep::RetryOnce, _) => LinkStep::Idle,
        (LinkStep::Outage, LinkEvent::Woken { changed: _, connected: _, stopping }) => if stopping {
            LinkStep::Stopped
        } else {
            LinkStep::Retry
        },
        (LinkStep::Retry, LinkEvent::Retried { connected }) => if connected {
            LinkStep::Idle
        } else {
            LinkStep::Outage
        },
        _ => LinkStep::Stopped,
    }
}

/// A healthy link that reports nothing costs no retry.
pub proof fn law_healthy_links_cost_nothing(event: LinkEvent)
    requires
        event matches LinkEvent::Woken { changed, connected, stopping } && connected && !changed
            && !stopping,
    ensures
        link_next(LinkStep::Idle, event) == LinkStep::Idle,
{
}

/// An outage is only over after a retry that found the link up again, so that nothing that was parked
/// around the transition stays parked.
pub proof fn law_outages_end_with_a_retry(step: LinkStep, event: LinkEvent)
    requires
        link_fits(step, event),
        step == LinkStep::Outage || step == LinkStep::Retry,
        link_next(step, event) == LinkStep::Idle,
    ensures
        step == LinkStep::Retry,
        event == (LinkEvent::Retried { connected: true }),
{
}

// ---------------------------------------------------------------------------------------------
// Announcing the node
// ---------------------------------------------------------------------------------------------

/// Whether a text is an address that a node can announce: an IP address, an onion address or a host
/// name, with a port.
pub uninterp spec fn socket_address(address: Seq<char>) -> bool;

/// `lightning::ln::msgs::SocketAddress::from_str`: whether the text is an address, a function of the
/// text.
#[verifier::external_body]
fn is_socket_address(address: &str) -> (r: bool)
    ensures
        r == socket_address(address@),
{
    SocketAddress::from_str(address).is_ok()
}

/// The first text that is no address, if there is one.
pub open spec fn first_bad(addresses: Seq<String>) -> Option<int>
    decreases addresses.len(),
{
    if addresses.len() == 0 {
        None
    } else {
        match first_bad(addresses.drop_last()) {
            Some(i) => Some(i),
            None => if socket_address(addresses.last()@) {
                None
            } else {
                Some(addresses.len() - 1)
            },
        }
    }
}

/// Whether a result is what checking the addresses to announce comes to.
pub open spec fn is_address_check(addresses: Seq<String>, r: Result<(), APIError>) -> bool {
    match first_bad(addresses) {
        None => r is Ok,
        Some(i) => r matches Err(APIError::InvalidAnnounceAddresses(m)) && m@
            == "failed to parse address '"@ + addresses[i]@ + "'"@,
    }
}

/// Refuses a text to announce, given whether it is an address.
pub fn judge_address(address: &str, parses: bool) -> (r: Result<(), APIError>)
    ensures
        if parses {
            r is Ok
        } else {
            r matches Err(APIError::InvalidAnnounceAddresses(m)) && m@
                == "failed to parse address '"@ + address@ + "'"@
        },
{
    if parses {
        Ok(())
    } else {
        Err(
            APIError::InvalidAnnounceAddresses(join3("failed to parse address '", address, "'")),
        )
    }
}

/// Refuses texts that are no addresses; the first one is named.
pub fn check_announce_addresses(addresses: &Vec<String>) -> (r: Result<(), APIError>)
    ensures
        is_address_check(addresses@, r),
{
    let n: usize = addresses.len();
    let mut i: usize = 0;
    while i < n
        invariant
            i <= n,
            n == addresses@.len(),
            first_bad(addresses@.take(i as int)) is None,
        decreases n - i,
    {
        assert(addresses@.take(i + 1).drop_last() =~= addresses@.take(i as int));
        let parses = is_socket_address(addresses[i].as_str());
        let checked = judge_address(addresses[i].as_str(), parses);
        if checked.is_err() {
            proof {
                lemma_first_bad(addresses@, i + 1);
            }
            return checked;
        }
        i += 1;
    }
    assert(addresses@.take(n as int) =~= addresses@);
    Ok(())
}

proof fn lemma_first_bad(addresses: Seq<String>, i: int)
    requires
        0 <= i <= addresses.len(),
        first_bad(addresses.take(i)) is Some,
    ensures
        first_bad(addresses) == first_bad(addresses.take(i)),
    decreases addresses.len(),
{
    if i < addresses.len() {
        assert(addresses.drop_last().take(i) =~= addresses.take(i));
        lemma_first_bad(addresses.drop_last(), i);
    } else {
        assert(addresses.take(i) =~= addresses);
    }
}

/// Bytes filled up to 32 with zeros.
pub open spec fn padded(bytes: Seq<u8>) -> Seq<u8> {
    Seq::new(
        32,
        |i: int|
            if i < bytes.len() {
                bytes[i]
            } else {
                0
            },
    )
}

/// Whether a result is the name that the node announces, or says why it cannot be announced.
pub open spec fn is_announced_name(alias: Option<Seq<char>>, r: Result<[u8; 32], APIError>) -> bool {
    match alias {
        None => r matches Ok(name) && name@ == padded(Seq::empty()),
        Some(s) => if encode_utf8(s).len() > 32 {
            r matches Err(APIError::InvalidAnnounceAlias(m)) && m@
                == "cannot be longer than 32 bytes"@
        } else {
            r matches Ok(name) && name@ == padded(encode_utf8(s))
        },
    }
}

/// The name that the node announces: its alias, filled up with zeros, or all zeros without one. It
/// has room for 32 bytes.
pub fn announced_name(alias: Option<&str>) -> (r: Result<[u8; 32], APIError>)
    ensures
        is_announced_name(
            match alias {
                Some(s) => Some(s@),
                None => None,
            },
            r,
        ),
{
    let mut name: [u8; 32] = [0;32];
    match alias {
        None => {
            assert(name@ =~= padded(Seq::empty()));
            Ok(name)
        },
        Some(s) => {
            let bytes = s.as_bytes();
            if bytes.len() > 32 {
                return Err(
                    APIError::InvalidAnnounceAlias(text("cannot be longer than 32 bytes")),
                );
            }
            let mut i: usize = 0;
            while i < bytes.len()
                invariant
                    i <= bytes@.len() <= 32,
                    forall|j: int| 0 <= j < i ==> name@[j] == #[trigger] bytes@[j],
                    forall|j: int| i <= j < 32 ==> #[trigger] name@[j] == 0,
                decreases bytes@.len() - i,
            {
                name[i] = bytes[i];
                i += 1;
            }
            assert(name@ =~= padded(bytes@));
            Ok(name)
        },
    }
}

/// Whether the node announces itself: only with a public channel.
pub fn should_announce(announced: &Vec<bool>) -> (r: bool)
    ensures
        r == announced@.contains(true),
{
    let mut i: usize = 0;
    while i < announced.len()
        invariant
            i <= announced@.len(),
            forall|j: int| 0 <= j < i ==> !#[trigger] announced@[j],
        decreases announced@.len() - i,
    {
        if announced[i] {
            assert(announced@[i as int]);
            return true;
        }
        i += 1;
    }
    false
}

/// What the supervising task returns is what the processor came to: an error for an error and a panic,
/// success for a clean end; an expected end is not recorded as fatal.
pub proof fn law_supervision_passes_the_end_on(end: ProcessorEnd, stopping: bool, r: Supervision)
    requires
        supervised(end, stopping, r),
    ensures
        r.result is Ok <==> (end matches ProcessorEnd::Returned(Ok(_))),
        end matches ProcessorEnd::Returned(Err(e)) ==> r.result == Err::<(), String>(e),
        stopping && end is Returned ==> r.fatal is None,
        end is Panicked ==> r.fatal is Some && r.result is Err && r.fatal->0@ == r.result->Err_0@,
{
}

/// A peer that is not connected is tried at every address that is known of it, in order and each once;
/// no address of another peer is tried, and none where it is connected.
pub proof fn law_every_known_address_is_tried(
    known: Seq<(NodeId, String)>,
    peer: NodeId,
    connected: bool,
    i: int,
    k: int,
)
    requires
        known.len() <= usize::MAX,
    ensures
        connected ==> places_to_try(known, peer, connected).len() == 0,
        !connected && 0 <= i < known.len() && known[i].0 == peer ==> exists|n: int|
            0 <= n < places_to_try(known, peer, connected).len() && #[trigger] places_to_try(
                known,
                peer,
                connected,
            )[n] == i,
        0 <= k < places_to_try(known, peer, connected).len() ==> (places_to_try(
            known,
            peer,
            connected,
        )[k] as int) < known.len() && known[places_to_try(known, peer, connected)[k] as int].0 == peer,
        0 < k < places_to_try(known, peer, connected).len() ==> places_to_try(known, peer, connected)[k
            - 1] < places_to_try(known, peer, connected)[k],
{
    lemma_places(known, peer);
    if 0 <= i < known.len() && known[i].0 == peer {
        assert(places_of(known, peer).contains(i as usize));
        let n = choose|n: int|
            0 <= n < places_of(known, peer).len() && places_of(known, peer)[n] == i as usize;
        if !connected {
            assert(places_to_try(known, peer, connected)[n] == i);
        }
    }
}

proof fn lemma_places(known: Seq<(NodeId, String)>, peer: NodeId)
    requires
        known.len() <= usize::MAX,
    ensures
        forall|i: int|
            0 <= i < known.len() && (#[trigger] known[i]).0 == peer ==> places_of(
                known,
                peer,
            ).contains(i as usize),
        forall|k: int|
            0 <= k < places_of(known, peer).len() ==> (#[trigger] places_of(known, peer)[k] as int)
                < known.len() && known[places_of(known, peer)[k] as int].0 == peer,
        forall|j: int, k: int|
            0 <= j < k < places_of(known, peer).len() ==> #[trigger] places_of(known, peer)[j]
                < #[trigger] places_of(known, peer)[k],
    decreases known.len(),
{
    if known.len() > 0 {
        let rest = known.drop_last();
        lemma_places(rest, peer);
        let before = places_of(rest, peer);
        let all = places_of(known, peer);
        assert forall|i: int| 0 <= i < known.len() && (#[trigger] known[i]).0 == peer implies all.contains(
            i as usize,
        ) by {
            if i < rest.len() {
                assert(rest[i] == known[i]);
                let n = choose|n: int| 0 <= n < before.len() && before[n] == i as usize;
                assert(all[n] == i as usize);
            } else {
                assert(all[all.len() - 1] == i as usize);
            }
        }
        assert forall|k: int| 0 <= k < all.len() implies (#[trigger] all[k] as int) < known.len()
            && known[all[k] as int].0 == peer by {
            if k < before.len() {
                assert(all[k] == before[k]);
                assert(known[all[k] as int] == rest[all[k] as int]);
            }
        }
        assert forall|j: int, k: int| 0 <= j < k < all.len() implies #[trigger] all[j]
            < #[trigger] all[k] by {
            assert(all[j] == before[j]);
            if k < before.len() {
                assert(all[k] == before[k]);
            }
        }
    }
}

/// Where the link goes: a stop is heard in every wait, a lost link starts an outage, an outage is retried
/// until the link is up, and a link that changed and is up is retried once.
pub proof fn law_links_are_retried_until_they_are_up(step: LinkStep, event: LinkEvent)
    requires
        link_fits(step, event),
    ensures
        event matches LinkEvent::Woken { changed, connected, stopping } ==> {
            let next = link_next(step, event);
            &&& stopping <==> next == LinkStep::Stopped
            &&& !stopping && step == LinkStep::Idle && !connected ==> next == LinkStep::Outage
            &&& !stopping && step == LinkStep::Idle && connected && changed ==> next
                == LinkStep::RetryOnce
            &&& !stopping && step == LinkStep::Outage ==> next == LinkStep::Retry
        },
        event matches LinkEvent::Retried { connected } ==> {
            let next = link_next(step, event);
            &&& next != LinkStep::Stopped
            &&& step == LinkStep::Retry && !connected ==> next == LinkStep::Outage
            &&& step == LinkStep::Retry && connected ==> next == LinkStep::Idle
            &&& step == LinkStep::RetryOnce ==> next == LinkStep::Idle
        },
{
}

/// Addresses pass exactly where every one of them is an address.
pub proof fn law_only_addresses_are_announced(addresses: Seq<String>, r: Result<(), APIError>)
    requires
        is_address_check(addresses, r),
    ensures
        r is Ok <==> forall|i: int|
            0 <= i < addresses.len() ==> socket_address((#[trigger] addresses[i])@),
{
    lemma_bad(addresses);
}

proof fn lemma_bad(addresses: Seq<String>)
    ensures
        match first_bad(addresses) {
            None => forall|i: int|
                0 <= i < addresses.len() ==> socket_address((#[trigger] addresses[i])@),
            Some(b) => 0 <= b < addresses.len() && !socket_address(addresses[b]@) && forall|i: int|
                0 <= i < b ==> socket_address((#[trigger] addresses[i])@),
        },
    decreases addresses.len(),
{
    if addresses.len() > 0 {
        let rest = addresses.drop_last();
        lemma_bad(rest);
        assert(forall|i: int| 0 <= i < rest.len() ==> rest[i] == #[trigger] addresses[i]);
    }
}

/// The address that is reported is no address, and everything before it is one.
pub proof fn law_the_first_bad_address_is_reported(
    addresses: Seq<String>,
    r: Result<(), APIError>,
    i: int,
)
    requires
        is_address_check(addresses, r),
        0 <= i < addresses.len(),
        !socket_address(addresses[i]@),
        forall|k: int| 0 <= k < i ==> socket_address((#[trigger] addresses[k])@),
    ensures
        r matches Err(APIError::InvalidAnnounceAddresses(m)) && m@
            == "failed to parse address '"@ + addresses[i]@ + "'"@,
{
    lemma_bad(addresses);
}

/// A node announces its whole alias and zeros after it, and refuses exactly the ones that do not fit.
pub proof fn law_names_are_whole_or_refused(alias: Option<Seq<char>>, r: Result<[u8; 32], APIError>)
    requires
        is_announced_name(alias, r),
    ensures
        r is Err <==> alias is Some && encode_utf8(alias->0).len() > 32,
        r matches Ok(name) ==> {
            let length = if alias is Some {
                encode_utf8(alias->0).len()
            } else {
                0
            };
            &&& name@.len() == 32
            &&& alias is Some ==> name@.subrange(0, length as int) == encode_utf8(alias->0)
            &&& forall|i: int| length <= i < 32 ==> #[trigger] name@[i] == 0
        },
{
}

} // verus!
