//! Sharing of open HID++ channels.
//!
//! Every user of a HID node shares one channel to it, so that inventory, control
//! capture, reads and writes, and pairing do not open the same node
//! independently and split its input-report stream. The pool does not own a
//! channel: its users define the channel's lifetime, so a channel that nobody
//! holds any more is closed, and forgotten here.

use std::collections::HashMap;

use vstd::prelude::*;

use super::is_long_only_collection;

verus! {

broadcast use vstd::std_specs::hash::group_hash_axioms;

/// A channel that somebody holds.
#[derive(Clone, Copy, Debug, PartialEq, Eq, Structural)]
pub struct OpenChannel {
    /// Number of the channel.
    pub channel: u64,
    /// Whether its device is still connected.
    pub connected: bool,
}

/// Somebody holds `channel`.
pub open spec fn is_held(open: Seq<OpenChannel>, channel: u64) -> bool {
    exists|i: int| 0 <= i < open.len() && (#[trigger] open[i]).channel == channel
}

/// Somebody holds `channel`, and its device is connected.
pub open spec fn is_usable(open: Seq<OpenChannel>, channel: u64) -> bool {
    open.contains(OpenChannel { channel, connected: true })
}

/// What is left of `channels` without those that nobody holds.
pub open spec fn held_channels(channels: Map<u64, u64>, open: Seq<OpenChannel>) -> Map<u64, u64> {
    Map::new(
        |node: u64| channels.contains_key(node) && is_held(open, channels[node]),
        |node: u64| channels[node],
    )
}

/// The channel to reuse for `node`.
pub open spec fn live_channel(
    channels: Map<u64, u64>,
    node: u64,
    open: Seq<OpenChannel>,
) -> Option<u64> {
    if channels.contains_key(node) && is_usable(open, channels[node]) {
        Some(channels[node])
    } else {
        None
    }
}

/// How a node is opened.
#[derive(Clone, Copy, Debug, PartialEq, Eq, Structural)]
pub enum OpenAction {
    /// Use this channel, which is open already.
    Reuse(u64),
    /// Open a channel to the node.
    Open {
        /// The node has no short reports.
        long_only: bool,
    },
}

/// The channels opened last, by the number of their node.
#[derive(Debug)]
pub struct HidppChannelCache {
    /// Number of the channel opened last to each node.
    pub channels: HashMap<u64, u64>,
}

impl View for HidppChannelCache {
    type V = Map<u64, u64>;

    open spec fn view(&self) -> Map<u64, u64> {
        self.channels@
    }
}

impl Default for HidppChannelCache {
    fn default() -> (cache: Self)
        ensures
            cache@ == Map::<u64, u64>::empty(),
    {
        HidppChannelCache { channels: HashMap::new() }
    }
}

fn held(open: &[OpenChannel], channel: u64) -> (held: bool)
    ensures
        held == is_held(open@, channel),
{
    for i in 0..open.len()
        invariant
            forall|j: int| 0 <= j < i ==> (#[trigger] open@[j]).channel != channel,
    {
        if open[i].channel == channel {
            return true;
        }
    }
    false
}

fn usable(open: &[OpenChannel], channel: u64) -> (usable: bool)
    ensures
        usable == is_usable(open@, channel),
{
    for i in 0..open.len()
        invariant
            forall|j: int|
                0 <= j < i ==> #[trigger] open@[j] != (OpenChannel { channel, connected: true }),
    {
        if open[i].channel == channel && open[i].connected {
            assert(open@[i as int] == (OpenChannel { channel, connected: true }));
            return true;
        }
    }
    false
}

impl HidppChannelCache {
    fn retain_held(&mut self, open: &[OpenChannel])
        ensures
            final(self)@ == held_channels(old(self)@, open@),
    {
        let ghost before = self.channels@;
        let mut kept: HashMap<u64, u64> = HashMap::new();
        for entry in it: self.channels.iter()
            invariant
                self.channels@ == before,
                it.seq() == vstd::std_specs::iter::IteratorSpec::remaining(
                    &vstd::std_specs::hash::spec_hash_map_iter(&self.channels),
                ),
                forall|node: u64| #[trigger]
                    kept@.contains_key(node) ==> before.contains_key(node) && is_held(
                        open@,
                        before[node],
                    ) && kept@[node] == before[node],
                forall|i: int|
                    0 <= i < it.index() && is_held(open@, *it.seq()[i].1) ==> kept@.contains_key(
                        *(#[trigger] it.seq()[i]).0,
                    ),
        {
            let (node, channel) = entry;
            assert(before.contains_key(*it.seq()[it.index() as int].0));
            assert(before[*it.seq()[it.index() as int].0] == *it.seq()[it.index() as int].1);
            if held(open, *channel) {
                kept.insert(*node, *channel);
            }
        }
        proof {
            let all = vstd::std_specs::iter::IteratorSpec::remaining(
                    &vstd::std_specs::hash::spec_hash_map_iter(&self.channels),
                );
            assert forall|node: u64|
                before.contains_key(node) && is_held(open@, before[node]) implies #[trigger]
            kept@.contains_key(node) by {
                assert(all.contains((&node, &before[node])));
                let i = choose|i: int| 0 <= i < all.len() && all[i] == (&node, &before[node]);
                assert(*all[i].0 == node);
            }
            assert(kept@ =~= held_channels(before, open@));
        }
        self.channels = kept;
    }

    /// Forgets the channels that nobody holds, and returns the channel to `node`
    /// if it can be used. `open` lists the channels that somebody holds.
    pub fn live(&mut self, node: u64, open: &[OpenChannel]) -> (channel: Option<u64>)
        ensures
            final(self)@ == held_channels(old(self)@, open@),
            channel == live_channel(old(self)@, node, open@),
    {
        let found = match self.channels.get(&node) {
            Some(channel) => {
                if usable(open, *channel) {
                    Some(*channel)
                } else {
                    None
                }
            },
            None => None,
        };
        self.retain_held(open);
        found
    }

    /// Remembers `channel` as the one to `node`.
    pub fn remember(&mut self, node: u64, channel: u64)
        ensures
            final(self)@ == old(self)@.insert(node, channel),
    {
        self.channels.insert(node, channel);
    }

    /// Whether no channel is remembered.
    pub fn is_empty(&self) -> (empty: bool)
        ensures
            empty == (self@ == Map::<u64, u64>::empty()),
    {
        let empty = self.channels.is_empty();
        proof {
            if empty {
                assert(self@ =~= Map::<u64, u64>::empty());
            }
        }
        empty
    }

    /// Decides how to open `node`, whose HID++ collection is
    /// `(usage_page, usage_id)`: an open channel is shared, and a new one is told
    /// whether the node has short reports.
    pub fn begin_open(
        &mut self,
        node: u64,
        usage_page: u16,
        usage_id: u16,
        open: &[OpenChannel],
    ) -> (action: OpenAction)
        ensures
            final(self)@ == held_channels(old(self)@, open@),
            action == match live_channel(old(self)@, node, open@) {
                Some(channel) => OpenAction::Reuse(channel),
                None => OpenAction::Open {
                    long_only: super::lacks_short_reports(usage_page, usage_id),
                },
            },
            action == opening(old(self)@, node, usage_page, usage_id, open@),
    {
        match self.live(node, open) {
            Some(channel) => OpenAction::Reuse(channel),
            None => OpenAction::Open { long_only: is_long_only_collection(usage_page, usage_id) },
        }
    }

    /// Takes the channel that was opened to `node`; `None` if the node turned out
    /// not to speak HID++. Returns the channel to use.
    pub fn finish_open(&mut self, node: u64, opened: Option<u64>) -> (channel: Option<u64>)
        ensures
            channel == opened,
            final(self)@ == match opened {
                Some(channel) => old(self)@.insert(node, channel),
                None => old(self)@,
            },
            final(self)@ == after_opening(old(self)@, node, opened),
    {
        match opened {
            Some(channel) => {
                self.remember(node, channel);
                Some(channel)
            },
            None => None,
        }
    }
}

/// A channel that was opened to a node is shared with everybody who opens the
/// node later, exactly as long as somebody holds it and its device is connected.
pub proof fn opened_channel_is_shared_while_usable(
    channels: Map<u64, u64>,
    node: u64,
    channel: u64,
    open: Seq<OpenChannel>,
)
    ensures
        live_channel(channels.insert(node, channel), node, open) == if is_usable(open, channel) {
            Some(channel)
        } else {
            None
        },
{
}

/// Looking a channel up, for whichever node, leaves every channel that somebody
/// holds where it was, and none that nobody holds.
pub proof fn lookup_forgets_only_released_channels(
    channels: Map<u64, u64>,
    open: Seq<OpenChannel>,
    node: u64,
)
    ensures
        held_channels(channels, open).contains_key(node) <==> channels.contains_key(node)
            && is_held(open, channels[node]),
        held_channels(channels, open).contains_key(node) ==> held_channels(channels, open)[node]
            == channels[node],
        live_channel(held_channels(channels, open), node, open) == live_channel(
            channels,
            node,
            open,
        ),
{
    if channels.contains_key(node) && is_usable(open, channels[node]) {
        let usable = OpenChannel { channel: channels[node], connected: true };
        let i = choose|i: int| 0 <= i < open.len() && open[i] == usable;
        assert(open[i].channel == channels[node]);
    }
}

/// A lookup never returns a channel that nobody holds.
pub proof fn live_channels_are_held(channels: Map<u64, u64>, node: u64, open: Seq<OpenChannel>)
    requires
        live_channel(channels, node, open) is Some,
    ensures
        is_held(open, live_channel(channels, node, open)->0),
{
    let usable = OpenChannel { channel: channels[node], connected: true };
    let i = choose|i: int| 0 <= i < open.len() && open[i] == usable;
    assert(open[i].channel == channels[node]);
}

/// A channel is held if it is listed, and usable if it is listed as connected,
/// wherever in the list it stands.
pub proof fn listed_channels_are_held(open: Seq<OpenChannel>, i: int, channel: u64)
    ensures
        0 <= i < open.len() && open[i].channel == channel ==> is_held(open, channel),
        0 <= i < open.len() && open[i].channel == channel && open[i].connected ==> is_usable(
            open,
            channel,
        ),
        (forall|j: int| 0 <= j < open.len() ==> (#[trigger] open[j]).channel != channel)
            ==> !is_held(open, channel),
        (forall|j: int|
            0 <= j < open.len() ==> (#[trigger] open[j]).channel != channel || !open[j].connected)
            ==> !is_usable(open, channel),
{
    if 0 <= i < open.len() && open[i].channel == channel && open[i].connected {
        assert(open[i] == (OpenChannel { channel, connected: true }));
    }
}

/// A lookup returns what was remembered for its own node, and nothing for a node
/// that nothing was remembered for: channels of other nodes are never shared.
pub proof fn channels_are_not_shared_between_nodes(
    channels: Map<u64, u64>,
    node: u64,
    open: Seq<OpenChannel>,
    other: u64,
    channel: u64,
)
    requires
        other != node,
    ensures
        !channels.contains_key(node) ==> live_channel(channels, node, open) is None,
        live_channel(channels, node, open) matches Some(found) ==> channels.contains_key(node)
            && channels[node] == found,
        live_channel(channels.insert(other, channel), node, open) == live_channel(
            channels,
            node,
            open,
        ),
{
}

/// How a node is opened.
pub open spec fn opening(
    channels: Map<u64, u64>,
    node: u64,
    usage_page: u16,
    usage_id: u16,
    open: Seq<OpenChannel>,
) -> OpenAction {
    match live_channel(channels, node, open) {
        Some(channel) => OpenAction::Reuse(channel),
        None => OpenAction::Open { long_only: super::lacks_short_reports(usage_page, usage_id) },
    }
}

/// What is remembered once a node was opened.
pub open spec fn after_opening(channels: Map<u64, u64>, node: u64, opened: Option<u64>) -> Map<
    u64,
    u64,
> {
    match opened {
        Some(channel) => channels.insert(node, channel),
        None => channels,
    }
}

/// A node is opened exactly once while its channel is usable: whoever opens it
/// next, of whatever collection, reuses the channel that was opened. Once the
/// channel is not usable, the node is opened again, without short reports exactly
/// if its collection has none.
pub proof fn nodes_are_opened_once(
    channels: Map<u64, u64>,
    node: u64,
    channel: u64,
    usage_page: u16,
    usage_id: u16,
    open: Seq<OpenChannel>,
)
    ensures
        ({
            let after = after_opening(channels, node, Some(channel));
            let action = opening(after, node, usage_page, usage_id, open);
            &&& is_usable(open, channel) ==> action == OpenAction::Reuse(channel)
            &&& !is_usable(open, channel) ==> action is Open
        }),
        opening(channels, node, usage_page, usage_id, open) matches OpenAction::Open { long_only }
            ==> (long_only <==> usage_page == 0xff43 && usage_id == 0x202),
{
}

/// A node that does not speak HID++ leaves no trace, and opening a node does not
/// touch what is remembered of others.
pub proof fn opening_touches_one_node(
    channels: Map<u64, u64>,
    node: u64,
    opened: Option<u64>,
    other: u64,
)
    requires
        other != node,
    ensures
        after_opening(channels, node, None) == channels,
        after_opening(channels, node, opened).contains_key(other) == channels.contains_key(other),
        channels.contains_key(other) ==> after_opening(channels, node, opened)[other]
            == channels[other],
        opened matches Some(channel) ==> after_opening(channels, node, opened).contains_key(node)
            && after_opening(channels, node, opened)[node] == channel,
{
}

} // verus!
