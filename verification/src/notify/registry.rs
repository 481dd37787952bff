//! The registry of per-user broadcast channels.
//!
//! One channel per user, however many connections the user has open. A
//! channel is made when the user first connects and stays for good; events
//! for users without a channel are dropped.
//!
//! The registry is changed in one way only, by connecting a user, and that
//! takes it exclusively (`&mut self`): two connects cannot interleave, so a
//! user never gets two channels. Publishing shares it (`&self`) and leaves it
//! as it is. Whoever shares a registry between tasks puts it behind a lock
//! that hands out the two kinds of access.

use crate::ids::{lemma_listed_once, listed};
use crate::notify::event::{recipients_of, AppNotification, ChangeModel, NotifyEvent};
use crate::types::{ChatModel, RowID};
use dashmap::DashMap;
use tokio::sync::broadcast::{Receiver, Sender};
use vstd::prelude::*;

verus! {

/// `dashmap::DashMap`, made known by name. What a map holds is told by
/// `channels_of` alone.
#[verifier::external_type_specification]
#[verifier::external_body]
#[verifier::reject_recursive_types(K)]
#[verifier::reject_recursive_types(V)]
#[verifier::reject_recursive_types(S)]
pub struct ExDashMap<K, V, S>(DashMap<K, V, S>);

/// `tokio::sync::broadcast::Sender`, made known by name; nothing is said of
/// its inside.
#[verifier::external_type_specification]
#[verifier::external_body]
#[verifier::reject_recursive_types(T)]
pub struct ExSender<T>(Sender<T>);

/// `tokio::sync::broadcast::Receiver`, made known by name; nothing is said of
/// its inside.
#[verifier::external_type_specification]
#[verifier::external_body]
#[verifier::reject_recursive_types(T)]
pub struct ExReceiver<T>(Receiver<T>);

/// What a map of channels holds: for each user that has one, the sending
/// handle of the user's channel. Handles are compared by the channel they
/// belong to: a handle and its clone are the same value here.
pub uninterp spec fn channels_of(map: DashMap<RowID, Sender<NotifyEvent>>) -> Map<
    RowID,
    Sender<NotifyEvent>,
>;

/// No channels at all.
pub open spec fn no_channels() -> Map<RowID, Sender<NotifyEvent>> {
    Map::empty()
}

/// Makes an empty map with `DashMap::new`.
#[verifier::external_body]
fn map_new() -> (map: DashMap<RowID, Sender<NotifyEvent>>)
    ensures
        channels_of(map) == no_channels(),
{
    DashMap::new()
}

/// Looks a user up with `DashMap::get` and hands out a clone of the handle
/// found. Trusted: the answer is the entry of the user, if there is one.
#[verifier::external_body]
fn map_get(map: &DashMap<RowID, Sender<NotifyEvent>>, uid: RowID) -> (out: Option<
    Sender<NotifyEvent>,
>)
    ensures
        out == if channels_of(*map).contains_key(uid) {
            Some(channels_of(*map)[uid])
        } else {
            None::<Sender<NotifyEvent>>
        },
{
    map.get(&uid).map(|entry| entry.value().clone())
}

/// Stores a handle for a user with `DashMap::insert` and hands the handle
/// back. Trusted: afterwards the map holds this handle for the user, in place
/// of any other, and every other entry as before.
#[verifier::external_body]
fn map_insert(
    map: &mut DashMap<RowID, Sender<NotifyEvent>>,
    uid: RowID,
    tx: Sender<NotifyEvent>,
) -> (kept: Sender<NotifyEvent>)
    ensures
        kept == tx,
        channels_of(*final(map)) == channels_of(*old(map)).insert(uid, kept),
{
    map.insert(uid, tx.clone());
    tx
}

/// The number of events that a channel was asked to buffer when it was made.
/// A channel may buffer more than it was asked to, and never less.
pub uninterp spec fn asked_capacity(tx: Sender<NotifyEvent>) -> usize;

/// Makes a channel without receivers with `Sender::new`, which panics on a
/// capacity of zero or above half of `usize::MAX`. Trusted: the channel
/// buffers at least `capacity` events for each receiver and drops the oldest
/// beyond that; here only the number is recorded.
#[verifier::external_body]
fn channel_new(capacity: usize) -> (tx: Sender<NotifyEvent>)
    requires
        0 < capacity <= usize::MAX / 2,
    ensures
        asked_capacity(tx) == capacity,
{
    Sender::new(capacity)
}

/// Sends a copy of the event with `Sender::send`. Trusted: the call never
/// blocks; it fails only when the channel has no receiver, and otherwise
/// tells how many receivers there are, which is at least one.
#[verifier::external_body]
fn channel_send(tx: &Sender<NotifyEvent>, event: &NotifyEvent) -> (reached: Option<usize>)
    ensures
        reached matches Some(n) ==> n >= 1,
{
    tx.send(event.clone()).ok()
}

/// The channel that a receiver listens on, told by its sending handle. A
/// receiver gets what is sent on this channel after it was made, and nothing
/// else.
pub uninterp spec fn listens_on(rx: Receiver<NotifyEvent>) -> Sender<NotifyEvent>;

/// Adds a receiver to a channel with `Sender::subscribe`, which panics only
/// where the channel has as many receivers as it can count. Trusted: the
/// receiver listens on the channel of the handle it was made from.
#[verifier::external_body]
fn channel_subscribe(tx: &Sender<NotifyEvent>) -> (rx: Receiver<NotifyEvent>)
    ensures
        listens_on(rx) == *tx,
{
    tx.subscribe()
}

/// What became of an event that was published for one user.
#[derive(Debug, Clone, Copy, PartialEq, Eq, Structural)]
pub enum Delivery {
    /// The user has no channel: the event was dropped.
    NoChannel,
    /// The user has a channel, but nobody listens on it: nothing happened.
    NoSubscriber,
    /// The event was handed to this many subscribers.
    Sent(usize),
}

/// The users of a report, in its order.
pub open spec fn reported(report: Seq<(RowID, Delivery)>) -> Seq<i64> {
    report.map_values(|line: (RowID, Delivery)| line.0)
}

/// The channels after a user connected: as before where the user had one,
/// else with `fresh` as the user's.
pub open spec fn after_connect(
    before: Map<RowID, Sender<NotifyEvent>>,
    uid: RowID,
    fresh: Sender<NotifyEvent>,
) -> Map<RowID, Sender<NotifyEvent>> {
    if before.contains_key(uid) {
        before
    } else {
        before.insert(uid, fresh)
    }
}

/// Number of events that a channel is asked to buffer. A subscriber that
/// falls further behind than the channel buffers loses the oldest events.
pub const CHANNEL_CAPACITY: usize = 10;

/// The channels of all users that ever connected.
pub struct ChannelRegistry {
    users: DashMap<RowID, Sender<NotifyEvent>>,
}

impl ChannelRegistry {
    /// The channel of each user that has one.
    pub closed spec fn channels(self) -> Map<RowID, Sender<NotifyEvent>> {
        channels_of(self.users)
    }

    /// The users that have a channel.
    pub open spec fn registered(self) -> Set<RowID> {
        self.channels().dom()
    }

    /// A registry without channels.
    pub fn new() -> (registry: ChannelRegistry)
        ensures
            registry.channels() == no_channels(),
    {
        ChannelRegistry { users: map_new() }
    }

    /// Whether the user has a channel.
    pub fn is_registered(&self, uid: RowID) -> (yes: bool)
        ensures
            yes == self.registered().contains(uid),
    {
        map_get(&self.users, uid).is_some()
    }

    /// The channel of a user, if the user has one.
    pub fn sender(&self, uid: RowID) -> (out: Option<Sender<NotifyEvent>>)
        ensures
            out == if self.registered().contains(uid) {
                Some(self.channels()[uid])
            } else {
                None::<Sender<NotifyEvent>>
            },
    {
        map_get(&self.users, uid)
    }

    /// The channel of a user, made now if the user had none. Nothing else in
    /// the registry changes, and a channel that is there is never replaced. A
    /// channel that is made is asked to buffer `CHANNEL_CAPACITY` events.
    pub fn get_or_create(&mut self, uid: RowID) -> (tx: Sender<NotifyEvent>)
        ensures
            final(self).channels() == after_connect(old(self).channels(), uid, tx),
            final(self).channels()[uid] == tx,
            final(self).registered() == old(self).registered().insert(uid),
            !old(self).registered().contains(uid) ==> asked_capacity(tx) == CHANNEL_CAPACITY,
    {
        match map_get(&self.users, uid) {
            Some(tx) => {
                assert(self.registered() =~= old(self).registered().insert(uid));
                tx
            },
            None => {
                let fresh = channel_new(CHANNEL_CAPACITY);
                let tx = map_insert(&mut self.users, uid, fresh);
                assert(self.registered() =~= old(self).registered().insert(uid));
                tx
            },
        }
    }

    /// A new subscription to the channel of a user, which is made now if the
    /// user had none. The receiver listens on the channel that the registry
    /// holds for the user after the call: the one that was there, where there
    /// was one.
    pub fn subscribe(&mut self, uid: RowID) -> (rx: Receiver<NotifyEvent>)
        ensures
            listens_on(rx) == final(self).channels()[uid],
            final(self).channels() == after_connect(
                old(self).channels(),
                uid,
                listens_on(rx),
            ),
            final(self).registered() == old(self).registered().insert(uid),
            !old(self).registered().contains(uid) ==> asked_capacity(listens_on(rx))
                == CHANNEL_CAPACITY,
    {
        let tx = self.get_or_create(uid);
        channel_subscribe(&tx)
    }

    /// Publishes an event for one user. Without a channel the event is
    /// dropped; with one it goes to whoever listens. The registry stays as it
    /// is either way.
    pub fn publish(&self, uid: RowID, event: &NotifyEvent) -> (delivery: Delivery)
        ensures
            delivery is NoChannel <==> !self.registered().contains(uid),
            delivery matches Delivery::Sent(n) ==> n >= 1,
    {
        match map_get(&self.users, uid) {
            None => Delivery::NoChannel,
            Some(tx) => match channel_send(&tx, event) {
                Some(n) => Delivery::Sent(n),
                None => Delivery::NoSubscriber,
            },
        }
    }

    /// Publishes the event of a notification for each of its users, each
    /// once, and reports what became of it, user by user. The order in which
    /// the users are served is not fixed.
    pub fn deliver(&self, note: &AppNotification) -> (report: Vec<(RowID, Delivery)>)
        ensures
            reported(report@).no_duplicates(),
            reported(report@).to_set() == note.recipients(),
            forall|i: int|
                0 <= i < report@.len() ==> ((#[trigger] report@[i]).1 is NoChannel
                    <==> !self.registered().contains(report@[i].0)),
            forall|i: int|
                0 <= i < report@.len() ==> ((#[trigger] report@[i]).1 matches Delivery::Sent(n)
                    ==> n >= 1),
    {
        let users = listed(note.users());
        let event = note.event();
        let mut report: Vec<(RowID, Delivery)> = Vec::new();
        let mut i: usize = 0;
        while i < users.len()
            invariant
                0 <= i <= users.len(),
                report@.len() == i,
                reported(report@) == users@.take(i as int),
                forall|j: int|
                    0 <= j < report@.len() ==> ((#[trigger] report@[j]).1 is NoChannel
                        <==> !self.registered().contains(report@[j].0)),
                forall|j: int|
                    0 <= j < report@.len() ==> ((#[trigger] report@[j]).1 matches Delivery::Sent(
                        n,
                    ) ==> n >= 1),
            decreases users.len() - i,
        {
            let ghost before = report@;
            let delivery = self.publish(users[i], event);
            report.push((users[i], delivery));
            assert(reported(report@) =~= reported(before).push(users@[i as int]));
            assert(reported(report@) =~= users@.take(i + 1));
            i += 1;
        }
        assert(users@.take(users.len() as int) == users@);
        report
    }
}

/// Whoever has to hear of a change is served exactly once. When the members
/// of a chat change, this holds of who left and of who joined like of anybody
/// else.
pub proof fn law_told_once(report: Seq<(RowID, Delivery)>, recipients: Set<i64>, user: i64)
    requires
        reported(report).no_duplicates(),
        reported(report).to_set() == recipients,
        recipients.contains(user),
    ensures
        reported(report).to_multiset().count(user) == 1,
{
    lemma_listed_once(reported(report), user);
}

/// When the members of a chat change, who left and who joined are each
/// served exactly once, whatever the order in which the users are served.
pub proof fn law_leaver_and_joiner_are_served_once(
    report: Seq<(RowID, Delivery)>,
    old: ChatModel,
    new: ChatModel,
    leaver: i64,
    joiner: i64,
)
    requires
        reported(report).no_duplicates(),
        reported(report).to_set() == recipients_of(ChangeModel::ChatUpdated(old, new)),
        old.member_set().contains(leaver) && !new.member_set().contains(leaver),
        new.member_set().contains(joiner) && !old.member_set().contains(joiner),
    ensures
        reported(report).to_multiset().count(leaver) == 1,
        reported(report).to_multiset().count(joiner) == 1,
{
    let recipients = recipients_of(ChangeModel::ChatUpdated(old, new));
    law_told_once(report, recipients, leaver);
    law_told_once(report, recipients, joiner);
}

/// Nobody but the recipients of a change is served.
pub proof fn law_nobody_else_is_told(
    report: Seq<(RowID, Delivery)>,
    recipients: Set<i64>,
    user: i64,
)
    requires
        reported(report).to_set() == recipients,
        !recipients.contains(user),
    ensures
        forall|i: int| 0 <= i < report.len() ==> (#[trigger] report[i]).0 != user,
{
    assert forall|i: int| 0 <= i < report.len() implies (#[trigger] report[i]).0 != user by {
        if report[i].0 == user {
            assert(reported(report)[i] == user);
            assert(reported(report).contains(user));
        }
    }
}

/// Connecting a user who is connected already changes nothing: the registry
/// stays as it is and the user gets the channel that is there.
pub proof fn law_connect_twice(
    before: Map<RowID, Sender<NotifyEvent>>,
    uid: RowID,
    first: Sender<NotifyEvent>,
    second: Sender<NotifyEvent>,
)
    requires
        after_connect(before, uid, first)[uid] == first,
        after_connect(after_connect(before, uid, first), uid, second)[uid] == second,
    ensures
        after_connect(after_connect(before, uid, first), uid, second) == after_connect(
            before,
            uid,
            first,
        ),
        second == first,
{
}

/// Two connections of one user listen on one channel, whatever the registry
/// held before the first: the second finds the channel that the first left.
pub proof fn law_subscribers_share_a_channel(
    before: Map<RowID, Sender<NotifyEvent>>,
    uid: RowID,
    first: Receiver<NotifyEvent>,
    second: Receiver<NotifyEvent>,
)
    requires
        after_connect(before, uid, listens_on(first))[uid] == listens_on(first),
        after_connect(after_connect(before, uid, listens_on(first)), uid, listens_on(second))[uid]
            == listens_on(second),
    ensures
        listens_on(second) == listens_on(first),
        after_connect(after_connect(before, uid, listens_on(first)), uid, listens_on(second))
            == after_connect(before, uid, listens_on(first)),
        after_connect(before, uid, listens_on(first)).dom() == before.dom().insert(uid),
{
    assert(after_connect(before, uid, listens_on(first)).dom() =~= before.dom().insert(uid));
}

/// A user who connects again gets a subscription to the channel that the
/// registry holds already, and the registry stays as it is.
pub proof fn law_reconnect_keeps_the_channel(
    before: Map<RowID, Sender<NotifyEvent>>,
    uid: RowID,
    rx: Receiver<NotifyEvent>,
)
    requires
        before.contains_key(uid),
        after_connect(before, uid, listens_on(rx))[uid] == listens_on(rx),
    ensures
        listens_on(rx) == before[uid],
        after_connect(before, uid, listens_on(rx)) == before,
{
}

/// Connecting a user leaves the channels of all other users alone.
pub proof fn law_connect_keeps_others(
    before: Map<RowID, Sender<NotifyEvent>>,
    uid: RowID,
    fresh: Sender<NotifyEvent>,
    other: RowID,
)
    requires
        other != uid,
    ensures
        after_connect(before, uid, fresh).contains_key(other) == before.contains_key(other),
        before.contains_key(other) ==> after_connect(before, uid, fresh)[other] == before[other],
{
}

} // verus!
