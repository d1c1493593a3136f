//! Looking up and removing connected clients by the id that Java passes in.
//!
//! The server's client list is read as a snapshot of slots: a slot is busy
//! when its client could not be read without waiting, and a busy slot never
//! matches an id and is never removed.
use vstd::prelude::*;
use crate::params::{client_key, wrap_usize};

verus! {

/// What the bridge reads of one connected client.
#[derive(Debug, Clone, PartialEq, Eq)]
pub struct ClientInfo {
    pub id: u64,
    pub remote_host: String,
    pub destination_port: i32,
    pub repeater_id: Option<String>,
}

/// One entry of the server's client list.
#[derive(Debug, Clone, PartialEq, Eq)]
pub enum ClientSlot {
    /// The client is locked by someone else.
    Busy,
    /// The client could be read.
    Ready(ClientInfo),
}

/// Which entries of the client list a disconnect keeps, and whether it
/// removed any.
#[derive(Debug, Clone, PartialEq, Eq)]
pub struct DisconnectPlan {
    /// One flag per slot, in the order of the list: `true` keeps the slot.
    pub keep: Vec<bool>,
    /// Whether at least one slot is removed.
    pub removed: bool,
}

/// Whether `slot` holds the client with the server id `key`.
pub open spec fn slot_matches(slot: ClientSlot, key: u64) -> bool {
    match slot {
        ClientSlot::Ready(info) => info.id == key,
        ClientSlot::Busy => false,
    }
}

/// The server id that a Java `long` client id stands for: the server's ids
/// are `usize`, so only the low `usize::BITS` bits of the Java value count.
pub open spec fn key_of(client_id: i64) -> u64 {
    wrap_usize(client_id as int) as u64
}

/// Whether `i` is the first slot of `slots` that holds the client `key`.
pub open spec fn first_match(slots: Seq<ClientSlot>, key: u64, i: int) -> bool {
    &&& 0 <= i < slots.len()
    &&& slot_matches(slots[i], key)
    &&& forall|j: int| 0 <= j < i ==> !slot_matches(#[trigger] slots[j], key)
}

/// Whether no slot of `slots` holds the client `key`.
pub open spec fn no_match(slots: Seq<ClientSlot>, key: u64) -> bool {
    forall|j: int| 0 <= j < slots.len() ==> !slot_matches(#[trigger] slots[j], key)
}

/// Whether slot `slot` holds the client `key` and has a repeater id.
pub open spec fn has_repeater(slot: ClientSlot, key: u64) -> bool {
    slot_matches(slot, key) && slot->Ready_0.repeater_id is Some
}

/// Finds the first slot that holds the client `client_id`.
pub fn find_client(slots: &Vec<ClientSlot>, client_id: i64) -> (r: Option<usize>)
    ensures
        match r {
            Some(i) => first_match(slots@, key_of(client_id), i as int),
            None => no_match(slots@, key_of(client_id)),
        },
{
    let key = client_key(client_id);
    let mut i: usize = 0;
    while i < slots.len()
        invariant
            key == key_of(client_id),
            i <= slots.len(),
            forall|j: int| 0 <= j < i ==> !slot_matches(#[trigger] slots@[j], key),
        decreases slots.len() - i,
    {
        match &slots[i] {
            ClientSlot::Ready(info) => {
                if info.id == key {
                    return Some(i);
                }
            },
            ClientSlot::Busy => {},
        }
        i = i + 1;
    }
    None
}

/// The remote host of the client `client_id` (`vncGetRemoteHost`), taken
/// from the first slot that holds it.
pub fn remote_host(slots: &Vec<ClientSlot>, client_id: i64) -> (r: Option<String>)
    ensures
        match r {
            Some(host) => exists|i: int|
                first_match(slots@, key_of(client_id), i) && host == slots@[i]->Ready_0.remote_host,
            None => no_match(slots@, key_of(client_id)),
        },
{
    match find_client(slots, client_id) {
        Some(i) => match &slots[i] {
            ClientSlot::Ready(info) => Some(info.remote_host.clone()),
            ClientSlot::Busy => None,
        },
        None => None,
    }
}

/// The destination port of the client `client_id`
/// (`vncGetDestinationPort`), or `-1` when no slot holds it.
pub fn destination_port(slots: &Vec<ClientSlot>, client_id: i64) -> (r: i32)
    ensures
        no_match(slots@, key_of(client_id)) ==> r == -1,
        forall|i: int|
            first_match(slots@, key_of(client_id), i) ==> r == slots@[i]->Ready_0.destination_port,
{
    match find_client(slots, client_id) {
        Some(i) => match &slots[i] {
            ClientSlot::Ready(info) => info.destination_port,
            ClientSlot::Busy => -1,
        },
        None => -1,
    }
}

/// The repeater id of the client `client_id` (`vncGetRepeaterId`): the one
/// of the first slot that holds the client and has a repeater id.
pub fn repeater_id(slots: &Vec<ClientSlot>, client_id: i64) -> (r: Option<String>)
    ensures
        match r {
            Some(id) => exists|i: int|
                0 <= i < slots@.len() && has_repeater(slots@[i], key_of(client_id)) && (forall|
                    j: int,
                | 0 <= j < i ==> !has_repeater(#[trigger] slots@[j], key_of(client_id)))
                    && Some(id) == slots@[i]->Ready_0.repeater_id,
            None => forall|j: int|
                0 <= j < slots@.len() ==> !has_repeater(#[trigger] slots@[j], key_of(client_id)),
        },
{
    let key = client_key(client_id);
    let mut i: usize = 0;
    while i < slots.len()
        invariant
            key == key_of(client_id),
            i <= slots.len(),
            forall|j: int| 0 <= j < i ==> !has_repeater(#[trigger] slots@[j], key),
        decreases slots.len() - i,
    {
        match &slots[i] {
            ClientSlot::Ready(info) => {
                if info.id == key {
                    match &info.repeater_id {
                        Some(id) => {
                            return Some(id.clone());
                        },
                        None => {},
                    }
                }
            },
            ClientSlot::Busy => {},
        }
        i = i + 1;
    }
    None
}

/// Plans `vncDisconnect`: every slot that holds the client `client_id` is
/// removed, every other slot (busy ones included) is kept in place.
pub fn plan_disconnect(slots: &Vec<ClientSlot>, client_id: i64) -> (r: DisconnectPlan)
    ensures
        r.keep@.len() == slots@.len(),
        forall|i: int|
            0 <= i < slots@.len() ==> r.keep@[i] == !slot_matches(
                #[trigger] slots@[i],
                key_of(client_id),
            ),
        r.removed == !no_match(slots@, key_of(client_id)),
{
    let key = client_key(client_id);
    let mut keep: Vec<bool> = Vec::new();
    let mut removed = false;
    let mut i: usize = 0;
    while i < slots.len()
        invariant
            key == key_of(client_id),
            i <= slots.len(),
            keep@.len() == i,
            forall|j: int| 0 <= j < i ==> keep@[j] == !slot_matches(#[trigger] slots@[j], key),
            removed == exists|j: int| 0 <= j < i && slot_matches(#[trigger] slots@[j], key),
        decreases slots.len() - i,
    {
        let hit = match &slots[i] {
            ClientSlot::Ready(info) => info.id == key,
            ClientSlot::Busy => false,
        };
        keep.push(!hit);
        if hit {
            removed = true;
        }
        i = i + 1;
    }
    DisconnectPlan { keep, removed }
}

/// A disconnect removes a client exactly when a lookup of the same id finds
/// one: `plan_disconnect` reports a removal iff `find_client` gives a slot.
pub proof fn disconnect_agrees_with_lookup(slots: Seq<ClientSlot>, key: u64)
    ensures
        !no_match(slots, key) <==> exists|i: int| first_match(slots, key, i),
{
    if !no_match(slots, key) {
        let k = choose|k: int| 0 <= k < slots.len() && slot_matches(slots[k], key);
        least_match(slots, key, k);
    }
}

/// Below any matching slot there is a first one.
proof fn least_match(slots: Seq<ClientSlot>, key: u64, k: int)
    requires
        0 <= k < slots.len(),
        slot_matches(slots[k], key),
    ensures
        exists|i: int| first_match(slots, key, i),
    decreases k,
{
    if exists|j: int| 0 <= j < k && slot_matches(slots[j], key) {
        let j = choose|j: int| 0 <= j < k && slot_matches(slots[j], key);
        least_match(slots, key, j);
    } else {
        assert(first_match(slots, key, k));
    }
}

} // verus!
