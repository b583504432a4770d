use vstd::prelude::*;

use crate::clock::current_timestamp;
use crate::error::BusError;
use crate::message::{empty_object, is_empty_object, ConfigMessage};

verus! {

/// The entries of the table, one per topic, beside the map they stand for.
struct LatestTable {
    entries: Vec<ConfigMessage>,
    table: Ghost<Map<Seq<char>, ConfigMessage>>,
}

impl View for LatestTable {
    type V = Map<Seq<char>, ConfigMessage>;

    closed spec fn view(&self) -> Map<Seq<char>, ConfigMessage> {
        self.table@
    }
}

/// The table of latest messages, one per topic.
///
/// Its view maps each topic that has ever been broadcast on to the last message
/// stored for it. Every stored message carries its own topic as `event_type`.
pub struct ConfigBus {
    latest: LatestTable,
}

impl View for ConfigBus {
    type V = Map<Seq<char>, ConfigMessage>;

    closed spec fn view(&self) -> Map<Seq<char>, ConfigMessage> {
        self.latest@
    }
}

/// The reserved topic on which a window asks the others to broadcast their
/// current state again.
pub const CONFIG_REQUEST_TOPIC: &'static str = "config_request";

/// The table after a message has been taken in on its own topic.
pub open spec fn stored(table: Map<Seq<char>, ConfigMessage>, msg: ConfigMessage) -> Map<
    Seq<char>,
    ConfigMessage,
> {
    table.insert(msg.event_type@, msg)
}

impl LatestTable {
    /// Each entry is the table's value for its topic, each topic of the table
    /// has an entry, and no two entries share a topic.
    spec fn wf(&self) -> bool {
        &&& forall|i: int|
            0 <= i < self.entries@.len() ==> {
                &&& self.table@.contains_key(#[trigger] self.entries@[i].event_type@)
                &&& self.table@[self.entries@[i].event_type@] == self.entries@[i]
            }
        &&& forall|k: Seq<char>|
            #[trigger] self.table@.contains_key(k) ==> exists|i: int|
                0 <= i < self.entries@.len() && #[trigger] self.entries@[i].event_type@ == k
        &&& forall|i: int, j: int|
            0 <= i < self.entries@.len() && 0 <= j < self.entries@.len()
                && #[trigger] self.entries@[i].event_type@ == #[trigger] self.entries@[j].event_type@
                ==> i == j
    }

    fn new() -> (r: Self)
        ensures
            r.wf(),
            r@ == Map::<Seq<char>, ConfigMessage>::empty(),
    {
        LatestTable { entries: Vec::new(), table: Ghost(Map::empty()) }
    }

    /// The index of the entry for `topic`, if the table has one.
    fn position(&self, topic: &String) -> (r: Option<usize>)
        requires
            self.wf(),
        ensures
            match r {
                Some(i) => i < self.entries@.len() && self.entries@[i as int].event_type@ == topic@,
                None => !self@.contains_key(topic@),
            },
    {
        let mut i: usize = 0;
        while i < self.entries.len()
            invariant
                self.wf(),
                i <= self.entries@.len(),
                forall|j: int| 0 <= j < i ==> self.entries@[j].event_type@ != topic@,
            decreases self.entries@.len() - i,
        {
            if self.entries[i].event_type == *topic {
                return Some(i);
            }
            i = i + 1;
        }
        None
    }

    fn get(&self, event_type: &String) -> (r: Option<ConfigMessage>)
        requires
            self.wf(),
        ensures
            r is Some ==> r->Some_0.event_type@ == event_type@,
            r == (if self@.contains_key(event_type@) {
                Some(self@[event_type@])
            } else {
                None::<ConfigMessage>
            }),
    {
        match self.position(event_type) {
            Some(i) => Some(self.entries[i].clone()),
            None => None,
        }
    }

    /// Takes `msg` in as the latest message on its topic, replacing any earlier one.
    fn store(&mut self, msg: ConfigMessage)
        requires
            old(self).wf(),
        ensures
            final(self).wf(),
            final(self)@ == stored(old(self)@, msg),
    {
        let ghost key = msg.event_type@;
        let ghost before = self.entries@;
        let ghost table = self.table@.insert(key, msg);
        match self.position(&msg.event_type) {
            Some(i) => {
                self.entries.set(i, msg);
                proof {
                    assert forall|k: Seq<char>| #[trigger] table.contains_key(k) implies exists|j: int|
                        0 <= j < self.entries@.len() && #[trigger] self.entries@[j].event_type@ == k by {
                        if k == key {
                            assert(self.entries@[i as int].event_type@ == k);
                        } else {
                            let j = choose|j: int|
                                0 <= j < before.len() && #[trigger] before[j].event_type@ == k;
                            assert(self.entries@[j].event_type@ == k);
                        }
                    }
                }
            },
            None => {
                self.entries.push(msg);
                proof {
                    let n = before.len() as int;
                    assert forall|k: Seq<char>| #[trigger] table.contains_key(k) implies exists|j: int|
                        0 <= j < self.entries@.len() && #[trigger] self.entries@[j].event_type@ == k by {
                        if k == key {
                            assert(self.entries@[n].event_type@ == k);
                        } else {
                            let j = choose|j: int|
                                0 <= j < before.len() && #[trigger] before[j].event_type@ == k;
                            assert(self.entries@[j].event_type@ == k);
                        }
                    }
                    assert forall|j: int| 0 <= j < n implies #[trigger] before[j].event_type@ != key by {
                        assert(old(self).table@.contains_key(before[j].event_type@));
                    }
                }
            },
        }
        self.table = Ghost(table);
        assert(forall|i: int|
            0 <= i < self.entries@.len() ==> {
                &&& self.table@.contains_key(#[trigger] self.entries@[i].event_type@)
                &&& self.table@[self.entries@[i].event_type@] == self.entries@[i]
            });
        assert(forall|i: int, j: int|
            0 <= i < self.entries@.len() && 0 <= j < self.entries@.len()
                && #[trigger] self.entries@[i].event_type@ == #[trigger] self.entries@[j].event_type@
                ==> i == j);
    }
}

impl ConfigBus {
    #[verifier::type_invariant]
    spec fn inv(&self) -> bool {
        self.latest.wf()
    }

    /// An empty bus: no topic has a message yet.
    pub fn new() -> (r: Self)
        ensures
            r@ == Map::<Seq<char>, ConfigMessage>::empty(),
    {
        ConfigBus { latest: LatestTable::new() }
    }

    /// The message last stored for `event_type`, or `None` where nothing was
    /// ever broadcast on it.
    pub fn get_latest(&self, event_type: &String) -> (r: Option<ConfigMessage>)
        ensures
            r is Some ==> r->Some_0.event_type@ == event_type@,
            r == (if self@.contains_key(event_type@) {
                Some(self@[event_type@])
            } else {
                None::<ConfigMessage>
            }),
    {
        proof {
            use_type_invariant(self);
        }
        self.latest.get(event_type)
    }

    /// Stores the message built from the arguments as the latest on
    /// `event_type`, and returns the copy to be delivered to the subscribers:
    /// the stored message itself.
    pub fn broadcast(
        &mut self,
        event_type: String,
        data: serde_json::Value,
        source_window: String,
        timestamp: u64,
    ) -> (r: ConfigMessage)
        ensures
            r.event_type == event_type,
            r.data == data,
            r.source_window == source_window,
            r.timestamp == timestamp,
            final(self)@ == stored(old(self)@, r),
    {
        let msg = ConfigMessage::new(event_type, data, source_window, timestamp);
        let sent = msg.clone();
        proof {
            use_type_invariant(&*self);
        }
        let mut taken = ConfigBus { latest: LatestTable::new() };
        core::mem::swap(self, &mut taken);
        proof {
            use_type_invariant(&taken);
        }
        let mut latest = taken.latest;
        latest.store(msg);
        *self = ConfigBus { latest };
        sent
    }

    /// `broadcast`, stamped with the wall clock. Where the clock cannot be read
    /// the error is `ClockError` and the table is left as it was.
    pub fn broadcast_now(
        &mut self,
        event_type: String,
        data: serde_json::Value,
        source_window: String,
    ) -> (r: Result<ConfigMessage, BusError>)
        ensures
            match r {
                Ok(msg) => {
                    &&& msg.event_type == event_type
                    &&& msg.data == data
                    &&& msg.source_window == source_window
                    &&& final(self)@ == stored(old(self)@, msg)
                },
                Err(e) => e == BusError::ClockError && final(self)@ == old(self)@,
            },
    {
        match current_timestamp() {
            Ok(timestamp) => Ok(self.broadcast(event_type, data, source_window, timestamp)),
            Err(e) => Err(e),
        }
    }

    /// The message that asks every window to broadcast its current state again:
    /// on the reserved topic, with the payload `{}`, from `requesting_window`.
    /// The table is neither read nor written.
    pub fn request_sync(&self, requesting_window: String, timestamp: u64) -> (r: ConfigMessage)
        ensures
            r.event_type@ == CONFIG_REQUEST_TOPIC@,
            is_empty_object(r.data),
            r.source_window == requesting_window,
            r.timestamp == timestamp,
    {
        ConfigMessage::new(CONFIG_REQUEST_TOPIC.to_owned(), empty_object(), requesting_window, timestamp)
    }

    /// `request_sync`, stamped with the wall clock; `ClockError` where the clock
    /// cannot be read.
    pub fn request_sync_now(&self, requesting_window: String) -> (r: Result<ConfigMessage, BusError>)
        ensures
            match r {
                Ok(msg) => {
                    &&& msg.event_type@ == CONFIG_REQUEST_TOPIC@
                    &&& is_empty_object(msg.data)
                    &&& msg.source_window == requesting_window
                },
                Err(e) => e == BusError::ClockError,
            },
    {
        match current_timestamp() {
            Ok(timestamp) => Ok(self.request_sync(requesting_window, timestamp)),
            Err(e) => Err(e),
        }
    }
}

} // verus!
