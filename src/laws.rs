//! What holds of the table over any run of broadcasts.
use vstd::prelude::*;

use crate::bus::stored;
use crate::message::ConfigMessage;

verus! {

/// The table after the messages of `msgs` were broadcast in order, starting
/// from `table`.
pub open spec fn after_all(table: Map<Seq<char>, ConfigMessage>, msgs: Seq<ConfigMessage>) -> Map<
    Seq<char>,
    ConfigMessage,
>
    decreases msgs.len(),
{
    if msgs.len() == 0 {
        table
    } else {
        stored(after_all(table, msgs.drop_last()), msgs.last())
    }
}

/// A topic on which nothing was ever broadcast has no message: starting from
/// an empty bus, no run of broadcasts on other topics gives `topic` an entry.
pub proof fn lemma_never_broadcast_absent(msgs: Seq<ConfigMessage>, topic: Seq<char>)
    requires
        forall|i: int| 0 <= i < msgs.len() ==> (#[trigger] msgs[i]).event_type@ != topic,
    ensures
        !after_all(Map::empty(), msgs).contains_key(topic),
    decreases msgs.len(),
{
    if msgs.len() > 0 {
        let rest = msgs.drop_last();
        assert forall|i: int| 0 <= i < rest.len() implies (#[trigger] rest[i]).event_type@ != topic by {
            assert(rest[i] == msgs[i]);
        }
        lemma_never_broadcast_absent(rest, topic);
    }
}

/// After any run of broadcasts whose last one is on `topic`, the message held
/// for `topic` is exactly that last one: its payload, source and timestamp.
/// Where the clock readings did not go backwards over the run, its timestamp is
/// at least that of every earlier broadcast on `topic`.
pub proof fn lemma_last_broadcast_wins(
    table: Map<Seq<char>, ConfigMessage>,
    msgs: Seq<ConfigMessage>,
    topic: Seq<char>,
)
    requires
        msgs.len() > 0,
        msgs.last().event_type@ == topic,
    ensures
        after_all(table, msgs).contains_key(topic),
        after_all(table, msgs)[topic] == msgs.last(),
        (forall|i: int, j: int| 0 <= i <= j < msgs.len() ==> msgs[i].timestamp <= msgs[j].timestamp)
            ==> forall|i: int|
            0 <= i < msgs.len() && (#[trigger] msgs[i]).event_type@ == topic ==> msgs[i].timestamp
                <= after_all(table, msgs)[topic].timestamp,
{
}

/// Broadcasting on one topic leaves the entry of every other topic as it was,
/// present or absent.
pub proof fn lemma_other_topic_unaffected(
    table: Map<Seq<char>, ConfigMessage>,
    msg: ConfigMessage,
    other: Seq<char>,
)
    requires
        msg.event_type@ != other,
    ensures
        stored(table, msg).contains_key(other) == table.contains_key(other),
        table.contains_key(other) ==> stored(table, msg)[other] == table[other],
{
}

/// Broadcasts on one topic, taken in one at a time in whatever order the lock
/// let them through, leave exactly one of their messages, whole, as the
/// topic's latest.
pub proof fn lemma_racing_broadcasts_keep_one(
    table: Map<Seq<char>, ConfigMessage>,
    msgs: Seq<ConfigMessage>,
    topic: Seq<char>,
)
    requires
        msgs.len() > 0,
        forall|i: int| 0 <= i < msgs.len() ==> (#[trigger] msgs[i]).event_type@ == topic,
    ensures
        after_all(table, msgs).contains_key(topic),
        exists|i: int| 0 <= i < msgs.len() && after_all(table, msgs)[topic] == #[trigger] msgs[i],
{
    lemma_last_broadcast_wins(table, msgs, topic);
    assert(after_all(table, msgs)[topic] == msgs[msgs.len() - 1]);
}

} // verus!
