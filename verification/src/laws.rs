//! Laws the relay obeys, stated over the relay's own specification
//! functions and proved once for all inputs.

use vstd::prelude::*;

use crate::message::{MessageView, RecordView};
use crate::relay::{
    bus_to_log_spec, bus_to_log_tag, forwarded_to_bus, forwarded_to_log, log_to_bus_spec,
    log_to_bus_tag, message_for, record_for, suppressed_on_bus, suppressed_on_log,
};

verus! {

/// Loop prevention, log side: a record the bus-to-log direction
/// produced is never published back onto the bus — the log-to-bus
/// direction drops every record that forwarding a bus message can
/// yield.
pub proof fn lemma_loop_prevention_log_side(m: MessageView)
    ensures
        bus_to_log_spec(m) matches Some(r) ==> log_to_bus_spec(r) is None,
{
}

/// Loop prevention, bus side: a message the log-to-bus direction
/// published is never forwarded back into the log — the bus-to-log
/// direction drops every message that publishing a log record can
/// yield.
pub proof fn lemma_loop_prevention_bus_side(r: RecordView)
    ensures
        log_to_bus_spec(r) matches Some(m) ==> bus_to_log_spec(m) is None,
{
}

/// The two sentinels are distinct, and a direction drops only the
/// peer's traffic, never its own: a bus message whose back-reference
/// carries the bus-to-log sentinel is still forwarded, and a record
/// whose key carries the log-to-bus sentinel is still published.
pub proof fn lemma_own_tag_never_suppressed(m: MessageView, r: RecordView)
    ensures
        bus_to_log_tag() != log_to_bus_tag(),
        m.back_ref == Some(bus_to_log_tag()) ==> !suppressed_on_bus(m),
        r.key == log_to_bus_tag() ==> !suppressed_on_log(r),
{
    reveal_strlit("BusToLog");
    reveal_strlit("LogToBus");
    assert(bus_to_log_tag()[0] != log_to_bus_tag()[0]);
}

/// Forwarding fidelity: an unsuppressed bus message yields exactly one
/// log record, with the message's own subject as its topic and the
/// message's own payload as its value.
pub proof fn lemma_forwarding_fidelity(m: MessageView)
    ensures
        !suppressed_on_bus(m) ==> bus_to_log_spec(m) == Some(record_for(m)),
        record_for(m).topic == m.subject,
        record_for(m).value == m.payload,
{
}

/// Payload preservation: tagging never mutates payload bytes — across
/// either forward hop the bytes that come out are the bytes that went
/// in.
pub proof fn lemma_payload_preservation(m: MessageView, r: RecordView)
    ensures
        bus_to_log_spec(m) matches Some(rec) ==> rec.value == m.payload,
        log_to_bus_spec(r) matches Some(msg) ==> msg.payload == r.value,
{
}

/// Forwarding distributes over batch concatenation: relaying two
/// polled batches one after the other publishes exactly what relaying
/// their concatenation would.
pub proof fn lemma_forwarded_to_bus_append(a: Seq<RecordView>, b: Seq<RecordView>)
    ensures
        forwarded_to_bus(a + b) == forwarded_to_bus(a) + forwarded_to_bus(b),
    decreases b.len(),
{
    if b.len() == 0 {
        assert(a + b =~= a);
        assert(forwarded_to_bus(a) + forwarded_to_bus(b) =~= forwarded_to_bus(a));
    } else {
        lemma_forwarded_to_bus_append(a, b.drop_last());
        assert((a + b).drop_last() =~= a + b.drop_last());
        assert((a + b).last() == b.last());
        if suppressed_on_log(b.last()) {
            assert(forwarded_to_bus(a) + forwarded_to_bus(b) =~= forwarded_to_bus(
                a,
            ) + forwarded_to_bus(b.drop_last()));
        } else {
            assert(forwarded_to_bus(a) + forwarded_to_bus(b) =~= (forwarded_to_bus(a)
                + forwarded_to_bus(b.drop_last())).push(message_for(b.last())));
        }
    }
}

/// The same for the other direction: relaying the bus stream message
/// by message, as the subscription delivers it, sends exactly what
/// relaying the whole delivery at once would — forwarding strictly
/// preserves delivery order.
pub proof fn lemma_forwarded_to_log_append(a: Seq<MessageView>, b: Seq<MessageView>)
    ensures
        forwarded_to_log(a + b) == forwarded_to_log(a) + forwarded_to_log(b),
    decreases b.len(),
{
    if b.len() == 0 {
        assert(a + b =~= a);
        assert(forwarded_to_log(a) + forwarded_to_log(b) =~= forwarded_to_log(a));
    } else {
        lemma_forwarded_to_log_append(a, b.drop_last());
        assert((a + b).drop_last() =~= a + b.drop_last());
        assert((a + b).last() == b.last());
        if suppressed_on_bus(b.last()) {
            assert(forwarded_to_log(a) + forwarded_to_log(b) =~= forwarded_to_log(
                a,
            ) + forwarded_to_log(b.drop_last()));
        } else {
            assert(forwarded_to_log(a) + forwarded_to_log(b) =~= (forwarded_to_log(a)
                + forwarded_to_log(b.drop_last())).push(record_for(b.last())));
        }
    }
}

/// Everything the log-to-bus direction publishes over a run that
/// crashed after locally consuming the records up to `crashed_at` but
/// before committing, and then restarted: the crashed attempt's
/// publishes followed by a fresh pass over everything after the last
/// committed offset, which the broker re-delivers.
pub open spec fn replay_after_crash(
    log: Seq<RecordView>,
    committed: int,
    crashed_at: int,
) -> Seq<MessageView>
    recommends
        0 <= committed <= crashed_at <= log.len(),
{
    forwarded_to_bus(log.subrange(committed, crashed_at)) + forwarded_to_bus(
        log.subrange(committed, log.len() as int),
    )
}

/// At-least-once under crash: a crash between local consumption and
/// commit re-delivers the span between the committed offset and the
/// crash point, so that span is published exactly twice and every
/// later record exactly once — duplicates, but no loss.
pub proof fn lemma_at_least_once_under_crash(log: Seq<RecordView>, committed: int, crashed_at: int)
    requires
        0 <= committed <= crashed_at <= log.len(),
    ensures
        replay_after_crash(log, committed, crashed_at) == forwarded_to_bus(
            log.subrange(committed, crashed_at),
        ) + forwarded_to_bus(log.subrange(committed, crashed_at)) + forwarded_to_bus(
            log.subrange(crashed_at, log.len() as int),
        ),
{
    assert(log.subrange(committed, log.len() as int) =~= log.subrange(committed, crashed_at)
        + log.subrange(crashed_at, log.len() as int));
    lemma_forwarded_to_bus_append(
        log.subrange(committed, crashed_at),
        log.subrange(crashed_at, log.len() as int),
    );
}

} // verus!
