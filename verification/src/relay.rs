//! The relay decisions: loop-prevention tagging and forwarding.
//!
//! Each direction writes a sentinel into the reserved field of what it
//! produces: records sent to the log broker carry the key `"BusToLog"`,
//! messages published on the bus carry the back-reference `"LogToBus"`.
//! A direction drops exactly the traffic bearing the peer's sentinel —
//! never its own — so a message can cross the bridge once but can
//! never be echoed back.

use vstd::prelude::*;

use crate::message::{BusMessage, LogRecord, MessageView, RecordView};

verus! {

/// Sentinel written as the key of every record the bus-to-log
/// direction produces.
pub open spec fn bus_to_log_tag() -> Seq<char> {
    "BusToLog"@
}

/// Sentinel written as the back-reference of every message the
/// log-to-bus direction publishes.
pub open spec fn log_to_bus_tag() -> Seq<char> {
    "LogToBus"@
}

/// A bus message is suppressed exactly when its back-reference carries
/// the peer direction's sentinel: it was published by the log-to-bus
/// task and must not cross back into the log.
pub open spec fn suppressed_on_bus(m: MessageView) -> bool {
    m.back_ref matches Some(tag) && tag == log_to_bus_tag()
}

/// A log record is suppressed exactly when its key carries the peer
/// direction's sentinel: it was produced by the bus-to-log task and
/// must not be published back onto the bus.
pub open spec fn suppressed_on_log(r: RecordView) -> bool {
    r.key == bus_to_log_tag()
}

/// The record an unsuppressed bus message is forwarded as: same topic,
/// same payload bytes, this direction's sentinel as the key.
pub open spec fn record_for(m: MessageView) -> RecordView {
    RecordView { topic: m.subject, key: bus_to_log_tag(), value: m.payload }
}

/// The message an unsuppressed log record is published as: same
/// subject, same payload bytes, this direction's sentinel as the
/// back-reference.
pub open spec fn message_for(r: RecordView) -> MessageView {
    MessageView { subject: r.topic, payload: r.value, back_ref: Some(log_to_bus_tag()) }
}

/// What the bus-to-log direction does with one delivered bus message:
/// drop it if the peer produced it, otherwise forward exactly one
/// record.
pub open spec fn bus_to_log_spec(m: MessageView) -> Option<RecordView> {
    if suppressed_on_bus(m) {
        None
    } else {
        Some(record_for(m))
    }
}

/// What the log-to-bus direction does with one polled log record: drop
/// it if the peer produced it, otherwise publish exactly one message.
pub open spec fn log_to_bus_spec(r: RecordView) -> Option<MessageView> {
    if suppressed_on_log(r) {
        None
    } else {
        Some(message_for(r))
    }
}

/// Copies a byte vector; the copy holds exactly the same bytes.
fn clone_bytes(v: &Vec<u8>) -> (r: Vec<u8>)
    ensures
        r@ == v@,
{
    let mut r: Vec<u8> = Vec::new();
    let mut i: usize = 0;
    while i < v.len()
        invariant
            i <= v.len(),
            r@ == v@.subrange(0, i as int),
        decreases v.len() - i,
    {
        r.push(v[i]);
        i = i + 1;
    }
    proof {
        assert(r@ =~= v@);
    }
    r
}

/// Decides one bus-to-log hop: `None` exactly when the message bears
/// the peer's sentinel, otherwise the one record it is forwarded as.
pub fn bus_to_log_step(m: &BusMessage) -> (r: Option<LogRecord>)
    ensures
        r is Some <==> !suppressed_on_bus(m@),
        r matches Some(rec) ==> rec@ == record_for(m@),
{
    let peer_tag: String = "LogToBus".to_owned();
    let suppressed: bool = match &m.back_ref {
        Some(tag) => tag.eq(&peer_tag),
        None => false,
    };
    if suppressed {
        None
    } else {
        Some(
            LogRecord {
                topic: m.subject.clone(),
                key: "BusToLog".to_owned(),
                value: clone_bytes(&m.payload),
            },
        )
    }
}

/// Decides one log-to-bus hop: `None` exactly when the record bears
/// the peer's sentinel, otherwise the one message it is published as.
pub fn log_to_bus_step(r: &LogRecord) -> (m: Option<BusMessage>)
    ensures
        m is Some <==> !suppressed_on_log(r@),
        m matches Some(msg) ==> msg@ == message_for(r@),
{
    let peer_tag: String = "BusToLog".to_owned();
    if r.key.eq(&peer_tag) {
        None
    } else {
        Some(
            BusMessage {
                subject: r.topic.clone(),
                payload: clone_bytes(&r.value),
                back_ref: Some("LogToBus".to_owned()),
            },
        )
    }
}

/// The records a whole sequence of bus messages is forwarded as, in
/// delivery order: suppressed messages contribute nothing, every other
/// message exactly one record.
pub open spec fn forwarded_to_log(ms: Seq<MessageView>) -> Seq<RecordView>
    decreases ms.len(),
{
    if ms.len() == 0 {
        Seq::empty()
    } else if suppressed_on_bus(ms.last()) {
        forwarded_to_log(ms.drop_last())
    } else {
        forwarded_to_log(ms.drop_last()).push(record_for(ms.last()))
    }
}

/// The messages a whole sequence of log records is published as, in
/// poll order: suppressed records contribute nothing, every other
/// record exactly one message.
pub open spec fn forwarded_to_bus(rs: Seq<RecordView>) -> Seq<MessageView>
    decreases rs.len(),
{
    if rs.len() == 0 {
        Seq::empty()
    } else if suppressed_on_log(rs.last()) {
        forwarded_to_bus(rs.drop_last())
    } else {
        forwarded_to_bus(rs.drop_last()).push(message_for(rs.last()))
    }
}

/// Relays one delivered batch of bus messages: the records to send to
/// the log broker, in the order the bus delivered their sources.
pub fn relay_bus_messages(ms: &Vec<BusMessage>) -> (out: Vec<LogRecord>)
    ensures
        out@.map_values(|r: LogRecord| r@) == forwarded_to_log(ms@.map_values(|m: BusMessage| m@)),
{
    let ghost all: Seq<MessageView> = ms@.map_values(|m: BusMessage| m@);
    let mut out: Vec<LogRecord> = Vec::new();
    let mut i: usize = 0;
    while i < ms.len()
        invariant
            i <= ms.len(),
            all == ms@.map_values(|m: BusMessage| m@),
            out@.map_values(|r: LogRecord| r@) == forwarded_to_log(all.subrange(0, i as int)),
        decreases ms.len() - i,
    {
        let ghost prefix: Seq<MessageView> = all.subrange(0, i as int);
        let ghost next: Seq<MessageView> = all.subrange(0, i + 1 as int);
        proof {
            assert(next.drop_last() =~= prefix);
            assert(next.last() == all[i as int]);
        }
        match bus_to_log_step(&ms[i]) {
            Some(rec) => {
                let ghost before: Seq<RecordView> = out@.map_values(|r: LogRecord| r@);
                out.push(rec);
                proof {
                    assert(out@.map_values(|r: LogRecord| r@) =~= before.push(rec@));
                }
            },
            None => {},
        }
        i = i + 1;
    }
    proof {
        assert(all.subrange(0, ms.len() as int) =~= all);
    }
    out
}

/// Relays one polled batch of log records: the messages to publish on
/// the bus, in the order the poll delivered their sources.
pub fn relay_log_records(rs: &Vec<LogRecord>) -> (out: Vec<BusMessage>)
    ensures
        out@.map_values(|m: BusMessage| m@) == forwarded_to_bus(rs@.map_values(|r: LogRecord| r@)),
{
    let ghost all: Seq<RecordView> = rs@.map_values(|r: LogRecord| r@);
    let mut out: Vec<BusMessage> = Vec::new();
    let mut i: usize = 0;
    while i < rs.len()
        invariant
            i <= rs.len(),
            all == rs@.map_values(|r: LogRecord| r@),
            out@.map_values(|m: BusMessage| m@) == forwarded_to_bus(all.subrange(0, i as int)),
        decreases rs.len() - i,
    {
        let ghost prefix: Seq<RecordView> = all.subrange(0, i as int);
        let ghost next: Seq<RecordView> = all.subrange(0, i + 1 as int);
        proof {
            assert(next.drop_last() =~= prefix);
            assert(next.last() == all[i as int]);
        }
        match log_to_bus_step(&rs[i]) {
            Some(msg) => {
                let ghost before: Seq<MessageView> = out@.map_values(|m: BusMessage| m@);
                out.push(msg);
                proof {
                    assert(out@.map_values(|m: BusMessage| m@) =~= before.push(msg@));
                }
            },
            None => {},
        }
        i = i + 1;
    }
    proof {
        assert(all.subrange(0, rs.len() as int) =~= all);
    }
    out
}

} // verus!
