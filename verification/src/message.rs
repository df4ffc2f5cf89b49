//! The two transient value shapes the relay moves between brokers.
//!
//! A bus message carries a subject, a payload and an optional
//! back-reference field; a log record carries a topic, a key and a
//! value. Neither is ever persisted by the bridge. Each has a ghost
//! view over character and byte sequences, which the relay contracts
//! are stated over.

use vstd::prelude::*;

verus! {

/// A message as the subject-addressed bus delivers or accepts it.
#[derive(Clone)]
pub struct BusMessage {
    pub subject: String,
    pub payload: Vec<u8>,
    /// Reserved correlation field; the bridge writes its sentinel here.
    pub back_ref: Option<String>,
}

/// A record as the log broker delivers or accepts it.
#[derive(Clone)]
pub struct LogRecord {
    pub topic: String,
    pub key: String,
    pub value: Vec<u8>,
}

/// Mathematical image of a [`BusMessage`].
#[verifier::ext_equal]
pub struct MessageView {
    pub subject: Seq<char>,
    pub payload: Seq<u8>,
    pub back_ref: Option<Seq<char>>,
}

/// Mathematical image of a [`LogRecord`].
#[verifier::ext_equal]
pub struct RecordView {
    pub topic: Seq<char>,
    pub key: Seq<char>,
    pub value: Seq<u8>,
}

impl View for BusMessage {
    type V = MessageView;

    open spec fn view(&self) -> MessageView {
        MessageView {
            subject: self.subject@,
            payload: self.payload@,
            back_ref: match self.back_ref {
                Some(tag) => Some(tag@),
                None => None,
            },
        }
    }
}

impl View for LogRecord {
    type V = RecordView;

    open spec fn view(&self) -> RecordView {
        RecordView { topic: self.topic@, key: self.key@, value: self.value@ }
    }
}

} // verus!
