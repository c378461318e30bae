//! The log tailer: every line that one device publishes on its log topic is handed
//! on to the operator, for as long as the transport delivers.

use vstd::prelude::*;
use crate::message::{subscription_to, Inbound, InboundModel, Subscription};
use crate::text::decode_lossy;
use crate::topic::{log_topic, log_topic_of};

verus! {

/// What the tailer hands on for an event of the transport: the text of a message
/// that was published on the device's log topic, and nothing for anything else.
pub open spec fn tail_step(log_topic: Seq<char>, inbound: InboundModel) -> Option<Seq<char>> {
    match inbound {
        InboundModel::Publish { topic, text } => if topic == log_topic {
            Some(text)
        } else {
            None
        },
        InboundModel::Other => None,
    }
}

/// The tail of one device's log.
pub struct LogTailer {
    topic: String,
}

impl View for LogTailer {
    type V = Seq<char>;

    /// The log topic that is tailed.
    closed spec fn view(&self) -> Seq<char> {
        self.topic@
    }
}

impl LogTailer {
    /// The tail of the log of `device` under the root topic `root`.
    pub fn new(root: &str, device: &str) -> (tailer: Self)
        ensures
            tailer@ == log_topic_of(root@, device@),
    {
        LogTailer { topic: log_topic(root, device) }
    }

    /// The topic to subscribe to.
    pub fn topic(&self) -> (topic: &str)
        ensures
            topic@ == self@,
    {
        self.topic.as_str()
    }

    /// The subscription by which the tailer gets the device's log.
    pub fn subscription(&self) -> (subscription: Subscription)
        ensures
            subscription@ == subscription_to(self@),
    {
        Subscription::to(self.topic.clone())
    }

    /// The line to hand on to the operator for an event of the transport, where there
    /// is one. A payload that is not valid UTF-8 is decoded lossily, never refused.
    pub fn on_inbound(&self, inbound: &Inbound) -> (line: Option<String>)
        ensures
            (match line {
                Some(text) => tail_step(self@, inbound@) == Some(text@),
                None => tail_step(self@, inbound@) is None,
            }),
    {
        match inbound {
            Inbound::Publish { topic, payload } => {
                if *topic == self.topic {
                    Some(decode_lossy(payload.as_slice()))
                } else {
                    None
                }
            },
            Inbound::Other => None,
        }
    }
}

} // verus!
