//! What the transport hands over, and the ways in which a message can break the
//! protocol.

use vstd::prelude::*;
use vstd::string::*;
use crate::text::lossy_text;

verus! {

/// An event of the transport, as far as this library looks at it.
#[derive(Debug, PartialEq, Eq)]
pub enum Inbound {
    /// A message that was published on `topic`.
    Publish { topic: String, payload: Vec<u8> },
    /// Anything else that the transport reports.
    Other,
}

/// An [`Inbound`] as the rules see it: a payload stands for its text, decoded lossily.
pub enum InboundModel {
    Publish { topic: Seq<char>, text: Seq<char> },
    Other,
}

impl View for Inbound {
    type V = InboundModel;

    open spec fn view(&self) -> InboundModel {
        match *self {
            Inbound::Publish { topic, payload } => InboundModel::Publish {
                topic: topic@,
                text: lossy_text(payload@),
            },
            Inbound::Other => InboundModel::Other,
        }
    }
}

/// How hard the transport tries to deliver a message.
#[derive(Clone, Copy, Debug, PartialEq, Eq, Structural)]
pub enum Delivery {
    /// The message is sent once and may be lost.
    AtMostOnce,
    /// The message is sent until it is acknowledged and may arrive twice.
    AtLeastOnce,
    /// The message arrives once.
    ExactlyOnce,
}

/// A subscription to ask of the transport.
#[derive(Debug, PartialEq, Eq)]
pub struct Subscription {
    /// The topic, or the filter with a wildcard, to subscribe to.
    pub topic: String,
    /// How hard the transport is to try. A lost heartbeat or log line delays what the
    /// operator sees and corrupts nothing, so every subscription of this library asks
    /// for delivery at most once.
    pub delivery: Delivery,
}

/// A [`Subscription`] as plain values.
pub struct SubscriptionModel {
    pub topic: Seq<char>,
    pub delivery: Delivery,
}

impl View for Subscription {
    type V = SubscriptionModel;

    open spec fn view(&self) -> SubscriptionModel {
        SubscriptionModel { topic: self.topic@, delivery: self.delivery }
    }
}

/// The subscription to `topic` with delivery at most once.
pub open spec fn subscription_to(topic: Seq<char>) -> SubscriptionModel {
    SubscriptionModel { topic, delivery: Delivery::AtMostOnce }
}

impl Subscription {
    /// The subscription to `topic` with delivery at most once.
    pub fn to(topic: String) -> (subscription: Self)
        ensures
            subscription@ == subscription_to(topic@),
    {
        Subscription { topic, delivery: Delivery::AtMostOnce }
    }
}

/// A message that breaks the protocol. Each is fatal to the activity that meets it.
#[derive(Debug, PartialEq, Eq)]
pub enum ProtocolViolation {
    /// A heartbeat came on a topic that has no second segment to name the device.
    TopicWithoutDevice { topic: String },
    /// The payload of a heartbeat is not an unsigned number that fits in 32 bits.
    UptimeNotANumber { payload: String },
    /// A response carries the marker but not the bracket that ends its header.
    WrongResponseFormat { response: String },
}

/// A [`ProtocolViolation`] as plain values.
pub enum ViolationModel {
    TopicWithoutDevice { topic: Seq<char> },
    UptimeNotANumber { payload: Seq<char> },
    WrongResponseFormat { response: Seq<char> },
}

impl View for ProtocolViolation {
    type V = ViolationModel;

    open spec fn view(&self) -> ViolationModel {
        match *self {
            ProtocolViolation::TopicWithoutDevice { topic } => ViolationModel::TopicWithoutDevice {
                topic: topic@,
            },
            ProtocolViolation::UptimeNotANumber { payload } => ViolationModel::UptimeNotANumber {
                payload: payload@,
            },
            ProtocolViolation::WrongResponseFormat {
                response,
            } => ViolationModel::WrongResponseFormat { response: response@ },
        }
    }
}

/// The message that tells the operator of a violation: what is wrong, then the text
/// that is wrong.
pub open spec fn description(violation: ViolationModel) -> Seq<char> {
    match violation {
        ViolationModel::TopicWithoutDevice { topic } => "Topic names no device: "@ + topic,
        ViolationModel::UptimeNotANumber { payload } => "Uptime is not a number: "@ + payload,
        ViolationModel::WrongResponseFormat { response } => "Wrong response format: "@ + response,
    }
}

impl ProtocolViolation {
    /// The message that tells the operator of this violation.
    pub fn describe(&self) -> (message: String)
        ensures
            message@ == description(self@),
    {
        match self {
            ProtocolViolation::TopicWithoutDevice { topic } => {
                let mut message = "Topic names no device: ".to_owned();
                message.append(topic.as_str());
                message
            },
            ProtocolViolation::UptimeNotANumber { payload } => {
                let mut message = "Uptime is not a number: ".to_owned();
                message.append(payload.as_str());
                message
            },
            ProtocolViolation::WrongResponseFormat { response } => {
                let mut message = "Wrong response format: ".to_owned();
                message.append(response.as_str());
                message
            },
        }
    }
}

} // verus!
