//! The interactive session with one device: a listener that picks the responses to
//! commands out of the device's log, and a prompt that sends what the operator types.
//!
//! Both activities decide here and act in the caller: the listener hands over each
//! message and shows what comes back, the prompt hands over each line and sends,
//! hints and waits as it is told.

use vstd::prelude::*;
use vstd::string::*;
use crate::message::{
    subscription_to, Delivery, Inbound, InboundModel, ProtocolViolation, Subscription,
    ViolationModel,
};
use crate::text::{
    after_first, contains, decode_lossy, eq_ignore_ascii_case, eq_ignoring_ascii_case, occurs_in,
    split_once, trim, trimmed,
};
use crate::topic::{command_topic, command_topic_of, log_topic, log_topic_of};

verus! {

/// How long the prompt waits after a command that is not empty, in milliseconds, so
/// that the device's response is likely to be shown before the next prompt.
pub const PACING_DELAY_MS: u64 = 500;

/// The bracket that ends the header of a response.
pub const HEADER_END: char = ']';

/// `RESPONSE`, the marker that tells a response to a command from a log line.
pub open spec fn response_marker() -> Seq<char> {
    seq!['R', 'E', 'S', 'P', 'O', 'N', 'S', 'E']
}

/// `exit`, the word that ends the session.
pub open spec fn exit_word() -> Seq<char> {
    seq!['e', 'x', 'i', 't']
}

/// `help`, the word that is answered with a hint besides being sent.
pub open spec fn help_word() -> Seq<char> {
    seq!['h', 'e', 'l', 'p']
}

/// ` > `, what follows the device's identifier in the prompt.
pub open spec fn prompt_suffix() -> Seq<char> {
    seq![' ', '>', ' ']
}

/// What the listener does with a message.
#[derive(Debug, PartialEq, Eq)]
pub enum ListenerAction {
    /// A log line that is no response: nothing is shown.
    Ignore,
    /// A response: its body is shown.
    Show { body: String },
    /// A response without the bracket that ends its header: the session fails.
    Abort(ProtocolViolation),
}

/// A [`ListenerAction`] as plain values.
pub enum ListenerActionModel {
    Ignore,
    Show { body: Seq<char> },
    Abort(ViolationModel),
}

impl View for ListenerAction {
    type V = ListenerActionModel;

    open spec fn view(&self) -> ListenerActionModel {
        match *self {
            ListenerAction::Ignore => ListenerActionModel::Ignore,
            ListenerAction::Show { body } => ListenerActionModel::Show { body: body@ },
            ListenerAction::Abort(violation) => ListenerActionModel::Abort(violation@),
        }
    }
}

/// What the listener does with the text of a message: a text without the marker is
/// ignored; of a text with the marker, what follows the first closing bracket is
/// shown; a text with the marker and no closing bracket is a violation.
pub open spec fn listener_step(text: Seq<char>) -> ListenerActionModel {
    if !occurs_in(response_marker(), text) {
        ListenerActionModel::Ignore
    } else {
        match after_first(text, ']') {
            Some(body) => ListenerActionModel::Show { body },
            None => ListenerActionModel::Abort(
                ViolationModel::WrongResponseFormat { response: text },
            ),
        }
    }
}

/// What the listener does with an event of the transport.
pub open spec fn listener_step_inbound(inbound: InboundModel) -> ListenerActionModel {
    match inbound {
        InboundModel::Publish { topic, text } => listener_step(text),
        InboundModel::Other => ListenerActionModel::Ignore,
    }
}

/// A command for the device, and what the prompt does around sending it.
#[derive(Debug, PartialEq, Eq)]
pub struct Command {
    /// The topic to publish on.
    pub topic: String,
    /// The payload: the operator's line without the whitespace around it.
    pub payload: String,
    /// How hard the transport is to try to deliver the command.
    pub delivery: Delivery,
    /// Whether the broker is to keep the command for later subscribers.
    pub retain: bool,
    /// Whether to tell the operator how to ask the device for its list of commands.
    pub show_hint: bool,
    /// How long to wait before the next prompt, in milliseconds.
    pub pause_ms: u64,
}

/// A [`Command`] as plain values.
pub struct CommandModel {
    pub topic: Seq<char>,
    pub payload: Seq<char>,
    pub delivery: Delivery,
    pub retain: bool,
    pub show_hint: bool,
    pub pause_ms: u64,
}

impl View for Command {
    type V = CommandModel;

    open spec fn view(&self) -> CommandModel {
        CommandModel {
            topic: self.topic@,
            payload: self.payload@,
            delivery: self.delivery,
            retain: self.retain,
            show_hint: self.show_hint,
            pause_ms: self.pause_ms,
        }
    }
}

/// What the operator's terminal gave the prompt.
#[derive(Debug, PartialEq, Eq)]
pub enum PromptInput {
    /// A line, without the line break that ended it.
    Line(String),
    /// Reading failed.
    Failed,
    /// There is no more input.
    Ended,
}

/// A [`PromptInput`] as plain values.
pub enum PromptInputModel {
    Line(Seq<char>),
    Failed,
    Ended,
}

impl View for PromptInput {
    type V = PromptInputModel;

    open spec fn view(&self) -> PromptInputModel {
        match *self {
            PromptInput::Line(line) => PromptInputModel::Line(line@),
            PromptInput::Failed => PromptInputModel::Failed,
            PromptInput::Ended => PromptInputModel::Ended,
        }
    }
}

/// What the prompt does with a line.
#[derive(Debug, PartialEq, Eq)]
pub enum PromptAction {
    /// End the session.
    Exit,
    /// Publish the command, then hint and wait as it says, then prompt again.
    Send(Command),
}

/// A [`PromptAction`] as plain values.
pub enum PromptActionModel {
    Exit,
    Send(CommandModel),
}

impl View for PromptAction {
    type V = PromptActionModel;

    open spec fn view(&self) -> PromptActionModel {
        match *self {
            PromptAction::Exit => PromptActionModel::Exit,
            PromptAction::Send(command) => PromptActionModel::Send(command@),
        }
    }
}

/// What the prompt does with a line: the line is taken without the whitespace around
/// it. `exit`, in any case of its letters, ends the session. Anything else is sent
/// as it is, the empty line too; `help`, in any case of its letters, is sent with a
/// hint; after a command that is not empty the prompt waits. A command is delivered
/// at most once and not retained.
pub open spec fn prompt_step(command_topic: Seq<char>, line: Seq<char>) -> PromptActionModel {
    let command = trimmed(line);
    if eq_ignoring_ascii_case(command, exit_word()) {
        PromptActionModel::Exit
    } else {
        PromptActionModel::Send(
            CommandModel {
                topic: command_topic,
                payload: command,
                delivery: Delivery::AtMostOnce,
                retain: false,
                show_hint: eq_ignoring_ascii_case(command, help_word()),
                pause_ms: if command.len() > 0 {
                    PACING_DELAY_MS
                } else {
                    0
                },
            },
        )
    }
}

/// What the prompt does with what the terminal gave it: a line is taken as
/// `prompt_step` says; a failure and the end of the input end the session.
pub open spec fn prompt_step_input(
    command_topic: Seq<char>,
    input: PromptInputModel,
) -> PromptActionModel {
    match input {
        PromptInputModel::Line(line) => prompt_step(command_topic, line),
        PromptInputModel::Failed => PromptActionModel::Exit,
        PromptInputModel::Ended => PromptActionModel::Exit,
    }
}

/// Decides what the listener does with the text of a message.
pub fn on_log_text(text: &str) -> (action: ListenerAction)
    ensures
        action@ == listener_step(text@),
{
    proof {
        reveal_strlit("RESPONSE");
    }
    assert("RESPONSE"@ =~= response_marker());
    if !contains(text, "RESPONSE") {
        return ListenerAction::Ignore;
    }
    match split_once(text, HEADER_END) {
        Some((_, body)) => ListenerAction::Show { body: body.to_owned() },
        None => ListenerAction::Abort(
            ProtocolViolation::WrongResponseFormat { response: text.to_owned() },
        ),
    }
}

/// A session with one device as plain values: the device's identifier and the two
/// topics of the session.
pub struct SessionModel {
    pub device: Seq<char>,
    pub log_topic: Seq<char>,
    pub command_topic: Seq<char>,
}

/// The session with `device` under `root`.
pub open spec fn session_of(root: Seq<char>, device: Seq<char>) -> SessionModel {
    SessionModel {
        device,
        log_topic: log_topic_of(root, device),
        command_topic: command_topic_of(root, device),
    }
}

/// An interactive session with one device.
pub struct InteractiveSession {
    device: String,
    log_topic: String,
    command_topic: String,
}

impl View for InteractiveSession {
    type V = SessionModel;

    closed spec fn view(&self) -> SessionModel {
        SessionModel {
            device: self.device@,
            log_topic: self.log_topic@,
            command_topic: self.command_topic@,
        }
    }
}

impl InteractiveSession {
    /// The session with `device` under the root topic `root`.
    pub fn new(root: &str, device: &str) -> (session: Self)
        ensures
            session@ == session_of(root@, device@),
    {
        InteractiveSession {
            device: device.to_owned(),
            log_topic: log_topic(root, device),
            command_topic: command_topic(root, device),
        }
    }

    /// The topic to subscribe to for the device's responses.
    pub fn log_topic(&self) -> (topic: &str)
        ensures
            topic@ == self@.log_topic,
    {
        self.log_topic.as_str()
    }

    /// The subscription by which the listener gets the device's responses.
    pub fn subscription(&self) -> (subscription: Subscription)
        ensures
            subscription@ == subscription_to(self@.log_topic),
    {
        Subscription::to(self.log_topic.clone())
    }

    /// The topic on which commands are published.
    pub fn command_topic(&self) -> (topic: &str)
        ensures
            topic@ == self@.command_topic,
    {
        self.command_topic.as_str()
    }

    /// The prompt: the device's identifier, then ` > `.
    pub fn prompt(&self) -> (prompt: String)
        ensures
            prompt@ == self@.device + prompt_suffix(),
    {
        proof {
            reveal_strlit(" > ");
        }
        assert(" > "@ =~= prompt_suffix());
        let mut prompt = self.device.clone();
        prompt.append(" > ");
        prompt
    }

    /// Decides what the listener does with an event of the transport.
    pub fn on_inbound(&self, inbound: &Inbound) -> (action: ListenerAction)
        ensures
            action@ == listener_step_inbound(inbound@),
    {
        match inbound {
            Inbound::Publish { topic, payload } => {
                let text = decode_lossy(payload.as_slice());
                on_log_text(text.as_str())
            },
            Inbound::Other => ListenerAction::Ignore,
        }
    }

    /// Decides what the prompt does with a line that the operator entered.
    pub fn on_line(&self, line: &str) -> (action: PromptAction)
        ensures
            action@ == prompt_step(self@.command_topic, line@),
    {
        proof {
            reveal_strlit("exit");
            reveal_strlit("help");
        }
        assert("exit"@ =~= exit_word());
        assert("help"@ =~= help_word());
        let command = trim(line);
        if eq_ignore_ascii_case(command, "exit") {
            return PromptAction::Exit;
        }
        let show_hint = eq_ignore_ascii_case(command, "help");
        let pause_ms: u64 = if command.is_empty() {
            0
        } else {
            PACING_DELAY_MS
        };
        PromptAction::Send(
            Command {
                topic: self.command_topic.clone(),
                payload: command.to_owned(),
                delivery: Delivery::AtMostOnce,
                retain: false,
                show_hint,
                pause_ms,
            },
        )
    }

    /// Decides what the prompt does with what the terminal gave it.
    pub fn on_input(&self, input: &PromptInput) -> (action: PromptAction)
        ensures
            action@ == prompt_step_input(self@.command_topic, input@),
    {
        match input {
            PromptInput::Line(line) => self.on_line(line.as_str()),
            PromptInput::Failed => PromptAction::Exit,
            PromptInput::Ended => PromptAction::Exit,
        }
    }
}

} // verus!
