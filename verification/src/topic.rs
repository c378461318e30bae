//! The topic scheme: where a device publishes its heartbeat and its log, and where it
//! listens for commands, each derived from the root topic and the device's identifier.

use vstd::prelude::*;
use vstd::string::*;
use crate::text::{after_first, lemma_first_index, lemma_first_index_of_concat, split_once, until_first};

verus! {

/// The separator between the segments of a topic.
pub const SEPARATOR: char = '/';

/// `/+/heartbeat`: any device, then the heartbeat segment.
pub open spec fn heartbeat_suffix() -> Seq<char> {
    seq!['/', '+', '/', 'h', 'e', 'a', 'r', 't', 'b', 'e', 'a', 't']
}

/// `/heartbeat`, the last segment of a device's heartbeat topic.
pub open spec fn heartbeat_segment() -> Seq<char> {
    seq!['/', 'h', 'e', 'a', 'r', 't', 'b', 'e', 'a', 't']
}

/// `/log`, the last segment of a device's log topic.
pub open spec fn log_segment() -> Seq<char> {
    seq!['/', 'l', 'o', 'g']
}

/// `/command`, the last segment of a device's command topic.
pub open spec fn command_segment() -> Seq<char> {
    seq!['/', 'c', 'o', 'm', 'm', 'a', 'n', 'd']
}

/// The filter that matches the heartbeat topic of every device under `root`.
pub open spec fn heartbeat_filter(root: Seq<char>) -> Seq<char> {
    root + heartbeat_suffix()
}

/// The topic on which `device` publishes its heartbeat.
pub open spec fn heartbeat_topic_of(root: Seq<char>, device: Seq<char>) -> Seq<char> {
    root + seq!['/'] + device + heartbeat_segment()
}

/// The topic on which `device` publishes its log.
pub open spec fn log_topic_of(root: Seq<char>, device: Seq<char>) -> Seq<char> {
    root + seq!['/'] + device + log_segment()
}

/// The topic on which `device` takes commands.
pub open spec fn command_topic_of(root: Seq<char>, device: Seq<char>) -> Seq<char> {
    root + seq!['/'] + device + command_segment()
}

/// The second segment of `topic`, where it has one: what stands between the first
/// separator and the next one, or the end.
pub open spec fn device_segment(topic: Seq<char>) -> Option<Seq<char>> {
    match after_first(topic, '/') {
        Some(rest) => Some(until_first(rest, '/')),
        None => None,
    }
}

/// The wildcard topic to subscribe to for the heartbeats of all devices under `root`.
pub fn heartbeat_topic(root: &str) -> (topic: String)
    ensures
        topic@ == heartbeat_filter(root@),
{
    proof {
        reveal_strlit("/+/heartbeat");
    }
    let mut topic = root.to_owned();
    topic.append("/+/heartbeat");
    assert("/+/heartbeat"@ =~= heartbeat_suffix());
    topic
}

/// The topic on which `device` publishes its log lines and its command responses.
pub fn log_topic(root: &str, device: &str) -> (topic: String)
    ensures
        topic@ == log_topic_of(root@, device@),
{
    proof {
        reveal_strlit("/");
        reveal_strlit("/log");
    }
    let mut topic = root.to_owned();
    topic.append("/");
    topic.append(device);
    topic.append("/log");
    assert("/"@ =~= seq!['/']);
    assert("/log"@ =~= log_segment());
    topic
}

/// The topic on which `device` takes commands.
pub fn command_topic(root: &str, device: &str) -> (topic: String)
    ensures
        topic@ == command_topic_of(root@, device@),
{
    proof {
        reveal_strlit("/");
        reveal_strlit("/command");
    }
    let mut topic = root.to_owned();
    topic.append("/");
    topic.append(device);
    topic.append("/command");
    assert("/"@ =~= seq!['/']);
    assert("/command"@ =~= command_segment());
    topic
}

/// The identifier of the device that published on `topic`: its second segment.
/// `None` where `topic` has a single segment.
pub fn device_of_topic(topic: &str) -> (device: Option<String>)
    ensures
        (match device {
            Some(name) => device_segment(topic@) == Some(name@),
            None => device_segment(topic@) is None,
        }),
{
    match split_once(topic, SEPARATOR) {
        None => None,
        Some((_, rest)) => {
            match split_once(rest, SEPARATOR) {
                None => {
                    proof {
                        lemma_first_index(rest@, '/');
                        assert(rest@.take(rest@.len() as int) =~= rest@);
                    }
                    Some(rest.to_owned())
                },
                Some((name, _)) => Some(name.to_owned()),
            }
        },
    }
}

/// The device that a heartbeat topic names is found again in it: for a root and an
/// identifier without a separator, the second segment of the device's heartbeat
/// topic is the identifier.
pub proof fn lemma_device_of_heartbeat_topic(root: Seq<char>, device: Seq<char>)
    requires
        !root.contains('/'),
        !device.contains('/'),
    ensures
        device_segment(heartbeat_topic_of(root, device)) == Some(device),
{
    let tail = device + heartbeat_segment();
    assert(heartbeat_topic_of(root, device) =~= root + seq!['/'] + tail);
    lemma_first_index_of_concat(root, '/', tail);
    let last = seq!['h', 'e', 'a', 'r', 't', 'b', 'e', 'a', 't'];
    assert(tail =~= device + seq!['/'] + last);
    lemma_first_index_of_concat(device, '/', last);
}

} // verus!
