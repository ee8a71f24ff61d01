//! What the processor asks of the outside, and what it is told in return.
//!
//! The operations of this library are written as machines. A machine names the one
//! [`Effect`] that it waits for; its driver performs the effect and resumes the
//! machine with the [`Event`] that came of it.

use vstd::prelude::*;

use crate::job::{Job, JobView};
use crate::keys::{copy_strings, texts, Text};

verus! {

/// A Redis command. Keys are given as they are before any namespace is added.
#[derive(Debug)]
pub enum Command {
    /// Takes the last element of the first of the lists that has one, waiting up to
    /// `timeout` seconds for it.
    Brpop { keys: Vec<String>, timeout: usize },
    /// Moves the last element of `source` to the front of `destination`.
    Rpoplpush { source: String, destination: String },
    /// As `Rpoplpush`, waiting up to `timeout` seconds for an element.
    Brpoplpush { source: String, destination: String, timeout: usize },
    /// Puts an element at the end of a list.
    Rpush { key: String, value: String },
    /// Takes out the elements equal to `value`: with `count` -1, the last one.
    Lrem { key: String, count: i64, value: String },
    /// In one atomic step: if `value` is in `source`, takes it out there and puts it
    /// at the end of `destination`.
    RequeueIfInprogress { source: String, destination: String, value: String },
    /// Adds a member to a set.
    Sadd { key: String, member: String },
    /// Takes a member out of a set.
    Srem { key: String, member: String },
    /// Asks whether a set has a member.
    Sismember { key: String, member: String },
    /// Lists the members of a set.
    Smembers { key: String },
    /// Asks whether a key exists.
    Exists { key: String },
    /// Sets a field of a hash.
    Hset { key: String, field: String, value: String },
    /// Takes a field out of a hash.
    Hdel { key: String, field: String },
    /// Lets a key expire after `seconds`.
    Expire { key: String, seconds: usize },
}

/// A [`Command`] by its contents.
pub enum CommandView {
    Brpop { keys: Seq<Text>, timeout: usize },
    Rpoplpush { source: Text, destination: Text },
    Brpoplpush { source: Text, destination: Text, timeout: usize },
    Rpush { key: Text, value: Text },
    Lrem { key: Text, count: int, value: Text },
    RequeueIfInprogress { source: Text, destination: Text, value: Text },
    Sadd { key: Text, member: Text },
    Srem { key: Text, member: Text },
    Sismember { key: Text, member: Text },
    Smembers { key: Text },
    Exists { key: Text },
    Hset { key: Text, field: Text, value: Text },
    Hdel { key: Text, field: Text },
    Expire { key: Text, seconds: usize },
}

impl View for Command {
    type V = CommandView;

    open spec fn view(&self) -> CommandView {
        match self {
            Command::Brpop { keys, timeout } => CommandView::Brpop { keys: texts(keys@), timeout: *timeout },
            Command::Rpoplpush { source, destination } => CommandView::Rpoplpush {
                source: source@,
                destination: destination@,
            },
            Command::Brpoplpush { source, destination, timeout } => CommandView::Brpoplpush {
                source: source@,
                destination: destination@,
                timeout: *timeout,
            },
            Command::Rpush { key, value } => CommandView::Rpush { key: key@, value: value@ },
            Command::Lrem { key, count, value } => CommandView::Lrem { key: key@, count: *count as int, value: value@ },
            Command::RequeueIfInprogress { source, destination, value } => CommandView::RequeueIfInprogress {
                source: source@,
                destination: destination@,
                value: value@,
            },
            Command::Sadd { key, member } => CommandView::Sadd { key: key@, member: member@ },
            Command::Srem { key, member } => CommandView::Srem { key: key@, member: member@ },
            Command::Sismember { key, member } => CommandView::Sismember { key: key@, member: member@ },
            Command::Smembers { key } => CommandView::Smembers { key: key@ },
            Command::Exists { key } => CommandView::Exists { key: key@ },
            Command::Hset { key, field, value } => CommandView::Hset { key: key@, field: field@, value: value@ },
            Command::Hdel { key, field } => CommandView::Hdel { key: key@, field: field@ },
            Command::Expire { key, seconds } => CommandView::Expire { key: key@, seconds: *seconds },
        }
    }
}

impl Clone for Command {
    fn clone(&self) -> (copy: Self)
        ensures
            copy@ == self@,
    {
        match self {
            Command::Brpop { keys, timeout } => Command::Brpop { keys: copy_strings(keys), timeout: *timeout },
            Command::Rpoplpush { source, destination } => Command::Rpoplpush {
                source: source.clone(),
                destination: destination.clone(),
            },
            Command::Brpoplpush { source, destination, timeout } => Command::Brpoplpush {
                source: source.clone(),
                destination: destination.clone(),
                timeout: *timeout,
            },
            Command::Rpush { key, value } => Command::Rpush { key: key.clone(), value: value.clone() },
            Command::Lrem { key, count, value } => Command::Lrem {
                key: key.clone(),
                count: *count,
                value: value.clone(),
            },
            Command::RequeueIfInprogress { source, destination, value } => Command::RequeueIfInprogress {
                source: source.clone(),
                destination: destination.clone(),
                value: value.clone(),
            },
            Command::Sadd { key, member } => Command::Sadd { key: key.clone(), member: member.clone() },
            Command::Srem { key, member } => Command::Srem { key: key.clone(), member: member.clone() },
            Command::Sismember { key, member } => Command::Sismember { key: key.clone(), member: member.clone() },
            Command::Smembers { key } => Command::Smembers { key: key.clone() },
            Command::Exists { key } => Command::Exists { key: key.clone() },
            Command::Hset { key, field, value } => Command::Hset {
                key: key.clone(),
                field: field.clone(),
                value: value.clone(),
            },
            Command::Hdel { key, field } => Command::Hdel { key: key.clone(), field: field.clone() },
            Command::Expire { key, seconds } => Command::Expire { key: key.clone(), seconds: *seconds },
        }
    }
}

/// What Redis answered.
#[derive(Debug)]
pub enum Reply {
    /// The list and the element that `Brpop` took, if it took one.
    Popped(Option<(String, String)>),
    /// The element that `Rpoplpush` or `Brpoplpush` moved, if it moved one.
    Moved(Option<String>),
    /// The members that `Smembers` found.
    Members(Vec<String>),
    /// The answer of `Exists` or `Sismember`, or whether `RequeueIfInprogress` found its element.
    Flag(bool),
    /// Any other command went through.
    Done,
}

/// A [`Reply`] by its contents.
pub enum ReplyView {
    Popped(Option<(Text, Text)>),
    Moved(Option<Text>),
    Members(Seq<Text>),
    Flag(bool),
    Done,
}

impl View for Reply {
    type V = ReplyView;

    open spec fn view(&self) -> ReplyView {
        match self {
            Reply::Popped(Some(popped)) => ReplyView::Popped(Some((popped.0@, popped.1@))),
            Reply::Popped(None) => ReplyView::Popped(None),
            Reply::Moved(Some(job)) => ReplyView::Moved(Some(job@)),
            Reply::Moved(None) => ReplyView::Moved(None),
            Reply::Members(members) => ReplyView::Members(texts(members@)),
            Reply::Flag(flag) => ReplyView::Flag(*flag),
            Reply::Done => ReplyView::Done,
        }
    }
}

/// What a machine waits for.
#[derive(Debug)]
pub enum Effect {
    /// Take a connection from the pool.
    Connect,
    /// Send a command, on a connection taken for it where none is held. A connection
    /// that cannot be had counts as the command's failure.
    Send(Command),
    /// Read a job from its JSON text.
    Parse(String),
    /// Write the job, with all of its fields, as JSON text.
    Serialize(Job),
}

/// An [`Effect`] by its contents.
pub enum EffectView {
    Connect,
    Send(CommandView),
    Parse(Text),
    Serialize(JobView),
}

impl View for Effect {
    type V = EffectView;

    open spec fn view(&self) -> EffectView {
        match self {
            Effect::Connect => EffectView::Connect,
            Effect::Send(command) => EffectView::Send(command@),
            Effect::Parse(raw) => EffectView::Parse(raw@),
            Effect::Serialize(job) => EffectView::Serialize(job@),
        }
    }
}

/// What came of an effect. `E` is the error of the driver.
#[derive(Debug)]
pub enum Event<E> {
    Connected,
    Reply(Reply),
    Parsed(Job),
    Serialized(String),
    Failed(E),
}

/// An [`Event`] by its contents.
pub enum EventView<E> {
    Connected,
    Reply(ReplyView),
    Parsed(JobView),
    Serialized(Text),
    Failed(E),
}

impl<E> View for Event<E> {
    type V = EventView<E>;

    open spec fn view(&self) -> EventView<E> {
        match self {
            Event::Connected => EventView::Connected,
            Event::Reply(reply) => EventView::Reply(reply@),
            Event::Parsed(job) => EventView::Parsed(job@),
            Event::Serialized(text) => EventView::Serialized(text@),
            Event::Failed(error) => EventView::Failed(*error),
        }
    }
}

/// The content of an optional effect.
pub open spec fn effect_view(effect: Option<Effect>) -> Option<EffectView> {
    match effect {
        Some(e) => Some(e@),
        None => None,
    }
}

} // verus!
