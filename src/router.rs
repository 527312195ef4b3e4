//! Dispatch of message-bus topics to their handlers.

use crate::table::{index_of, lookup, stored, NameTable};
use crate::text::{contains_char, last_segment, after_last};
use vstd::prelude::*;

verus! {

/// Why a handler could not be registered.
#[derive(Debug, Clone)]
pub enum RouterError {
    /// Topics with the wildcards `#` or `+` cannot be routed exactly.
    UnsupportedTopicName { topic: String },
}

/// A topic that names exactly one topic: it holds no wildcard.
pub open spec fn routable_topic(topic: Seq<char>) -> bool {
    !topic.contains('#') && !topic.contains('+')
}

/// Handlers by exact topic name.
pub struct Router<H> {
    table: NameTable<H>,
}

impl<H> View for Router<H> {
    type V = Seq<(Seq<char>, H)>;

    closed spec fn view(&self) -> Seq<(Seq<char>, H)> {
        self.table@
    }
}

impl<H> Router<H> {
    /// Each topic has one handler.
    pub closed spec fn wf(&self) -> bool {
        self.table.wf()
    }

    /// A router without handlers.
    pub fn new() -> (r: Router<H>)
        ensures
            r@ == Seq::<(Seq<char>, H)>::empty(),
            r.wf(),
    {
        Router { table: NameTable::new() }
    }

    /// Registers `handler` for `topic`, replacing an earlier handler of the
    /// same topic. A topic with a wildcard is refused.
    pub fn add_handler(&mut self, topic: &str, handler: H) -> (r: Result<(), RouterError>)
        requires
            old(self).wf(),
        ensures
            final(self).wf(),
            routable_topic(topic@) ==> r is Ok && final(self)@ == stored(old(self)@, topic@, handler),
            !routable_topic(topic@) ==> (r matches Err(RouterError::UnsupportedTopicName { topic: t })
                && t@ == topic@ && final(self)@ == old(self)@),
    {
        if contains_char(topic, '#') || contains_char(topic, '+') {
            Err(RouterError::UnsupportedTopicName { topic: topic.to_owned() })
        } else {
            self.table.insert(topic.to_owned(), handler);
            Ok(())
        }
    }

    /// The handler of `topic`, if one is registered.
    pub fn handler(&self, topic: &str) -> (r: Option<&H>)
        requires
            self.wf(),
        ensures
            match lookup(self@, topic@) {
                Some(h) => r == Some(&h),
                None => r is None,
            },
    {
        self.table.get(topic)
    }

    /// The handler of `topic`, to be called with the message.
    pub fn handler_mut(&mut self, topic: &str) -> (r: Option<&mut H>)
        requires
            old(self).wf(),
        ensures
            final(self).wf(),
            match index_of(old(self)@, topic@) {
                Some(i) => r is Some
                    && *r->Some_0 == old(self)@[i].1
                    && final(self)@ == old(self)@.update(i, (old(self)@[i].0, *final(r->Some_0))),
                None => r is None && final(self)@ == old(self)@,
            },
    {
        self.table.get_mut(topic)
    }

    /// The registered topics, in the order they were first registered.
    pub fn topics(&self) -> (r: Vec<String>)
        requires
            self.wf(),
        ensures
            r@.len() == self@.len(),
            forall|i: int| 0 <= i < r@.len() ==> r@[i]@ == self@[i].0,
    {
        self.table.keys()
    }
}

impl<H> Default for Router<H> {
    fn default() -> (r: Router<H>)
        ensures
            r@ == Seq::<(Seq<char>, H)>::empty(),
            r.wf(),
    {
        Router::new()
    }
}

/// The voice name that a topic ends in: what follows its last `/`.
pub fn voice_name_from_topic(topic: &str) -> (r: String)
    ensures
        r@ == after_last(topic@, '/'),
{
    last_segment(topic, '/')
}

} // verus!
