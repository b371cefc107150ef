use crate::messages::{interruption_message, interruption_text};
use vstd::prelude::*;
use vstd::string::StringExecFns;

verus! {

/// What an incremental result is.
#[derive(Clone, Copy, PartialEq, Eq, Structural)]
pub enum ResponseKind {
    Content,
    Error,
    /// Any other kind the remote side sends, by its wire number.
    Other(i32),
}

/// One incremental result of a chat query.
pub struct ChatResponse {
    pub kind: ResponseKind,
    pub content: String,
    pub agent_name: String,
    pub result_json: String,
}

/// One read from a response stream.
pub enum StreamEvent {
    /// An item arrived.
    Message(ChatResponse),
    /// The stream ended cleanly.
    End,
    /// The transport failed; the text describes the fault.
    Fault(String),
}

#[derive(Clone, Copy, PartialEq, Eq, Structural)]
pub enum CollectorState {
    Reading,
    Done,
    Failed,
}

/// The entry appended locally when the transport fails mid-stream.
pub open spec fn is_interruption_entry(r: ChatResponse, detail: Seq<char>) -> bool {
    &&& r.kind == ResponseKind::Error
    &&& r.content@ == interruption_text(detail)
    &&& r.agent_name@ == "system"@
    &&& r.result_json@ == Seq::<char>::empty()
}

/// Gathers the items of a response stream in arrival order. A clean end
/// seals the sequence as it is; a transport fault seals it after one
/// appended error entry, so the items already received are kept.
pub struct ChatCollector {
    state: CollectorState,
    responses: Vec<ChatResponse>,
}

impl ChatCollector {
    pub closed spec fn state(&self) -> CollectorState {
        self.state
    }

    /// The items gathered so far, in arrival order.
    pub closed spec fn responses(&self) -> Seq<ChatResponse> {
        self.responses@
    }

    pub fn new() -> (r: Self)
        ensures
            r.state() == CollectorState::Reading,
            r.responses() == Seq::<ChatResponse>::empty(),
    {
        ChatCollector { state: CollectorState::Reading, responses: Vec::new() }
    }

    pub fn current_state(&self) -> (r: CollectorState)
        ensures
            r == self.state(),
    {
        self.state
    }

    /// Whether the collector has reached `Done` or `Failed`; no further read
    /// is needed.
    pub fn is_finished(&self) -> (r: bool)
        ensures
            r == (self.state() != CollectorState::Reading),
    {
        match self.state {
            CollectorState::Reading => false,
            _ => true,
        }
    }

    /// Takes one read of the stream. Once finished, the collector ignores
    /// further events.
    pub fn step(&mut self, event: StreamEvent)
        ensures
            old(self).state() != CollectorState::Reading ==> *final(self) == *old(self),
            old(self).state() == CollectorState::Reading ==> match event {
                StreamEvent::Message(m) => final(self).state() == CollectorState::Reading
                    && final(self).responses() == old(self).responses().push(m),
                StreamEvent::End => final(self).state() == CollectorState::Done
                    && final(self).responses() == old(self).responses(),
                StreamEvent::Fault(d) => {
                    &&& final(self).state() == CollectorState::Failed
                    &&& final(self).responses().len() == old(self).responses().len() + 1
                    &&& final(self).responses().drop_last() == old(self).responses()
                    &&& is_interruption_entry(final(self).responses().last(), d@)
                },
            },
    {
        match self.state {
            CollectorState::Reading => {},
            _ => {
                return;
            },
        }
        match event {
            StreamEvent::Message(m) => {
                self.responses.push(m);
            },
            StreamEvent::End => {
                self.state = CollectorState::Done;
            },
            StreamEvent::Fault(d) => {
                let entry = ChatResponse {
                    kind: ResponseKind::Error,
                    content: interruption_message(d.as_str()),
                    agent_name: String::from_str("system"),
                    result_json: String::new(),
                };
                self.responses.push(entry);
                self.state = CollectorState::Failed;
                assert(self.responses@.drop_last() =~= old(self).responses@);
            },
        }
    }

    /// The sealed sequence of results.
    pub fn into_responses(self) -> (r: Vec<ChatResponse>)
        ensures
            r@ == self.responses(),
    {
        self.responses
    }
}

} // verus!
