//! The command dispatcher of the chat client: literal triggers, each bound to
//! one reply, evaluated by independent listeners.

use vstd::prelude::*;
use crate::text::same_text;

verus! {

/// A listener role. Every incoming message is shown to each of them, and each
/// decides on its own.
#[derive(Clone, Copy, Debug, PartialEq, Eq, Structural)]
pub enum Listener {
    /// Answers the ping trigger.
    Ping,
    /// Answers the check trigger.
    Check,
}

/// A reply that a listener asks the caller to send.
#[derive(Clone, Copy, Debug, PartialEq, Eq, Structural)]
pub enum Reply {
    Pong,
    Hello,
}

/// What the caller does once a reply send has ended.
#[derive(Clone, Copy, Debug, PartialEq, Eq, Structural)]
pub enum AfterReply {
    /// The reply went out: go on with the next message.
    Continue,
    /// The send failed: log the failure, then go on with the next message.
    LogAndContinue,
}

impl Reply {
    /// The content of the reply.
    pub open spec fn content(self) -> Seq<char> {
        match self {
            Reply::Pong => "Pong!"@,
            Reply::Hello => "Hello!"@,
        }
    }

    /// The content of the reply, as it is sent.
    pub fn text(&self) -> (s: &'static str)
        ensures
            s@ == self.content(),
    {
        match self {
            Reply::Pong => "Pong!",
            Reply::Hello => "Hello!",
        }
    }
}

impl Listener {
    /// The literal that this listener reacts to.
    pub open spec fn trigger(self) -> Seq<char> {
        match self {
            Listener::Ping => "!ping"@,
            Listener::Check => "!check"@,
        }
    }

    /// The reply bound to this listener's trigger.
    pub open spec fn answer(self) -> Reply {
        match self {
            Listener::Ping => Reply::Pong,
            Listener::Check => Reply::Hello,
        }
    }

    /// What this listener makes of a message with the given content.
    pub open spec fn reaction(self, content: Seq<char>) -> Option<Reply> {
        if content == self.trigger() {
            Some(self.answer())
        } else {
            None
        }
    }

    /// The literal that this listener reacts to.
    pub fn trigger_text(&self) -> (s: &'static str)
        ensures
            s@ == self.trigger(),
    {
        match self {
            Listener::Ping => "!ping",
            Listener::Check => "!check",
        }
    }

    /// Shows one message to this listener. It asks for its reply where the
    /// content is exactly its trigger, and for nothing otherwise: content
    /// that does not match is ignored, and is no error.
    pub fn on_message(&self, content: &str) -> (reply: Option<Reply>)
        ensures
            reply == self.reaction(content@),
    {
        if same_text(content, self.trigger_text()) {
            match self {
                Listener::Ping => Some(Reply::Pong),
                Listener::Check => Some(Reply::Hello),
            }
        } else {
            None
        }
    }
}

/// The replies that a message draws from all listeners, in the order in which
/// the listeners are asked: first `Ping`, then `Check`.
pub open spec fn replies_to(content: Seq<char>) -> Seq<Reply> {
    let ping = match Listener::Ping.reaction(content) {
        Some(r) => seq![r],
        None => Seq::empty(),
    };
    let check = match Listener::Check.reaction(content) {
        Some(r) => seq![r],
        None => Seq::empty(),
    };
    ping + check
}

/// Shows one message to every listener and collects the replies to send.
pub fn dispatch(content: &str) -> (replies: Vec<Reply>)
    ensures
        replies@ == replies_to(content@),
        replies@.len() <= 1,
{
    let mut replies: Vec<Reply> = Vec::new();
    if let Some(r) = Listener::Ping.on_message(content) {
        replies.push(r);
    }
    if let Some(r) = Listener::Check.on_message(content) {
        replies.push(r);
    }
    proof {
        assert(replies@ =~= replies_to(content@));
        lemma_at_most_one_reply(content@);
    }
    replies
}

/// What follows a reply send: a failure is logged where the send was made,
/// and in either case the dispatcher goes on with the next message.
pub fn after_reply(delivered: bool) -> (next: AfterReply)
    ensures
        next == if delivered {
            AfterReply::Continue
        } else {
            AfterReply::LogAndContinue
        },
{
    if delivered {
        AfterReply::Continue
    } else {
        AfterReply::LogAndContinue
    }
}

/// The two triggers differ, so no content matches both.
pub proof fn lemma_triggers_differ()
    ensures
        Listener::Ping.trigger() != Listener::Check.trigger(),
{
    reveal_strlit("!ping");
    reveal_strlit("!check");
    assert("!ping"@.len() == 5 && "!check"@.len() == 6);
}

/// A message draws at most one reply, exactly one where its content is a
/// trigger, and none where it is not.
pub proof fn lemma_at_most_one_reply(content: Seq<char>)
    ensures
        replies_to(content).len() <= 1,
        content == Listener::Ping.trigger() ==> replies_to(content) == seq![Reply::Pong],
        content == Listener::Check.trigger() ==> replies_to(content) == seq![Reply::Hello],
        content != Listener::Ping.trigger() && content != Listener::Check.trigger()
            ==> replies_to(content).len() == 0,
{
    lemma_triggers_differ();
    if content == Listener::Ping.trigger() {
        assert(replies_to(content) =~= seq![Reply::Pong]);
    } else if content == Listener::Check.trigger() {
        assert(replies_to(content) =~= seq![Reply::Hello]);
    }
}

} // verus!
