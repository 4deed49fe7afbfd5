//! Settling the title that a document is filed under: the inferred title
//! is confirmed, or the user types another one.

use vstd::prelude::*;
use crate::title::opt_view;

verus! {

/// Where the exchange with the user stands.
pub enum Negotiation {
    /// The user is asked whether to keep this title.
    Confirming(String),
    /// The user is asked to type a file name.
    AskingFilename,
}

/// The result of one reply.
pub enum NegotiationStep {
    /// Ask again, from this state.
    Ask(Negotiation),
    /// The title is settled.
    Settled(String),
}

/// The state of the exchange, as values.
pub enum Exchange {
    Confirming(Seq<char>),
    AskingFilename,
    Settled(Seq<char>),
}

impl View for Negotiation {
    type V = Exchange;

    open spec fn view(&self) -> Exchange {
        match self {
            Negotiation::Confirming(t) => Exchange::Confirming(t@),
            Negotiation::AskingFilename => Exchange::AskingFilename,
        }
    }
}

impl View for NegotiationStep {
    type V = Exchange;

    open spec fn view(&self) -> Exchange {
        match self {
            NegotiationStep::Ask(n) => n@,
            NegotiationStep::Settled(t) => Exchange::Settled(t@),
        }
    }
}

/// The first question for an optional title.
pub open spec fn opening(title: Option<Seq<char>>) -> Exchange {
    match title {
        Some(t) => Exchange::Confirming(t),
        None => Exchange::AskingFilename,
    }
}

/// Where a reply leads. To the confirmation, `y`/`Y` turns to asking for a
/// file name, `n`/`N` or an empty line keeps the title, and anything else
/// asks the same again. To the request for a file name, any non-empty line
/// is the title; an empty one asks again.
pub open spec fn reply_to(e: Exchange, reply: Seq<char>) -> Exchange {
    match e {
        Exchange::Confirming(t) => if is_yes(reply) {
            Exchange::AskingFilename
        } else if is_keep(reply) {
            Exchange::Settled(t)
        } else {
            Exchange::Confirming(t)
        },
        Exchange::AskingFilename => if reply.len() > 0 {
            Exchange::Settled(reply)
        } else {
            Exchange::AskingFilename
        },
        Exchange::Settled(t) => Exchange::Settled(t),
    }
}

/// A reply that asks for a different title: `y` or `Y`.
pub open spec fn is_yes(reply: Seq<char>) -> bool {
    reply.len() == 1 && (reply[0] == 'y' || reply[0] == 'Y')
}

/// A reply that keeps the title: `n`, `N`, or nothing at all.
pub open spec fn is_keep(reply: Seq<char>) -> bool {
    reply.len() == 0 || (reply.len() == 1 && (reply[0] == 'n' || reply[0] == 'N'))
}

/// Keeping is the default: an empty reply, `n` or `N` to the confirmation
/// settles on the title exactly as it was offered.
pub proof fn lemma_keep_preserves_title(t: Seq<char>, reply: Seq<char>)
    requires
        reply.len() == 0 || reply == seq!['n'] || reply == seq!['N'],
    ensures
        reply_to(Exchange::Confirming(t), reply) == Exchange::Settled(t),
{
}

fn single_char_of(reply: &str) -> (r: Option<char>)
    ensures
        r matches Some(c) ==> reply@ == seq![c],
        r is None ==> reply@.len() != 1,
{
    if reply.unicode_len() == 1 {
        let c = reply.get_char(0);
        assert(reply@ =~= seq![c]);
        Some(c)
    } else {
        None
    }
}

impl Negotiation {
    /// The first question: a title to confirm when there is one, a file
    /// name to type when there is none.
    pub fn new(title: Option<String>) -> (n: Negotiation)
        ensures
            n@ == opening(opt_view(title)),
    {
        match title {
            Some(t) => Negotiation::Confirming(t),
            None => Negotiation::AskingFilename,
        }
    }

    /// Takes in one line that the user typed in reply to the current
    /// question.
    pub fn answer(self, reply: &str) -> (r: NegotiationStep)
        ensures
            r@ == reply_to(self@, reply@),
    {
        match self {
            Negotiation::Confirming(title) => {
                if reply.is_empty() {
                    return NegotiationStep::Settled(title);
                }
                match single_char_of(reply) {
                    Some('y') | Some('Y') => NegotiationStep::Ask(Negotiation::AskingFilename),
                    Some('n') | Some('N') => NegotiationStep::Settled(title),
                    _ => NegotiationStep::Ask(Negotiation::Confirming(title)),
                }
            },
            Negotiation::AskingFilename => {
                if reply.is_empty() {
                    NegotiationStep::Ask(Negotiation::AskingFilename)
                } else {
                    NegotiationStep::Settled(reply.to_owned())
                }
            },
        }
    }
}

} // verus!
