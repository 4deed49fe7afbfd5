//! One write, from scratch file to filed document, as a state machine.
//! The caller performs each action it is handed (file system, editor,
//! terminal) and reports what came of it as an event; the session decides
//! what happens next. Besides creating the scratch file, the only change it
//! asks of the collection is the final move of that file, and only once
//! every earlier step worked. Nothing it asks for ever deletes a file.

use vstd::prelude::*;
use crate::error::{FailureKind, FailureView, GardenVarietyError};
use crate::naming::{file_name, file_stem, slug_of, Placement, PlacementStep};
use crate::negotiate::{opening, reply_to, Exchange, Negotiation, NegotiationStep};
use crate::title::{opt_view, title_from_content, title_of};

verus! {

/// What the session waits for.
pub enum Stage {
    /// The scratch file to be created.
    Creating,
    /// The editor to exit.
    Editing,
    /// The scratch file's text.
    Reading,
    /// A reply to the question on the title.
    Negotiating(Negotiation),
    /// Whether the name tried now is taken.
    Placing(Placement),
    /// The move of the scratch file to this name.
    Committing(String),
}

/// A write in progress: the title given up front, if any, the path of the
/// scratch file once it exists, and the stage reached.
pub struct WriteSession {
    pub title: Option<String>,
    pub scratch: String,
    pub stage: Stage,
}

/// Work for the caller.
pub enum Action {
    /// Create a new file with a random name and the extension `.md` inside
    /// the collection directory, write `template` into it, and report its
    /// path.
    CreateScratch { template: String },
    /// Open the scratch file in the user's editor and wait until it exits.
    Edit { scratch: String },
    /// Read the scratch file back from disk.
    ReadBack { scratch: String },
    /// Show the title and ask whether the user wants a different one.
    Confirm { title: String },
    /// Ask the user to type a file name.
    AskFilename,
    /// Find out whether the collection directory holds a file of this name.
    Probe { name: String },
    /// Rename the scratch file to this name in the collection directory.
    Commit { scratch: String, name: String },
}

/// What came of an action.
pub enum Event {
    ScratchCreated(String),
    Edited,
    ContentRead(String),
    Replied(String),
    Probed(bool),
    Committed,
    /// The action failed, for the reason given.
    Failed(String),
}

/// The session after an event.
pub enum Next {
    /// Go on: perform the action, then report to the session.
    Continue(WriteSession, Action),
    /// The session is over: the document was filed under this name, or
    /// the error says why not.
    Finished(Result<String, GardenVarietyError>),
}

/// What the session waits for, as values.
pub enum StageView {
    Creating,
    Editing,
    Reading,
    Negotiating(Exchange),
    /// The stem, and the attempt whose name is tried now.
    Placing(Seq<char>, nat),
    Committing(Seq<char>),
}

/// A session as values.
pub struct SessionView {
    pub title: Option<Seq<char>>,
    pub scratch: Seq<char>,
    pub stage: StageView,
}

/// An action as values.
pub enum ActionView {
    CreateScratch(Seq<char>),
    Edit(Seq<char>),
    ReadBack(Seq<char>),
    Confirm(Seq<char>),
    AskFilename,
    Probe(Seq<char>),
    /// The scratch file, and the name it moves to.
    Commit(Seq<char>, Seq<char>),
}

/// An event as values.
pub enum EventView {
    ScratchCreated(Seq<char>),
    Edited,
    ContentRead(Seq<char>),
    Replied(Seq<char>),
    Probed(bool),
    Committed,
    Failed(Seq<char>),
}

/// What follows an event, as values.
pub enum NextView {
    Continue(SessionView, ActionView),
    Filed(Seq<char>),
    Failed(FailureView),
}

impl View for Stage {
    type V = StageView;

    open spec fn view(&self) -> StageView {
        match self {
            Stage::Creating => StageView::Creating,
            Stage::Editing => StageView::Editing,
            Stage::Reading => StageView::Reading,
            Stage::Negotiating(n) => StageView::Negotiating(n@),
            Stage::Placing(p) => StageView::Placing(p.stem@, p.attempt as nat),
            Stage::Committing(name) => StageView::Committing(name@),
        }
    }
}

impl View for WriteSession {
    type V = SessionView;

    open spec fn view(&self) -> SessionView {
        SessionView { title: opt_view(self.title), scratch: self.scratch@, stage: self.stage@ }
    }
}

impl View for Action {
    type V = ActionView;

    open spec fn view(&self) -> ActionView {
        match self {
            Action::CreateScratch { template } => ActionView::CreateScratch(template@),
            Action::Edit { scratch } => ActionView::Edit(scratch@),
            Action::ReadBack { scratch } => ActionView::ReadBack(scratch@),
            Action::Confirm { title } => ActionView::Confirm(title@),
            Action::AskFilename => ActionView::AskFilename,
            Action::Probe { name } => ActionView::Probe(name@),
            Action::Commit { scratch, name } => ActionView::Commit(scratch@, name@),
        }
    }
}

impl View for Event {
    type V = EventView;

    open spec fn view(&self) -> EventView {
        match self {
            Event::ScratchCreated(p) => EventView::ScratchCreated(p@),
            Event::Edited => EventView::Edited,
            Event::ContentRead(c) => EventView::ContentRead(c@),
            Event::Replied(x) => EventView::Replied(x@),
            Event::Probed(taken) => EventView::Probed(*taken),
            Event::Committed => EventView::Committed,
            Event::Failed(m) => EventView::Failed(m@),
        }
    }
}

impl View for Next {
    type V = NextView;

    open spec fn view(&self) -> NextView {
        match self {
            Next::Continue(s, a) => NextView::Continue(s@, a@),
            Next::Finished(Ok(name)) => NextView::Filed(name@),
            Next::Finished(Err(e)) => NextView::Failed(e@),
        }
    }
}

/// The text that a new scratch file starts with.
pub open spec fn template() -> Seq<char> {
    seq!['#', ' ']
}

/// What a session reports when an event does not answer its action.
pub open spec fn out_of_order_message() -> Seq<char> {
    "the event does not answer the pending action"@
}

/// What a session reports when every numbered name is taken.
pub open spec fn exhausted_message() -> Seq<char> {
    "no free file name is left"@
}

/// The failure that ends a session at `stage`: from the editor on, it
/// names the scratch file.
pub open spec fn failure_at(stage: StageView, scratch: Seq<char>, message: Seq<char>) -> FailureView {
    match stage {
        StageView::Creating => FailureView {
            kind: FailureKind::TempfileCreation,
            filepath: None,
            message,
        },
        StageView::Editing => FailureView {
            kind: FailureKind::Launch,
            filepath: Some(scratch),
            message,
        },
        StageView::Reading => FailureView {
            kind: FailureKind::TempfileRead,
            filepath: Some(scratch),
            message,
        },
        StageView::Negotiating(_) => FailureView {
            kind: FailureKind::Prompt,
            filepath: Some(scratch),
            message,
        },
        _ => FailureView { kind: FailureKind::Commit, filepath: Some(scratch), message },
    }
}

/// The title that names the document: the one given up front, else the
/// one inferred from the text.
pub open spec fn resolved_title(given: Option<Seq<char>>, content: Seq<char>) -> Option<Seq<char>> {
    match given {
        Some(t) => Some(t),
        None => title_of(content),
    }
}

/// The action that puts the question of `e` to the user.
pub open spec fn question_of(e: Exchange) -> ActionView {
    match e {
        Exchange::Confirming(t) => ActionView::Confirm(t),
        _ => ActionView::AskFilename,
    }
}

/// `s` at a new stage.
pub open spec fn at_stage(s: SessionView, stage: StageView) -> SessionView {
    SessionView { stage, ..s }
}

/// What follows `event` in the session `s`. Every failure ends the session,
/// and so does an event that does not answer the pending action.
pub open spec fn transition(s: SessionView, event: EventView) -> NextView {
    let out_of_order = NextView::Failed(failure_at(s.stage, s.scratch, out_of_order_message()));
    match event {
        EventView::Failed(m) => NextView::Failed(failure_at(s.stage, s.scratch, m)),
        EventView::ScratchCreated(p) => match s.stage {
            StageView::Creating => NextView::Continue(
                SessionView { scratch: p, stage: StageView::Editing, ..s },
                ActionView::Edit(p),
            ),
            _ => out_of_order,
        },
        EventView::Edited => match s.stage {
            StageView::Editing => NextView::Continue(
                at_stage(s, StageView::Reading),
                ActionView::ReadBack(s.scratch),
            ),
            _ => out_of_order,
        },
        EventView::ContentRead(c) => match s.stage {
            StageView::Reading => {
                let e = opening(resolved_title(s.title, c));
                NextView::Continue(at_stage(s, StageView::Negotiating(e)), question_of(e))
            },
            _ => out_of_order,
        },
        EventView::Replied(x) => match s.stage {
            StageView::Negotiating(e) => match reply_to(e, x) {
                Exchange::Settled(t) => NextView::Continue(
                    at_stage(s, StageView::Placing(slug_of(t), 0)),
                    ActionView::Probe(file_name(slug_of(t), 0)),
                ),
                f => NextView::Continue(at_stage(s, StageView::Negotiating(f)), question_of(f)),
            },
            _ => out_of_order,
        },
        EventView::Probed(taken) => match s.stage {
            StageView::Placing(stem, k) => if !taken {
                NextView::Continue(
                    at_stage(s, StageView::Committing(file_name(stem, k))),
                    ActionView::Commit(s.scratch, file_name(stem, k)),
                )
            } else if k < usize::MAX {
                NextView::Continue(
                    at_stage(s, StageView::Placing(stem, k + 1)),
                    ActionView::Probe(file_name(stem, k + 1)),
                )
            } else {
                NextView::Failed(failure_at(s.stage, s.scratch, exhausted_message()))
            },
            _ => out_of_order,
        },
        EventView::Committed => match s.stage {
            StageView::Committing(name) => NextView::Filed(name),
            _ => out_of_order,
        },
    }
}

/// No drafted text is lost: once the scratch file exists, any failure ends
/// the session with an error that names it, and asks for nothing more to
/// be done to it.
pub proof fn lemma_failure_keeps_scratch(s: SessionView, message: Seq<char>)
    requires
        !(s.stage is Creating),
    ensures
        transition(s, EventView::Failed(message)) matches NextView::Failed(f) && f.filepath == Some(
            s.scratch,
        ) && f.message == message,
{
}

/// The move into the collection is the last step: it is asked for only when
/// the name it moves to was just found free, and it moves the session's own
/// scratch file.
pub proof fn lemma_commit_only_to_free_name(s: SessionView, event: EventView)
    ensures
        transition(s, event) matches NextView::Continue(_, ActionView::Commit(scratch, name)) ==> (
        s.stage matches StageView::Placing(stem, k) && event == EventView::Probed(false) && scratch
            == s.scratch && name == file_name(stem, k)),
{
}

fn failure(stage: &Stage, scratch: String, message: String) -> (e: GardenVarietyError)
    ensures
        e@ == failure_at(stage@, scratch@, message@),
{
    match stage {
        Stage::Creating => GardenVarietyError::TempfileCreationError { message },
        Stage::Editing => GardenVarietyError::LaunchError { filepath: scratch, message },
        Stage::Reading => GardenVarietyError::TempfileReadError { filepath: scratch, message },
        Stage::Negotiating(_) => GardenVarietyError::PromptError { filepath: scratch, message },
        Stage::Placing(_) => GardenVarietyError::CommitError { filepath: scratch, message },
        Stage::Committing(_) => GardenVarietyError::CommitError { filepath: scratch, message },
    }
}

fn question(n: &Negotiation) -> (a: Action)
    ensures
        a@ == question_of(n@),
{
    match n {
        Negotiation::Confirming(t) => Action::Confirm { title: t.clone() },
        Negotiation::AskingFilename => Action::AskFilename,
    }
}

fn out_of_order(stage: &Stage, scratch: String) -> (r: Next)
    ensures
        r@ == NextView::Failed(failure_at(stage@, scratch@, out_of_order_message())),
{
    let message = String::from_str("the event does not answer the pending action");
    Next::Finished(Err(failure(stage, scratch, message)))
}

impl WriteSession {
    /// A session for a document with an optional title given up front. It
    /// starts by creating the scratch file with the template `"# "`.
    pub fn new(title: Option<String>) -> (r: (WriteSession, Action))
        ensures
            r.0.title == title,
            r.0.stage is Creating,
            r.1@ == ActionView::CreateScratch(template()),
    {
        proof {
            reveal_strlit("# ");
        }
        let t = String::from_str("# ");
        assert(t@ =~= template());
        (
            WriteSession { title, scratch: String::new(), stage: Stage::Creating },
            Action::CreateScratch { template: t },
        )
    }

    /// Takes in what came of the last action and decides what happens next.
    pub fn step(self, event: Event) -> (r: Next)
        ensures
            r@ == transition(self@, event@),
    {
        let WriteSession { title, scratch, stage } = self;
        match event {
            Event::Failed(message) => Next::Finished(Err(failure(&stage, scratch, message))),
            Event::ScratchCreated(path) => {
                if let Stage::Creating = stage {
                    let a = Action::Edit { scratch: path.clone() };
                    Next::Continue(WriteSession { title, scratch: path, stage: Stage::Editing }, a)
                } else {
                    out_of_order(&stage, scratch)
                }
            },
            Event::Edited => {
                if let Stage::Editing = stage {
                    let a = Action::ReadBack { scratch: scratch.clone() };
                    Next::Continue(WriteSession { title, scratch, stage: Stage::Reading }, a)
                } else {
                    out_of_order(&stage, scratch)
                }
            },
            Event::ContentRead(content) => {
                if let Stage::Reading = stage {
                    let found = match &title {
                        Some(t) => Some(t.clone()),
                        None => title_from_content(content.as_str()),
                    };
                    let n = Negotiation::new(found);
                    let a = question(&n);
                    Next::Continue(WriteSession { title, scratch, stage: Stage::Negotiating(n) }, a)
                } else {
                    out_of_order(&stage, scratch)
                }
            },
            Event::Replied(reply) => {
                if let Stage::Negotiating(n) = stage {
                    match n.answer(reply.as_str()) {
                        NegotiationStep::Ask(m) => {
                            let a = question(&m);
                            Next::Continue(
                                WriteSession { title, scratch, stage: Stage::Negotiating(m) },
                                a,
                            )
                        },
                        NegotiationStep::Settled(t) => {
                            let p = Placement::new(file_stem(t.as_str()));
                            let a = Action::Probe { name: p.candidate() };
                            Next::Continue(WriteSession { title, scratch, stage: Stage::Placing(p) }, a)
                        },
                    }
                } else {
                    out_of_order(&stage, scratch)
                }
            },
            Event::Probed(taken) => {
                if let Stage::Placing(p) = stage {
                    let mut p = p;
                    match p.next(taken) {
                        PlacementStep::Probe(name) => {
                            let a = Action::Probe { name };
                            Next::Continue(WriteSession { title, scratch, stage: Stage::Placing(p) }, a)
                        },
                        PlacementStep::Settle(name) => {
                            let a = Action::Commit { scratch: scratch.clone(), name: name.clone() };
                            Next::Continue(
                                WriteSession { title, scratch, stage: Stage::Committing(name) },
                                a,
                            )
                        },
                        PlacementStep::Exhausted => {
                            let message = String::from_str("no free file name is left");
                            Next::Finished(Err(GardenVarietyError::CommitError { filepath: scratch, message }))
                        },
                    }
                } else {
                    out_of_order(&stage, scratch)
                }
            },
            Event::Committed => {
                if let Stage::Committing(name) = stage {
                    Next::Finished(Ok(name))
                } else {
                    out_of_order(&stage, scratch)
                }
            },
        }
    }
}

} // verus!
