//! The decisions of the ingestion loop.
//!
//! The loop itself reads lines and hands events on, which is the caller's
//! work. What to do next is decided here: the caller reports what happened
//! as a `Signal`, and `Console::step` answers with the `Action` to perform.
//!
//! ```text
//!            line that is no exit command        dispatch reported
//!     Idle ---------------------------------> Processing ---------> Idle
//!      |  \
//!      |   `--- exit command ---> Terminating
//!      `------- read failure ---> Stopped
//! ```
//!
//! `Terminating` and `Stopped` are final. A signal that the phase does not
//! expect changes nothing.

use crate::classify::{classify, classify_line, MessageKind};
use crate::element::{decode_all, decode_elements, element_models, ContentElement, ElementModel};
use crate::event::{assemble, assembled, EventModel, MessageEvent};
use crate::ident::{successor, IdGenerator};
use crate::text::{same_text, trim_end, trimmed};
use vstd::prelude::*;

verus! {

/// Whether `line` is one of the commands that end the process: `quit`,
/// `exit` or `q`, the whole line, in lower case.
pub open spec fn is_exit_command(line: Seq<char>) -> bool {
    line == "quit"@ || line == "exit"@ || line == "q"@
}

/// Tests a line for the commands that end the process.
pub fn exit_command(line: &str) -> (r: bool)
    ensures
        r == is_exit_command(line@),
{
    same_text(line, "quit") || same_text(line, "exit") || same_text(line, "q")
}

/// What a line stands for: the kind of message and its elements. `title` is
/// the display name that video and file elements carry.
pub open spec fn interpretation(line: Seq<char>, title: Seq<char>) -> (
    MessageKind,
    Seq<ElementModel>,
) {
    (classify(line).0, decode_all(classify(line).1, title))
}

/// Classifies a line and decodes its content.
pub fn interpret(line: &str, title: &str) -> (r: (MessageKind, Vec<ContentElement>))
    ensures
        (r.0, element_models(r.1@)) == interpretation(line@, title@),
{
    let (kind, content) = classify_line(line);
    (kind, decode_elements(content, title))
}

/// Where the loop stands.
#[derive(Clone, Copy, Debug, PartialEq, Eq, Structural)]
pub enum Phase {
    /// Waiting for the next line.
    Idle,
    /// An event was handed out and its dispatch has not been reported yet.
    Processing,
    /// An exit command was read: the process is to end.
    Terminating,
    /// Reading failed: the loop is over.
    Stopped,
}

/// What the caller reports.
#[derive(Clone, Debug, PartialEq, Eq)]
pub enum Signal {
    /// A line was read. It is given as read, with its line ending.
    Line(String),
    /// The input ended or could not be read.
    ReadFailed,
    /// The event handed out last was dispatched; `true` if that succeeded.
    Dispatched(bool),
}

/// A signal, with its line as a character sequence.
pub ghost enum SignalModel {
    Line(Seq<char>),
    ReadFailed,
    Dispatched(bool),
}

impl View for Signal {
    type V = SignalModel;

    open spec fn view(&self) -> SignalModel {
        match self {
            Signal::Line(raw) => SignalModel::Line(raw@),
            Signal::ReadFailed => SignalModel::ReadFailed,
            Signal::Dispatched(delivered) => SignalModel::Dispatched(*delivered),
        }
    }
}

/// What the caller is to do next.
#[derive(Clone, Debug, PartialEq, Eq)]
pub enum Action {
    /// Read the next line and report it.
    Read,
    /// Dispatch the event once and report how that went.
    Dispatch(MessageEvent),
    /// End the process at once.
    Exit,
    /// Leave the loop.
    Stop,
    /// Report the dispatch of the event that was handed out: nothing else
    /// is taken before that.
    AwaitDispatch,
}

/// An action, with its event as a model.
pub ghost enum ActionModel {
    Read,
    Dispatch(EventModel),
    Exit,
    Stop,
    AwaitDispatch,
}

impl View for Action {
    type V = ActionModel;

    open spec fn view(&self) -> ActionModel {
        match self {
            Action::Read => ActionModel::Read,
            Action::Dispatch(event) => ActionModel::Dispatch(event@),
            Action::Exit => ActionModel::Exit,
            Action::Stop => ActionModel::Stop,
            Action::AwaitDispatch => ActionModel::AwaitDispatch,
        }
    }
}

/// The state of the loop: its phase, the local account and the identifiers
/// that come next.
pub struct Console {
    phase: Phase,
    account_id: String,
    name: String,
    ids: IdGenerator,
}

/// The state of the loop, with its texts as character sequences.
pub ghost struct ConsoleModel {
    pub phase: Phase,
    pub account_id: Seq<char>,
    pub name: Seq<char>,
    pub ids: IdGenerator,
}

impl View for Console {
    type V = ConsoleModel;

    closed spec fn view(&self) -> ConsoleModel {
        ConsoleModel {
            phase: self.phase,
            account_id: self.account_id@,
            name: self.name@,
            ids: self.ids,
        }
    }
}

impl ConsoleModel {
    /// The same state in another phase.
    pub open spec fn in_phase(self, phase: Phase) -> ConsoleModel {
        ConsoleModel { phase, ..self }
    }

    /// The event made of `line`, which has no white space at its end and is
    /// no exit command, under the identifiers that come next.
    pub open spec fn event_of(self, line: Seq<char>) -> EventModel {
        assembled(
            interpretation(line, self.name).0,
            interpretation(line, self.name).1,
            self.account_id,
            self.name,
            self.ids.pending_event(),
            self.ids.pending_message(),
        )
    }

    /// The state after `signal`, and the action that answers it.
    pub open spec fn step(self, signal: SignalModel) -> (ConsoleModel, ActionModel) {
        match self.phase {
            Phase::Idle => match signal {
                SignalModel::Line(raw) => if is_exit_command(trimmed(raw)) {
                    (self.in_phase(Phase::Terminating), ActionModel::Exit)
                } else {
                    (
                        ConsoleModel {
                            phase: Phase::Processing,
                            ids: self.ids.after_event().after_message(),
                            ..self
                        },
                        ActionModel::Dispatch(self.event_of(trimmed(raw))),
                    )
                },
                SignalModel::ReadFailed => (self.in_phase(Phase::Stopped), ActionModel::Stop),
                SignalModel::Dispatched(_) => (self, ActionModel::Read),
            },
            Phase::Processing => match signal {
                SignalModel::Dispatched(_) => (self.in_phase(Phase::Idle), ActionModel::Read),
                _ => (self, ActionModel::AwaitDispatch),
            },
            Phase::Terminating => (self, ActionModel::Exit),
            Phase::Stopped => (self, ActionModel::Stop),
        }
    }
}

impl Console {
    /// A console for the account `account_id` with display name `name`:
    /// idle, with both identifier counters at zero.
    pub fn new(account_id: &str, name: &str) -> (console: Console)
        ensures
            console@.phase == Phase::Idle,
            console@.account_id == account_id@,
            console@.name == name@,
            console@.ids.pending_event() == 0,
            console@.ids.pending_message() == 0,
    {
        Console {
            phase: Phase::Idle,
            account_id: account_id.to_owned(),
            name: name.to_owned(),
            ids: IdGenerator::new(),
        }
    }

    /// The phase that the loop is in.
    pub fn phase(&self) -> (phase: Phase)
        ensures
            phase == self@.phase,
    {
        self.phase
    }

    /// Identifier of the local account.
    pub fn account_id(&self) -> (id: &str)
        ensures
            id@ == self@.account_id,
    {
        self.account_id.as_str()
    }

    /// Display name of the local account.
    pub fn name(&self) -> (name: &str)
        ensures
            name@ == self@.name,
    {
        self.name.as_str()
    }

    /// Takes a signal and answers with the action to perform.
    pub fn step(&mut self, signal: Signal) -> (action: Action)
        ensures
            (final(self)@, action@) == old(self)@.step(signal@),
    {
        match self.phase {
            Phase::Idle => match signal {
                Signal::Line(raw) => {
                    let line = trim_end(raw.as_str());
                    if exit_command(line) {
                        self.phase = Phase::Terminating;
                        Action::Exit
                    } else {
                        let (kind, elements) = interpret(line, self.name.as_str());
                        assert(element_models(elements@).len() == elements@.len());
                        let event = assemble(
                            kind,
                            elements,
                            self.account_id.as_str(),
                            self.name.as_str(),
                            &mut self.ids,
                        );
                        self.phase = Phase::Processing;
                        Action::Dispatch(event)
                    }
                },
                Signal::ReadFailed => {
                    self.phase = Phase::Stopped;
                    Action::Stop
                },
                Signal::Dispatched(_) => Action::Read,
            },
            Phase::Processing => match signal {
                Signal::Dispatched(_) => {
                    self.phase = Phase::Idle;
                    Action::Read
                },
                _ => Action::AwaitDispatch,
            },
            Phase::Terminating => Action::Exit,
            Phase::Stopped => Action::Stop,
        }
    }
}

impl ConsoleModel {
    /// The state after one line went through the loop: the line was taken
    /// and, where it led to an event, the dispatch of that event was
    /// reported.
    pub open spec fn after_line(self, raw: Seq<char>) -> ConsoleModel {
        self.step(SignalModel::Line(raw)).0.step(SignalModel::Dispatched(true)).0
    }

    /// The state after the lines went through the loop one after the other.
    pub open spec fn after_lines(self, lines: Seq<Seq<char>>) -> ConsoleModel
        decreases lines.len(),
    {
        if lines.len() == 0 {
            self
        } else {
            self.after_lines(lines.drop_last()).after_line(lines.last())
        }
    }

    /// The action that answers the line number `i` of `lines`, when the
    /// lines before it have gone through the loop.
    pub open spec fn answer_to(self, lines: Seq<Seq<char>>, i: int) -> ActionModel {
        self.after_lines(lines.take(i)).step(SignalModel::Line(lines[i])).1
    }
}

/// Whether none of the lines is an exit command.
pub open spec fn no_exit_command(lines: Seq<Seq<char>>) -> bool {
    forall|i: int| 0 <= i < lines.len() ==> !is_exit_command(trimmed(#[trigger] lines[i]))
}

/// `Terminating` and `Stopped` are final: whatever is reported, the state
/// stays as it is, no event is handed out and no identifier is drawn.
pub proof fn law_final_phases(state: ConsoleModel, signal: SignalModel)
    requires
        state.phase == Phase::Terminating || state.phase == Phase::Stopped,
    ensures
        state.step(signal).0 == state,
        !(state.step(signal).1 is Dispatch),
        state.phase == Phase::Terminating ==> state.step(signal).1 == ActionModel::Exit,
        state.phase == Phase::Stopped ==> state.step(signal).1 == ActionModel::Stop,
{
}

/// An exit command ends the process: the answer is `Exit`, no event is made
/// of the line and no identifier is drawn for it.
pub proof fn law_exit_command(state: ConsoleModel, raw: Seq<char>)
    requires
        state.phase == Phase::Idle,
        is_exit_command(trimmed(raw)),
    ensures
        state.step(SignalModel::Line(raw)).1 == ActionModel::Exit,
        state.step(SignalModel::Line(raw)).0 == state.in_phase(Phase::Terminating),
        state.step(SignalModel::Line(raw)).0.ids == state.ids,
{
}

/// A failed read stops the loop without an event.
pub proof fn law_read_failure(state: ConsoleModel)
    requires
        state.phase == Phase::Idle,
    ensures
        state.step(SignalModel::ReadFailed).1 == ActionModel::Stop,
        state.step(SignalModel::ReadFailed).0 == state.in_phase(Phase::Stopped),
{
}

/// A line that is no exit command leads to exactly one event. The event is
/// well formed, has one element, is of the kind that the line is classified
/// as, and carries the two identifiers that came next, each of which has
/// moved on by one afterwards.
pub proof fn law_line_is_dispatched(state: ConsoleModel, raw: Seq<char>)
    requires
        state.phase == Phase::Idle,
        !is_exit_command(trimmed(raw)),
    ensures
        state.step(SignalModel::Line(raw)).1 == ActionModel::Dispatch(state.event_of(trimmed(raw))),
        state.step(SignalModel::Line(raw)).0.phase == Phase::Processing,
        state.event_of(trimmed(raw)).well_formed(),
        state.event_of(trimmed(raw)).elements.len() == 1,
        state.event_of(trimmed(raw)).kind() == classify(trimmed(raw)).0,
        state.event_of(trimmed(raw)).event_id == state.ids.pending_event(),
        state.event_of(trimmed(raw)).message_id == state.ids.pending_message(),
        state.step(SignalModel::Line(raw)).0.ids.pending_event() == successor(
            state.ids.pending_event(),
        ),
        state.step(SignalModel::Line(raw)).0.ids.pending_message() == successor(
            state.ids.pending_message(),
        ),
{
    state.ids.lemma_allocation();
    state.ids.after_event().lemma_allocation();
}

/// The outcome of a dispatch does not matter to the loop: failed or not, it
/// is idle again and reads on.
pub proof fn law_dispatch_outcome(state: ConsoleModel, delivered: bool)
    requires
        state.phase == Phase::Processing,
    ensures
        state.step(SignalModel::Dispatched(delivered)).0 == state.in_phase(Phase::Idle),
        state.step(SignalModel::Dispatched(delivered)).1 == ActionModel::Read,
{
}

/// While an event is out, no line is taken: the state stays and no second
/// event is handed out.
pub proof fn law_one_event_at_a_time(state: ConsoleModel, signal: SignalModel)
    requires
        state.phase == Phase::Processing,
        !(signal is Dispatched),
    ensures
        state.step(signal) == (state, ActionModel::AwaitDispatch),
{
}

/// What a line is taken for does not depend on the identifiers: two idle
/// consoles with the same account answer the same line alike, and where they
/// make an event of it, the two events differ in their identifiers at most.
pub proof fn law_same_line_same_content(first: ConsoleModel, second: ConsoleModel, raw: Seq<char>)
    requires
        first.phase == Phase::Idle,
        second.phase == Phase::Idle,
        first.account_id == second.account_id,
        first.name == second.name,
    ensures
        first.step(SignalModel::Line(raw)).1 is Dispatch <==> second.step(
            SignalModel::Line(raw),
        ).1 is Dispatch,
        first.step(SignalModel::Line(raw)).1 is Dispatch ==> ({
            let a = first.step(SignalModel::Line(raw)).1->Dispatch_0;
            let b = second.step(SignalModel::Line(raw)).1->Dispatch_0;
            &&& a.kind() == b.kind()
            &&& a.elements == b.elements
            &&& a == EventModel {
                event_id: a.event_id,
                message_id: a.message_id,
                message_id_str: a.message_id_str,
                ..b
            }
        }),
        !(first.step(SignalModel::Line(raw)).1 is Dispatch) ==> first.step(
            SignalModel::Line(raw),
        ).1 == second.step(SignalModel::Line(raw)).1,
{
}

/// Two results that `interpret` may give for one line and one title hold the
/// same kind and the same elements.
pub proof fn law_interpretation_repeatable(
    line: Seq<char>,
    title: Seq<char>,
    first: (MessageKind, Vec<ContentElement>),
    second: (MessageKind, Vec<ContentElement>),
)
    requires
        (first.0, element_models(first.1@)) == interpretation(line, title),
        (second.0, element_models(second.1@)) == interpretation(line, title),
    ensures
        first.0 == second.0,
        first.1@.len() == second.1@.len(),
        forall|i: int| 0 <= i < first.1@.len() ==> first.1@[i]@ == second.1@[i]@,
{
    assert(element_models(first.1@).len() == first.1@.len());
    assert(element_models(second.1@).len() == second.1@.len());
    assert forall|i: int| 0 <= i < first.1@.len() implies first.1@[i]@ == second.1@[i]@ by {
        assert(element_models(first.1@)[i] == first.1@[i]@);
        assert(element_models(second.1@)[i] == second.1@[i]@);
    }
}

/// After lines that are no exit commands the loop is idle again, and each
/// counter has moved on by the number of lines.
pub proof fn lemma_after_lines(state: ConsoleModel, lines: Seq<Seq<char>>)
    requires
        state.phase == Phase::Idle,
        no_exit_command(lines),
        state.ids.pending_event() + lines.len() <= u64::MAX,
        state.ids.pending_message() + lines.len() <= u64::MAX,
    ensures
        state.after_lines(lines).phase == Phase::Idle,
        state.after_lines(lines).account_id == state.account_id,
        state.after_lines(lines).name == state.name,
        state.after_lines(lines).ids.pending_event() == state.ids.pending_event() + lines.len(),
        state.after_lines(lines).ids.pending_message() == state.ids.pending_message()
            + lines.len(),
    decreases lines.len(),
{
    if lines.len() > 0 {
        let before = lines.drop_last();
        assert forall|i: int| 0 <= i < before.len() implies !is_exit_command(
            trimmed(#[trigger] before[i]),
        ) by {
            assert(before[i] == lines[i]);
        }
        lemma_after_lines(state, before);
        law_line_is_dispatched(state.after_lines(before), lines.last());
    }
}

/// Events leave in the order of their lines, numbered in that order: of
/// lines that are no exit commands, fed to an idle console, the line number
/// `i` leads to the event whose two identifiers lie `i` after those that
/// came first. For a new console they are `i` itself.
pub proof fn law_identifiers_follow_lines(state: ConsoleModel, lines: Seq<Seq<char>>, i: int)
    requires
        state.phase == Phase::Idle,
        no_exit_command(lines),
        state.ids.pending_event() + lines.len() <= u64::MAX,
        state.ids.pending_message() + lines.len() <= u64::MAX,
        0 <= i < lines.len(),
    ensures
        state.answer_to(lines, i) is Dispatch,
        (state.answer_to(lines, i)->Dispatch_0).event_id == state.ids.pending_event() + i,
        (state.answer_to(lines, i)->Dispatch_0).message_id == state.ids.pending_message() + i,
        (state.answer_to(lines, i)->Dispatch_0).elements == interpretation(
            trimmed(lines[i]),
            state.name,
        ).1,
        (state.answer_to(lines, i)->Dispatch_0).kind() == interpretation(
            trimmed(lines[i]),
            state.name,
        ).0,
{
    let before = lines.take(i);
    assert forall|k: int| 0 <= k < before.len() implies !is_exit_command(
        trimmed(#[trigger] before[k]),
    ) by {
        assert(before[k] == lines[k]);
    }
    lemma_after_lines(state, before);
    law_line_is_dispatched(state.after_lines(before), lines[i]);
}

} // verus!
