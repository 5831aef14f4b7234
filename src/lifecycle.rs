//! The lifecycle of the synchronisation process: the announcement once the
//! index is loaded, and what each turn of the poll loop does with the
//! termination flag and the line the host sent.

use vstd::prelude::*;

use crate::events::{notifies, PlatoMessage, PlatoResponse};

verus! {

/// When the index is fetched. The two policies differ in the work they
/// cause: `OneShot` downloads once per process, in the first turn of the
/// loop whatever was read, and ends the loop at the next turn; `Continuous`
/// downloads every indexed archive again on every line, until the host
/// closes its end.
#[derive(PartialEq, Eq, Structural, Clone, Copy, Debug)]
pub enum SyncPolicy {
    OneShot,
    Continuous,
}

#[derive(PartialEq, Eq, Structural, Clone, Copy, Debug)]
pub enum Phase {
    /// The index is built; the host has not been told yet.
    IndexLoaded,
    /// The loop reads the host's lines.
    Polling,
    /// The loop has ended.
    Terminated,
}

/// What one turn of the loop does after reading a line.
#[derive(PartialEq, Eq, Structural, Clone, Copy, Debug)]
pub enum LoopAction {
    /// Fetch every entry of the index.
    Synchronize,
    /// Leave the loop; the run ends without error.
    Exit,
}

/// What a line read from the host is, before any decoding.
#[derive(PartialEq, Eq, Structural, Clone, Copy, Debug)]
pub enum LineKind {
    /// Nothing was read: the host closed its end.
    EndOfInput,
    /// Only blanks and line breaks: no event.
    Blank,
    /// Text to decode.
    Text,
}

/// A line from the host, decoded.
#[derive(Debug, PartialEq)]
pub enum HostInput {
    EndOfInput,
    NoEvent,
    /// A line that is no known message; it is logged and otherwise ignored.
    Malformed,
    Event(PlatoResponse),
}

pub open spec fn is_blank_char(c: char) -> bool {
    c == ' ' || c == '\t' || c == '\r' || c == '\n'
}

pub open spec fn line_kind_of(line: Seq<char>) -> LineKind {
    if line.len() == 0 {
        LineKind::EndOfInput
    } else if forall|k: int| 0 <= k < line.len() ==> is_blank_char(#[trigger] line[k]) {
        LineKind::Blank
    } else {
        LineKind::Text
    }
}

/// Classifies a line as read from the host, line break included.
pub fn line_kind(line: &str) -> (r: LineKind)
    ensures
        r == line_kind_of(line@),
{
    let n = line.unicode_len();
    if n == 0 {
        return LineKind::EndOfInput;
    }
    let mut i: usize = 0;
    while i < n
        invariant
            i <= n,
            n == line@.len(),
            forall|k: int| 0 <= k < i ==> is_blank_char(#[trigger] line@[k]),
        decreases n - i,
    {
        let c = line.get_char(i);
        if !(c == ' ' || c == '\t' || c == '\r' || c == '\n') {
            return LineKind::Text;
        }
        i = i + 1;
    }
    LineKind::Blank
}

#[derive(PartialEq, Eq, Structural, Clone, Copy, Debug)]
pub struct ControllerState {
    pub policy: SyncPolicy,
    pub phase: Phase,
    /// Whether a synchronisation has been started.
    pub synced: bool,
}

/// The state after a polling turn that read `input`.
pub open spec fn after_input(s: ControllerState, input: HostInput) -> ControllerState {
    let ends = match s.policy {
        SyncPolicy::OneShot => s.synced,
        SyncPolicy::Continuous => input is EndOfInput,
    };
    if ends {
        ControllerState { phase: Phase::Terminated, ..s }
    } else {
        ControllerState { synced: true, ..s }
    }
}

/// The action of a polling turn that read `input`.
pub open spec fn action_for(s: ControllerState, input: HostInput) -> LoopAction {
    if after_input(s, input).phase == Phase::Terminated {
        LoopAction::Exit
    } else {
        LoopAction::Synchronize
    }
}

/// The driver of the poll loop.
pub struct Controller {
    state: ControllerState,
}

impl View for Controller {
    type V = ControllerState;

    closed spec fn view(&self) -> ControllerState {
        self.state
    }
}

impl Controller {
    /// A controller whose index has just been built.
    pub fn new(policy: SyncPolicy) -> (r: Self)
        ensures
            r@ == (ControllerState { policy, phase: Phase::IndexLoaded, synced: false }),
    {
        Controller { state: ControllerState { policy, phase: Phase::IndexLoaded, synced: false } }
    }

    /// The messages that tell the host the index is loaded: a notification,
    /// then a search of the destination folder, which also signals that the
    /// process is ready. Polling starts after them.
    pub fn announce(&mut self, destination: &str) -> (r: Vec<PlatoMessage>)
        requires
            old(self)@.phase == Phase::IndexLoaded,
        ensures
            final(self)@ == (ControllerState { phase: Phase::Polling, ..old(self)@ }),
            r@.len() == 2,
            notifies(r@[0], "Zotero Items tagged for Reading loaded!"@),
            r@[1] matches PlatoMessage::Search { path, query, sort_by } && path@ == destination@
                && query@.len() == 0 && sort_by.0@.len() == 0 && !sort_by.1,
    {
        self.state = ControllerState { phase: Phase::Polling, ..self.state };
        let mut r: Vec<PlatoMessage> = Vec::new();
        r.push(PlatoMessage::notify("Zotero Items tagged for Reading loaded!"));
        proof {
            reveal_strlit("");
        }
        r.push(PlatoMessage::serach(destination, "", "", false));
        r
    }

    /// The check at the top of each turn: whether the loop goes on. Once the
    /// termination flag is seen set, the loop has ended for good.
    pub fn keep_running(&mut self, terminated: bool) -> (r: bool)
        requires
            old(self)@.phase != Phase::IndexLoaded,
        ensures
            r == (!terminated && old(self)@.phase == Phase::Polling),
            terminated ==> final(self)@ == (ControllerState { phase: Phase::Terminated, ..old(self)@ }),
            !terminated ==> final(self)@ == old(self)@,
    {
        if terminated {
            self.state = ControllerState { phase: Phase::Terminated, ..self.state };
            false
        } else {
            self.state.phase == Phase::Polling
        }
    }

    /// What to do with what was read from the host. Under `OneShot` the
    /// first turn synchronises, whatever was read (the end of input
    /// included), and the next turn ends the loop. Under `Continuous` every
    /// line, whether it decoded or not, synchronises, and the end of input
    /// ends the loop.
    pub fn on_input(&mut self, input: &HostInput) -> (r: LoopAction)
        requires
            old(self)@.phase == Phase::Polling,
        ensures
            final(self)@ == after_input(old(self)@, *input),
            r == action_for(old(self)@, *input),
    {
        let ends = match self.state.policy {
            SyncPolicy::OneShot => self.state.synced,
            SyncPolicy::Continuous => match input {
                HostInput::EndOfInput => true,
                _ => false,
            },
        };
        if ends {
            self.state = ControllerState { phase: Phase::Terminated, ..self.state };
            LoopAction::Exit
        } else {
            self.state = ControllerState { synced: true, ..self.state };
            LoopAction::Synchronize
        }
    }

    pub fn phase(&self) -> (r: Phase)
        ensures
            r == self@.phase,
    {
        self.state.phase
    }
}

/// A line that does not decode ends nothing: it changes the loop's state
/// and action exactly as a line without an event does.
pub proof fn lemma_malformed_is_no_event(s: ControllerState)
    ensures
        after_input(s, HostInput::Malformed) == after_input(s, HostInput::NoEvent),
        action_for(s, HostInput::Malformed) == action_for(s, HostInput::NoEvent),
{
}

/// Under `OneShot`, the first turn synchronises whatever was read, even
/// when the host has already closed its end.
pub proof fn lemma_one_shot_first_turn_fetches(s: ControllerState, input: HostInput)
    requires
        s.policy == SyncPolicy::OneShot,
        s.phase == Phase::Polling,
        !s.synced,
    ensures
        action_for(s, input) == LoopAction::Synchronize,
        after_input(s, input).synced,
{
}

/// Under `OneShot`, once a synchronisation has started, every later line
/// ends the loop: the index is fetched at most once per process.
pub proof fn lemma_one_shot_fetches_once(s: ControllerState, input: HostInput)
    requires
        s.policy == SyncPolicy::OneShot,
        s.synced,
    ensures
        action_for(s, input) == LoopAction::Exit,
        after_input(s, input).phase == Phase::Terminated,
{
}

/// Under `Continuous`, every line but the end of input starts a
/// synchronisation and keeps the loop polling; the end of input ends it.
pub proof fn lemma_continuous_fetches_every_line(s: ControllerState, input: HostInput)
    requires
        s.policy == SyncPolicy::Continuous,
        s.phase == Phase::Polling,
        !(input is EndOfInput),
    ensures
        action_for(s, input) == LoopAction::Synchronize,
        after_input(s, input).phase == Phase::Polling,
        action_for(s, HostInput::EndOfInput) == LoopAction::Exit,
{
}

} // verus!
