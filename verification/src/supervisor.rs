//! The session supervisor.
//!
//! The supervisor owns the run state and the session setup.  It reacts to
//! operator control messages and to whichever event source is active, and
//! decides, as a pure step, what the surrounding process must do: emit a
//! line, answer a wordlist query, or tear the session down and change
//! state.  The run state changes only through [`Supervisor::on_control`]
//! (an explicit `SetState`) or [`Supervisor::on_fatal`] (a fatal pipeline
//! error, which always demotes to `Stopped`); nothing else moves it.

use vstd::prelude::*;
use crate::config::{language_code, spec_language_code, Config, RecognitionSettings};
use crate::text::{clone_opt_string, clone_strings, non_blank_lines, spec_lines, spec_non_blank};
use crate::wordlist::{contains_name, name_in_options, Wordlist};

verus! {

/// The supervisor's mode.
#[derive(Debug, Clone, Copy, PartialEq, Eq, Structural, Default)]
pub enum RunState {
    /// Blocked awaiting the next control message; no pipeline is active.
    #[default]
    Stopped,
    /// Live capture and recognition.
    Running,
    /// Scripted playback of the test corpus.
    Test,
}

/// A command from the operator.
#[derive(Debug, Clone, PartialEq, Eq)]
pub enum ControlMessage {
    /// Switch to the given run state.
    SetState(RunState),
    /// Select the named wordlist, or clear the selection.
    SetWordlist(Option<String>),
    /// Ask for the offered wordlists and the current selection.
    GetWordlist,
}

/// Session configuration owned by the supervisor.  It persists unchanged
/// across run-state transitions and is mutated only by control messages.
#[derive(Debug, Clone, PartialEq, Eq)]
pub struct SetupState {
    /// The language code the recognition session is configured with.
    pub language: String,
    /// The selected wordlist file, if any.
    pub wordlist: Option<String>,
}

/// The language a fresh session starts with.
pub open spec fn default_language() -> Seq<char> {
    "en-GB"@
}

impl Default for SetupState {
    /// The default setup: British English, no wordlist selected.
    fn default() -> (s: SetupState)
        ensures
            s.language@ == default_language(),
            s.wordlist is None,
    {
        SetupState { language: "en-GB".to_owned(), wordlist: None }
    }
}

/// What the supervisor can observe, reduced to what moves the run state:
/// an explicit state command, a wordlist command, an ordinary pipeline
/// event, or a fatal pipeline error.
#[derive(Debug, Clone, Copy, PartialEq, Eq, Structural)]
pub enum SupervisorInput {
    /// A `SetState` command carrying the requested state.
    SetState(RunState),
    /// A `SetWordlist` or `GetWordlist` command.
    Wordlist,
    /// A recognition event or playback tick.
    Pipeline,
    /// A connect failure or a fatal end of the event stream.
    Fatal,
}

/// How one observation moves the run state: a `SetState` command is always
/// honored, a fatal error always demotes to `Stopped`, and nothing else
/// changes the state.
pub open spec fn next_run_state(s: RunState, input: SupervisorInput) -> RunState {
    match input {
        SupervisorInput::SetState(target) => target,
        SupervisorInput::Fatal => RunState::Stopped,
        SupervisorInput::Wordlist => s,
        SupervisorInput::Pipeline => s,
    }
}

/// The run state after a whole run of observations, in order.
pub open spec fn run_state_after(s: RunState, inputs: Seq<SupervisorInput>) -> RunState
    decreases inputs.len(),
{
    if inputs.len() == 0 {
        s
    } else {
        run_state_after(next_run_state(s, inputs.first()), inputs.drop_first())
    }
}

/// The observation a control message amounts to.
pub open spec fn input_of_message(msg: ControlMessage) -> SupervisorInput {
    match msg {
        ControlMessage::SetState(target) => SupervisorInput::SetState(target),
        ControlMessage::SetWordlist(_) => SupervisorInput::Wordlist,
        ControlMessage::GetWordlist => SupervisorInput::Wordlist,
    }
}

/// An observation that forces the run state, regardless of what it was.
pub open spec fn decisive(input: SupervisorInput) -> bool {
    input is SetState || input is Fatal
}

/// The state a decisive observation forces.
pub open spec fn forced_state(input: SupervisorInput) -> RunState {
    match input {
        SupervisorInput::SetState(target) => target,
        _ => RunState::Stopped,
    }
}

/// What the caller of [`Supervisor::on_control`] must do next.
#[derive(Debug, Clone, PartialEq, Eq)]
pub enum ControlOutcome {
    /// The message was absorbed; the current loop goes on.
    Handled,
    /// The requested wordlist is not on offer; a warning is logged and the
    /// prior selection is kept.
    WordlistRejected,
    /// Answer a wordlist query with this snapshot.
    Reply(Wordlist),
    /// Leave the current loop for the new run state, disconnecting the
    /// recognition session first when one is active.
    Transition { disconnect: bool },
}

/// The session supervisor: the current mode and the session setup.
pub struct Supervisor {
    pub run_state: RunState,
    pub setup: SetupState,
}

impl Supervisor {
    /// A fresh supervisor: stopped, with the default setup.
    pub fn new() -> (s: Supervisor)
        ensures
            s.run_state is Stopped,
            s.setup.language@ == default_language(),
            s.setup.wordlist is None,
    {
        Supervisor { run_state: RunState::Stopped, setup: SetupState::default() }
    }

    /// React to one control message.  `options` is the current directory
    /// listing, consulted only for wordlist commands.
    ///
    /// A `SetState` to the state already active is a no-op; any other
    /// `SetState` is honored and asks the caller to leave its loop,
    /// disconnecting first exactly when the session was running.  Wordlist
    /// commands are handled in place: a query is answered with a snapshot,
    /// a selection is accepted only when it names an offered option, and a
    /// rejected selection keeps the prior one.  The language never changes.
    pub fn on_control(&mut self, msg: ControlMessage, options: &Vec<String>) -> (o: ControlOutcome)
        ensures
            final(self).run_state == next_run_state(
                old(self).run_state,
                input_of_message(msg),
            ),
            final(self).setup.language == old(self).setup.language,
            msg is SetState ==> final(self).setup == old(self).setup,
            msg matches ControlMessage::SetState(target) ==> (target == old(self).run_state
                ==> o == ControlOutcome::Handled) && (target != old(self).run_state ==> o == (
            ControlOutcome::Transition { disconnect: old(self).run_state is Running })),
            msg is GetWordlist ==> final(self).setup == old(self).setup && (o matches
                ControlOutcome::Reply(w) && w.options.deep_view() == options.deep_view()
                && w.current == old(self).setup.wordlist),
            msg == ControlMessage::SetWordlist(None::<String>) ==> final(self).setup.wordlist
                is None && o == ControlOutcome::Handled,
            msg matches ControlMessage::SetWordlist(Some(choice)) ==> (contains_name(
                options.deep_view(),
                choice@,
            ) ==> final(self).setup.wordlist == Some(choice) && o == ControlOutcome::Handled) && (
            !contains_name(options.deep_view(), choice@) ==> final(self).setup.wordlist == old(
                self,
            ).setup.wordlist && o == ControlOutcome::WordlistRejected),
    {
        match msg {
            ControlMessage::SetState(target) => {
                let previous = self.run_state;
                self.run_state = target;
                if target == previous {
                    ControlOutcome::Handled
                } else {
                    ControlOutcome::Transition { disconnect: previous == RunState::Running }
                }
            },
            ControlMessage::GetWordlist => {
                let snapshot = Wordlist {
                    options: clone_strings(options),
                    current: clone_opt_string(&self.setup.wordlist),
                };
                ControlOutcome::Reply(snapshot)
            },
            ControlMessage::SetWordlist(None) => {
                self.setup.wordlist = None;
                ControlOutcome::Handled
            },
            ControlMessage::SetWordlist(Some(choice)) => {
                if name_in_options(options, &choice) {
                    self.setup.wordlist = Some(choice);
                    ControlOutcome::Handled
                } else {
                    ControlOutcome::WordlistRejected
                }
            },
        }
    }

    /// React to a fatal pipeline error — a connect failure or a fatal end
    /// of the event stream.  The session always falls back to `Stopped`;
    /// no automatic reconnect is attempted.  The setup is untouched.
    pub fn on_fatal(&mut self)
        ensures
            final(self).run_state == next_run_state(old(self).run_state, SupervisorInput::Fatal),
            final(self).run_state is Stopped,
            final(self).setup == old(self).setup,
    {
        self.run_state = RunState::Stopped;
    }

    /// The directory and file name of the selected wordlist, when both a
    /// wordlist directory is configured and a wordlist is selected.
    pub fn selected_wordlist(&self, config: &Config) -> (r: Option<(String, String)>)
        ensures
            r is Some <==> config.wordlist_dir is Some && self.setup.wordlist is Some,
            r matches Some(p) ==> p.0 == config.wordlist_dir->Some_0 && p.1
                == self.setup.wordlist->Some_0,
    {
        match (&config.wordlist_dir, &self.setup.wordlist) {
            (Some(dir), Some(file)) => Some((dir.clone(), file.clone())),
            _ => None,
        }
    }

    /// Resolve the setup into the settings a recognition session is
    /// started with: the resolved language, and the non-blank lines of the
    /// selected wordlist's text when one was read.
    pub fn recognition_settings(&self, wordlist_text: Option<&str>) -> (r: RecognitionSettings)
        ensures
            r.language == spec_language_code(self.setup.language@),
            wordlist_text matches Some(text) ==> r.phrases matches Some(ps) && ps.deep_view()
                == spec_non_blank(spec_lines(text@)),
            wordlist_text is None ==> r.phrases is None,
    {
        let phrases = match wordlist_text {
            Some(text) => Some(non_blank_lines(text)),
            None => None,
        };
        RecognitionSettings { language: language_code(&self.setup.language), phrases }
    }
}

/// Without a `SetState` command or a fatal error, the run state never
/// moves: wordlist commands and ordinary pipeline events leave it alone.
pub proof fn lemma_run_state_stable_without_commands(s: RunState, inputs: Seq<SupervisorInput>)
    requires
        forall|k: int| 0 <= k < inputs.len() ==> !decisive(#[trigger] inputs[k]),
    ensures
        run_state_after(s, inputs) == s,
    decreases inputs.len(),
{
    if inputs.len() > 0 {
        assert(!decisive(inputs[0]));
        assert(next_run_state(s, inputs.first()) == s);
        assert(forall|k: int|
            0 <= k < inputs.drop_first().len() ==> !decisive(
                #[trigger] inputs.drop_first()[k],
            )) by {
            assert(forall|k: int|
                0 <= k < inputs.drop_first().len() ==> inputs.drop_first()[k] == inputs[k + 1]);
        }
        lemma_run_state_stable_without_commands(s, inputs.drop_first());
    }
}

/// The run state observed after any interleaving of commands and pipeline
/// events equals what the last decisive observation forced: the state of
/// the last `SetState` processed, except that a fatal error after it
/// forces `Stopped`.
pub proof fn lemma_run_state_tracks_last_command(
    s: RunState,
    inputs: Seq<SupervisorInput>,
    j: int,
)
    requires
        0 <= j < inputs.len(),
        decisive(inputs[j]),
        forall|k: int| j < k < inputs.len() ==> !decisive(#[trigger] inputs[k]),
    ensures
        run_state_after(s, inputs) == forced_state(inputs[j]),
    decreases inputs.len(),
{
    let rest = inputs.drop_first();
    assert(forall|k: int| 0 <= k < rest.len() ==> rest[k] == inputs[k + 1]);
    if j == 0 {
        assert(next_run_state(s, inputs.first()) == forced_state(inputs[0]));
        lemma_run_state_stable_without_commands(forced_state(inputs[0]), rest);
    } else {
        assert(rest[j - 1] == inputs[j]);
        lemma_run_state_tracks_last_command(next_run_state(s, inputs.first()), rest, j - 1);
    }
}

} // verus!
