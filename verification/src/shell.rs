//! The evaluator of shell commands: what it remembers, what it runs once
//! for many callers, and what it makes of a command's output.

use crate::config::ShellCommandStream;
use crate::lru_cache::{
    after_get, after_put, key_position, lemma_key_position, lru_capacity, lru_entries, lru_get,
    lru_new, lru_put,
};
use crate::position::{
    first_position, lemma_first_position, lemma_first_position_in_prefix,
    lemma_first_position_step,
};
use crate::string_map::StringMap;
use crate::text::{concat, decimal, decimal_string, from_utf8_lossy, str_eq, trim, trimmed, utf8_lossy};
use vstd::prelude::*;
use vstd::string::StringExecFns;

verus! {

/// The cache capacity that is taken where none, or zero, is asked for.
pub const DEFAULT_CACHE_CAPACITY: usize = 100;

/// Why a shell command gave no name.
#[derive(Debug, Clone, PartialEq, Eq)]
pub enum Error {
    /// The command could not be made from its template.
    TemplateRender(String),
    /// The command could not be started.
    Execution(String),
    /// Another caller ran the command, and it failed there.
    Wait(String),
    /// The command left nothing but whitespace on the chosen output.
    Empty,
    /// The command ended with this exit code, or was ended by a signal (-1).
    Exit(i32),
    /// The evaluator is shutting down.
    ShuttingDown,
}

/// An error by its contents.
pub enum ErrorView {
    TemplateRender(Seq<char>),
    Execution(Seq<char>),
    Wait(Seq<char>),
    Empty,
    Exit(i32),
    ShuttingDown,
}

impl View for Error {
    type V = ErrorView;

    open spec fn view(&self) -> ErrorView {
        match self {
            Error::TemplateRender(reason) => ErrorView::TemplateRender(reason@),
            Error::Execution(reason) => ErrorView::Execution(reason@),
            Error::Wait(reason) => ErrorView::Wait(reason@),
            Error::Empty => ErrorView::Empty,
            Error::Exit(code) => ErrorView::Exit(*code),
            Error::ShuttingDown => ErrorView::ShuttingDown,
        }
    }
}

/// An error in words.
pub open spec fn error_text(error: ErrorView) -> Seq<char> {
    match error {
        ErrorView::TemplateRender(reason) => "Failed to prepare shell command: "@ + reason,
        ErrorView::Execution(reason) => "Failed to execute shell command: "@ + reason,
        ErrorView::Wait(reason) => "Failed to wait on ongoing shell command execution: "@
            + reason,
        ErrorView::Empty => "Shell command returned empty result"@,
        ErrorView::Exit(code) => "The command exited with code: "@ + decimal(code as int),
        ErrorView::ShuttingDown => "Evaluator shutting down"@,
    }
}

impl Error {
    /// The error in words.
    pub fn to_string(&self) -> (r: String)
        ensures
            r@ == error_text(self@),
    {
        match self {
            Error::TemplateRender(reason) => concat(
                "Failed to prepare shell command: ",
                reason.as_str(),
            ),
            Error::Execution(reason) => concat(
                "Failed to execute shell command: ",
                reason.as_str(),
            ),
            Error::Wait(reason) => concat(
                "Failed to wait on ongoing shell command execution: ",
                reason.as_str(),
            ),
            Error::Empty => String::from_str("Shell command returned empty result"),
            Error::Exit(code) => {
                let code = decimal_string(*code as i64);
                concat("The command exited with code: ", code.as_str())
            },
            Error::ShuttingDown => String::from_str("Evaluator shutting down"),
        }
    }
}

/// A result by its contents.
pub open spec fn outcome_view(outcome: Result<String, Error>) -> Result<Seq<char>, ErrorView> {
    match outcome {
        Ok(text) => Ok(text@),
        Err(error) => Err(error@),
    }
}

/// Something that turns the template of a shell command and its variables
/// into the command's output.
pub trait Evaluator {
    /// Evaluates a shell command template with the given variables.
    fn evaluate_blocking(
        &self,
        command_tpl: &str,
        variables: StringMap,
        output: ShellCommandStream,
    ) -> Result<String, Error>;
}

/// What a finished command gave: an exit code other than success is an
/// error; otherwise the chosen output, read as text.
pub open spec fn spec_command_output(
    success: bool,
    code: Option<i32>,
    stdout: Seq<u8>,
    stderr: Seq<u8>,
    output: ShellCommandStream,
) -> Result<Seq<char>, ErrorView> {
    if !success {
        Err(
            ErrorView::Exit(
                match code {
                    Some(code) => code,
                    None => -1i32,
                },
            ),
        )
    } else {
        match output {
            ShellCommandStream::Stdout => Ok(utf8_lossy(stdout)),
            ShellCommandStream::Stderr => Ok(utf8_lossy(stderr)),
        }
    }
}

/// Reads what a finished command gave. `success` and `code` are what the
/// exit status says; a command that a signal ended has no code.
pub fn command_output(
    success: bool,
    code: Option<i32>,
    stdout: &[u8],
    stderr: &[u8],
    output: ShellCommandStream,
) -> (r: Result<String, Error>)
    ensures
        outcome_view(r) == spec_command_output(success, code, stdout@, stderr@, output),
{
    if !success {
        let code = match code {
            Some(code) => code,
            None => -1,
        };
        return Err(Error::Exit(code));
    }
    match output {
        ShellCommandStream::Stdout => Ok(from_utf8_lossy(stdout)),
        ShellCommandStream::Stderr => Ok(from_utf8_lossy(stderr)),
    }
}

/// What the caller that ran a command hands to the callers that waited for
/// it: the output, or the error in words.
pub open spec fn spec_broadcast(outcome: Result<Seq<char>, ErrorView>) -> Result<
    Seq<char>,
    Seq<char>,
> {
    match outcome {
        Ok(text) => Ok(text),
        Err(error) => Err(error_text(error)),
    }
}

/// What a caller that waited makes of what it received: the output, an
/// error that tells of the failure elsewhere, or, where the channel closed
/// with nothing sent, that the evaluator shuts down.
pub open spec fn spec_waiter_outcome(received: Option<Result<Seq<char>, Seq<char>>>) -> Result<
    Seq<char>,
    ErrorView,
> {
    match received {
        None => Err(ErrorView::ShuttingDown),
        Some(Ok(text)) => Ok(text),
        Some(Err(reason)) => Err(ErrorView::Wait(reason)),
    }
}

/// A result of text or words by its contents.
pub open spec fn message_view(message: Result<String, String>) -> Result<Seq<char>, Seq<char>> {
    match message {
        Ok(text) => Ok(text@),
        Err(reason) => Err(reason@),
    }
}

/// What the caller that ran a command hands to those that waited for it.
pub fn broadcast_value(outcome: &Result<String, Error>) -> (r: Result<String, String>)
    ensures
        message_view(r) == spec_broadcast(outcome_view(*outcome)),
{
    match outcome {
        Ok(text) => Ok(text.clone()),
        Err(error) => Err(error.to_string()),
    }
}

/// What a caller that waited makes of what it received; `None` stands for a
/// channel that closed with nothing sent.
pub fn waiter_outcome(received: Option<Result<String, String>>) -> (r: Result<String, Error>)
    ensures
        outcome_view(r) == spec_waiter_outcome(
            match received {
                Some(message) => Some(message_view(message)),
                None => None,
            },
        ),
{
    match received {
        None => Err(Error::ShuttingDown),
        Some(Ok(text)) => Ok(text),
        Some(Err(reason)) => Err(Error::Wait(reason)),
    }
}

/// Every caller that waited for a command sees the output that the caller
/// who ran it saw, or an error where that caller saw one.
pub proof fn lemma_waiters_see_the_runners_outcome(outcome: Result<Seq<char>, ErrorView>)
    ensures
        outcome matches Ok(text) ==> spec_waiter_outcome(Some(spec_broadcast(outcome))) == Ok::<
            Seq<char>,
            ErrorView,
        >(text),
        outcome is Err ==> spec_waiter_outcome(Some(spec_broadcast(outcome))) is Err,
{
}

/// What the evaluator knows of a command when a caller asks for it.
#[derive(Debug, Clone, PartialEq, Eq)]
pub enum CommandState {
    /// Nobody runs the command and no output of it is remembered: the caller
    /// runs it.
    NotStarted,
    /// Another caller runs the command: the caller waits for that one.
    InProgress,
    /// The command ran before, with this output.
    Completed(String),
}

/// An answer by its contents.
pub enum CommandStateView {
    NotStarted,
    InProgress,
    Completed(Seq<char>),
}

impl View for CommandState {
    type V = CommandStateView;

    open spec fn view(&self) -> CommandStateView {
        match self {
            CommandState::NotStarted => CommandStateView::NotStarted,
            CommandState::InProgress => CommandStateView::InProgress,
            CommandState::Completed(output) => CommandStateView::Completed(output@),
        }
    }
}

/// What the evaluator holds.
pub struct EvaluatorState {
    /// The commands that some caller runs right now.
    pub in_progress: Seq<Seq<char>>,
    /// The commands that ran, each with its output, the most recently used
    /// first.
    pub cached: Seq<(Seq<char>, Seq<char>)>,
    /// The number of outputs that are remembered at most.
    pub capacity: nat,
}

/// The commands in progress without one of them.
pub open spec fn without_command(commands: Seq<Seq<char>>, command: Seq<char>) -> Seq<Seq<char>> {
    match first_position(commands, command) {
        Some(at) => commands.remove(at),
        None => commands,
    }
}

/// The capacity that is taken for the one asked for: 100 in place of zero.
pub open spec fn effective_capacity(asked: nat) -> nat {
    if asked == 0 {
        DEFAULT_CACHE_CAPACITY as nat
    } else {
        asked
    }
}

/// What an evaluator holds when it is made.
pub open spec fn initial_state(asked: nat) -> EvaluatorState {
    EvaluatorState {
        in_progress: Seq::empty(),
        cached: Seq::empty(),
        capacity: effective_capacity(asked),
    }
}

/// A caller asks for a command. An output that is remembered is the answer,
/// and becomes the most recently used. Otherwise a command that is in
/// progress is waited for; and one that is not is put in progress, for the
/// caller to run.
pub open spec fn begin_step(state: EvaluatorState, command: Seq<char>) -> (
    EvaluatorState,
    CommandStateView,
) {
    match key_position(state.cached, command) {
        Some(at) => (
            EvaluatorState { cached: after_get(state.cached, command), ..state },
            CommandStateView::Completed(state.cached[at].1),
        ),
        None => if state.in_progress.contains(command) {
            (state, CommandStateView::InProgress)
        } else {
            (
                EvaluatorState { in_progress: state.in_progress.push(command), ..state },
                CommandStateView::NotStarted,
            )
        },
    }
}

/// The caller that ran a command brings what it gave. The command is no
/// longer in progress. Output that is more than whitespace is trimmed,
/// remembered and handed back; output that is not is an error, and an error
/// stays the error it is: neither is remembered.
pub open spec fn finish_step(
    state: EvaluatorState,
    command: Seq<char>,
    output: Result<Seq<char>, ErrorView>,
) -> (EvaluatorState, Result<Seq<char>, ErrorView>) {
    let in_progress = without_command(state.in_progress, command);
    match output {
        Err(error) => (EvaluatorState { in_progress, ..state }, Err(error)),
        Ok(text) => if trimmed(text).len() == 0 {
            (EvaluatorState { in_progress, ..state }, Err(ErrorView::Empty))
        } else {
            (
                EvaluatorState {
                    in_progress,
                    cached: after_put(state.cached, state.capacity, command, trimmed(text)),
                    capacity: state.capacity,
                },
                Ok(trimmed(text)),
            )
        },
    }
}

/// Whether a state can come about: no command is in progress twice, the
/// cache holds no more than its capacity, and every output in it is more
/// than nothing.
pub open spec fn state_wf(state: EvaluatorState) -> bool {
    &&& state.in_progress.no_duplicates()
    &&& state.capacity > 0
    &&& state.cached.len() <= state.capacity
    &&& forall|i: int| 0 <= i < state.cached.len() ==> (#[trigger] state.cached[i]).1.len() > 0
}

/// The cache never holds a failed outcome: an evaluator starts with an
/// empty cache, and neither asking for a command nor bringing what it gave
/// puts anything into the cache but output that is more than nothing.
pub proof fn lemma_cache_holds_only_successes(
    state: EvaluatorState,
    command: Seq<char>,
    output: Result<Seq<char>, ErrorView>,
    asked: nat,
)
    requires
        state_wf(state),
    ensures
        state_wf(initial_state(asked)),
        state_wf(begin_step(state, command).0),
        state_wf(finish_step(state, command, output).0),
        output is Err ==> finish_step(state, command, output).0.cached == state.cached,
{
    lemma_key_position(state.cached, command);
    lemma_first_position(state.in_progress, command);
    let begun = begin_step(state, command).0;
    match key_position(state.cached, command) {
        Some(at) => {
            assert forall|i: int| 0 <= i < begun.cached.len() implies (
            #[trigger] begun.cached[i]).1.len() > 0 by {
                if i > 0 {
                    let from = if i - 1 < at {
                        i - 1
                    } else {
                        i
                    };
                    assert(begun.cached[i] == state.cached[from]);
                }
            }
        },
        None => {
            if !state.in_progress.contains(command) {
                assert forall|i: int, j: int|
                    0 <= i < begun.in_progress.len() && 0 <= j < begun.in_progress.len() && i
                        != j implies begun.in_progress[i] != begun.in_progress[j] by {
                    if i < state.in_progress.len() {
                        assert(state.in_progress[i] == begun.in_progress[i]);
                    }
                    if j < state.in_progress.len() {
                        assert(state.in_progress[j] == begun.in_progress[j]);
                    }
                }
            }
        },
    }
    let finished = finish_step(state, command, output).0;
    match first_position(state.in_progress, command) {
        Some(at) => {
            assert forall|i: int, j: int|
                0 <= i < finished.in_progress.len() && 0 <= j < finished.in_progress.len() && i
                    != j implies finished.in_progress[i] != finished.in_progress[j] by {
                let from_i = if i < at {
                    i
                } else {
                    i + 1
                };
                let from_j = if j < at {
                    j
                } else {
                    j + 1
                };
                assert(finished.in_progress[i] == state.in_progress[from_i]);
                assert(finished.in_progress[j] == state.in_progress[from_j]);
            }
        },
        None => {},
    }
    if output matches Ok(text) && trimmed(text).len() > 0 {
        assert forall|i: int| 0 <= i < finished.cached.len() implies (
        #[trigger] finished.cached[i]).1.len() > 0 by {
            if i > 0 {
                match key_position(state.cached, command) {
                    Some(at) => {
                        let from = if i - 1 < at {
                            i - 1
                        } else {
                            i
                        };
                        assert(finished.cached[i] == state.cached[from]);
                    },
                    None => {
                        assert(finished.cached[i] == state.cached[i - 1]);
                    },
                }
            }
        }
    }
}

/// A command runs once for all who ask while it runs: the caller who is
/// told that it has not started finds it in progress from then on, whatever
/// is asked for in between, until its outcome is brought; and whoever asks
/// for a command in progress is not told to run it.
pub proof fn lemma_single_flight(state: EvaluatorState, command: Seq<char>, other: Seq<char>)
    requires
        state_wf(state),
    ensures
        begin_step(state, command).1 is NotStarted ==> begin_step(
            state,
            command,
        ).0.in_progress.contains(command),
        state.in_progress.contains(command) ==> begin_step(state, other).0.in_progress.contains(
            command,
        ),
        state.in_progress.contains(command) ==> !(begin_step(state, command).1 is NotStarted),
        command != other && state.in_progress.contains(command) ==> finish_step(
            state,
            other,
            Err(ErrorView::Empty),
        ).0.in_progress.contains(command),
        !finish_step(state, command, Err(ErrorView::Empty)).0.in_progress.contains(command),
{
    lemma_first_position(state.in_progress, command);
    lemma_first_position(state.in_progress, other);
    let begun = begin_step(state, command).0;
    if begin_step(state, command).1 is NotStarted {
        assert(begun.in_progress[state.in_progress.len() as int] == command);
    }
    if state.in_progress.contains(command) {
        let at = choose|j: int| 0 <= j < state.in_progress.len() && state.in_progress[j] == command;
        let begun_other = begin_step(state, other).0;
        assert(begun_other.in_progress[at] == command);
        if command != other {
            let finished = finish_step(state, other, Err(ErrorView::Empty)).0;
            match first_position(state.in_progress, other) {
                Some(gone) => {
                    let to = if at < gone {
                        at
                    } else {
                        at - 1
                    };
                    assert(finished.in_progress[to] == command);
                },
                None => {},
            }
        }
    }
    let finished = finish_step(state, command, Err(ErrorView::Empty)).0;
    match first_position(state.in_progress, command) {
        Some(gone) => {
            if finished.in_progress.contains(command) {
                let j = choose|j: int|
                    0 <= j < finished.in_progress.len() && finished.in_progress[j] == command;
                let from = if j < gone {
                    j
                } else {
                    j + 1
                };
                assert(state.in_progress[from] == command);
            }
        },
        None => {},
    }
}

/// The characters of each command of a list.
pub open spec fn command_views(commands: Seq<String>) -> Seq<Seq<char>> {
    commands.map_values(|command: String| command@)
}

/// What the evaluator of shell commands holds between the moments at which
/// its callers ask and answer: the commands in progress and the cache of
/// outputs. One caller at a time works on it.
pub struct ShellEvaluator {
    in_progress: Vec<String>,
    completed: lru::LruCache<String, String>,
}

impl ShellEvaluator {
    /// What the evaluator holds.
    pub closed spec fn state(&self) -> EvaluatorState {
        EvaluatorState {
            in_progress: command_views(self.in_progress@),
            cached: lru_entries(self.completed),
            capacity: lru_capacity(self.completed),
        }
    }

    /// Whether the evaluator is in a state that can come about.
    pub open spec fn wf(&self) -> bool {
        state_wf(self.state())
    }

    /// An evaluator that remembers up to `cache_capacity` outputs, and up to
    /// 100 where zero is asked for.
    pub fn new(cache_capacity: usize) -> (r: ShellEvaluator)
        ensures
            r.wf(),
            r.state() == initial_state(cache_capacity as nat),
    {
        let capacity = if cache_capacity == 0 {
            DEFAULT_CACHE_CAPACITY
        } else {
            cache_capacity
        };
        let r = ShellEvaluator { in_progress: Vec::new(), completed: lru_new(capacity) };
        proof {
            assert(command_views(r.in_progress@) =~= Seq::<Seq<char>>::empty());
        }
        r
    }

    /// The place of a command among those in progress.
    fn position(&self, command: &str) -> (r: Option<usize>)
        ensures
            match r {
                Some(at) => first_position(self.state().in_progress, command@) == Some(
                    at as int,
                ),
                None => first_position(self.state().in_progress, command@) is None,
            },
    {
        let ghost commands = command_views(self.in_progress@);
        let mut i: usize = 0;
        proof {
            assert(commands.subrange(0, 0) =~= Seq::<Seq<char>>::empty());
        }
        while i < self.in_progress.len()
            invariant
                i <= self.in_progress.len(),
                commands == command_views(self.in_progress@),
                first_position(commands.subrange(0, i as int), command@) is None,
            decreases self.in_progress.len() - i,
        {
            proof {
                lemma_first_position_step(commands, command@, i as int);
            }
            if str_eq(self.in_progress[i].as_str(), command) {
                proof {
                    lemma_first_position_in_prefix(commands, command@, i + 1, i as int);
                }
                return Some(i);
            }
            i = i + 1;
        }
        proof {
            assert(commands.subrange(0, i as int) =~= commands);
        }
        None
    }

    /// Asks for a command. The answer says what the caller does next: take
    /// the output that is remembered, wait for the caller that runs the
    /// command, or run it. In the last case the command is in progress from
    /// now on, and the caller owes its outcome to [`ShellEvaluator::finish`].
    pub fn begin(&mut self, command: &str) -> (r: CommandState)
        requires
            old(self).wf(),
        ensures
            final(self).wf(),
            (final(self).state(), r@) == begin_step(old(self).state(), command@),
    {
        proof {
            lemma_cache_holds_only_successes(self.state(), command@, Err(ErrorView::Empty), 0);
            lemma_key_position(self.state().cached, command@);
            lemma_first_position(self.state().in_progress, command@);
        }
        match lru_get(&mut self.completed, command) {
            Some(output) => CommandState::Completed(output),
            None => {
                match self.position(command) {
                    Some(_) => CommandState::InProgress,
                    None => {
                        let ghost before = command_views(self.in_progress@);
                        self.in_progress.push(command.to_owned());
                        proof {
                            assert(command_views(self.in_progress@) =~= before.push(command@));
                        }
                        CommandState::NotStarted
                    },
                }
            },
        }
    }

    /// Takes the outcome of a command from the caller that ran it, and gives
    /// what this caller returns and hands to those who waited. The command
    /// is no longer in progress. Output is trimmed; output that is then
    /// empty is an error. Only output that is not is remembered.
    pub fn finish(&mut self, command: &str, output: Result<String, Error>) -> (r: Result<
        String,
        Error,
    >)
        requires
            old(self).wf(),
        ensures
            final(self).wf(),
            (final(self).state(), outcome_view(r)) == finish_step(
                old(self).state(),
                command@,
                outcome_view(output),
            ),
    {
        proof {
            lemma_cache_holds_only_successes(self.state(), command@, outcome_view(output), 0);
            lemma_first_position(self.state().in_progress, command@);
        }
        match self.position(command) {
            Some(at) => {
                let ghost before = command_views(self.in_progress@);
                self.in_progress.remove(at);
                proof {
                    assert(command_views(self.in_progress@) =~= before.remove(at as int));
                }
            },
            None => {},
        }
        match output {
            Err(error) => Err(error),
            Ok(text) => {
                let result = trim(text.as_str());
                if result.is_empty() {
                    return Err(Error::Empty);
                }
                lru_put(&mut self.completed, command.to_owned(), result.to_owned());
                Ok(result.to_owned())
            },
        }
    }
}

} // verus!
