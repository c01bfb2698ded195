//! The state behind the window: a check that may be under way, its result, and a local server
//! that may be running.

use crate::probe::{check_view, Findings, NtpResult};
use crate::text::{law_trimmed, trim, trimmed};
use vstd::prelude::*;

verus! {

/// The state behind the window.
///
/// The thread of the local server and the channel that stops it live outside;
/// `local_server_handle` and `local_server_stop_tx` say whether they are held.
#[derive(Debug)]
pub struct NtpChecker {
    pub loading: bool,
    pub result: Option<Result<NtpResult, String>>,
    pub local_server_running: bool,
    pub local_server_handle: bool,
    pub local_server_stop_tx: bool,
    pub local_server_error: Option<String>,
}

/// What the window has to do about the local server.
#[derive(Debug)]
pub enum ServerCommand {
    /// Bind a server to `address` and start it, and hand the outcome to
    /// [`NtpChecker::server_started`].
    Start { address: String, debug: bool },
    /// Stop the server, by these steps in this order.
    Stop(Vec<StopStep>),
}

/// A step on the way to stop the server. That the channel's other end is gone, or that the
/// thread has panicked, is no failure of a step.
#[derive(Debug, Copy, Clone, PartialEq, Eq, Structural)]
pub enum StopStep {
    /// Send the stop signal and let go of the channel.
    Signal,
    /// Let go of the thread and have another thread wait for it to end, so that the window
    /// goes on at once.
    JoinInBackground,
    /// Let go of the thread and wait here until it has ended.
    Join,
}

/// An [`NtpChecker`] with its texts as sequences of characters.
#[verifier::ext_equal]
pub struct CheckerState {
    pub loading: bool,
    pub result: Option<Result<Findings, Seq<char>>>,
    pub local_server_running: bool,
    pub local_server_handle: bool,
    pub local_server_stop_tx: bool,
    pub local_server_error: Option<Seq<char>>,
}

impl View for NtpChecker {
    type V = CheckerState;

    open spec fn view(&self) -> CheckerState {
        CheckerState {
            loading: self.loading,
            result: match self.result {
                Some(result) => Some(check_view(result)),
                None => None,
            },
            local_server_running: self.local_server_running,
            local_server_handle: self.local_server_handle,
            local_server_stop_tx: self.local_server_stop_tx,
            local_server_error: match self.local_server_error {
                Some(message) => Some(message@),
                None => None,
            },
        }
    }
}

impl CheckerState {
    /// The state of a new window.
    pub open spec fn initial() -> CheckerState {
        CheckerState {
            loading: false,
            result: None,
            local_server_running: false,
            local_server_handle: false,
            local_server_stop_tx: false,
            local_server_error: None,
        }
    }

    /// What holds between any two operations of the window: no result is shown while a check is
    /// under way; the server's thread and channel are held exactly while it runs; and there is
    /// no error while it runs.
    pub open spec fn consistent(self) -> bool {
        &&& self.loading ==> self.result is None
        &&& self.local_server_handle == self.local_server_running
        &&& self.local_server_stop_tx == self.local_server_running
        &&& self.local_server_running ==> self.local_server_error is None
    }

    /// After a check was asked for, on what the user typed.
    pub open spec fn check_started(self, input: Seq<char>) -> CheckerState {
        if trimmed(input).len() == 0 {
            CheckerState { result: Some(Err("请输入服务器地址"@)), ..self }
        } else {
            CheckerState { loading: true, result: None, ..self }
        }
    }

    /// After the check button was pressed: while a check is under way nothing happens.
    pub open spec fn check_clicked(self, input: Seq<char>) -> CheckerState {
        if self.loading {
            self
        } else {
            self.check_started(input)
        }
    }

    /// After a check has ended.
    pub open spec fn check_finished(self, result: Result<Findings, Seq<char>>) -> CheckerState {
        CheckerState { loading: false, result: Some(result), ..self }
    }

    /// After the server button was pressed. A server that is to be started is not there yet.
    pub open spec fn server_toggled(self) -> CheckerState {
        if self.local_server_running {
            CheckerState {
                local_server_running: false,
                local_server_handle: false,
                local_server_stop_tx: false,
                local_server_error: None,
                ..self
            }
        } else {
            self
        }
    }

    /// After an attempt to start the server.
    pub open spec fn server_started(self, error: Option<Seq<char>>) -> CheckerState {
        CheckerState {
            local_server_running: error is None,
            local_server_handle: error is None,
            local_server_stop_tx: error is None,
            local_server_error: error,
            ..self
        }
    }

    /// After the window was closed.
    pub open spec fn closed(self) -> CheckerState {
        CheckerState { local_server_handle: false, local_server_stop_tx: false, ..self }
    }

    /// How to stop the server with what is held of it: signal first, then wait as `wait` says.
    pub open spec fn stop_steps(self, wait: StopStep) -> Seq<StopStep> {
        let signal = if self.local_server_stop_tx {
            seq![StopStep::Signal]
        } else {
            seq![]
        };
        let join = if self.local_server_handle {
            seq![wait]
        } else {
            seq![]
        };
        signal + join
    }
}

/// The address of the local server.
pub open spec fn local_server_address() -> Seq<char> {
    "127.0.0.1:10123"@
}

impl NtpChecker {
    /// A new window: no check yet, and no server.
    pub fn new() -> (checker: NtpChecker)
        ensures
            checker@ == CheckerState::initial(),
            checker@.consistent(),
    {
        NtpChecker {
            loading: false,
            result: None,
            local_server_running: false,
            local_server_handle: false,
            local_server_stop_tx: false,
            local_server_error: None,
        }
    }

    /// The server that a new window offers to check.
    pub fn default_server() -> (addr: String)
        ensures
            addr@ == "ntp.aliyun.com:123"@,
    {
        "ntp.aliyun.com:123".to_string()
    }

    /// Starts a check on what the user typed. Returns the address to check, unless there is
    /// none.
    pub fn start_check(&mut self, input: &str) -> (addr: Option<String>)
        ensures
            final(self)@ == old(self)@.check_started(input@),
            match addr {
                Some(addr) => trimmed(input@).len() > 0 && addr@ == trimmed(input@),
                None => trimmed(input@).len() == 0,
            },
            old(self)@.consistent() && !old(self)@.loading ==> final(self)@.consistent(),
    {
        let addr: String = trim(input);
        if addr.as_str().is_empty() {
            self.result = Some(Err("请输入服务器地址".to_string()));
            return None;
        }
        self.loading = true;
        self.result = None;
        Some(addr)
    }

    /// Handles the check button: starts a check on what the user typed, unless one is under
    /// way.
    pub fn click_check(&mut self, input: &str) -> (addr: Option<String>)
        ensures
            final(self)@ == old(self)@.check_clicked(input@),
            match addr {
                Some(addr) => !old(self).loading && trimmed(input@).len() > 0 && addr@ == trimmed(
                    input@,
                ),
                None => old(self).loading || trimmed(input@).len() == 0,
            },
            old(self)@.consistent() ==> final(self)@.consistent(),
    {
        if self.loading {
            None
        } else {
            self.start_check(input)
        }
    }

    /// Takes the result of the check.
    pub fn finish_check(&mut self, result: Result<NtpResult, String>)
        ensures
            final(self)@ == old(self)@.check_finished(check_view(result)),
            old(self)@.consistent() ==> final(self)@.consistent(),
    {
        self.loading = false;
        self.result = Some(result);
    }

    /// Handles the server button: stops the local server if it runs, and starts it if not.
    pub fn toggle_local_server(&mut self) -> (command: ServerCommand)
        ensures
            final(self)@ == old(self)@.server_toggled(),
            if old(self).local_server_running {
                command matches ServerCommand::Stop(steps) && steps@ == old(self)@.stop_steps(
                    StopStep::JoinInBackground,
                )
            } else {
                command matches ServerCommand::Start { address, debug } && address@
                    == local_server_address() && debug
            },
            old(self)@.consistent() ==> final(self)@.consistent(),
    {
        if self.local_server_running {
            let steps: Vec<StopStep> = self.let_go(StopStep::JoinInBackground);
            self.local_server_running = false;
            self.local_server_error = None;
            ServerCommand::Stop(steps)
        } else {
            ServerCommand::Start { address: "127.0.0.1:10123".to_string(), debug: true }
        }
    }

    /// Takes what came of starting the local server.
    pub fn server_started(&mut self, outcome: Result<(), String>)
        ensures
            final(self)@ == old(self)@.server_started(
                match outcome {
                    Ok(_) => None,
                    Err(message) => Some(message@),
                },
            ),
            old(self)@.consistent() ==> final(self)@.consistent(),
    {
        match outcome {
            Ok(_) => {
                self.local_server_handle = true;
                self.local_server_stop_tx = true;
                self.local_server_running = true;
                self.local_server_error = None;
            },
            Err(message) => {
                self.local_server_running = false;
                self.local_server_stop_tx = false;
                self.local_server_handle = false;
                self.local_server_error = Some(message);
            },
        }
    }

    /// Handles the end of the window: what is held of the local server is let go, and the
    /// window does not end before the server has.
    pub fn close(&mut self) -> (steps: Vec<StopStep>)
        ensures
            final(self)@ == old(self)@.closed(),
            steps@ == old(self)@.stop_steps(StopStep::Join),
    {
        self.let_go(StopStep::Join)
    }

    /// Lets go of the channel and the thread, and says how.
    fn let_go(&mut self, wait: StopStep) -> (steps: Vec<StopStep>)
        ensures
            final(self)@ == old(self)@.closed(),
            steps@ == old(self)@.stop_steps(wait),
    {
        let mut steps: Vec<StopStep> = Vec::new();
        if self.local_server_stop_tx {
            self.local_server_stop_tx = false;
            steps.push(StopStep::Signal);
        }
        if self.local_server_handle {
            self.local_server_handle = false;
            steps.push(wait);
        }
        assert(steps@ =~= old(self)@.stop_steps(wait));
        steps
    }
}

/// A check that is started and ended leaves its result and is no longer under way, whatever was
/// shown before; the local server is not touched.
pub proof fn law_check_delivers(
    state: CheckerState,
    input: Seq<char>,
    result: Result<Findings, Seq<char>>,
)
    requires
        !state.loading,
        trimmed(input).len() > 0,
    ensures
        state.check_clicked(input).loading,
        state.check_clicked(input).result is None,
        state.check_clicked(input).check_finished(result) == (CheckerState {
            loading: false,
            result: Some(result),
            ..state
        }),
{
}

/// While a check is under way, pressing the button again changes nothing.
pub proof fn law_one_check_at_a_time(state: CheckerState, first: Seq<char>, second: Seq<char>)
    requires
        trimmed(first).len() > 0,
    ensures
        state.check_clicked(first).check_clicked(second) == state.check_clicked(first),
{
}

/// A blank input never starts a check: it is answered with an error, at once.
pub proof fn law_blank_input_is_refused(state: CheckerState, input: Seq<char>)
    requires
        !state.loading,
        forall|i: int| 0 <= i < input.len() ==> crate::text::is_white_space(input[i]),
    ensures
        state.check_clicked(input) == (CheckerState {
            result: Some(Err("请输入服务器地址"@)),
            ..state
        }),
{
    law_trimmed(input);
}

/// Every operation of the window keeps it consistent.
pub proof fn law_window_stays_consistent(
    state: CheckerState,
    input: Seq<char>,
    result: Result<Findings, Seq<char>>,
    error: Option<Seq<char>>,
)
    requires
        state.consistent(),
    ensures
        CheckerState::initial().consistent(),
        state.check_clicked(input).consistent(),
        state.check_finished(result).consistent(),
        state.server_toggled().consistent(),
        state.server_started(error).consistent(),
{
}

/// Pressing the server button starts a stopped server and stops a running one, by the stop
/// signal and then by a wait that does not hold up the window; nothing else of the window
/// changes.
pub proof fn law_toggle_starts_and_stops(state: CheckerState)
    requires
        state.consistent(),
        !state.local_server_running,
        state.local_server_error is None,
    ensures
        ({
            let started = state.server_toggled().server_started(None);
            &&& started.local_server_running
            &&& started.stop_steps(StopStep::JoinInBackground) == seq![
                StopStep::Signal,
                StopStep::JoinInBackground,
            ]
            &&& started.server_toggled() == state
        }),
{
}

/// A start that failed leaves the server stopped and shows the error; a later start that
/// succeeds clears it.
pub proof fn law_failed_start_can_be_retried(state: CheckerState, error: Seq<char>)
    requires
        state.consistent(),
        !state.local_server_running,
    ensures
        ({
            let failed = state.server_toggled().server_started(Some(error));
            &&& failed == CheckerState { local_server_error: Some(error), ..state }
            &&& failed.server_toggled().server_started(None).local_server_running
            &&& failed.server_toggled().server_started(None).local_server_error is None
        }),
{
}

/// Closing the window sends a running server the stop signal and then waits until it has ended;
/// without a server it does nothing. Either way nothing is left to stop.
pub proof fn law_close_lets_go(state: CheckerState)
    requires
        state.consistent(),
    ensures
        state.stop_steps(StopStep::Join) == (if state.local_server_running {
            seq![StopStep::Signal, StopStep::Join]
        } else {
            seq![]
        }),
        state.closed().stop_steps(StopStep::Join) == Seq::<StopStep>::empty(),
{
}

/// However the server is stopped, no wait comes before the stop signal: whatever is held, a
/// signal is the first step and a wait the last, and each comes at most once.
pub proof fn law_signal_before_wait(state: CheckerState, wait: StopStep)
    requires
        wait != StopStep::Signal,
    ensures
        forall|i: int|
            0 <= i < state.stop_steps(wait).len() ==> (#[trigger] state.stop_steps(wait)[i]
                == StopStep::Signal ==> i == 0),
        state.stop_steps(wait).contains(StopStep::Signal) == state.local_server_stop_tx,
        state.stop_steps(wait).contains(wait) == state.local_server_handle,
        state.stop_steps(wait).no_duplicates(),
{
    let steps = state.stop_steps(wait);
    if state.local_server_stop_tx {
        assert(steps[0] == StopStep::Signal);
    }
    if state.local_server_handle {
        assert(steps[steps.len() - 1] == wait);
    }
}

/// Pressing the check button does nothing while a check is under way. Else it starts a check,
/// which clears what was shown, exactly when something other than white space was typed, and
/// refuses with an error if not. It never touches the local server.
pub proof fn law_check_button(state: CheckerState, input: Seq<char>)
    ensures
        ({
            let next = state.check_clicked(input);
            let blank = forall|i: int|
                0 <= i < input.len() ==> crate::text::is_white_space(#[trigger] input[i]);
            &&& state.loading ==> next == state
            &&& !state.loading && blank ==> !next.loading && next.result == Some(
                Err::<Findings, Seq<char>>("请输入服务器地址"@),
            )
            &&& !state.loading && !blank ==> next.loading && next.result is None
            &&& next.local_server_running == state.local_server_running
            &&& next.local_server_handle == state.local_server_handle
            &&& next.local_server_stop_tx == state.local_server_stop_tx
            &&& next.local_server_error == state.local_server_error
        }),
{
    law_trimmed(input);
}

/// Asking for a check starts one on any input that is not blank, whether or not one is under
/// way, and refuses a blank one without starting or ending any.
pub proof fn law_asking_for_a_check(state: CheckerState, input: Seq<char>)
    ensures
        trimmed(input).len() > 0 ==> state.check_started(input) == (CheckerState {
            loading: true,
            result: None,
            ..state
        }),
        trimmed(input).len() == 0 ==> state.check_started(input) == (CheckerState {
            result: Some(Err("请输入服务器地址"@)),
            ..state
        }),
        !state.loading ==> state.check_clicked(input) == state.check_started(input),
{
}

/// The end of a check leaves its result, whatever was shown, and changes nothing else.
pub proof fn law_end_of_a_check(state: CheckerState, result: Result<Findings, Seq<char>>)
    ensures
        !state.check_finished(result).loading,
        state.check_finished(result).result == Some(result),
        state.check_finished(result) == (CheckerState {
            loading: false,
            result: Some(result),
            ..state
        }),
{
}

/// Whatever happens to the local server, the check and its result stay as they are.
pub proof fn law_server_leaves_the_check_alone(state: CheckerState, error: Option<Seq<char>>)
    ensures
        state.server_toggled().loading == state.loading,
        state.server_toggled().result == state.result,
        state.server_started(error).loading == state.loading,
        state.server_started(error).result == state.result,
        state.closed().loading == state.loading,
        state.closed().result == state.result,
{
}

/// The server button lets go of a running server, of its thread, its channel and its error, and
/// leaves a stopped one as it is until it is known what came of starting it. A start makes the
/// server run, and its thread and channel be held, exactly when there was no error.
pub proof fn law_server_button(state: CheckerState, error: Option<Seq<char>>)
    ensures
        state.local_server_running ==> {
            let next = state.server_toggled();
            &&& !next.local_server_running
            &&& !next.local_server_handle
            &&& !next.local_server_stop_tx
            &&& next.local_server_error is None
        },
        !state.local_server_running ==> state.server_toggled() == state,
        ({
            let next = state.server_started(error);
            &&& next.local_server_running <==> error is None
            &&& next.local_server_handle <==> error is None
            &&& next.local_server_stop_tx <==> error is None
            &&& next.local_server_error == error
        }),
{
}

/// Closing lets go of the thread and the channel, and of nothing else.
pub proof fn law_closing(state: CheckerState)
    ensures
        !state.closed().local_server_handle,
        !state.closed().local_server_stop_tx,
        state.closed().local_server_running == state.local_server_running,
        state.closed().local_server_error == state.local_server_error,
{
}

/// The server is stopped by a signal if there is a channel, then by a wait if there is a thread,
/// and by no other step.
pub proof fn law_steps_to_stop(state: CheckerState, wait: StopStep)
    ensures
        ({
            let steps = state.stop_steps(wait);
            let (tx, handle) = (state.local_server_stop_tx, state.local_server_handle);
            &&& tx && handle ==> steps == seq![StopStep::Signal, wait]
            &&& tx && !handle ==> steps == seq![StopStep::Signal]
            &&& !tx && handle ==> steps == seq![wait]
            &&& !tx && !handle ==> steps == Seq::<StopStep>::empty()
        }),
{
}

/// A new window has no check under way, no result, no server and no error.
pub proof fn law_new_window()
    ensures
        !CheckerState::initial().loading,
        CheckerState::initial().result is None,
        !CheckerState::initial().local_server_running,
        !CheckerState::initial().local_server_handle,
        !CheckerState::initial().local_server_stop_tx,
        CheckerState::initial().local_server_error is None,
{
}

/// The local server listens on the loopback address, on a port that needs no privileges, and is
/// asked there as it stands.
pub proof fn law_local_server_address()
    ensures
        local_server_address() == "127.0.0.1:10123"@,
        crate::probe::spec_query_target(local_server_address()) == local_server_address(),
{
    reveal_strlit("127.0.0.1:10123");
    assert("127.0.0.1:10123"@[9] == ':');
}

/// The state behind the window, seen as characters, is that state, part by part.
pub proof fn law_state_is_the_checker(checker: NtpChecker)
    ensures
        checker@.loading == checker.loading,
        checker@.result is None <==> checker.result is None,
        checker.result matches Some(result) ==> checker@.result == Some(check_view(result)),
        checker@.local_server_running == checker.local_server_running,
        checker@.local_server_handle == checker.local_server_handle,
        checker@.local_server_stop_tx == checker.local_server_stop_tx,
        checker@.local_server_error is None <==> checker.local_server_error is None,
        checker.local_server_error matches Some(message) ==> checker@.local_server_error == Some(
            message@,
        ),
{
}

} // verus!
