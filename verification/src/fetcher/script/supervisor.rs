//! The supervisor of a script run: its clocks and its budget of execution
//! time.

use vstd::prelude::*;

use vstd::string::StringExecFns;

use crate::console::{text_message, ConsoleMessage, ConsoleMessageView, MessageType};
use crate::data::models::views;

verus! {

/// Time since beginning. All times are in nanoseconds.
#[derive(Debug, Clone, Copy, PartialEq, Eq, Structural)]
pub struct FetchTime {
    /// Real elapsed time.
    pub real: u128,
    /// Time spent executing the script itself.
    pub script: u128,
    /// Time spent fetching data.
    pub fetch: u128,
}

/// Console message with optional timestamp.
#[derive(Debug, Clone)]
pub struct FetchMsg {
    pub time: Option<FetchTime>,
    pub msg: ConsoleMessage,
}

/// What a `FetchMsg` holds.
pub struct FetchMsgView {
    pub time: Option<FetchTime>,
    pub msg: ConsoleMessageView,
}

impl View for FetchMsg {
    type V = FetchMsgView;

    open spec fn view(&self) -> FetchMsgView {
        FetchMsgView { time: self.time, msg: self.msg@ }
    }
}


/// Budget of execution time of a script, in nanoseconds.
pub const SCRIPT_EXEC_TIME: u128 = 6_000_000_000;

/// Pause between two looks of the supervisor at its channels, in
/// nanoseconds.
pub const MONITOR_SLEEP_TIME: u128 = 50_000_000;

/// Time that the child has to exit on its own once its result is in, in
/// nanoseconds.
pub const MONITOR_EXIT_WAIT_TIME: u128 = 50_000_000;

/// Why a script run has no result.
#[derive(Debug, Clone)]
pub enum ScriptError {
    Timeout,
    NoResult,
    Fatal(String),
    Exec(String),
}

/// What a `ScriptError` holds.
pub enum ScriptErrorView {
    Timeout,
    NoResult,
    Fatal(Seq<char>),
    Exec(Seq<char>),
}

impl View for ScriptError {
    type V = ScriptErrorView;

    open spec fn view(&self) -> ScriptErrorView {
        match self {
            ScriptError::Timeout => ScriptErrorView::Timeout,
            ScriptError::NoResult => ScriptErrorView::NoResult,
            ScriptError::Fatal(s) => ScriptErrorView::Fatal(s@),
            ScriptError::Exec(s) => ScriptErrorView::Exec(s@),
        }
    }
}

/// The text of an error of a script run.
pub open spec fn script_error_text(e: ScriptErrorView) -> Seq<char> {
    match e {
        ScriptErrorView::Timeout => "script execution took too long (infinite loop?)"@,
        ScriptErrorView::NoResult => "script ended without result"@,
        ScriptErrorView::Fatal(s) => "fatal: "@ + s,
        ScriptErrorView::Exec(s) => "script execution error: "@ + s,
    }
}

impl ScriptError {
    /// The text of this error.
    pub fn message(&self) -> (text: String)
        ensures
            text@ == script_error_text(self@),
    {
        match self {
            ScriptError::Timeout => String::from_str(
                "script execution took too long (infinite loop?)",
            ),
            ScriptError::NoResult => String::from_str("script ended without result"),
            ScriptError::Fatal(s) => {
                let mut text = String::from_str("fatal: ");
                text.append(s.as_str());
                text
            },
            ScriptError::Exec(s) => {
                let mut text = String::from_str("script execution error: ");
                text.append(s.as_str());
                text
            },
        }
    }
}

/// Inner struct for time metrics in a fetch context. All times are in
/// nanoseconds on a clock that does not go back.
#[derive(Debug, Clone, Copy, PartialEq, Eq, Structural)]
pub struct FetchTimeMetrics {
    pub start_time: u128,
    pub fetch_time: u128,
    pub current_fetch_start: Option<u128>,
}

/// The difference of two times, or zero where the second is the later one.
pub open spec fn time_since(now: u128, earlier: u128) -> u128 {
    if now >= earlier {
        (now - earlier) as u128
    } else {
        0
    }
}

impl FetchTimeMetrics {
    /// The metrics of a run that starts at `now`.
    pub fn new(now: u128) -> (metrics: FetchTimeMetrics)
        ensures
            metrics == (FetchTimeMetrics {
                start_time: now,
                fetch_time: 0,
                current_fetch_start: None,
            }),
    {
        FetchTimeMetrics { start_time: now, fetch_time: 0, current_fetch_start: None }
    }

    /// The clocks of the run at the time `now`: the real time since the
    /// start, the time spent fetching, and the rest, which is the script's.
    pub open spec fn time_at(self, now: u128) -> FetchTime {
        let total = time_since(now, self.start_time);
        FetchTime {
            real: total,
            script: time_since(total, self.fetch_time),
            fetch: self.fetch_time,
        }
    }

    /// Returns the current time in the fetch context.
    pub fn get_time(&self, now: u128) -> (time: FetchTime)
        ensures
            time == self.time_at(now),
    {
        let total = if now >= self.start_time {
            now - self.start_time
        } else {
            0
        };
        let script = if total >= self.fetch_time {
            total - self.fetch_time
        } else {
            0
        };
        let fetch = self.fetch_time;
        FetchTime { real: total, script, fetch }
    }

    /// Takes note that a fetch started at `now`.
    pub fn fetch_did_start(&mut self, now: u128)
        ensures
            *final(self) == (FetchTimeMetrics { current_fetch_start: Some(now), ..*old(self) }),
    {
        self.current_fetch_start = Some(now);
    }

    /// Takes note that the fetch that is under way ended at `now`: its time
    /// is added to the time spent fetching.
    pub fn fetch_did_end(&mut self, now: u128)
        requires
            old(self).current_fetch_start is Some,
        ensures
            final(self).start_time == old(self).start_time,
            final(self).current_fetch_start is None,
            final(self).fetch_time == if old(self).fetch_time + time_since(
                now,
                old(self).current_fetch_start->0,
            ) > u128::MAX {
                u128::MAX
            } else {
                (old(self).fetch_time + time_since(now, old(self).current_fetch_start->0)) as u128
            },
    {
        let start = match self.current_fetch_start {
            Some(s) => s,
            None => now,
        };
        self.current_fetch_start = None;
        let spent = if now >= start {
            now - start
        } else {
            0
        };
        self.fetch_time = if spent > u128::MAX - self.fetch_time {
            u128::MAX
        } else {
            self.fetch_time + spent
        };
    }
}

/// What is asked of a script, with the script.
#[derive(Debug, Clone)]
pub enum Fetch {
    Source { domain: String, script: String, path: String },
    SourceItem { domain: String, script: String, path: String },
}

/// A control message of the child that runs a script.
#[derive(Debug, Clone)]
pub enum ScriptMsg {
    PauseTimer,
    ContinueTimer,
    FatalError(String),
    ErrResult(ScriptError),
    /// The result of the script, as JSON text.
    Result(String),
    Done,
}

/// What the supervisor finds on the channel of control messages.
#[derive(Debug)]
pub enum ChannelEvent {
    /// No message is waiting.
    Empty,
    Msg(ScriptMsg),
    /// The channel is broken; the text tells how.
    Broken(String),
}

/// The state of the supervisor's clock: what is left of the script's budget
/// of execution time, and whether the time that passes counts against it.
#[derive(Debug, Clone, Copy, PartialEq, Eq, Structural)]
pub struct Supervisor {
    pub time_left: u128,
    pub timer_running: bool,
}

/// What the supervisor does after a cycle.
#[derive(Debug)]
pub enum Step {
    /// The run goes on.
    Continue,
    /// The run is over, with the result of the script as JSON text or with
    /// an error.
    Finish(Result<String, ScriptError>),
}

/// What is wrong with a JSON text, as `serde_json::from_str` finds, or
/// nothing where the text is JSON.
pub uninterp spec fn json_error(text: Seq<char>) -> Option<Seq<char>>;

/// `serde_json::from_str` to a `serde_json::Value`, and the text of the error
/// where there is one. The text is named by `json_error`.
#[verifier::external_body]
pub(crate) fn parse_json_error(text: &str) -> (error: Option<String>)
    ensures
        crate::text::opt_text(error) == json_error(text@),
{
    serde_json::from_str::<serde_json::Value>(text).err().map(|e| e.to_string())
}

/// The state of the clock after `elapsed` nanoseconds, or nothing where the
/// budget is used up: the time counts only while the timer runs.
pub open spec fn after_elapsed(s: Supervisor, elapsed: u128) -> Option<Supervisor> {
    if s.timer_running {
        if elapsed >= s.time_left {
            None
        } else {
            Some(Supervisor { time_left: (s.time_left - elapsed) as u128, ..s })
        }
    } else {
        Some(s)
    }
}

/// Whether `step` ends the run with the error `e`.
pub open spec fn finishes_with(step: Step, e: ScriptErrorView) -> bool {
    step matches Step::Finish(Err(err)) && err@ == e
}

/// What the supervisor makes of what it found on the channel: the state of
/// its clock afterwards and the step that it takes.
pub open spec fn event_handled(s: Supervisor, event: ChannelEvent, after: Supervisor, step: Step) ->
    bool {
    match event {
        ChannelEvent::Empty => after == s && step is Continue,
        ChannelEvent::Msg(ScriptMsg::PauseTimer) => after == (Supervisor {
            timer_running: false,
            ..s
        }) && step is Continue,
        ChannelEvent::Msg(ScriptMsg::ContinueTimer) => after == (Supervisor {
            timer_running: true,
            ..s
        }) && step is Continue,
        ChannelEvent::Msg(ScriptMsg::Result(text)) => after == s && match json_error(text@) {
            None => step matches Step::Finish(Ok(t)) && t@ == text@,
            Some(e) => finishes_with(
                step,
                ScriptErrorView::Fatal("Failed to deserialize result: "@ + e),
            ),
        },
        ChannelEvent::Msg(ScriptMsg::ErrResult(err)) => after == s && finishes_with(step, err@),
        ChannelEvent::Msg(ScriptMsg::FatalError(text)) => after == s && finishes_with(
            step,
            ScriptErrorView::Fatal(text@),
        ),
        ChannelEvent::Msg(ScriptMsg::Done) => after == s && finishes_with(
            step,
            ScriptErrorView::NoResult,
        ),
        ChannelEvent::Broken(text) => after == s && finishes_with(
            step,
            ScriptErrorView::Fatal("IPC channel error: "@ + text@),
        ),
    }
}

/// What one cycle of the supervisor comes to: first the time that passed
/// since the last cycle counts against the budget, and the run times out
/// where the budget is used up; then the message on the channel is handled.
pub open spec fn cycle_handled(
    s: Supervisor,
    elapsed: u128,
    event: ChannelEvent,
    after: Supervisor,
    step: Step,
) -> bool {
    match after_elapsed(s, elapsed) {
        None => after == s && finishes_with(step, ScriptErrorView::Timeout),
        Some(t) => event_handled(t, event, after, step),
    }
}

impl Supervisor {
    /// The clock at the start of a run: the whole budget is left, and the
    /// timer runs.
    pub fn new() -> (s: Supervisor)
        ensures
            s == (Supervisor { time_left: SCRIPT_EXEC_TIME, timer_running: true }),
    {
        Supervisor { time_left: SCRIPT_EXEC_TIME, timer_running: true }
    }

    /// Counts `elapsed` nanoseconds against the budget if the timer runs.
    /// Returns whether the budget is used up.
    pub fn elapse(&mut self, elapsed: u128) -> (timed_out: bool)
        ensures
            match after_elapsed(*old(self), elapsed) {
                None => timed_out && *final(self) == *old(self),
                Some(s) => !timed_out && *final(self) == s,
            },
    {
        if self.timer_running {
            if elapsed >= self.time_left {
                return true;
            } else {
                self.time_left = self.time_left - elapsed;
            }
        }
        false
    }

    /// Handles what was found on the channel of control messages.
    pub fn on_event(&mut self, event: ChannelEvent) -> (step: Step)
        ensures
            event_handled(*old(self), event, *final(self), step),
    {
        match event {
            ChannelEvent::Empty => Step::Continue,
            ChannelEvent::Msg(ScriptMsg::PauseTimer) => {
                self.timer_running = false;
                Step::Continue
            },
            ChannelEvent::Msg(ScriptMsg::ContinueTimer) => {
                self.timer_running = true;
                Step::Continue
            },
            ChannelEvent::Msg(ScriptMsg::Result(result)) => {
                match parse_json_error(result.as_str()) {
                    None => Step::Finish(Ok(result)),
                    Some(err) => {
                        let mut text = String::from_str("Failed to deserialize result: ");
                        text.append(err.as_str());
                        Step::Finish(Err(ScriptError::Fatal(text)))
                    },
                }
            },
            ChannelEvent::Msg(ScriptMsg::ErrResult(err)) => Step::Finish(Err(err)),
            ChannelEvent::Msg(ScriptMsg::FatalError(error)) => Step::Finish(
                Err(ScriptError::Fatal(error)),
            ),
            ChannelEvent::Msg(ScriptMsg::Done) => Step::Finish(Err(ScriptError::NoResult)),
            ChannelEvent::Broken(e) => {
                let mut text = String::from_str("IPC channel error: ");
                text.append(e.as_str());
                Step::Finish(Err(ScriptError::Fatal(text)))
            },
        }
    }

    /// One cycle of the supervisor: `elapsed` nanoseconds have passed since
    /// the last one, and `event` was found on the channel.
    pub fn run_request(&mut self, elapsed: u128, event: ChannelEvent) -> (step: Step)
        ensures
            cycle_handled(*old(self), elapsed, event, *final(self), step),
    {
        if self.elapse(elapsed) {
            return Step::Finish(Err(ScriptError::Timeout));
        }
        self.on_event(event)
    }
}

/// The clock after a row of cycles in which nothing is found on the
/// channel, one for each of the times in `elapsed`, or nothing where the run
/// has timed out in one of them.
pub open spec fn after_cycles(s: Supervisor, elapsed: Seq<u128>) -> Option<Supervisor>
    decreases elapsed.len(),
{
    if elapsed.len() == 0 {
        Some(s)
    } else {
        match after_cycles(s, elapsed.drop_last()) {
            None => None,
            Some(t) => after_elapsed(t, elapsed.last()),
        }
    }
}

/// The sum of the times in `elapsed`.
pub open spec fn total_time(elapsed: Seq<u128>) -> int
    decreases elapsed.len(),
{
    if elapsed.len() == 0 {
        0
    } else {
        total_time(elapsed.drop_last()) + elapsed.last()
    }
}

/// A script that sends nothing times out just when the time that has passed
/// reaches the budget: until then the clock holds what is left of the
/// budget, and the run goes on.
pub proof fn lemma_script_timeout(s: Supervisor, elapsed: Seq<u128>)
    requires
        s.timer_running,
        s.time_left > 0,
    ensures
        total_time(elapsed) >= 0,
        after_cycles(s, elapsed) is None <==> total_time(elapsed) >= s.time_left,
        after_cycles(s, elapsed) matches Some(t) ==> t.timer_running && t.time_left
            == s.time_left - total_time(elapsed) && t.time_left > 0,
    decreases elapsed.len(),
{
    if elapsed.len() > 0 {
        lemma_script_timeout(s, elapsed.drop_last());
    }
}

/// While the timer is paused no time counts against the budget, however
/// much passes and in however many cycles: the time of a fetch is free.
pub proof fn lemma_paused_time_is_free(s: Supervisor, elapsed: Seq<u128>)
    requires
        !s.timer_running,
    ensures
        after_cycles(s, elapsed) == Some(s),
    decreases elapsed.len(),
{
    if elapsed.len() > 0 {
        lemma_paused_time_is_free(s, elapsed.drop_last());
    }
}

/// The messages of a run with what the child wrote to its standard output
/// and its standard error, each as one message without a time, where it
/// wrote anything.
pub open spec fn with_output(msgs: Seq<FetchMsgView>, stdout: Seq<char>, stderr: Seq<char>) -> Seq<
    FetchMsgView,
> {
    let with_stdout = if stdout.len() > 0 {
        msgs.push(FetchMsgView { time: None, msg: text_message(MessageType::Stdout, stdout) })
    } else {
        msgs
    };
    if stderr.len() > 0 {
        with_stdout.push(
            FetchMsgView { time: None, msg: text_message(MessageType::Stderr, stderr) },
        )
    } else {
        with_stdout
    }
}

/// Appends what the child wrote to its standard output and its standard
/// error to the messages of the run.
pub fn append_output(messages: &mut Vec<FetchMsg>, stdout: String, stderr: String)
    ensures
        views(final(messages)@) == with_output(views(old(messages)@), stdout@, stderr@),
{
    let ghost before = messages@;
    if !stdout.as_str().is_empty() {
        messages.push(
            FetchMsg { time: None, msg: ConsoleMessage::text(MessageType::Stdout, stdout) },
        );
        assert(views(messages@) =~= views(before).push(
            FetchMsgView { time: None, msg: text_message(MessageType::Stdout, stdout@) },
        ));
    }
    let ghost middle = messages@;
    if !stderr.as_str().is_empty() {
        messages.push(
            FetchMsg { time: None, msg: ConsoleMessage::text(MessageType::Stderr, stderr) },
        );
        assert(views(messages@) =~= views(middle).push(
            FetchMsgView { time: None, msg: text_message(MessageType::Stderr, stderr@) },
        ));
    }
}

} // verus!
