//! One call of the host's progress method, step by step.
//!
//! Calling into a managed runtime is a sequence of small requests, each of
//! which may fail or leave an exception pending. [`JavaCall`] holds the rule
//! of that sequence: it names the next request, is told what the request
//! gave, and names the one after. The caller only carries requests out.
//!
//! A call opens a frame for its local references first. Once the frame is
//! open, every way out goes through closing it.

use crate::java::{
    arguments_of, callback_arguments, exception_outcome, ArgumentsView, Binding,
    CallbackArguments,
};
use crate::progress::{ExtractionProgress, Percentage, ProgressView, STATUS_WARNING};
use crate::text::prefixed;
use vstd::prelude::*;
use vstd::string::*;

verus! {

/// How many local references the frame of one call makes room for.
pub const FRAME_CAPACITY: i32 = 16;

/// The three requests that can leave an exception pending.
#[derive(Debug, Clone, Copy, PartialEq, Eq, Structural)]
pub enum Step {
    /// Creating the managed string of the partition's name.
    Name,
    /// Creating the managed string of the warning's message.
    Message,
    /// Calling the progress method.
    Invoke,
}

/// How far a step has come.
#[derive(Debug, Clone, Copy, PartialEq, Eq, Structural)]
pub enum Phase {
    /// The request itself is out.
    Request,
    /// The question whether it left an exception pending is out.
    Check,
    /// An exception was pending, and the request to clear it is out.
    Clear,
}

/// Where a call stands: which request is out and not yet answered.
#[derive(Debug, Clone, Copy, PartialEq, Eq, Structural)]
pub enum Stage {
    /// Opening the frame.
    Frame,
    /// One of the three steps inside the frame.
    Inside { step: Step, phase: Phase },
    /// Reading the boolean out of what the method returned.
    Read,
    /// Closing the frame.
    Pop,
    /// Nothing is out; the call has returned.
    Finished,
}

/// A request to the managed runtime, or the end of the call.
#[derive(Debug, PartialEq, Eq)]
pub enum JavaAction {
    /// Open a frame for this many local references.
    PushFrame { capacity: i32 },
    /// Create a managed string of this text, for the step it belongs to:
    /// the partition's name or the warning's message.
    NewString { step: Step, text: String },
    /// Ask whether an exception is pending.
    CheckException,
    /// Describe the pending exception, then clear it.
    ClearException,
    /// Call the progress method with the two strings created before and
    /// these numbers.
    Invoke {
        current_operation: i64,
        total_operations: i64,
        percentage: Percentage,
        status_code: i32,
        warning_index: i32,
    },
    /// Read the boolean out of what the method returned.
    ReadBoolean,
    /// Close the frame.
    PopFrame,
    /// The call is over, with the host's answer or the reason it has none.
    Return(Result<bool, String>),
}

/// A [`JavaAction`] with its texts as sequences of characters.
pub enum ActionView {
    PushFrame { capacity: i32 },
    NewString { step: Step, text: Seq<char> },
    CheckException,
    ClearException,
    Invoke {
        current_operation: i64,
        total_operations: i64,
        percentage: Percentage,
        status_code: i32,
        warning_index: i32,
    },
    ReadBoolean,
    PopFrame,
    Return(Result<bool, Seq<char>>),
}

/// What a request gave, with the text of a failure as a sequence of
/// characters. The boolean answers a question; other requests ignore it.
pub open spec fn reply_view(reply: Result<bool, String>) -> Result<bool, Seq<char>> {
    match reply {
        Ok(flag) => Ok(flag),
        Err(detail) => Err(detail@),
    }
}

impl View for JavaAction {
    type V = ActionView;

    open spec fn view(&self) -> ActionView {
        match *self {
            JavaAction::PushFrame { capacity } => ActionView::PushFrame { capacity },
            JavaAction::NewString { step, text } => ActionView::NewString { step, text: text@ },
            JavaAction::CheckException => ActionView::CheckException,
            JavaAction::ClearException => ActionView::ClearException,
            JavaAction::Invoke {
                current_operation,
                total_operations,
                percentage,
                status_code,
                warning_index,
            } => ActionView::Invoke {
                current_operation,
                total_operations,
                percentage,
                status_code,
                warning_index,
            },
            JavaAction::ReadBoolean => ActionView::ReadBoolean,
            JavaAction::PopFrame => ActionView::PopFrame,
            JavaAction::Return(result) => ActionView::Return(reply_view(result)),
        }
    }
}

/// A call in progress.
#[derive(Debug, PartialEq, Eq)]
pub struct JavaCall {
    binding: Binding,
    stage: Stage,
    arguments: CallbackArguments,
    outcome: Result<bool, String>,
}

/// A [`JavaCall`] as the contracts see it.
pub struct CallView {
    pub binding: Binding,
    pub stage: Stage,
    pub arguments: ArgumentsView,
    /// What the call will return once the frame is closed. It means
    /// something from [`Stage::Pop`] on.
    pub outcome: Result<bool, Seq<char>>,
}

impl View for JavaCall {
    type V = CallView;

    closed spec fn view(&self) -> CallView {
        CallView {
            binding: self.binding,
            stage: self.stage,
            arguments: self.arguments@,
            outcome: reply_view(self.outcome),
        }
    }
}

/// What a failed request is called in the text of its failure.
pub open spec fn request_failure(binding: Binding, step: Step, warning: bool) -> Seq<char> {
    match step {
        Step::Name => match binding {
            Binding::Library => "Failed to create partition name: "@,
            Binding::Application => "Failed to create partition name string: "@,
        },
        Step::Message => if warning {
            "Failed to create warning message: "@
        } else {
            "Failed to create empty string: "@
        },
        Step::Invoke => match binding {
            Binding::Library => "Failed to call callback: "@,
            Binding::Application => "Failed to call progress callback: "@,
        },
    }
}

/// What stands in front of the failure to read the host's answer.
pub open spec fn read_failure(binding: Binding) -> Seq<char> {
    match binding {
        Binding::Library => "Failed to extract boolean: "@,
        Binding::Application => "Failed to extract boolean from callback result: "@,
    }
}

/// What the bridge was doing when an exception was found pending.
pub open spec fn exception_context(step: Step, warning: bool) -> Seq<char> {
    match step {
        Step::Name => "creating partition name"@,
        Step::Message => if warning {
            "creating warning message"@
        } else {
            "creating empty string"@
        },
        Step::Invoke => "Java callback"@,
    }
}

/// Whether these arguments stand for a warning.
pub open spec fn is_warning(arguments: ArgumentsView) -> bool {
    arguments.status_code == STATUS_WARNING
}

/// The request that carries out a step.
pub open spec fn request_of(step: Step, arguments: ArgumentsView) -> ActionView {
    match step {
        Step::Name => ActionView::NewString { step, text: arguments.partition_name },
        Step::Message => ActionView::NewString { step, text: arguments.warning_message },
        Step::Invoke => ActionView::Invoke {
            current_operation: arguments.current_operation,
            total_operations: arguments.total_operations,
            percentage: arguments.percentage,
            status_code: arguments.status_code,
            warning_index: arguments.warning_index,
        },
    }
}

/// Gives the call up inside the frame: the frame is closed next, and the
/// failure is returned after that.
pub open spec fn give_up(call: CallView, failure: Seq<char>) -> (CallView, ActionView) {
    (CallView { stage: Stage::Pop, outcome: Err(failure), ..call }, ActionView::PopFrame)
}

/// Goes on after a step that left no exception pending.
pub open spec fn proceed(call: CallView, step: Step) -> (CallView, ActionView) {
    match step {
        Step::Name => (
            CallView { stage: Stage::Inside { step: Step::Message, phase: Phase::Request }, ..call },
            request_of(Step::Message, call.arguments),
        ),
        Step::Message => (
            CallView { stage: Stage::Inside { step: Step::Invoke, phase: Phase::Request }, ..call },
            request_of(Step::Invoke, call.arguments),
        ),
        Step::Invoke => (CallView { stage: Stage::Read, ..call }, ActionView::ReadBoolean),
    }
}

/// The call as it starts, and its first request.
pub open spec fn start(binding: Binding, event: ProgressView) -> (CallView, ActionView) {
    (
        CallView {
            binding,
            stage: Stage::Frame,
            arguments: arguments_of(event),
            outcome: Err(Seq::empty()),
        },
        ActionView::PushFrame { capacity: FRAME_CAPACITY },
    )
}

/// The rule of the call: where it stands after the request that was out has
/// been answered with `reply`, and what it asks for next.
pub open spec fn next(call: CallView, reply: Result<bool, Seq<char>>) -> (CallView, ActionView) {
    let warning = is_warning(call.arguments);
    match call.stage {
        Stage::Frame => match reply {
            Ok(_) => (
                CallView { stage: Stage::Inside { step: Step::Name, phase: Phase::Request }, ..call },
                request_of(Step::Name, call.arguments),
            ),
            Err(detail) => {
                let failure = "Failed to push local frame: "@ + detail;
                (
                    CallView { stage: Stage::Finished, outcome: Err(failure), ..call },
                    ActionView::Return(Err(failure)),
                )
            },
        },
        Stage::Inside { step, phase: Phase::Request } => match reply {
            Ok(_) => (
                CallView { stage: Stage::Inside { step, phase: Phase::Check }, ..call },
                ActionView::CheckException,
            ),
            Err(detail) => give_up(call, request_failure(call.binding, step, warning) + detail),
        },
        Stage::Inside { step, phase: Phase::Check } => match reply {
            Ok(pending) => if pending {
                (
                    CallView { stage: Stage::Inside { step, phase: Phase::Clear }, ..call },
                    ActionView::ClearException,
                )
            } else {
                proceed(call, step)
            },
            Err(detail) => give_up(call, "Failed to check exception: "@ + detail),
        },
        Stage::Inside { step, phase: Phase::Clear } => match reply {
            Ok(_) => give_up(call, "Exception occurred while "@ + exception_context(step, warning)),
            Err(detail) => give_up(call, "Failed to clear exception: "@ + detail),
        },
        Stage::Read => match reply {
            Ok(answer) => (
                CallView { stage: Stage::Pop, outcome: Ok(answer), ..call },
                ActionView::PopFrame,
            ),
            Err(detail) => give_up(call, read_failure(call.binding) + detail),
        },
        Stage::Pop => (CallView { stage: Stage::Finished, ..call }, ActionView::Return(call.outcome)),
        Stage::Finished => (call, ActionView::Return(call.outcome)),
    }
}

/// The frame is open: it was pushed and has not been popped.
pub open spec fn frame_open(stage: Stage) -> bool {
    stage is Inside || stage is Read || stage is Pop
}

/// An upper bound on the requests that are still to come.
pub open spec fn requests_left(stage: Stage) -> nat {
    match stage {
        Stage::Frame => 12,
        Stage::Inside { step, phase } => {
            let of_step: nat = match step {
                Step::Name => 9,
                Step::Message => 6,
                Step::Invoke => 3,
            };
            let of_phase: nat = match phase {
                Phase::Request => 2,
                Phase::Check => 1,
                Phase::Clear => 0,
            };
            of_step + of_phase
        },
        Stage::Read => 2,
        Stage::Pop => 1,
        Stage::Finished => 0,
    }
}

/// A frame that was opened is closed before the call returns. Inside the
/// frame no answer ends the call at once: each leads to another request
/// inside the frame or to the request that closes it, and only after that
/// one does the call return.
pub proof fn frame_is_closed_before_return(call: CallView, reply: Result<bool, Seq<char>>)
    ensures
        ({
            let (after, action) = next(call, reply);
            &&& call.stage is Frame ==> (reply is Ok <==> frame_open(after.stage))
            &&& call.stage is Frame && reply is Err ==> action is Return
            &&& frame_open(call.stage) && !(call.stage is Pop) ==> frame_open(after.stage)
                && !(action is Return)
            &&& action is PopFrame <==> after.stage is Pop
            &&& call.stage is Pop ==> after.stage is Finished && action == ActionView::Return(
                call.outcome,
            )
        }),
{
}

/// A request that fails ends the call with a failure: whatever is answered
/// afterwards, the call returns an error, which a progress callback reads
/// as the wish to stop.
pub proof fn failure_is_returned(
    call: CallView,
    detail: Seq<char>,
    later: Result<bool, Seq<char>>,
)
    requires
        !(call.stage is Pop),
        !(call.stage is Finished),
    ensures
        ({
            let (failed, action) = next(call, Err(detail));
            let (after, last) = next(failed, later);
            &&& failed.outcome is Err
            &&& after.stage is Finished
            &&& last == ActionView::Return(failed.outcome)
            &&& (action is PopFrame || action == last)
        }),
{
}

/// Every answer brings the call nearer to its end, so a call is over after
/// at most twelve requests.
pub proof fn call_comes_to_an_end(call: CallView, reply: Result<bool, Seq<char>>)
    ensures
        forall|binding: Binding, event: ProgressView|
            requests_left((#[trigger] start(binding, event)).0.stage) == 12,
        call.stage is Finished ==> next(call, reply).0 == call,
        !(call.stage is Finished) ==> requests_left(next(call, reply).0.stage) < requests_left(
            call.stage,
        ),
        requests_left(call.stage) == 0 <==> call.stage is Finished,
{
}

/// The check after a step fails as [`exception_outcome`] says. Where looking
/// for an exception fails, or one is pending, the call ends with the failure
/// that function gives for the step; where none is pending, the call has not
/// failed.
pub proof fn checks_agree(
    call: CallView,
    step: Step,
    pending: Result<bool, Seq<char>>,
    cleared: Result<(), Seq<char>>,
)
    requires
        call.stage == (Stage::Inside { step, phase: Phase::Check }),
    ensures
        ({
            let (checked, _) = next(call, pending);
            let reply: Result<bool, Seq<char>> = match cleared {
                Ok(_) => Ok(true),
                Err(detail) => Err(detail),
            };
            let context = exception_context(step, is_warning(call.arguments));
            match exception_outcome(pending, cleared, context) {
                Ok(_) => !(checked.stage is Pop),
                Err(failure) => if pending == Ok::<bool, Seq<char>>(true) {
                    next(checked, reply).0.outcome == Err::<bool, Seq<char>>(failure)
                } else {
                    checked.stage is Pop && checked.outcome == Err::<bool, Seq<char>>(failure)
                },
            }
        }),
{
}

impl JavaCall {
    /// Where the call stands.
    pub fn stage(&self) -> (stage: Stage)
        ensures
            stage == self@.stage,
    {
        self.stage
    }

    /// Starts the call that reports `event` to the host, and names its
    /// first request.
    pub fn begin(binding: Binding, event: ExtractionProgress) -> (started: (JavaCall, JavaAction))
        ensures
            (started.0@, started.1@) == start(binding, event@),
    {
        let call = JavaCall {
            binding,
            stage: Stage::Frame,
            arguments: callback_arguments(event),
            outcome: Err(String::new()),
        };
        (call, JavaAction::PushFrame { capacity: FRAME_CAPACITY })
    }

    fn request(&self, step: Step) -> (action: JavaAction)
        ensures
            action@ == request_of(step, self@.arguments),
    {
        match step {
            Step::Name => JavaAction::NewString {
                step,
                text: self.arguments.partition_name.clone(),
            },
            Step::Message => JavaAction::NewString {
                step,
                text: self.arguments.warning_message.clone(),
            },
            Step::Invoke => JavaAction::Invoke {
                current_operation: self.arguments.current_operation,
                total_operations: self.arguments.total_operations,
                percentage: self.arguments.percentage,
                status_code: self.arguments.status_code,
                warning_index: self.arguments.warning_index,
            },
        }
    }

    fn give_up(&mut self, failure: String) -> (action: JavaAction)
        ensures
            (final(self)@, action@) == give_up(old(self)@, failure@),
    {
        self.stage = Stage::Pop;
        self.outcome = Err(failure);
        JavaAction::PopFrame
    }

    fn proceed(&mut self, step: Step) -> (action: JavaAction)
        ensures
            (final(self)@, action@) == proceed(old(self)@, step),
    {
        match step {
            Step::Name => {
                self.stage = Stage::Inside { step: Step::Message, phase: Phase::Request };
                self.request(Step::Message)
            },
            Step::Message => {
                self.stage = Stage::Inside { step: Step::Invoke, phase: Phase::Request };
                self.request(Step::Invoke)
            },
            Step::Invoke => {
                self.stage = Stage::Read;
                JavaAction::ReadBoolean
            },
        }
    }

    fn returned(&self) -> (action: JavaAction)
        ensures
            action@ == ActionView::Return(self@.outcome),
    {
        match &self.outcome {
            Ok(answer) => JavaAction::Return(Ok(*answer)),
            Err(failure) => JavaAction::Return(Err(failure.clone())),
        }
    }

    /// Takes the answer to the request that was out and names the next one.
    /// Once the call has returned, it returns the same again.
    pub fn step(&mut self, reply: Result<bool, String>) -> (action: JavaAction)
        ensures
            (final(self)@, action@) == next(old(self)@, reply_view(reply)),
            requests_left(final(self)@.stage) < requests_left(old(self)@.stage) || old(
                self,
            )@.stage is Finished,
    {
        let warning = self.arguments.status_code == STATUS_WARNING;
        match self.stage {
            Stage::Frame => match reply {
                Ok(_) => {
                    self.stage = Stage::Inside { step: Step::Name, phase: Phase::Request };
                    self.request(Step::Name)
                },
                Err(detail) => {
                    let failure = prefixed("Failed to push local frame: ", detail.as_str());
                    self.stage = Stage::Finished;
                    self.outcome = Err(failure);
                    self.returned()
                },
            },
            Stage::Inside { step, phase: Phase::Request } => match reply {
                Ok(_) => {
                    self.stage = Stage::Inside { step, phase: Phase::Check };
                    JavaAction::CheckException
                },
                Err(detail) => {
                    let context = match step {
                        Step::Name => match self.binding {
                            Binding::Library => "Failed to create partition name: ",
                            Binding::Application => "Failed to create partition name string: ",
                        },
                        Step::Message => if warning {
                            "Failed to create warning message: "
                        } else {
                            "Failed to create empty string: "
                        },
                        Step::Invoke => match self.binding {
                            Binding::Library => "Failed to call callback: ",
                            Binding::Application => "Failed to call progress callback: ",
                        },
                    };
                    self.give_up(prefixed(context, detail.as_str()))
                },
            },
            Stage::Inside { step, phase: Phase::Check } => match reply {
                Ok(pending) => if pending {
                    self.stage = Stage::Inside { step, phase: Phase::Clear };
                    JavaAction::ClearException
                } else {
                    self.proceed(step)
                },
                Err(detail) => self.give_up(prefixed("Failed to check exception: ", detail.as_str())),
            },
            Stage::Inside { step, phase: Phase::Clear } => match reply {
                Ok(_) => {
                    let context = match step {
                        Step::Name => "creating partition name",
                        Step::Message => if warning {
                            "creating warning message"
                        } else {
                            "creating empty string"
                        },
                        Step::Invoke => "Java callback",
                    };
                    self.give_up(prefixed("Exception occurred while ", context))
                },
                Err(detail) => self.give_up(prefixed("Failed to clear exception: ", detail.as_str())),
            },
            Stage::Read => match reply {
                Ok(answer) => {
                    self.stage = Stage::Pop;
                    self.outcome = Ok(answer);
                    JavaAction::PopFrame
                },
                Err(detail) => {
                    let context = match self.binding {
                        Binding::Library => "Failed to extract boolean: ",
                        Binding::Application => "Failed to extract boolean from callback result: ",
                    };
                    self.give_up(prefixed(context, detail.as_str()))
                },
            },
            Stage::Pop => {
                self.stage = Stage::Finished;
                self.returned()
            },
            Stage::Finished => self.returned(),
        }
    }
}

} // verus!
