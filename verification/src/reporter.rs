//! Reporters: what the dump loop of the engine talks to while it works.
//!
//! A reporter is told when the extraction of a partition starts, advances,
//! completes or runs into trouble, and is asked between operations whether
//! to stop. The callback reporter turns each of the four into one event for
//! a host callback and reads the callback's answer as the wish to go on or
//! to stop. Stopping is cooperative and final: once asked for, it stays
//! asked for.

use crate::progress::{
    completed, in_progress, started, warning, ExtractionProgress, Percentage, ProgressView,
    StatusView,
};
use vstd::prelude::*;

verus! {

/// One call of a reporter by the dump loop.
pub enum Hook {
    Start { partition_name: Seq<char>, total_operations: u64 },
    Progress { partition_name: Seq<char>, current_operation: u64, total_operations: u64 },
    Complete { partition_name: Seq<char>, total_operations: u64 },
    Warning { partition_name: Seq<char>, operation_index: usize, message: Seq<char> },
}

/// The event that a call hands to the callback.
pub open spec fn event_of(hook: Hook) -> ProgressView {
    match hook {
        Hook::Start { partition_name, total_operations } => started(
            partition_name,
            total_operations,
        ),
        Hook::Progress { partition_name, current_operation, total_operations } => in_progress(
            partition_name,
            current_operation,
            total_operations,
        ),
        Hook::Complete { partition_name, total_operations } => completed(
            partition_name,
            total_operations,
        ),
        Hook::Warning { partition_name, operation_index, message } => warning(
            partition_name,
            operation_index,
            message,
        ),
    }
}

/// Whether the callback's answer to a call asks the extraction to stop.
/// Only the start of a partition and its progress can be refused; the
/// answer to a completion or a warning is not read.
pub open spec fn cancels(hook: Hook, go_on: bool) -> bool {
    (hook is Start || hook is Progress) && !go_on
}

/// Whether stopping is asked for after a call, given whether it was before.
pub open spec fn cancelled_after(cancelled: bool, hook: Hook, go_on: bool) -> bool {
    cancelled || cancels(hook, go_on)
}

/// Whether stopping is asked for after a run of calls, each with the answer
/// it got.
pub open spec fn cancelled_after_all(cancelled: bool, calls: Seq<(Hook, bool)>) -> bool
    decreases calls.len(),
{
    if calls.len() == 0 {
        cancelled
    } else {
        cancelled_after(
            cancelled_after_all(cancelled, calls.drop_last()),
            calls.last().0,
            calls.last().1,
        )
    }
}

/// The events that a run of calls hands to the callback: one for each call,
/// in the order of the calls.
pub open spec fn delivered(calls: Seq<Hook>) -> Seq<ProgressView> {
    calls.map_values(|hook: Hook| event_of(hook))
}

/// The statuses of a run of events follow the order of an extraction.
/// Warnings aside, the first is the one start, every other is progress, and
/// a completion, if there is one, comes last.
pub open spec fn well_ordered(statuses: Seq<StatusView>) -> bool {
    let core = statuses.filter(|s: StatusView| !(s is Warning));
    forall|i: int|
        0 <= i < core.len() ==> match #[trigger] core[i] {
            StatusView::Started => i == 0,
            StatusView::InProgress => i > 0,
            StatusView::Completed => i > 0 && i == core.len() - 1,
            StatusView::Warning { .. } => false,
        }
}

/// The status that a call stands for.
pub open spec fn status_of(hook: Hook) -> StatusView {
    match hook {
        Hook::Start { .. } => StatusView::Started,
        Hook::Progress { .. } => StatusView::InProgress,
        Hook::Complete { .. } => StatusView::Completed,
        Hook::Warning { operation_index, message, .. } => StatusView::Warning {
            operation_index,
            message,
        },
    }
}

/// The callback can be called with every event.
pub open spec fn accepts_every_event<F: Fn(ExtractionProgress) -> bool>(callback: F) -> bool {
    forall|event: ExtractionProgress| call_requires(callback, (event,))
}

/// An event for a partition without operations reports zero percent,
/// whatever the current operation is said to be, and every percentage can
/// be divided out.
pub proof fn no_operations_means_zero_percent(hook: Hook)
    requires
        event_of(hook).total_operations == 0,
    ensures
        event_of(hook).percentage.is_zero(),
        event_of(hook).percentage.well_formed(),
{
}

/// The percentage of every event can be divided out, and that of the
/// completion of a partition with operations is one hundred.
pub proof fn percentage_is_well_formed(hook: Hook)
    ensures
        event_of(hook).percentage.well_formed(),
        hook is Complete && event_of(hook).total_operations > 0 ==> event_of(
            hook,
        ).percentage.is_full(),
        hook is Start || hook is Warning ==> event_of(hook).percentage.is_zero(),
        hook is Progress && event_of(hook).total_operations > 0 ==> event_of(hook).percentage == (
        Percentage {
            numerator: event_of(hook).current_operation,
            denominator: event_of(hook).total_operations,
        }),
{
}

/// Once stopping is asked for, it stays asked for, whatever is reported
/// afterwards and whatever the callback answers.
pub proof fn cancellation_is_monotonic(cancelled: bool, calls: Seq<(Hook, bool)>, n: int)
    requires
        0 <= n <= calls.len(),
        cancelled_after_all(cancelled, calls.take(n)),
    ensures
        cancelled_after_all(cancelled, calls),
    decreases calls.len() - n,
{
    if n < calls.len() {
        assert(calls.take(n + 1).drop_last() =~= calls.take(n));
        cancellation_is_monotonic(cancelled, calls, n + 1);
    } else {
        assert(calls.take(n) =~= calls);
    }
}

/// A callback that refuses the start of a partition or its progress once
/// has asked to stop from that call on.
pub proof fn refusal_is_final(cancelled: bool, calls: Seq<(Hook, bool)>, i: int, n: int)
    requires
        0 <= i < n <= calls.len(),
        cancels(calls[i].0, calls[i].1),
    ensures
        cancelled_after_all(cancelled, calls.take(n)),
{
    let upto = calls.take(n);
    assert(upto.take(i + 1).drop_last() =~= upto.take(i));
    assert(upto.take(i + 1).last() == calls[i]);
    cancellation_is_monotonic(cancelled, upto, i + 1);
}

/// Stopping is asked for by a refusal and by nothing else: after a run of
/// calls none of which was refused, a reporter that had not been asked to
/// stop still has not. Completions and warnings never count as refusals.
pub proof fn only_a_refusal_cancels(calls: Seq<(Hook, bool)>)
    requires
        forall|i: int| 0 <= i < calls.len() ==> !cancels(#[trigger] calls[i].0, calls[i].1),
    ensures
        !cancelled_after_all(false, calls),
        forall|hook: Hook, go_on: bool|
            (hook is Complete || hook is Warning) ==> !#[trigger] cancels(hook, go_on),
    decreases calls.len(),
{
    if calls.len() > 0 {
        only_a_refusal_cancels(calls.drop_last());
    }
}

/// With a callback that always answers `false`, stopping is asked for from
/// the first start or progress that is reported, and the calls before it,
/// which can only be completions and warnings, leave the reporter as it was.
pub proof fn refusing_callback_stops_at_first_report(calls: Seq<(Hook, bool)>, first: int, n: int)
    requires
        forall|i: int| 0 <= i < calls.len() ==> !(#[trigger] calls[i]).1,
        0 <= first < n <= calls.len(),
        calls[first].0 is Start || calls[first].0 is Progress,
        forall|i: int|
            0 <= i < first ==> (#[trigger] calls[i]).0 is Complete || calls[i].0 is Warning,
    ensures
        !cancelled_after_all(false, calls.take(first)),
        cancelled_after_all(false, calls.take(n)),
{
    only_a_refusal_cancels(calls.take(first));
    refusal_is_final(false, calls, first, n);
}

/// The callback is handed one event for each call, in the order of the
/// calls and with the status of the call. So the events follow the order of
/// an extraction exactly when the calls of the dump loop do.
pub proof fn delivery_keeps_order(calls: Seq<Hook>)
    ensures
        delivered(calls).len() == calls.len(),
        forall|i: int|
            0 <= i < calls.len() ==> (#[trigger] delivered(calls)[i]).status == status_of(calls[i]),
        well_ordered(delivered(calls).map_values(|event: ProgressView| event.status))
            == well_ordered(calls.map_values(|hook: Hook| status_of(hook))),
{
    assert(delivered(calls).map_values(|event: ProgressView| event.status) =~= calls.map_values(
        |hook: Hook| status_of(hook),
    ));
}

/// A reporter that forwards every call to a callback and remembers whether
/// the callback has asked to stop.
pub struct CallbackProgressReporter<F: Fn(ExtractionProgress) -> bool> {
    callback: F,
    cancelled: bool,
}

impl<F: Fn(ExtractionProgress) -> bool> CallbackProgressReporter<F> {
    /// The callback that the reporter forwards to.
    pub closed spec fn callback(&self) -> F {
        self.callback
    }

    /// Whether stopping is asked for.
    pub closed spec fn cancelled(&self) -> bool {
        self.cancelled
    }

    /// The callback can be called with every event.
    #[verifier::type_invariant]
    spec fn callback_is_total(&self) -> bool {
        accepts_every_event(self.callback)
    }

    /// The reporter was called as `hook`: the callback was handed the event
    /// of the call, and its answer was read as the call prescribes.
    pub open spec fn called(&self, before: Self, hook: Hook) -> bool {
        &&& self.callback() == before.callback()
        &&& exists|event: ExtractionProgress, go_on: bool|
            {
                &&& event@ == event_of(hook)
                &&& #[trigger] call_ensures(before.callback(), (event,), go_on)
                &&& self.cancelled() == cancelled_after(before.cancelled(), hook, go_on)
            }
    }

    /// A reporter around `callback`. Nothing has asked it to stop yet.
    pub fn new(callback: F) -> (reporter: Self)
        requires
            accepts_every_event(callback),
        ensures
            reporter.callback() == callback,
            !reporter.cancelled(),
    {
        CallbackProgressReporter { callback, cancelled: false }
    }

    /// Reports that the extraction of a partition starts. A callback that
    /// answers `false` asks the extraction to stop.
    pub fn on_start(&mut self, partition_name: &str, total_operations: u64)
        ensures
            final(self).called(
                *old(self),
                Hook::Start { partition_name: partition_name@, total_operations },
            ),
    {
        proof {
            use_type_invariant(&*self);
        }
        let event = ExtractionProgress::started(partition_name, total_operations);
        let go_on = (self.callback)(event);
        assert(call_ensures(old(self).callback(), (event,), go_on));
        if !go_on {
            self.cancelled = true;
        }
    }

    /// Reports that an operation of a partition is done. A callback that
    /// answers `false` asks the extraction to stop.
    pub fn on_progress(
        &mut self,
        partition_name: &str,
        current_operation: u64,
        total_operations: u64,
    )
        ensures
            final(self).called(
                *old(self),
                Hook::Progress {
                    partition_name: partition_name@,
                    current_operation,
                    total_operations,
                },
            ),
    {
        let event = ExtractionProgress::in_progress(
            partition_name,
            current_operation,
            total_operations,
        );
        proof {
            use_type_invariant(&*self);
        }
        let go_on = (self.callback)(event);
        assert(call_ensures(old(self).callback(), (event,), go_on));
        if !go_on {
            self.cancelled = true;
        }
    }

    /// Reports that the extraction of a partition is complete: one hundred
    /// percent, or zero where the partition had no operations. The
    /// callback's answer is not read: a completion cannot be refused.
    pub fn on_complete(&mut self, partition_name: &str, total_operations: u64)
        ensures
            final(self).called(
                *old(self),
                Hook::Complete { partition_name: partition_name@, total_operations },
            ),
            final(self).cancelled() == old(self).cancelled(),
    {
        proof {
            use_type_invariant(&*self);
        }
        let event = ExtractionProgress::completed(partition_name, total_operations);
        let go_on = (self.callback)(event);
        assert(call_ensures(old(self).callback(), (event,), go_on));
    }

    /// Reports trouble with one operation. The callback's answer is not
    /// read: a warning cannot be refused.
    pub fn on_warning(&mut self, partition_name: &str, operation_index: usize, message: String)
        ensures
            final(self).called(
                *old(self),
                Hook::Warning {
                    partition_name: partition_name@,
                    operation_index,
                    message: message@,
                },
            ),
            final(self).cancelled() == old(self).cancelled(),
    {
        proof {
            use_type_invariant(&*self);
        }
        let event = ExtractionProgress::warning(partition_name, operation_index, message);
        let go_on = (self.callback)(event);
        assert(call_ensures(old(self).callback(), (event,), go_on));
    }

    /// Tells whether the callback has asked to stop.
    pub fn is_cancelled(&self) -> (cancelled: bool)
        ensures
            cancelled == self.cancelled(),
    {
        self.cancelled
    }
}

/// The reporter of an operation: one that forwards to the host's callback,
/// or one that does nothing where the host gave none.
pub enum Reporter<F: Fn(ExtractionProgress) -> bool> {
    Callback(CallbackProgressReporter<F>),
    NoOp,
}

impl<F: Fn(ExtractionProgress) -> bool> Reporter<F> {
    /// Whether stopping is asked for. Without a callback it never is.
    pub open spec fn cancelled(&self) -> bool {
        match *self {
            Reporter::Callback(reporter) => reporter.cancelled(),
            Reporter::NoOp => false,
        }
    }

    /// The reporter was called as `hook`. Without a callback that changes
    /// nothing.
    pub open spec fn called(&self, before: Self, hook: Hook) -> bool {
        match (*self, before) {
            (Reporter::Callback(after), Reporter::Callback(reporter)) => after.called(
                reporter,
                hook,
            ),
            (Reporter::NoOp, Reporter::NoOp) => true,
            _ => false,
        }
    }

    /// Reports that the extraction of a partition starts.
    pub fn on_start(&mut self, partition_name: &str, total_operations: u64)
        ensures
            final(self).called(
                *old(self),
                Hook::Start { partition_name: partition_name@, total_operations },
            ),
    {
        match self {
            Reporter::Callback(reporter) => reporter.on_start(partition_name, total_operations),
            Reporter::NoOp => {},
        }
    }

    /// Reports that an operation of a partition is done.
    pub fn on_progress(
        &mut self,
        partition_name: &str,
        current_operation: u64,
        total_operations: u64,
    )
        ensures
            final(self).called(
                *old(self),
                Hook::Progress {
                    partition_name: partition_name@,
                    current_operation,
                    total_operations,
                },
            ),
    {
        match self {
            Reporter::Callback(reporter) => reporter.on_progress(
                partition_name,
                current_operation,
                total_operations,
            ),
            Reporter::NoOp => {},
        }
    }

    /// Reports that the extraction of a partition is complete.
    pub fn on_complete(&mut self, partition_name: &str, total_operations: u64)
        ensures
            final(self).called(
                *old(self),
                Hook::Complete { partition_name: partition_name@, total_operations },
            ),
            final(self).cancelled() == old(self).cancelled(),
    {
        match self {
            Reporter::Callback(reporter) => reporter.on_complete(partition_name, total_operations),
            Reporter::NoOp => {},
        }
    }

    /// Reports trouble with one operation.
    pub fn on_warning(&mut self, partition_name: &str, operation_index: usize, message: String)
        ensures
            final(self).called(
                *old(self),
                Hook::Warning {
                    partition_name: partition_name@,
                    operation_index,
                    message: message@,
                },
            ),
            final(self).cancelled() == old(self).cancelled(),
    {
        match self {
            Reporter::Callback(reporter) => reporter.on_warning(
                partition_name,
                operation_index,
                message,
            ),
            Reporter::NoOp => {},
        }
    }

    /// Tells whether the extraction was asked to stop.
    pub fn is_cancelled(&self) -> (cancelled: bool)
        ensures
            cancelled == self.cancelled(),
    {
        match self {
            Reporter::Callback(reporter) => reporter.is_cancelled(),
            Reporter::NoOp => false,
        }
    }
}

/// Builds the reporter of an operation: around the host's callback where
/// there is one, and the one that does nothing where there is none.
pub fn create_reporter<F: Fn(ExtractionProgress) -> bool>(
    callback: Option<F>,
) -> (reporter: Reporter<F>)
    requires
        callback is Some ==> accepts_every_event(callback->Some_0),
    ensures
        !reporter.cancelled(),
        match callback {
            Some(f) => reporter is Callback && reporter->Callback_0.callback() == f,
            None => reporter is NoOp,
        },
{
    match callback {
        Some(f) => Reporter::Callback(CallbackProgressReporter::new(f)),
        None => Reporter::NoOp,
    }
}

} // verus!
