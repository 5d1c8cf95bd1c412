//! Progress events: what a host callback is told about a running extraction.

use vstd::prelude::*;
use vstd::string::*;

verus! {

/// Where an extraction stands when an event is raised.
#[derive(Debug, Clone, PartialEq, Eq)]
pub enum ExtractionStatus {
    Started,
    InProgress,
    Completed,
    /// Something went wrong with one operation; the extraction goes on.
    Warning { operation_index: usize, message: String },
}

/// An [`ExtractionStatus`] with its text as a sequence of characters.
pub enum StatusView {
    Started,
    InProgress,
    Completed,
    Warning { operation_index: usize, message: Seq<char> },
}

impl View for ExtractionStatus {
    type V = StatusView;

    open spec fn view(&self) -> StatusView {
        match *self {
            ExtractionStatus::Started => StatusView::Started,
            ExtractionStatus::InProgress => StatusView::InProgress,
            ExtractionStatus::Completed => StatusView::Completed,
            ExtractionStatus::Warning { operation_index, message } => StatusView::Warning {
                operation_index,
                message: message@,
            },
        }
    }
}

/// The numbers by which a host tells the four kinds of event apart.
pub const STATUS_STARTED: i32 = 0;

pub const STATUS_IN_PROGRESS: i32 = 1;

pub const STATUS_COMPLETED: i32 = 2;

pub const STATUS_WARNING: i32 = 3;

/// The number that stands for a status when it crosses a boundary.
pub open spec fn status_code(status: StatusView) -> i32 {
    match status {
        StatusView::Started => STATUS_STARTED,
        StatusView::InProgress => STATUS_IN_PROGRESS,
        StatusView::Completed => STATUS_COMPLETED,
        StatusView::Warning { .. } => STATUS_WARNING,
    }
}

impl ExtractionStatus {
    /// The number that stands for this status when it crosses a boundary.
    pub fn code(&self) -> (code: i32)
        ensures
            code == status_code(self@),
            0 <= code <= 3,
    {
        match self {
            ExtractionStatus::Started => STATUS_STARTED,
            ExtractionStatus::InProgress => STATUS_IN_PROGRESS,
            ExtractionStatus::Completed => STATUS_COMPLETED,
            ExtractionStatus::Warning { .. } => STATUS_WARNING,
        }
    }
}

/// A completion percentage, kept as the fraction it stands for: one hundred
/// times `numerator` over `denominator`. Hosts that want a floating-point
/// number divide at the boundary; nothing is rounded before that.
#[derive(Debug, Clone, Copy, PartialEq, Eq, Structural)]
pub struct Percentage {
    pub numerator: u64,
    pub denominator: u64,
}

impl Percentage {
    /// A percentage can be divided out: its denominator is not zero.
    pub open spec fn well_formed(self) -> bool {
        self.denominator > 0
    }

    /// The percentage is exactly zero.
    pub open spec fn is_zero(self) -> bool {
        self.numerator == 0
    }

    /// The percentage is exactly one hundred.
    pub open spec fn is_full(self) -> bool {
        self.numerator == self.denominator
    }

    pub open spec fn zero() -> Percentage {
        Percentage { numerator: 0, denominator: 1 }
    }

    pub open spec fn full() -> Percentage {
        Percentage { numerator: 1, denominator: 1 }
    }

    /// The share of `total` that `current` is, and zero where there is
    /// nothing to do at all.
    pub open spec fn of(current: u64, total: u64) -> Percentage {
        if total > 0 {
            Percentage { numerator: current, denominator: total }
        } else {
            Percentage::zero()
        }
    }

    /// Computes the share of `total` that `current` is. A total of zero
    /// gives zero, whatever `current` is.
    pub fn compute(current: u64, total: u64) -> (p: Percentage)
        ensures
            p == Percentage::of(current, total),
            p.well_formed(),
            total == 0 ==> p.is_zero(),
    {
        if total > 0 {
            Percentage { numerator: current, denominator: total }
        } else {
            Percentage { numerator: 0, denominator: 1 }
        }
    }
}

/// One event, as handed to a progress callback.
#[derive(Debug, Clone, PartialEq, Eq)]
pub struct ExtractionProgress {
    pub partition_name: String,
    pub current_operation: u64,
    pub total_operations: u64,
    pub percentage: Percentage,
    pub status: ExtractionStatus,
}

/// An [`ExtractionProgress`] with its texts as sequences of characters.
pub struct ProgressView {
    pub partition_name: Seq<char>,
    pub current_operation: u64,
    pub total_operations: u64,
    pub percentage: Percentage,
    pub status: StatusView,
}

impl View for ExtractionProgress {
    type V = ProgressView;

    open spec fn view(&self) -> ProgressView {
        ProgressView {
            partition_name: self.partition_name@,
            current_operation: self.current_operation,
            total_operations: self.total_operations,
            percentage: self.percentage,
            status: self.status@,
        }
    }
}

/// The event that opens the extraction of a partition.
pub open spec fn started(partition_name: Seq<char>, total_operations: u64) -> ProgressView {
    ProgressView {
        partition_name,
        current_operation: 0,
        total_operations,
        percentage: Percentage::zero(),
        status: StatusView::Started,
    }
}

/// The event raised after an operation of the partition.
pub open spec fn in_progress(
    partition_name: Seq<char>,
    current_operation: u64,
    total_operations: u64,
) -> ProgressView {
    ProgressView {
        partition_name,
        current_operation,
        total_operations,
        percentage: Percentage::of(current_operation, total_operations),
        status: StatusView::InProgress,
    }
}

/// The event that closes the extraction of a partition. It reports one
/// hundred percent, and zero for a partition that had nothing to do.
pub open spec fn completed(partition_name: Seq<char>, total_operations: u64) -> ProgressView {
    ProgressView {
        partition_name,
        current_operation: total_operations,
        total_operations,
        percentage: if total_operations == 0 {
            Percentage::zero()
        } else {
            Percentage::full()
        },
        status: StatusView::Completed,
    }
}

/// The event that reports trouble with one operation.
pub open spec fn warning(
    partition_name: Seq<char>,
    operation_index: usize,
    message: Seq<char>,
) -> ProgressView {
    ProgressView {
        partition_name,
        current_operation: operation_index as u64,
        total_operations: 0,
        percentage: Percentage::zero(),
        status: StatusView::Warning { operation_index, message },
    }
}

impl ExtractionProgress {
    pub fn started(partition_name: &str, total_operations: u64) -> (event: ExtractionProgress)
        ensures
            event@ == started(partition_name@, total_operations),
    {
        ExtractionProgress {
            partition_name: String::from_str(partition_name),
            current_operation: 0,
            total_operations,
            percentage: Percentage { numerator: 0, denominator: 1 },
            status: ExtractionStatus::Started,
        }
    }

    pub fn in_progress(
        partition_name: &str,
        current_operation: u64,
        total_operations: u64,
    ) -> (event: ExtractionProgress)
        ensures
            event@ == in_progress(partition_name@, current_operation, total_operations),
            total_operations == 0 ==> event.percentage.is_zero(),
    {
        ExtractionProgress {
            partition_name: String::from_str(partition_name),
            current_operation,
            total_operations,
            percentage: Percentage::compute(current_operation, total_operations),
            status: ExtractionStatus::InProgress,
        }
    }

    pub fn completed(partition_name: &str, total_operations: u64) -> (event: ExtractionProgress)
        ensures
            event@ == completed(partition_name@, total_operations),
            total_operations == 0 ==> event.percentage.is_zero(),
    {
        let percentage = if total_operations == 0 {
            Percentage { numerator: 0, denominator: 1 }
        } else {
            Percentage { numerator: 1, denominator: 1 }
        };
        ExtractionProgress {
            partition_name: String::from_str(partition_name),
            current_operation: total_operations,
            total_operations,
            percentage,
            status: ExtractionStatus::Completed,
        }
    }

    pub fn warning(
        partition_name: &str,
        operation_index: usize,
        message: String,
    ) -> (event: ExtractionProgress)
        ensures
            event@ == warning(partition_name@, operation_index, message@),
    {
        ExtractionProgress {
            partition_name: String::from_str(partition_name),
            current_operation: operation_index as u64,
            total_operations: 0,
            percentage: Percentage { numerator: 0, denominator: 1 },
            status: ExtractionStatus::Warning { operation_index, message },
        }
    }
}

} // verus!
