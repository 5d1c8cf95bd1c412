//! The managed-runtime boundary: how values, failures and progress events
//! are shaped for a host that speaks in object references and exceptions.
//!
//! The calls into the runtime itself are made by the caller. Each function
//! here takes what such a call gave back and decides what follows.

use crate::error::{error_text, CallOutcome, ExtractError};
use crate::extractor::{
    ExtractRequest, ExtractRequestView, Location, Operation, OperationView, Source, SourceView,
};
use crate::progress::{
    status_code, ExtractionProgress, ExtractionStatus, Percentage, ProgressView, StatusView,
};
use crate::text::{in_context, prefixed};
use vstd::prelude::*;
use vstd::string::*;

verus! {

/// Which of the two managed bindings is speaking. The binding that ships
/// with the library and the one inside the application word some failures
/// differently, and hosts match on the words, so both wordings are kept.
#[derive(Debug, Clone, Copy, PartialEq, Eq, Structural)]
pub enum Binding {
    Library,
    Application,
}

/// The text of the failure that an unwind is turned into.
pub open spec fn panic_text(binding: Binding) -> Seq<char> {
    match binding {
        Binding::Library => "Panic in native code"@,
        Binding::Application => "Panic occurred in native code"@,
    }
}

fn panic_message(binding: Binding) -> (text: String)
    ensures
        text@ == panic_text(binding),
{
    match binding {
        Binding::Library => String::from_str("Panic in native code"),
        Binding::Application => String::from_str("Panic occurred in native code"),
    }
}

/// A 64-bit count as the managed runtime reads it: the same bits, signed.
pub open spec fn as_long(value: u64) -> i64 {
    if value <= i64::MAX {
        value as i64
    } else {
        (value - 0x1_0000_0000_0000_0000) as i64
    }
}

/// An index as the managed runtime reads it: its low 32 bits, signed.
pub open spec fn as_int(index: usize) -> i32 {
    let low = index as int % 0x1_0000_0000;
    if low < 0x8000_0000 {
        low as i32
    } else {
        (low - 0x1_0000_0000) as i32
    }
}

/// Reinterprets a 64-bit count as a signed one.
pub fn to_long(value: u64) -> (long: i64)
    ensures
        long == as_long(value),
{
    if value <= 0x7fff_ffff_ffff_ffff {
        value as i64
    } else {
        let high: u64 = value - 0x8000_0000_0000_0000;
        (high as i64) + i64::MIN
    }
}

/// Keeps the low 32 bits of an index and reads them as a signed number.
pub fn to_int(index: usize) -> (short: i32)
    ensures
        short == as_int(index),
{
    let low: u64 = (index as u64) % 0x1_0000_0000;
    if low < 0x8000_0000 {
        low as i32
    } else {
        let wrapped: i64 = (low as i64) - 0x1_0000_0000;
        wrapped as i32
    }
}

/// What a managed string gave when it was read: the text, with the reason
/// in front of a failure.
pub fn jstring_to_string(fetched: Result<String, String>) -> (text: Result<String, String>)
    ensures
        match fetched {
            Ok(s) => text == Ok::<String, String>(s),
            Err(e) => text is Err && text->Err_0@ == "Failed to convert Java string: "@ + e@,
        },
{
    in_context("Failed to convert Java string: ", fetched)
}

/// What creating a managed string gave: the reference to it, with the
/// reason in front of a failure.
pub fn string_to_jstring<R>(created: Result<R, String>) -> (reference: Result<R, String>)
    ensures
        match created {
            Ok(r) => reference == Ok::<R, String>(r),
            Err(e) => reference is Err && reference->Err_0@ == "Failed to create Java string: "@
                + e@,
        },
{
    in_context("Failed to create Java string: ", created)
}

/// Reads a managed string that may be absent. `None` stands for the null
/// reference, which is no failure.
pub fn optional_jstring(fetched: Option<Result<String, String>>) -> (text: Result<
    Option<String>,
    String,
>)
    ensures
        match fetched {
            None => text == Ok::<Option<String>, String>(None),
            Some(Ok(s)) => text == Ok::<Option<String>, String>(Some(s)),
            Some(Err(e)) => text is Err && text->Err_0@ == "Failed to convert Java string: "@
                + e@,
        },
{
    match fetched {
        None => Ok(None),
        Some(read) => match jstring_to_string(read) {
            Ok(s) => Ok(Some(s)),
            Err(e) => Err(e),
        },
    }
}

/// What looking for a pending exception gave, and what clearing it gave.
/// A failure to look comes first; a pending exception is a failure of its
/// own, named after what the bridge was doing, unless it could not even be
/// cleared. `cleared` counts only where an exception was pending.
pub open spec fn exception_outcome(
    pending: Result<bool, Seq<char>>,
    cleared: Result<(), Seq<char>>,
    context: Seq<char>,
) -> Result<(), Seq<char>> {
    match pending {
        Err(detail) => Err("Failed to check exception: "@ + detail),
        Ok(false) => Ok(()),
        Ok(true) => match cleared {
            Err(detail) => Err("Failed to clear exception: "@ + detail),
            Ok(_) => Err("Exception occurred while "@ + context),
        },
    }
}

/// The text of a failure as a sequence of characters.
pub open spec fn failure_view<T>(result: Result<T, String>) -> Result<T, Seq<char>> {
    match result {
        Ok(value) => Ok(value),
        Err(detail) => Err(detail@),
    }
}

/// Turns a pending managed exception into a failure of the bridge, so that
/// it never travels on as an unwind. `pending` is what looking for one gave;
/// `cleared` is what describing and clearing it gave, and is read only where
/// one was pending.
pub fn check_exception(
    pending: Result<bool, String>,
    cleared: Result<(), String>,
    context: &str,
) -> (outcome: Result<(), String>)
    ensures
        failure_view(outcome) == exception_outcome(
            failure_view(pending),
            failure_view(cleared),
            context@,
        ),
{
    match pending {
        Err(detail) => Err(prefixed("Failed to check exception: ", detail.as_str())),
        Ok(false) => Ok(()),
        Ok(true) => match cleared {
            Err(detail) => Err(prefixed("Failed to clear exception: ", detail.as_str())),
            Ok(_) => Err(prefixed("Exception occurred while ", context)),
        },
    }
}

/// What making the callback reference durable gave, with the reason in
/// front of a failure.
pub fn global_reference<R>(created: Result<R, String>) -> (reference: Result<R, String>)
    ensures
        match created {
            Ok(r) => reference == Ok::<R, String>(r),
            Err(e) => reference is Err && reference->Err_0@ == "Failed to create global ref: "@
                + e@,
        },
{
    in_context("Failed to create global ref: ", created)
}

/// What asking for the handle of the managed runtime gave, with the reason
/// in front of a failure.
pub fn runtime_handle<V>(found: Result<V, String>) -> (handle: Result<V, String>)
    ensures
        match found {
            Ok(v) => handle == Ok::<V, String>(v),
            Err(e) => handle is Err && handle->Err_0@ == "Failed to get JavaVM: "@ + e@,
        },
{
    in_context("Failed to get JavaVM: ", found)
}

/// The answer a progress callback gives for one call of the host's method.
/// `None` says that the worker thread could not attach to the managed
/// runtime. Only an answer the host gave counts as it is; every failure on
/// the way asks the extraction to stop.
pub open spec fn answer_of(call: Option<Result<bool, Seq<char>>>) -> bool {
    match call {
        Some(Ok(answer)) => answer,
        _ => false,
    }
}

/// Decides whether the extraction goes on after one call of the host's
/// progress method.
pub fn callback_answer(call: Option<Result<bool, String>>) -> (go_on: bool)
    ensures
        go_on == match call {
            Some(Ok(answer)) => answer,
            _ => false,
        },
{
    match call {
        Some(Ok(answer)) => answer,
        _ => false,
    }
}

/// What a listing hands back to the host: the text to return, or the
/// message of the exception to raise instead.
pub fn handle_list(binding: Binding, outcome: CallOutcome<String>) -> (reply: Result<
    String,
    String,
>)
    ensures
        match outcome {
            CallOutcome::Finished(result) => reply == result,
            CallOutcome::Panicked => reply is Err && reply->Err_0@ == panic_text(binding),
        },
{
    match outcome {
        CallOutcome::Finished(result) => result,
        CallOutcome::Panicked => Err(panic_message(binding)),
    }
}

/// What an extraction hands back to the host: nothing, or the message of
/// the exception to raise.
pub fn handle_extract(binding: Binding, outcome: CallOutcome<()>) -> (exception: Option<String>)
    ensures
        match outcome {
            CallOutcome::Finished(Ok(_)) => exception is None,
            CallOutcome::Finished(Err(e)) => exception == Some(e),
            CallOutcome::Panicked => exception is Some && exception->Some_0@ == panic_text(
                binding,
            ),
        },
{
    match outcome {
        CallOutcome::Finished(Ok(_)) => None,
        CallOutcome::Finished(Err(e)) => Some(e),
        CallOutcome::Panicked => Some(panic_message(binding)),
    }
}

/// What the host's progress method is called with.
#[derive(Debug, Clone, PartialEq, Eq)]
pub struct CallbackArguments {
    pub partition_name: String,
    pub current_operation: i64,
    pub total_operations: i64,
    pub percentage: Percentage,
    pub status_code: i32,
    pub warning_index: i32,
    pub warning_message: String,
}

/// [`CallbackArguments`] with its texts as sequences of characters.
pub struct ArgumentsView {
    pub partition_name: Seq<char>,
    pub current_operation: i64,
    pub total_operations: i64,
    pub percentage: Percentage,
    pub status_code: i32,
    pub warning_index: i32,
    pub warning_message: Seq<char>,
}

impl View for CallbackArguments {
    type V = ArgumentsView;

    open spec fn view(&self) -> ArgumentsView {
        ArgumentsView {
            partition_name: self.partition_name@,
            current_operation: self.current_operation,
            total_operations: self.total_operations,
            percentage: self.percentage,
            status_code: self.status_code,
            warning_index: self.warning_index,
            warning_message: self.warning_message@,
        }
    }
}

/// The arguments that stand for an event. Only a warning carries an index
/// and a message; every other event carries zero and the empty text.
pub open spec fn arguments_of(event: ProgressView) -> ArgumentsView {
    ArgumentsView {
        partition_name: event.partition_name,
        current_operation: as_long(event.current_operation),
        total_operations: as_long(event.total_operations),
        percentage: event.percentage,
        status_code: status_code(event.status),
        warning_index: match event.status {
            StatusView::Warning { operation_index, .. } => as_int(operation_index),
            _ => 0,
        },
        warning_message: match event.status {
            StatusView::Warning { message, .. } => message,
            _ => Seq::empty(),
        },
    }
}

/// Shapes an event for the host's progress method.
pub fn callback_arguments(event: ExtractionProgress) -> (arguments: CallbackArguments)
    ensures
        arguments@ == arguments_of(event@),
{
    let status_code = event.status.code();
    let (warning_index, warning_message) = match event.status {
        ExtractionStatus::Warning { operation_index, message } => (to_int(operation_index), message),
        _ => (0, String::new()),
    };
    CallbackArguments {
        partition_name: event.partition_name,
        current_operation: to_long(event.current_operation),
        total_operations: to_long(event.total_operations),
        percentage: event.percentage,
        status_code,
        warning_index,
        warning_message,
    }
}

/// What stands in front of the text of a failure at this boundary.
pub open spec fn failure_context(
    binding: Binding,
    location: Location,
    operation: OperationView,
) -> Seq<char> {
    match (operation, binding, location) {
        (OperationView::Extract { .. }, _, _) => "Extraction failed: "@,
        (OperationView::List, Binding::Library, _) => "Failed to list: "@,
        (OperationView::List, Binding::Application, Location::Local) => "Failed to list partitions: "@,
        (OperationView::List, Binding::Application, Location::Remote) =>
            "Failed to list remote partitions: "@,
    }
}

/// The message of the exception that is raised where an operation fails.
pub fn failure_text(
    binding: Binding,
    location: Location,
    operation: &Operation,
    error: &ExtractError,
) -> (text: String)
    ensures
        text@ == failure_context(binding, location, operation@) + error_text(error@),
{
    let context = match operation {
        Operation::Extract { .. } => "Extraction failed: ",
        Operation::List => match binding {
            Binding::Library => "Failed to list: ",
            Binding::Application => match location {
                Location::Local => "Failed to list partitions: ",
                Location::Remote => "Failed to list remote partitions: ",
            },
        },
    };
    let detail = error.message();
    prefixed(context, detail.as_str())
}

/// The source that the arguments of a remote operation name, from what
/// reading each of them gave. They count in the order they are given in, and
/// the first that could not be read is the failure.
pub open spec fn remote_source_of(
    url: Result<Seq<char>, Seq<char>>,
    user_agent: Option<Result<Seq<char>, Seq<char>>>,
    cookies: Option<Result<Seq<char>, Seq<char>>>,
) -> Result<SourceView, Seq<char>> {
    match read(url) {
        Err(reason) => Err(reason),
        Ok(url) => match read_optional(user_agent) {
            Err(reason) => Err(reason),
            Ok(user_agent) => match read_optional(cookies) {
                Err(reason) => Err(reason),
                Ok(cookies) => Ok(SourceView::Remote { url, user_agent, cookies }),
            },
        },
    }
}

/// What a managed string gave when it was read, with the reason in front of
/// a failure.
pub open spec fn read(fetched: Result<Seq<char>, Seq<char>>) -> Result<Seq<char>, Seq<char>> {
    match fetched {
        Ok(text) => Ok(text),
        Err(reason) => Err("Failed to convert Java string: "@ + reason),
    }
}

/// What a managed string that may be absent gave when it was read.
pub open spec fn read_optional(fetched: Option<Result<Seq<char>, Seq<char>>>) -> Result<
    Option<Seq<char>>,
    Seq<char>,
> {
    match fetched {
        None => Ok(None),
        Some(fetched) => match read(fetched) {
            Ok(text) => Ok(Some(text)),
            Err(reason) => Err(reason),
        },
    }
}

/// What reading a managed string gave, as sequences of characters.
pub open spec fn fetched_view(fetched: Result<String, String>) -> Result<Seq<char>, Seq<char>> {
    match fetched {
        Ok(text) => Ok(text@),
        Err(reason) => Err(reason@),
    }
}

/// What reading a managed string that may be absent gave.
pub open spec fn optional_view(fetched: Option<Result<String, String>>) -> Option<
    Result<Seq<char>, Seq<char>>,
> {
    match fetched {
        Some(fetched) => Some(fetched_view(fetched)),
        None => None,
    }
}

/// The request that the arguments of a local extraction name. They are read
/// in the order they are given in, and the first that could not be read is
/// the failure. The managed boundary has no argument for a directory of
/// prior images.
pub open spec fn local_request_of(
    path: Result<Seq<char>, Seq<char>>,
    partition_name: Result<Seq<char>, Seq<char>>,
    output_path: Result<Seq<char>, Seq<char>>,
) -> Result<ExtractRequestView, Seq<char>> {
    match read(path) {
        Err(reason) => Err(reason),
        Ok(path) => match read(partition_name) {
            Err(reason) => Err(reason),
            Ok(partition_name) => match read(output_path) {
                Err(reason) => Err(reason),
                Ok(output_path) => Ok(
                    ExtractRequestView {
                        source: SourceView::Local { path },
                        partition_name,
                        output_path,
                        source_dir: None,
                    },
                ),
            },
        },
    }
}

/// The request that the arguments of a remote extraction name, read in the
/// order they are given in: the locator, the name of the partition, the path
/// of the output file, the user agent, the cookies.
pub open spec fn remote_request_of(
    url: Result<Seq<char>, Seq<char>>,
    partition_name: Result<Seq<char>, Seq<char>>,
    output_path: Result<Seq<char>, Seq<char>>,
    user_agent: Option<Result<Seq<char>, Seq<char>>>,
    cookies: Option<Result<Seq<char>, Seq<char>>>,
) -> Result<ExtractRequestView, Seq<char>> {
    match read(url) {
        Err(reason) => Err(reason),
        Ok(url) => match read(partition_name) {
            Err(reason) => Err(reason),
            Ok(partition_name) => match read(output_path) {
                Err(reason) => Err(reason),
                Ok(output_path) => match read_optional(user_agent) {
                    Err(reason) => Err(reason),
                    Ok(user_agent) => match read_optional(cookies) {
                        Err(reason) => Err(reason),
                        Ok(cookies) => Ok(
                            ExtractRequestView {
                                source: SourceView::Remote { url, user_agent, cookies },
                                partition_name,
                                output_path,
                                source_dir: None,
                            },
                        ),
                    },
                },
            },
        },
    }
}

/// Reads the argument of a local listing.
pub fn local_source(path: Result<String, String>) -> (source: Result<Source, String>)
    ensures
        match read(fetched_view(path)) {
            Ok(path) => source is Ok && source->Ok_0@ == (SourceView::Local { path }),
            Err(reason) => source is Err && source->Err_0@ == reason,
        },
{
    match jstring_to_string(path) {
        Ok(path) => Ok(Source::Local { path }),
        Err(reason) => Err(reason),
    }
}

/// Reads the arguments of a remote listing.
pub fn remote_source(
    url: Result<String, String>,
    user_agent: Option<Result<String, String>>,
    cookies: Option<Result<String, String>>,
) -> (source: Result<Source, String>)
    ensures
        match remote_source_of(fetched_view(url), optional_view(user_agent), optional_view(cookies)) {
            Ok(expected) => source is Ok && source->Ok_0@ == expected,
            Err(reason) => source is Err && source->Err_0@ == reason,
        },
{
    let url = match jstring_to_string(url) {
        Ok(text) => text,
        Err(reason) => return Err(reason),
    };
    let user_agent = match optional_jstring(user_agent) {
        Ok(text) => text,
        Err(reason) => return Err(reason),
    };
    let cookies = match optional_jstring(cookies) {
        Ok(text) => text,
        Err(reason) => return Err(reason),
    };
    Ok(Source::Remote { url, user_agent, cookies })
}

/// Reads the arguments of a local extraction, in the order they are given
/// in. The first that could not be read is the failure.
pub fn local_request(
    path: Result<String, String>,
    partition_name: Result<String, String>,
    output_path: Result<String, String>,
) -> (request: Result<ExtractRequest, String>)
    ensures
        match local_request_of(
            fetched_view(path),
            fetched_view(partition_name),
            fetched_view(output_path),
        ) {
            Ok(expected) => request is Ok && request->Ok_0@ == expected,
            Err(reason) => request is Err && request->Err_0@ == reason,
        },
{
    let path = match jstring_to_string(path) {
        Ok(text) => text,
        Err(reason) => return Err(reason),
    };
    let partition_name = match jstring_to_string(partition_name) {
        Ok(text) => text,
        Err(reason) => return Err(reason),
    };
    let output_path = match jstring_to_string(output_path) {
        Ok(text) => text,
        Err(reason) => return Err(reason),
    };
    Ok(
        ExtractRequest {
            source: Source::Local { path },
            partition_name,
            output_path,
            source_dir: None,
        },
    )
}

/// Reads the arguments of a remote extraction, in the order they are given
/// in. The first that could not be read is the failure.
pub fn remote_request(
    url: Result<String, String>,
    partition_name: Result<String, String>,
    output_path: Result<String, String>,
    user_agent: Option<Result<String, String>>,
    cookies: Option<Result<String, String>>,
) -> (request: Result<ExtractRequest, String>)
    ensures
        match remote_request_of(
            fetched_view(url),
            fetched_view(partition_name),
            fetched_view(output_path),
            optional_view(user_agent),
            optional_view(cookies),
        ) {
            Ok(expected) => request is Ok && request->Ok_0@ == expected,
            Err(reason) => request is Err && request->Err_0@ == reason,
        },
{
    let url = match jstring_to_string(url) {
        Ok(text) => text,
        Err(reason) => return Err(reason),
    };
    let partition_name = match jstring_to_string(partition_name) {
        Ok(text) => text,
        Err(reason) => return Err(reason),
    };
    let output_path = match jstring_to_string(output_path) {
        Ok(text) => text,
        Err(reason) => return Err(reason),
    };
    let user_agent = match optional_jstring(user_agent) {
        Ok(text) => text,
        Err(reason) => return Err(reason),
    };
    let cookies = match optional_jstring(cookies) {
        Ok(text) => text,
        Err(reason) => return Err(reason),
    };
    Ok(
        ExtractRequest {
            source: Source::Remote { url, user_agent, cookies },
            partition_name,
            output_path,
            source_dir: None,
        },
    )
}

} // verus!
