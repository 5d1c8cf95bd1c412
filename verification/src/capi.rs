//! The C boundary: how arguments, results, failures and progress events are
//! shaped for a host that speaks in null-terminated strings, status codes
//! and a last-error slot.
//!
//! Nothing here touches a pointer. The caller turns pointers into byte
//! strings and back, and keeps one [`LastError`] for each of its threads.

use crate::error::{error_text, CallOutcome, ExtractError};
use crate::extractor::{
    ExtractRequest, ExtractRequestView, Location, Operation, OperationView, Source, SourceView,
};
use crate::progress::{
    status_code, ExtractionProgress, ExtractionStatus, Percentage, ProgressView, StatusView,
};
use crate::summary::text_of;
use crate::text::prefixed;
use vstd::prelude::*;
use vstd::string::*;
use vstd::utf8::*;

verus! {

/// The code an operation returns when it succeeds.
pub const SUCCESS: i32 = 0;

/// The code an operation returns when it fails; the reason is in the
/// last-error slot.
pub const FAILURE: i32 = -1;

/// Whether a text holds the character that ends a C string, and so cannot
/// be handed to the host as one.
pub open spec fn has_nul(text: Seq<char>) -> bool {
    text.contains('\0')
}

/// Looks for the character that ends a C string.
pub fn contains_nul(text: &str) -> (found: bool)
    ensures
        found == has_nul(text@),
{
    broadcast use vstd::string::group_string_axioms;

    let mut found = false;
    for c in it: text.chars()
        invariant
            it.seq() == text@,
            found == exists|j: int| 0 <= j < it.index() && text@[j] == '\0',
    {
        if c == '\0' {
            found = true;
        }
    }
    found
}

/// A text without the characters that would end a C string early, the rest
/// in the order it had.
pub open spec fn without_nul(text: Seq<char>) -> Seq<char>
    decreases text.len(),
{
    if text.len() == 0 {
        text
    } else if text.last() == '\0' {
        without_nul(text.drop_last())
    } else {
        without_nul(text.drop_last()).push(text.last())
    }
}

/// What is left of a text can be handed out as a C string, and a text that
/// could be handed out before is left as it is.
pub proof fn without_nul_can_be_handed_out(text: Seq<char>)
    ensures
        !has_nul(without_nul(text)),
        !has_nul(text) ==> without_nul(text) == text,
        without_nul(text).len() <= text.len(),
    decreases text.len(),
{
    if text.len() > 0 {
        let front = text.drop_last();
        without_nul_can_be_handed_out(front);
        if !has_nul(text) {
            assert forall|i: int| 0 <= i < front.len() implies front[i] != '\0' by {
                assert(text[i] == front[i]);
            }
            assert(text.last() != '\0');
            assert(front.push(text.last()) =~= text);
        }
        if text.last() != '\0' {
            let kept = without_nul(front);
            assert forall|i: int| 0 <= i < kept.push(text.last()).len() implies kept.push(
                text.last(),
            )[i] != '\0' by {
                if i < kept.len() {
                    assert(kept[i] == kept.push(text.last())[i]);
                }
            }
        }
    }
}

/// What the slot holds after a failure with this text: the text, without
/// the characters that would end a C string early. A failure always leaves
/// a message.
pub open spec fn stored_error(text: Seq<char>) -> Option<Seq<char>> {
    Some(without_nul(text))
}

/// What a text is handed to the host as where it cannot be changed: the
/// text, or nothing where it cannot be a C string.
pub open spec fn c_text(text: Seq<char>) -> Option<Seq<char>> {
    if has_nul(text) {
        None
    } else {
        Some(text)
    }
}

/// The text of the failure that an unwind is turned into.
pub open spec fn panic_text() -> Seq<char> {
    "panic occurred"@
}

/// The last failure of the calls that one thread made. It belongs to that
/// thread, and what it holds can always be handed out as a C string.
#[derive(Debug, PartialEq, Eq)]
pub struct LastError {
    message: Option<String>,
}

impl View for LastError {
    type V = Option<Seq<char>>;

    closed spec fn view(&self) -> Option<Seq<char>> {
        match self.message {
            Some(text) => Some(text@),
            None => None,
        }
    }
}

impl LastError {
    #[verifier::type_invariant]
    spec fn can_be_handed_out(&self) -> bool {
        match self.message {
            Some(text) => !has_nul(text@),
            None => true,
        }
    }

    /// A slot that holds no failure.
    pub fn new() -> (slot: LastError)
        ensures
            slot@ is None,
    {
        LastError { message: None }
    }

    /// The text of the last failure, if there was one since the slot was
    /// last cleared. It holds no character that would end a C string early.
    pub fn message(&self) -> (text: Option<String>)
        ensures
            match text {
                Some(t) => self@ == Some(t@) && !has_nul(t@),
                None => self@ is None,
            },
    {
        proof {
            use_type_invariant(self);
        }
        match &self.message {
            Some(text) => Some(text.clone()),
            None => None,
        }
    }
}

/// Calls `String::push`, which appends the character to the end of the
/// text.
#[verifier::external_body]
fn push_char(text: &mut String, c: char)
    ensures
        final(text)@ == old(text)@.push(c),
{
    text.push(c)
}

/// Copies a text without the characters that would end a C string early.
pub fn remove_nul(text: &str) -> (kept: String)
    ensures
        kept@ == without_nul(text@),
        !has_nul(kept@),
{
    broadcast use vstd::string::group_string_axioms;

    let mut kept = String::new();
    for c in it: text.chars()
        invariant
            it.seq() == text@,
            kept@ == without_nul(text@.take(it.index())),
    {
        proof {
            let upto = text@.take(it.index() + 1);
            assert(upto.drop_last() =~= text@.take(it.index()));
            assert(upto.last() == c);
        }
        if c != '\0' {
            push_char(&mut kept, c);
        }
    }
    proof {
        assert(text@.take(text@.len() as int) =~= text@);
        without_nul_can_be_handed_out(text@);
    }
    kept
}

/// Records a failure in the slot of the calling thread. The slot holds a
/// message afterwards, whatever the text is: the text itself where it can be
/// handed out as a C string, and what is left of it without the characters
/// that end one where it cannot.
pub fn set_last_error(slot: &mut LastError, err: String)
    ensures
        final(slot)@ == stored_error(err@),
        final(slot)@ is Some,
        !has_nul(err@) ==> final(slot)@ == Some(err@),
{
    proof {
        without_nul_can_be_handed_out(err@);
    }
    if contains_nul(err.as_str()) {
        *slot = LastError { message: Some(remove_nul(err.as_str())) };
    } else {
        *slot = LastError { message: Some(err) };
    }
}

/// Empties the slot of the calling thread.
pub fn clear_last_error(slot: &mut LastError)
    ensures
        final(slot)@ is None,
{
    *slot = LastError { message: None };
}

/// What the slot holds after an operation that ended this way.
pub open spec fn error_after<T>(outcome: CallOutcome<T>) -> Option<Seq<char>> {
    match outcome {
        CallOutcome::Finished(Ok(_)) => None,
        CallOutcome::Finished(Err(reason)) => stored_error(reason@),
        CallOutcome::Panicked => Some(panic_text()),
    }
}

/// Ends a guarded operation that returns a status code. The slot is emptied
/// on success and holds the reason on failure; an unwind counts as a failure
/// with a fixed text.
pub fn with_error_handling(slot: &mut LastError, outcome: CallOutcome<()>) -> (code: i32)
    ensures
        final(slot)@ == error_after(outcome),
        final(slot)@ is Some <==> code == FAILURE,
        code == if outcome is Finished && outcome->Finished_0 is Ok {
            SUCCESS
        } else {
            FAILURE
        },
{
    clear_last_error(slot);
    match outcome {
        CallOutcome::Finished(Ok(_)) => SUCCESS,
        CallOutcome::Finished(Err(reason)) => {
            set_last_error(slot, reason);
            FAILURE
        },
        CallOutcome::Panicked => {
            proof {
                reveal_strlit("panic occurred");
            }
            set_last_error(slot, String::from_str("panic occurred"));
            FAILURE
        },
    }
}

/// Ends a guarded operation that returns a text. `to_c_string` makes the C
/// string that is handed to the host; it is called on the text of a success
/// and on nothing else. Where it fails, the operation has failed for that
/// reason. `None` stands for the null pointer.
pub fn with_string_error_handling<S, C: FnOnce(String) -> Result<S, String>>(
    slot: &mut LastError,
    outcome: CallOutcome<String>,
    to_c_string: C,
) -> (handed_out: Option<S>)
    requires
        forall|text: String| call_requires(to_c_string, (text,)),
    ensures
        match outcome {
            CallOutcome::Finished(Ok(text)) => exists|made: Result<S, String>|
                {
                    &&& #[trigger] call_ensures(to_c_string, (text,), made)
                    &&& match made {
                        Ok(c_string) => handed_out == Some(c_string) && final(slot)@ is None,
                        Err(reason) => handed_out is None && final(slot)@ == stored_error(
                            "Failed to create C string: "@ + reason@,
                        ),
                    }
                },
            _ => handed_out is None && final(slot)@ == error_after(outcome),
        },
{
    clear_last_error(slot);
    match outcome {
        CallOutcome::Finished(Ok(text)) => {
            let made = to_c_string(text);
            match made {
                Ok(c_string) => Some(c_string),
                Err(reason) => {
                    set_last_error(slot, prefixed("Failed to create C string: ", reason.as_str()));
                    None
                },
            }
        },
        CallOutcome::Finished(Err(reason)) => {
            set_last_error(slot, reason);
            None
        },
        CallOutcome::Panicked => {
            proof {
                reveal_strlit("panic occurred");
            }
            set_last_error(slot, String::from_str("panic occurred"));
            None
        },
    }
}

/// The text with which `std::str::from_utf8` says why these bytes are not
/// UTF-8.
pub uninterp spec fn utf8_error_text(bytes: Seq<u8>) -> Seq<char>;

/// Calls `std::str::from_utf8` and copies what it gives. It succeeds on
/// exactly the byte strings that are UTF-8, with the text whose encoding the
/// bytes are. On any other it fails, and the text of its error is a function
/// of the bytes.
#[verifier::external_body]
fn utf8_text(bytes: &[u8]) -> (text: Result<String, String>)
    ensures
        match text {
            Ok(decoded) => valid_utf8(bytes@) && encode_utf8(decoded@) == bytes@,
            Err(reason) => !valid_utf8(bytes@) && reason@ == utf8_error_text(bytes@),
        },
{
    match std::str::from_utf8(bytes) {
        Ok(decoded) => Ok(decoded.to_string()),
        Err(reason) => Err(reason.to_string()),
    }
}

/// A byte string that may be absent, as a sequence of bytes.
pub open spec fn bytes_of(bytes: Option<&[u8]>) -> Option<Seq<u8>> {
    match bytes {
        Some(b) => Some(b@),
        None => None,
    }
}

/// The text of a result on either side, as sequences of characters.
pub open spec fn texts_of(result: Result<String, String>) -> Result<Seq<char>, Seq<char>> {
    match result {
        Ok(text) => Ok(text@),
        Err(reason) => Err(reason@),
    }
}

/// What a required string argument stands for. `None` is the null pointer.
pub open spec fn required(bytes: Option<Seq<u8>>, param_name: Seq<char>) -> Result<
    Seq<char>,
    Seq<char>,
> {
    match bytes {
        None => Err(param_name + " is NULL"@),
        Some(b) => if valid_utf8(b) {
            Ok(decode_utf8(b))
        } else {
            Err("Invalid UTF-8 in "@ + param_name + ": "@ + utf8_error_text(b))
        },
    }
}

/// What an optional string argument stands for. The null pointer says that
/// the argument is left out.
pub open spec fn optional(bytes: Option<Seq<u8>>, param_name: Seq<char>) -> Result<
    Option<Seq<char>>,
    Seq<char>,
> {
    match bytes {
        None => Ok(None),
        Some(_) => match required(bytes, param_name) {
            Ok(text) => Ok(Some(text)),
            Err(reason) => Err(reason),
        },
    }
}

/// Reads a required string argument from the bytes in front of its
/// terminator. A null pointer and bytes that are not UTF-8 are failures that
/// name the argument.
pub fn c_str_to_rust(bytes: Option<&[u8]>, param_name: &str) -> (text: Result<String, String>)
    ensures
        texts_of(text) == required(bytes_of(bytes), param_name@),
{
    match bytes {
        None => Err(prefixed(param_name, " is NULL")),
        Some(b) => match utf8_text(b) {
            Ok(decoded) => {
                proof {
                    encode_utf8_decode_utf8(decoded@);
                }
                Ok(decoded)
            },
            Err(reason) => Err(
                String::from_str("Invalid UTF-8 in ").concat(param_name).concat(": ").concat(
                    reason.as_str(),
                ),
            ),
        },
    }
}

/// Reads an optional string argument.
pub fn optional_c_str_to_rust(bytes: Option<&[u8]>, param_name: &str) -> (text: Result<
    Option<String>,
    String,
>)
    ensures
        match optional(bytes_of(bytes), param_name@) {
            Ok(expected) => text is Ok && text_of(text->Ok_0) == expected,
            Err(reason) => text is Err && text->Err_0@ == reason,
        },
{
    match bytes {
        None => Ok(None),
        Some(_) => match c_str_to_rust(bytes, param_name) {
            Ok(decoded) => Ok(Some(decoded)),
            Err(reason) => Err(reason),
        },
    }
}

/// The source that the arguments of a local operation name.
pub open spec fn local_source_of(path: Option<Seq<u8>>) -> Result<SourceView, Seq<char>> {
    match required(path, "path"@) {
        Ok(path) => Ok(SourceView::Local { path }),
        Err(reason) => Err(reason),
    }
}

/// The source that the arguments of a remote operation name. The arguments
/// are read in the order they are given in, and the first that cannot be
/// read is the failure.
pub open spec fn remote_source_of(
    url: Option<Seq<u8>>,
    user_agent: Option<Seq<u8>>,
    cookies: Option<Seq<u8>>,
) -> Result<SourceView, Seq<char>> {
    match required(url, "url"@) {
        Err(reason) => Err(reason),
        Ok(url) => match optional(user_agent, "user_agent"@) {
            Err(reason) => Err(reason),
            Ok(user_agent) => match optional(cookies, "cookies"@) {
                Err(reason) => Err(reason),
                Ok(cookies) => Ok(SourceView::Remote { url, user_agent, cookies }),
            },
        },
    }
}

/// The source of a result, as the contracts see it.
pub open spec fn source_view(result: Result<Source, String>) -> Result<SourceView, Seq<char>> {
    match result {
        Ok(source) => Ok(source@),
        Err(reason) => Err(reason@),
    }
}

/// The request of a result, as the contracts see it.
pub open spec fn request_view(result: Result<ExtractRequest, String>) -> Result<
    ExtractRequestView,
    Seq<char>,
> {
    match result {
        Ok(request) => Ok(request@),
        Err(reason) => Err(reason@),
    }
}

/// Reads the argument of a local listing.
pub fn local_source(path: Option<&[u8]>) -> (source: Result<Source, String>)
    ensures
        source_view(source) == local_source_of(bytes_of(path)),
{
    match c_str_to_rust(path, "path") {
        Ok(path) => Ok(Source::Local { path }),
        Err(reason) => Err(reason),
    }
}

/// Reads the arguments of a remote listing.
pub fn remote_source(
    url: Option<&[u8]>,
    user_agent: Option<&[u8]>,
    cookies: Option<&[u8]>,
) -> (source: Result<Source, String>)
    ensures
        source_view(source) == remote_source_of(
            bytes_of(url),
            bytes_of(user_agent),
            bytes_of(cookies),
        ),
{
    let url = match c_str_to_rust(url, "url") {
        Ok(text) => text,
        Err(reason) => return Err(reason),
    };
    let user_agent = match optional_c_str_to_rust(user_agent, "user_agent") {
        Ok(text) => text,
        Err(reason) => return Err(reason),
    };
    let cookies = match optional_c_str_to_rust(cookies, "cookies") {
        Ok(text) => text,
        Err(reason) => return Err(reason),
    };
    Ok(Source::Remote { url, user_agent, cookies })
}

/// The request that the arguments of a local extraction name.
pub open spec fn local_request_of(
    path: Option<Seq<u8>>,
    partition_name: Option<Seq<u8>>,
    output_path: Option<Seq<u8>>,
    source_dir: Option<Seq<u8>>,
) -> Result<ExtractRequestView, Seq<char>> {
    match required(path, "path"@) {
        Err(reason) => Err(reason),
        Ok(path) => match required(partition_name, "partition_name"@) {
            Err(reason) => Err(reason),
            Ok(partition_name) => match required(output_path, "output_path"@) {
                Err(reason) => Err(reason),
                Ok(output_path) => match optional(source_dir, "source_dir"@) {
                    Err(reason) => Err(reason),
                    Ok(source_dir) => Ok(
                        ExtractRequestView {
                            source: SourceView::Local { path },
                            partition_name,
                            output_path,
                            source_dir,
                        },
                    ),
                },
            },
        },
    }
}

/// The request that the arguments of a remote extraction name.
pub open spec fn remote_request_of(
    url: Option<Seq<u8>>,
    partition_name: Option<Seq<u8>>,
    output_path: Option<Seq<u8>>,
    user_agent: Option<Seq<u8>>,
    cookies: Option<Seq<u8>>,
    source_dir: Option<Seq<u8>>,
) -> Result<ExtractRequestView, Seq<char>> {
    match required(url, "url"@) {
        Err(reason) => Err(reason),
        Ok(url) => match required(partition_name, "partition_name"@) {
            Err(reason) => Err(reason),
            Ok(partition_name) => match required(output_path, "output_path"@) {
                Err(reason) => Err(reason),
                Ok(output_path) => match optional(user_agent, "user_agent"@) {
                    Err(reason) => Err(reason),
                    Ok(user_agent) => match optional(cookies, "cookies"@) {
                        Err(reason) => Err(reason),
                        Ok(cookies) => match optional(source_dir, "source_dir"@) {
                            Err(reason) => Err(reason),
                            Ok(source_dir) => Ok(
                                ExtractRequestView {
                                    source: SourceView::Remote { url, user_agent, cookies },
                                    partition_name,
                                    output_path,
                                    source_dir,
                                },
                            ),
                        },
                    },
                },
            },
        },
    }
}

/// Reads the arguments of a local extraction, in the order they are given
/// in. The first that cannot be read is the failure.
pub fn local_request(
    path: Option<&[u8]>,
    partition_name: Option<&[u8]>,
    output_path: Option<&[u8]>,
    source_dir: Option<&[u8]>,
) -> (request: Result<ExtractRequest, String>)
    ensures
        request_view(request) == local_request_of(
            bytes_of(path),
            bytes_of(partition_name),
            bytes_of(output_path),
            bytes_of(source_dir),
        ),
{
    let path = match c_str_to_rust(path, "path") {
        Ok(text) => text,
        Err(reason) => return Err(reason),
    };
    let partition_name = match c_str_to_rust(partition_name, "partition_name") {
        Ok(text) => text,
        Err(reason) => return Err(reason),
    };
    let output_path = match c_str_to_rust(output_path, "output_path") {
        Ok(text) => text,
        Err(reason) => return Err(reason),
    };
    let source_dir = match optional_c_str_to_rust(source_dir, "source_dir") {
        Ok(text) => text,
        Err(reason) => return Err(reason),
    };
    Ok(ExtractRequest { source: Source::Local { path }, partition_name, output_path, source_dir })
}

/// Reads the arguments of a remote extraction, in the order they are given
/// in. The first that cannot be read is the failure.
pub fn remote_request(
    url: Option<&[u8]>,
    partition_name: Option<&[u8]>,
    output_path: Option<&[u8]>,
    user_agent: Option<&[u8]>,
    cookies: Option<&[u8]>,
    source_dir: Option<&[u8]>,
) -> (request: Result<ExtractRequest, String>)
    ensures
        request_view(request) == remote_request_of(
            bytes_of(url),
            bytes_of(partition_name),
            bytes_of(output_path),
            bytes_of(user_agent),
            bytes_of(cookies),
            bytes_of(source_dir),
        ),
{
    let url = match c_str_to_rust(url, "url") {
        Ok(text) => text,
        Err(reason) => return Err(reason),
    };
    let partition_name = match c_str_to_rust(partition_name, "partition_name") {
        Ok(text) => text,
        Err(reason) => return Err(reason),
    };
    let output_path = match c_str_to_rust(output_path, "output_path") {
        Ok(text) => text,
        Err(reason) => return Err(reason),
    };
    let user_agent = match optional_c_str_to_rust(user_agent, "user_agent") {
        Ok(text) => text,
        Err(reason) => return Err(reason),
    };
    let cookies = match optional_c_str_to_rust(cookies, "cookies") {
        Ok(text) => text,
        Err(reason) => return Err(reason),
    };
    let source_dir = match optional_c_str_to_rust(source_dir, "source_dir") {
        Ok(text) => text,
        Err(reason) => return Err(reason),
    };
    Ok(
        ExtractRequest {
            source: Source::Remote { url, user_agent, cookies },
            partition_name,
            output_path,
            source_dir,
        },
    )
}

/// What the host's progress function is called with, besides the pointer
/// the host registered. Both texts can be handed out as C strings.
#[derive(Debug, Clone, PartialEq, Eq)]
pub struct CallbackArguments {
    pub partition_name: String,
    pub current_operation: u64,
    pub total_operations: u64,
    pub percentage: Percentage,
    pub status: i32,
    /// The message of a warning; `None` stands for the null pointer.
    pub warning_message: Option<String>,
}

/// [`CallbackArguments`] with its texts as sequences of characters.
pub struct ArgumentsView {
    pub partition_name: Seq<char>,
    pub current_operation: u64,
    pub total_operations: u64,
    pub percentage: Percentage,
    pub status: i32,
    pub warning_message: Option<Seq<char>>,
}

impl View for CallbackArguments {
    type V = ArgumentsView;

    open spec fn view(&self) -> ArgumentsView {
        ArgumentsView {
            partition_name: self.partition_name@,
            current_operation: self.current_operation,
            total_operations: self.total_operations,
            percentage: self.percentage,
            status: self.status,
            warning_message: text_of(self.warning_message),
        }
    }
}

/// The arguments that stand for an event. An event whose partition name
/// cannot be a C string has none: the host is not called for it. A warning
/// whose message cannot be one is passed on without its message.
pub open spec fn arguments_of(event: ProgressView) -> Option<ArgumentsView> {
    if has_nul(event.partition_name) {
        None
    } else {
        Some(
            ArgumentsView {
                partition_name: event.partition_name,
                current_operation: event.current_operation,
                total_operations: event.total_operations,
                percentage: event.percentage,
                status: status_code(event.status),
                warning_message: match event.status {
                    StatusView::Warning { message, .. } => c_text(message),
                    _ => None,
                },
            },
        )
    }
}

/// Shapes an event for the host's progress function.
pub fn callback_arguments(event: ExtractionProgress) -> (arguments: Option<CallbackArguments>)
    ensures
        match arguments_of(event@) {
            Some(expected) => arguments is Some && arguments->Some_0@ == expected,
            None => arguments is None,
        },
        arguments is Some ==> !has_nul(arguments->Some_0.partition_name@),
        arguments is Some && arguments->Some_0.warning_message is Some ==> !has_nul(
            arguments->Some_0.warning_message->Some_0@,
        ),
{
    if contains_nul(event.partition_name.as_str()) {
        return None;
    }
    let status = event.status.code();
    let warning_message = match event.status {
        ExtractionStatus::Warning { message, .. } => if contains_nul(message.as_str()) {
            None
        } else {
            Some(message)
        },
        _ => None,
    };
    Some(
        CallbackArguments {
            partition_name: event.partition_name,
            current_operation: event.current_operation,
            total_operations: event.total_operations,
            percentage: event.percentage,
            status,
            warning_message,
        },
    )
}

/// Whether the extraction goes on after the host's progress function was
/// called. Zero asks it to stop and every other number lets it go on. `None`
/// says that the function did not return but unwound; the extraction goes on
/// then.
pub open spec fn goes_on_after(returned: Option<i32>) -> bool {
    match returned {
        Some(code) => code != 0,
        None => true,
    }
}

/// Reports an event to the host's progress function and tells whether the
/// extraction goes on. `invoke` makes the call and catches an unwind. An
/// event that cannot be shaped for the host is not reported, and the
/// extraction goes on.
pub fn call<C: FnOnce(CallbackArguments) -> Option<i32>>(
    event: ExtractionProgress,
    invoke: C,
) -> (go_on: bool)
    requires
        forall|arguments: CallbackArguments| call_requires(invoke, (arguments,)),
    ensures
        match arguments_of(event@) {
            None => go_on,
            Some(expected) => exists|arguments: CallbackArguments, returned: Option<i32>|
                {
                    &&& arguments@ == expected
                    &&& #[trigger] call_ensures(invoke, (arguments,), returned)
                    &&& go_on == goes_on_after(returned)
                },
        },
{
    match callback_arguments(event) {
        None => true,
        Some(arguments) => {
            let returned = invoke(arguments);
            match returned {
                Some(code) => code != 0,
                None => true,
            }
        },
    }
}

/// What stands in front of the text of a failure at this boundary.
pub open spec fn failure_context(location: Location, operation: OperationView) -> Seq<char> {
    match (operation, location) {
        (OperationView::List, Location::Local) => "Failed to list partitions: "@,
        (OperationView::List, Location::Remote) => "Failed to list remote partitions: "@,
        (OperationView::Extract { .. }, Location::Local) => "Extraction failed: "@,
        (OperationView::Extract { .. }, Location::Remote) => "Remote extraction failed: "@,
    }
}

/// The text that the last-error slot is given where an operation fails.
pub fn failure_text(
    location: Location,
    operation: &Operation,
    error: &ExtractError,
) -> (text: String)
    ensures
        text@ == failure_context(location, operation@) + error_text(error@),
{
    let context = match operation {
        Operation::List => match location {
            Location::Local => "Failed to list partitions: ",
            Location::Remote => "Failed to list remote partitions: ",
        },
        Operation::Extract { .. } => match location {
            Location::Local => "Extraction failed: ",
            Location::Remote => "Remote extraction failed: ",
        },
    };
    let detail = error.message();
    prefixed(context, detail.as_str())
}

} // verus!
