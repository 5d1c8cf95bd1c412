use payload_bridge::error::{CallOutcome, ExtractError};
use payload_bridge::extractor::{ExtractRequest, Location, Operation, Source};
use payload_bridge::java::{
    callback_answer, callback_arguments, check_exception, failure_text, global_reference,
    handle_extract, handle_list, jstring_to_string, local_request, local_source,
    optional_jstring, remote_request, remote_source, runtime_handle, string_to_jstring, to_int,
    to_long, Binding, CallbackArguments,
};
use payload_bridge::java_call::{JavaAction, JavaCall, Stage, Step, Phase, FRAME_CAPACITY};
use payload_bridge::progress::{ExtractionProgress, Percentage};

fn failed<T>(detail: &str) -> Result<T, String> {
    Err(detail.to_string())
}

#[test]
fn counts_keep_their_bits_as_longs() {
    assert_eq!(to_long(0), 0);
    assert_eq!(to_long(42), 42);
    assert_eq!(to_long(i64::MAX as u64), i64::MAX);
    assert_eq!(to_long(i64::MAX as u64 + 1), i64::MIN);
    assert_eq!(to_long(u64::MAX), -1);
    for value in [1u64, 1 << 40, (1 << 63) + 5, u64::MAX - 7] {
        assert_eq!(to_long(value), value as i64);
    }
}

#[test]
fn indexes_keep_their_low_bits_as_ints() {
    assert_eq!(to_int(0), 0);
    assert_eq!(to_int(17), 17);
    assert_eq!(to_int(i32::MAX as usize), i32::MAX);
    assert_eq!(to_int(i32::MAX as usize + 1), i32::MIN);
    assert_eq!(to_int(u32::MAX as usize), -1);
    for index in [5usize, 0x8000_0001, 0xFFFF_FFFE, usize::MAX, usize::MAX / 3] {
        assert_eq!(to_int(index), index as i32);
    }
}

#[test]
fn managed_string_is_read() {
    assert_eq!(jstring_to_string(Ok("payload.bin".to_string())), Ok("payload.bin".to_string()));
    assert_eq!(
        jstring_to_string(failed("Null pointer in get_string obj argument")),
        failed("Failed to convert Java string: Null pointer in get_string obj argument")
    );
}

#[test]
fn managed_string_is_created() {
    assert_eq!(string_to_jstring(Ok(7u32)), Ok(7u32));
    assert_eq!(
        string_to_jstring::<u32>(failed("out of memory")),
        failed("Failed to create Java string: out of memory")
    );
}

#[test]
fn optional_managed_string_may_be_null() {
    assert_eq!(optional_jstring(None), Ok(None));
    assert_eq!(optional_jstring(Some(Ok("agent".to_string()))), Ok(Some("agent".to_string())));
    assert_eq!(
        optional_jstring(Some(failed("bad"))),
        failed("Failed to convert Java string: bad")
    );
}

#[test]
fn pending_exception_becomes_a_failure() {
    assert_eq!(check_exception(Ok(false), Ok(()), "Java callback"), Ok(()));
    assert_eq!(check_exception(Ok(false), failed("unused"), "Java callback"), Ok(()));
    assert_eq!(
        check_exception(Ok(true), Ok(()), "Java callback"),
        failed("Exception occurred while Java callback")
    );
    assert_eq!(
        check_exception(Ok(true), Ok(()), "creating partition name"),
        failed("Exception occurred while creating partition name")
    );
    assert_eq!(
        check_exception(Ok(true), failed("vm gone"), "Java callback"),
        failed("Failed to clear exception: vm gone")
    );
    assert_eq!(
        check_exception(failed("detached"), Ok(()), "Java callback"),
        failed("Failed to check exception: detached")
    );
}

#[test]
fn callback_registration_failures_are_named() {
    assert_eq!(global_reference(Ok('r')), Ok('r'));
    assert_eq!(
        global_reference::<char>(failed("table full")),
        failed("Failed to create global ref: table full")
    );
    assert_eq!(runtime_handle(Ok('v')), Ok('v'));
    assert_eq!(runtime_handle::<char>(failed("no vm")), failed("Failed to get JavaVM: no vm"));
}

#[test]
fn only_an_answer_of_the_host_lets_the_extraction_go_on() {
    assert!(callback_answer(Some(Ok(true))));
    assert!(!callback_answer(Some(Ok(false))));
    assert!(!callback_answer(Some(failed("Exception occurred while Java callback"))));
    assert!(!callback_answer(None));
}

#[test]
fn listing_returns_text_or_raises() {
    let library = Binding::Library;
    assert_eq!(
        handle_list(library, CallOutcome::Finished(Ok("{}".to_string()))),
        Ok("{}".to_string())
    );
    assert_eq!(
        handle_list(library, CallOutcome::Finished(failed("Failed to list: gone"))),
        failed("Failed to list: gone")
    );
    assert_eq!(handle_list(library, CallOutcome::Panicked), failed("Panic in native code"));
    assert_eq!(
        handle_list(Binding::Application, CallOutcome::Panicked),
        failed("Panic occurred in native code")
    );
}

#[test]
fn extraction_returns_nothing_or_raises() {
    let library = Binding::Library;
    assert_eq!(handle_extract(library, CallOutcome::Finished(Ok(()))), None);
    assert_eq!(
        handle_extract(library, CallOutcome::Finished(failed("Extraction failed: disk full"))),
        Some("Extraction failed: disk full".to_string())
    );
    assert_eq!(
        handle_extract(library, CallOutcome::Panicked),
        Some("Panic in native code".to_string())
    );
    assert_eq!(
        handle_extract(Binding::Application, CallOutcome::Panicked),
        Some("Panic occurred in native code".to_string())
    );
}

#[test]
fn managed_failures_are_put_in_context() {
    let extract = Operation::Extract { partition_name: "boot".to_string() };
    let missing = ExtractError::PartitionNotFound { name: "boot".to_string() };
    let unsupported = ExtractError::UnsupportedFormat;
    for location in [Location::Local, Location::Remote] {
        assert_eq!(
            failure_text(Binding::Library, location, &Operation::List, &unsupported),
            "Failed to list: Unsupported file format"
        );
        for binding in [Binding::Library, Binding::Application] {
            assert_eq!(
                failure_text(binding, location, &extract, &missing),
                "Extraction failed: Partition 'boot' not found"
            );
        }
    }
    assert_eq!(
        failure_text(Binding::Application, Location::Local, &Operation::List, &unsupported),
        "Failed to list partitions: Unsupported file format"
    );
    assert_eq!(
        failure_text(Binding::Application, Location::Remote, &Operation::List, &unsupported),
        "Failed to list remote partitions: Unsupported file format"
    );
}

#[test]
fn managed_arguments_are_read_in_order() {
    assert_eq!(
        local_source(Ok("ota.zip".to_string())),
        Ok(Source::Local { path: "ota.zip".to_string() })
    );
    assert_eq!(local_source(failed("x")), failed("Failed to convert Java string: x"));
    let remote = remote_source(Ok("u".to_string()), None, Some(Ok("a=b".to_string())));
    assert_eq!(
        remote,
        Ok(Source::Remote { url: "u".to_string(), user_agent: None, cookies: Some("a=b".to_string()) })
    );
    assert_eq!(
        remote_source(failed("first"), Some(failed("second")), Some(failed("third"))),
        failed("Failed to convert Java string: first")
    );
    assert_eq!(
        remote_source(Ok("u".to_string()), Some(failed("second")), Some(failed("third"))),
        failed("Failed to convert Java string: second")
    );
}

#[test]
fn managed_local_extraction_arguments_are_read_in_order() {
    assert_eq!(
        local_request(Ok("p".to_string()), Ok("boot".to_string()), Ok("out.img".to_string())),
        Ok(ExtractRequest {
            source: Source::Local { path: "p".to_string() },
            partition_name: "boot".to_string(),
            output_path: "out.img".to_string(),
            source_dir: None,
        })
    );
    assert_eq!(
        local_request(failed("path"), failed("name"), failed("out")),
        failed("Failed to convert Java string: path")
    );
    assert_eq!(
        local_request(Ok("p".to_string()), failed("name"), failed("out")),
        failed("Failed to convert Java string: name")
    );
    assert_eq!(
        local_request(Ok("p".to_string()), Ok("boot".to_string()), failed("out")),
        failed("Failed to convert Java string: out")
    );
}

#[test]
fn managed_remote_extraction_arguments_are_read_in_order() {
    let text = |s: &str| Ok::<String, String>(s.to_string());
    assert_eq!(
        remote_request(text("u"), text("boot"), text("out.img"), None, Some(text("a=b"))),
        Ok(ExtractRequest {
            source: Source::Remote {
                url: "u".to_string(),
                user_agent: None,
                cookies: Some("a=b".to_string()),
            },
            partition_name: "boot".to_string(),
            output_path: "out.img".to_string(),
            source_dir: None,
        })
    );
    assert_eq!(
        remote_request(
            failed("url"),
            failed("name"),
            failed("out"),
            Some(failed("agent")),
            Some(failed("cookies"))
        ),
        failed("Failed to convert Java string: url")
    );
    assert_eq!(
        remote_request(
            text("u"),
            failed("name"),
            failed("out"),
            Some(failed("agent")),
            Some(failed("cookies"))
        ),
        failed("Failed to convert Java string: name")
    );
    assert_eq!(
        remote_request(
            text("u"),
            text("boot"),
            failed("out"),
            Some(failed("agent")),
            Some(failed("cookies"))
        ),
        failed("Failed to convert Java string: out")
    );
    assert_eq!(
        remote_request(
            text("u"),
            text("boot"),
            text("out.img"),
            Some(failed("agent")),
            Some(failed("cookies"))
        ),
        failed("Failed to convert Java string: agent")
    );
    assert_eq!(
        remote_request(text("u"), text("boot"), text("out.img"), None, Some(failed("cookies"))),
        failed("Failed to convert Java string: cookies")
    );
}

#[test]
fn event_is_shaped_for_the_managed_host() {
    assert_eq!(
        callback_arguments(ExtractionProgress::in_progress("system", 3, 12)),
        CallbackArguments {
            partition_name: "system".to_string(),
            current_operation: 3,
            total_operations: 12,
            percentage: Percentage { numerator: 3, denominator: 12 },
            status_code: 1,
            warning_index: 0,
            warning_message: String::new(),
        }
    );
    let warning = ExtractionProgress::warning("system", 9, "hash mismatch".to_string());
    let arguments = callback_arguments(warning);
    assert_eq!(arguments.status_code, 3);
    assert_eq!(arguments.current_operation, 9);
    assert_eq!(arguments.total_operations, 0);
    assert_eq!(arguments.warning_index, 9);
    assert_eq!(arguments.warning_message, "hash mismatch");
    assert_eq!(callback_arguments(ExtractionProgress::started("s", 1)).status_code, 0);
    assert_eq!(callback_arguments(ExtractionProgress::completed("s", u64::MAX)).total_operations, -1);
}

fn invoke_of(event: ExtractionProgress) -> JavaAction {
    let arguments = callback_arguments(event);
    JavaAction::Invoke {
        current_operation: arguments.current_operation,
        total_operations: arguments.total_operations,
        percentage: arguments.percentage,
        status_code: arguments.status_code,
        warning_index: arguments.warning_index,
    }
}

#[test]
fn call_runs_through_its_requests() {
    let event = ExtractionProgress::in_progress("system", 3, 12);
    let (mut call, action) = JavaCall::begin(Binding::Library, event.clone());
    assert_eq!(FRAME_CAPACITY, 16);
    assert_eq!(action, JavaAction::PushFrame { capacity: 16 });
    assert_eq!(call.stage(), Stage::Frame);
    assert_eq!(call.step(Ok(true)), JavaAction::NewString { step: Step::Name, text: "system".to_string() });
    assert_eq!(call.stage(), Stage::Inside { step: Step::Name, phase: Phase::Request });
    assert_eq!(call.step(Ok(true)), JavaAction::CheckException);
    assert_eq!(call.step(Ok(false)), JavaAction::NewString { step: Step::Message, text: String::new() });
    assert_eq!(call.step(Ok(true)), JavaAction::CheckException);
    assert_eq!(call.step(Ok(false)), invoke_of(event));
    assert_eq!(call.step(Ok(true)), JavaAction::CheckException);
    assert_eq!(call.step(Ok(false)), JavaAction::ReadBoolean);
    assert_eq!(call.step(Ok(true)), JavaAction::PopFrame);
    assert_eq!(call.stage(), Stage::Pop);
    assert_eq!(call.step(Ok(false)), JavaAction::Return(Ok(true)));
    assert_eq!(call.stage(), Stage::Finished);
    assert_eq!(call.step(Ok(false)), JavaAction::Return(Ok(true)));
}

#[test]
fn call_of_a_warning_creates_its_message() {
    let event = ExtractionProgress::warning("system", 9, "hash mismatch".to_string());
    let (mut call, _) = JavaCall::begin(Binding::Library, event.clone());
    call.step(Ok(true));
    call.step(Ok(true));
    assert_eq!(call.step(Ok(false)), JavaAction::NewString { step: Step::Message, text: "hash mismatch".to_string() });
    call.step(Ok(true));
    assert_eq!(call.step(Ok(false)), invoke_of(event));
    call.step(Ok(true));
    call.step(Ok(false));
    assert_eq!(call.step(Ok(false)), JavaAction::PopFrame);
    assert_eq!(call.step(Ok(true)), JavaAction::Return(Ok(false)));
}

#[test]
fn call_that_cannot_open_its_frame_returns_at_once() {
    let (mut call, _) = JavaCall::begin(Binding::Library, ExtractionProgress::started("system", 1));
    assert_eq!(
        call.step(failed("out of memory")),
        JavaAction::Return(failed("Failed to push local frame: out of memory"))
    );
    assert_eq!(call.stage(), Stage::Finished);
}

fn call_at(replies: &[Result<bool, String>], event: ExtractionProgress) -> JavaCall {
    application_call_at(Binding::Library, replies, event)
}

fn application_call_at(
    binding: Binding,
    replies: &[Result<bool, String>],
    event: ExtractionProgress,
) -> JavaCall {
    let (mut call, _) = JavaCall::begin(binding, event);
    for reply in replies {
        call.step(reply.clone());
    }
    call
}

fn ends_with(mut call: JavaCall, reply: Result<bool, String>, failure: &str) {
    assert_eq!(call.step(reply), JavaAction::PopFrame);
    assert_eq!(call.step(Ok(true)), JavaAction::Return(failed(failure)));
    assert!(!callback_answer(Some(failed(failure))));
}

#[test]
fn failed_request_closes_the_frame_and_returns_the_failure() {
    let plain = || ExtractionProgress::in_progress("system", 1, 2);
    let warning = || ExtractionProgress::warning("system", 1, "odd".to_string());
    let ok = Ok(true);
    let clean = Ok(false);
    ends_with(call_at(&[ok.clone()], plain()), failed("x"), "Failed to create partition name: x");
    ends_with(
        call_at(&[ok.clone(), ok.clone(), clean.clone()], plain()),
        failed("x"),
        "Failed to create empty string: x",
    );
    ends_with(
        call_at(&[ok.clone(), ok.clone(), clean.clone()], warning()),
        failed("x"),
        "Failed to create warning message: x",
    );
    let invoked = [ok.clone(), ok.clone(), clean.clone(), ok.clone(), clean.clone()];
    ends_with(call_at(&invoked, plain()), failed("x"), "Failed to call callback: x");
    let returned = [
        ok.clone(),
        ok.clone(),
        clean.clone(),
        ok.clone(),
        clean.clone(),
        ok.clone(),
        clean.clone(),
    ];
    ends_with(call_at(&returned, plain()), failed("x"), "Failed to extract boolean: x");
    ends_with(
        call_at(&[ok.clone(), ok.clone()], plain()),
        failed("x"),
        "Failed to check exception: x",
    );
}

#[test]
fn pending_exception_is_cleared_and_ends_the_call() {
    let plain = || ExtractionProgress::in_progress("system", 1, 2);
    let warning = || ExtractionProgress::warning("system", 1, "odd".to_string());
    let ok = Ok(true);
    let clean = Ok(false);

    let mut call = call_at(&[ok.clone(), ok.clone()], plain());
    assert_eq!(call.step(Ok(true)), JavaAction::ClearException);
    ends_with(call, Ok(true), "Exception occurred while creating partition name");

    let named = [ok.clone(), ok.clone(), clean.clone(), ok.clone()];
    let mut call = call_at(&named, plain());
    assert_eq!(call.step(Ok(true)), JavaAction::ClearException);
    ends_with(call, Ok(true), "Exception occurred while creating empty string");

    let mut call = call_at(&named, warning());
    assert_eq!(call.step(Ok(true)), JavaAction::ClearException);
    ends_with(call, Ok(true), "Exception occurred while creating warning message");

    let invoked =
        [ok.clone(), ok.clone(), clean.clone(), ok.clone(), clean.clone(), ok.clone()];
    let mut call = call_at(&invoked, plain());
    assert_eq!(call.step(Ok(true)), JavaAction::ClearException);
    ends_with(call, Ok(true), "Exception occurred while Java callback");

    let mut call = call_at(&invoked, plain());
    assert_eq!(call.step(Ok(true)), JavaAction::ClearException);
    ends_with(call, failed("vm gone"), "Failed to clear exception: vm gone");
}

#[test]
fn application_binding_words_three_failures_its_own_way() {
    let plain = || ExtractionProgress::in_progress("system", 1, 2);
    let application = Binding::Application;
    let ok = Ok(true);
    let clean = Ok(false);
    ends_with(
        application_call_at(application, &[ok.clone()], plain()),
        failed("x"),
        "Failed to create partition name string: x",
    );
    let invoked = [ok.clone(), ok.clone(), clean.clone(), ok.clone(), clean.clone()];
    ends_with(
        application_call_at(application, &invoked, plain()),
        failed("x"),
        "Failed to call progress callback: x",
    );
    let returned = [
        ok.clone(),
        ok.clone(),
        clean.clone(),
        ok.clone(),
        clean.clone(),
        ok.clone(),
        clean.clone(),
    ];
    ends_with(
        application_call_at(application, &returned, plain()),
        failed("x"),
        "Failed to extract boolean from callback result: x",
    );
    ends_with(
        application_call_at(application, &[ok.clone(), ok.clone(), clean.clone()], plain()),
        failed("x"),
        "Failed to create empty string: x",
    );
}
