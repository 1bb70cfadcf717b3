use genbridge::bridge::audio_request;
use genbridge::bridge::command_argv;
use genbridge::bridge::image_request;
use genbridge::bridge::interpret_output;
use genbridge::bridge::resolve_join;
use genbridge::bridge::run_result;
use genbridge::bridge::to_user_result;
use genbridge::bridge::GenError;
use genbridge::bridge::RunOutput;
use genbridge::bridge::Selector;

#[test]
fn selector_words() {
    assert_eq!(Selector::Image.name(), "image");
    assert_eq!(Selector::Audio.name(), "audio");
}

#[test]
fn image_command_line_in_order() {
    let req = image_request("a cat".to_string());
    let argv = command_argv(&req);
    let want: Vec<String> = vec![
        "python3".to_string(),
        "inference.py".to_string(),
        "image".to_string(),
        "a cat".to_string(),
    ];
    assert_eq!(argv, want);
}

#[test]
fn audio_command_line_in_order() {
    let req = audio_request("hello".to_string(), "bob".to_string(), "en".to_string());
    let argv = command_argv(&req);
    let want: Vec<String> = vec![
        "python3".to_string(),
        "inference.py".to_string(),
        "audio".to_string(),
        "hello".to_string(),
        "bob".to_string(),
        "en".to_string(),
    ];
    assert_eq!(argv, want);
}

#[test]
fn image_scenario_returns_trimmed_filename() {
    let out = RunOutput {
        success: true,
        stdout: b"cat123.png\n".to_vec(),
        stderr: Vec::new(),
    };
    let r = run_result(Ok(out));
    assert_eq!(r, Ok("cat123.png".to_string()));
}

#[test]
fn audio_scenario_reports_script_diagnostic() {
    let out = RunOutput {
        success: false,
        stdout: Vec::new(),
        stderr: b"model not found".to_vec(),
    };
    let r = to_user_result(run_result(Ok(out)));
    match r {
        Err(m) => assert!(m.contains("model not found")),
        Ok(f) => panic!("expected an error, got filename {}", f),
    }
}

#[test]
fn spawn_failure_names_os_error() {
    let r = to_user_result(run_result(Err("No such file or directory (os error 2)".to_string())));
    match r {
        Err(m) => assert!(m.contains("No such file or directory (os error 2)")),
        Ok(f) => panic!("expected an error, got filename {}", f),
    }
}

#[test]
fn script_failure_never_yields_filename_even_with_output() {
    let out = RunOutput {
        success: false,
        stdout: b"late.png\n".to_vec(),
        stderr: b"ran out of memory".to_vec(),
    };
    assert_eq!(run_result(Ok(out)), Err(GenError::Script("ran out of memory".to_string())));
}

#[test]
fn empty_output_is_an_error() {
    let out = RunOutput {
        success: true,
        stdout: Vec::new(),
        stderr: Vec::new(),
    };
    assert_eq!(interpret_output(out), Err(GenError::Empty));
}

#[test]
fn whitespace_only_output_is_treated_as_empty() {
    let out = RunOutput {
        success: true,
        stdout: b" \t\r\n ".to_vec(),
        stderr: Vec::new(),
    };
    assert_eq!(interpret_output(out), Err(GenError::Empty));
}

#[test]
fn invalid_text_output_is_a_decode_failure() {
    let out = RunOutput {
        success: true,
        stdout: vec![0xff, 0xfe, 0x00],
        stderr: Vec::new(),
    };
    assert_eq!(interpret_output(out), Err(GenError::Decode));
}

#[test]
fn interior_whitespace_is_kept() {
    let out = RunOutput {
        success: true,
        stdout: b"  my file.png  ".to_vec(),
        stderr: Vec::new(),
    };
    assert_eq!(interpret_output(out), Ok("my file.png".to_string()));
}

#[test]
fn non_ascii_output_decodes() {
    let out = RunOutput {
        success: true,
        stdout: "h\u{e9}llo.png\n".as_bytes().to_vec(),
        stderr: Vec::new(),
    };
    assert_eq!(interpret_output(out), Ok("h\u{e9}llo.png".to_string()));
}

#[test]
fn invalid_diagnostic_bytes_are_replaced() {
    let out = RunOutput {
        success: false,
        stdout: Vec::new(),
        stderr: vec![0xff],
    };
    let r = to_user_result(run_result(Ok(out)));
    assert_eq!(r, Err(format!("Python script failed: {}", '\u{fffd}')));
}

#[test]
fn join_failure_is_its_own_error() {
    let r = resolve_join(Err("task aborted".to_string()));
    assert_eq!(r, Err(GenError::Join("task aborted".to_string())));
}

#[test]
fn join_success_passes_the_inner_result_through() {
    let inner: Result<String, GenError> = Ok("f.png".to_string());
    assert_eq!(resolve_join(Ok(inner)), Ok("f.png".to_string()));
    let failed: Result<String, GenError> = Err(GenError::Empty);
    assert_eq!(resolve_join(Ok(failed)), Err(GenError::Empty));
}

#[test]
fn messages_name_each_failure() {
    assert_eq!(
        GenError::Spawn("boom".to_string()).message(),
        "Failed to execute Python script: boom"
    );
    assert_eq!(
        GenError::Script("bad model".to_string()).message(),
        "Python script failed: bad model"
    );
    assert_eq!(GenError::Decode.message(), "Failed to parse output from Python script");
    assert_eq!(GenError::Empty.message(), "No filename returned from Python script");
    assert_eq!(GenError::Join("gone".to_string()).message(), "Thread join error: gone");
}
