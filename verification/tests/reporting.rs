use fconvert::classify::classify_launch_failure;
use fconvert::classify::classify_stderr;
use fconvert::classify::contains_substring;
use fconvert::classify::FailureKind;
use fconvert::classify::LaunchFailureKind;
use fconvert::report::decide_step;
use fconvert::report::not_found_lines;
use fconvert::report::success_line;
use fconvert::report::RunEvent;
use fconvert::report::StepAction;

#[test]
fn substring_search() {
    assert!(contains_substring("File 'a.mp3' already exists.", "already exists"));
    assert!(contains_substring("already exists", "already exists"));
    assert!(contains_substring("anything", ""));
    assert!(contains_substring("", ""));
    assert!(!contains_substring("", "already exists"));
    assert!(!contains_substring("already exist", "already exists"));
    assert!(!contains_substring("ALREADY EXISTS", "already exists"));
}

#[test]
fn stderr_classification() {
    assert!(matches!(
        classify_stderr("File 'a.mp3' already exists. Overwrite? [y/N]"),
        FailureKind::AlreadyExists
    ));
    assert!(matches!(
        classify_stderr("Unable to find a suitable output format for 'a.xyz'"),
        FailureKind::UnsuitableOutput
    ));
    assert!(matches!(classify_stderr("some other diagnostic"), FailureKind::Unknown));
    assert!(matches!(classify_stderr(""), FailureKind::Unknown));
    assert!(matches!(
        classify_stderr("no suitable output, target already exists"),
        FailureKind::AlreadyExists
    ));
}

#[test]
fn launch_failure_classification() {
    assert!(matches!(classify_launch_failure(Some(2)), LaunchFailureKind::NotFound));
    assert!(matches!(classify_launch_failure(Some(13)), LaunchFailureKind::Other));
    assert!(matches!(classify_launch_failure(None), LaunchFailureKind::Other));
}

#[test]
fn successful_run_reports_name_and_elapsed_time() {
    assert_eq!(success_line(&String::from("a.mp3"), 42), "Formated a.mp3 (42ms)");
    let event = RunEvent::Exited { exit_ok: true, stderr: String::new() };
    match decide_step(&String::from("a.mp3"), 42, &event) {
        StepAction::Proceed { lines } => assert_eq!(lines, vec!["Formated a.mp3 (42ms)"]),
        _ => panic!("a successful run must not abort the batch"),
    }
}

#[test]
fn already_exists_failure_line_is_exact() {
    let event = RunEvent::Exited {
        exit_ok: false,
        stderr: String::from("File 'a.mp3' already exists. Overwrite? [y/N]"),
    };
    match decide_step(&String::from("a.mp3"), 7, &event) {
        StepAction::Proceed { lines } => {
            assert_eq!(lines, vec!["Failed a.mp3 (already exists)"]);
        }
        _ => panic!("a conversion failure must not abort the batch"),
    }
}

#[test]
fn unsuitable_output_failure_line_is_exact() {
    let event = RunEvent::Exited {
        exit_ok: false,
        stderr: String::from("Unable to find a suitable output format for 'a.xyz'"),
    };
    match decide_step(&String::from("a.xyz"), 7, &event) {
        StepAction::Proceed { lines } => {
            assert_eq!(
                lines,
                vec!["Failed a.xyz (unable to find a suitable output format)"]
            );
        }
        _ => panic!("a conversion failure must not abort the batch"),
    }
}

#[test]
fn unknown_failure_dumps_raw_error_text() {
    let event = RunEvent::Exited {
        exit_ok: false,
        stderr: String::from("mysterious diagnostic"),
    };
    match decide_step(&String::from("a.mp3"), 7, &event) {
        StepAction::Proceed { lines } => {
            assert_eq!(lines, vec!["Failed a.mp3 (unknown)", "mysterious diagnostic"]);
        }
        _ => panic!("a conversion failure must not abort the batch"),
    }
}

#[test]
fn missing_executable_aborts_the_batch() {
    let event = RunEvent::NotLaunched { os_code: Some(2) };
    match decide_step(&String::from("a.mp3"), 7, &event) {
        StepAction::Abort { lines } => {
            assert_eq!(lines.len(), 2);
            assert_eq!(lines[0], "\u{1b}[31mERROR\u{1b}[0m: ffmpeg not found!");
            assert_eq!(lines[1], "Try adding ffmpeg to PATH");
        }
        _ => panic!("a missing executable must abort the batch"),
    }
    assert_eq!(not_found_lines().len(), 2);
}

#[test]
fn other_launch_failures_proceed_silently() {
    let event = RunEvent::NotLaunched { os_code: Some(13) };
    match decide_step(&String::from("a.mp3"), 7, &event) {
        StepAction::Proceed { lines } => assert!(lines.is_empty()),
        _ => panic!("only a missing executable aborts the batch"),
    }
    let event = RunEvent::NotLaunched { os_code: None };
    match decide_step(&String::from("a.mp3"), 7, &event) {
        StepAction::Proceed { lines } => assert!(lines.is_empty()),
        _ => panic!("only a missing executable aborts the batch"),
    }
}

#[test]
fn substring_search_handles_multibyte_characters() {
    assert!(contains_substring("ファイル already exists よ", "already exists"));
    assert!(contains_substring("héllo wörld", "wörld"));
    assert!(!contains_substring("héllo wörld", "world"));
}
