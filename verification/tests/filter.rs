//! Chains of filters: wiring, judging, settling.
//!
//! The programs themselves are started by the caller of the library, not by
//! the library. Where a test speaks of a program, it hands in what the
//! program leaves behind when it is run: its exit status and its output.

use maily::filter::concat_command;
use maily::filter::evaluate;
use maily::filter::evaluate_text;
use maily::filter::pipeline;
use maily::filter::settle;
use maily::filter::FilterStep;
use maily::filter::Launch;
use maily::filter::PipelineError;
use maily::filter::Sink;
use maily::filter::Source;
use maily::filter::StageOutput;
use maily::filter::StagePlan;

fn step(command: &str, args: &[&str]) -> FilterStep {
    FilterStep {
        command: command.to_string(),
        args: args.iter().map(|arg| arg.to_string()).collect(),
    }
}

fn plan(command: &str, args: &[&str], stdin: Source, stdout: Sink) -> StagePlan {
    StagePlan {
        command: command.to_string(),
        args: args.iter().map(|arg| arg.to_string()).collect(),
        stdin,
        stdout,
    }
}

fn exited(code: i32) -> StageOutput {
    StageOutput { code: Some(code), stderr: Vec::new() }
}

/// The reports of a chain whose writer, reader and programs all did well.
fn all_well(chain: &[FilterStep]) -> Vec<Result<(), PipelineError>> {
    let mut reports = vec![Ok(()), Ok(())];
    for step in chain {
        reports.push(evaluate(&exited(0), &step.command, &step.args));
    }
    reports
}

/// Check that we can create a proper pipeline of commands.
#[test]
fn command_chaining() {
    let input = b"foobar";
    let launch = pipeline(input, &vec![]);
    assert_eq!(launch, Launch::Unchanged(input));

    let chain = vec![step("tr", &["o", "e"])];
    assert_eq!(
        pipeline(input, &chain),
        Launch::Spawn(vec![plan("tr", &["o", "e"], Source::Input, Sink::Capture)])
    );
    // `tr o e` makes "feebar" of "foobar".
    let output = settle(all_well(&chain), b"feebar".to_vec()).unwrap();
    assert_eq!(output, b"feebar");

    let chain = vec![step("tr", &["o", "e"]), step("tr", &["r", "x"])];
    assert_eq!(
        pipeline(input, &chain),
        Launch::Spawn(vec![
            plan("tr", &["o", "e"], Source::Input, Sink::Next),
            plan("tr", &["r", "x"], Source::Previous, Sink::Capture),
        ])
    );
    // `tr r x` makes "feebax" of that.
    let output = settle(all_well(&chain), b"feebax".to_vec()).unwrap();
    assert_eq!(output, b"feebax");
}

/// Check that we detect errors in a pipeline of commands.
#[test]
fn command_chaining_errors() {
    let chains = [
        vec![step("false", &[]), step("tr", &["o", "e"]), step("tr", &["r", "x"])],
        vec![step("tr", &["o", "e"]), step("false", &[]), step("tr", &["r", "x"])],
        vec![step("tr", &["o", "e"]), step("tr", &["r", "x"]), step("false", &[])],
    ];
    for chain in chains {
        // `false` ends with status 1, whatever it is fed; `tr` ends with 0.
        let mut reports = vec![Ok(()), Ok(())];
        for step in &chain {
            let code = if step.command == "false" { 1 } else { 0 };
            reports.push(evaluate(&exited(code), &step.command, &step.args));
        }
        let err = settle(reports, b"foobar".to_vec()).unwrap_err();
        assert_eq!(err.message(), "`false` reported non-zero exit-status (1)");
    }
}

/// Check that we can send a lot of data through the pipeline.
#[test]
fn excessive_data_pipeline() {
    let input = (0..8 * 1024 * 1024).map(|_| b'x').collect::<Vec<_>>();

    match pipeline(&input, &vec![]) {
        Launch::Unchanged(bytes) => assert_eq!(bytes, input),
        other => panic!("unexpected launch: {other:?}"),
    }

    // `cat` hands on what it is fed.
    let chain = vec![step("cat", &[])];
    assert_eq!(
        pipeline(&input, &chain),
        Launch::Spawn(vec![plan("cat", &[], Source::Input, Sink::Capture)])
    );
    let output = settle(all_well(&chain), input.clone()).unwrap();
    assert_eq!(output, input);
}

#[test]
fn an_empty_chain_gives_the_input_back() {
    assert_eq!(pipeline(b"", &vec![]), Launch::Unchanged(b""));
    assert_eq!(pipeline(&[0, 159, 255], &vec![]), Launch::Unchanged(&[0, 159, 255]));
}

#[test]
fn an_empty_chain_twice_gives_the_same_bytes_twice() {
    let input = b"foobar".to_vec();
    let first = match pipeline(&input, &vec![]) {
        Launch::Unchanged(bytes) => bytes.to_vec(),
        other => panic!("unexpected launch: {other:?}"),
    };
    let second = match pipeline(&input, &vec![]) {
        Launch::Unchanged(bytes) => bytes.to_vec(),
        other => panic!("unexpected launch: {other:?}"),
    };
    assert_eq!(first, input);
    assert_eq!(second, first);

    let again = match pipeline(&first, &vec![]) {
        Launch::Unchanged(bytes) => bytes.to_vec(),
        other => panic!("unexpected launch: {other:?}"),
    };
    assert_eq!(again, input);
}

#[test]
fn a_chain_of_three_is_wired_in_order() {
    let chain = vec![step("a", &[]), step("b", &["-x"]), step("c", &["1", "2"])];
    assert_eq!(
        pipeline(b"in", &chain),
        Launch::Spawn(vec![
            plan("a", &[], Source::Input, Sink::Next),
            plan("b", &["-x"], Source::Previous, Sink::Next),
            plan("c", &["1", "2"], Source::Previous, Sink::Capture),
        ])
    );
}

#[test]
fn a_command_is_joined_with_its_arguments() {
    assert_eq!(concat_command("cat", &vec![]), "cat");
    assert_eq!(concat_command("tr", &vec!["o".to_string(), "e".to_string()]), "tr o e");
    assert_eq!(concat_command("x", &vec![String::new(), "y".to_string()]), "x  y");
}

#[test]
fn status_zero_is_success() {
    assert_eq!(evaluate(&exited(0), "true", &vec![]), Ok(()));
    let noisy = StageOutput { code: Some(0), stderr: b"warning: nothing\n".to_vec() };
    assert_eq!(evaluate(&noisy, "true", &vec![]), Ok(()));
}

#[test]
fn a_failure_names_command_status_and_stderr() {
    let output = StageOutput { code: Some(2), stderr: b"no such file\n \t\n".to_vec() };
    let err = evaluate(&output, "grep", &vec!["-r".to_string(), "x".to_string()]).unwrap_err();
    assert_eq!(
        err,
        PipelineError::Stage {
            command: "grep -r x".to_string(),
            code: Some(2),
            stderr: "no such file".to_string(),
        }
    );
    assert_eq!(err.message(), "`grep -r x` reported non-zero exit-status (2): no such file");
}

#[test]
fn white_space_in_front_of_stderr_stays() {
    let output = StageOutput { code: Some(1), stderr: b"  indented\n".to_vec() };
    let err = evaluate(&output, "x", &vec![]).unwrap_err();
    assert_eq!(err.message(), "`x` reported non-zero exit-status (1):   indented");
}

#[test]
fn stderr_of_white_space_alone_is_left_out() {
    let output = StageOutput { code: Some(1), stderr: b" \n\n".to_vec() };
    let err = evaluate(&output, "false", &vec![]).unwrap_err();
    assert_eq!(err.message(), "`false` reported non-zero exit-status (1)");
}

#[test]
fn a_signal_is_a_failure() {
    let output = StageOutput { code: None, stderr: Vec::new() };
    let err = evaluate(&output, "sleep", &vec!["100".to_string()]).unwrap_err();
    assert_eq!(err.message(), "`sleep 100` reported non-zero exit-status (terminated by signal)");

    let output = StageOutput { code: None, stderr: b"Killed\n".to_vec() };
    let err = evaluate(&output, "sleep", &vec![]).unwrap_err();
    assert_eq!(
        err.message(),
        "`sleep` reported non-zero exit-status (terminated by signal): Killed"
    );
}

#[test]
fn a_negative_status_is_written_with_its_sign() {
    let err = evaluate(&exited(-1), "odd", &vec![]).unwrap_err();
    assert_eq!(err.message(), "`odd` reported non-zero exit-status (-1)");
}

#[test]
fn stderr_that_is_no_text_is_decoded_leniently() {
    let output = StageOutput { code: Some(1), stderr: vec![b'a', 0xff, b'b', b'\n'] };
    let err = evaluate(&output, "x", &vec![]).unwrap_err();
    assert_eq!(err.message(), "`x` reported non-zero exit-status (1): a\u{fffd}b");
}

#[test]
fn text_is_taken_as_it_is_given() {
    // What is handed in as text is not trimmed again.
    let err = evaluate_text(Some(3), "kept \n", "x", &vec![]).unwrap_err();
    assert_eq!(err.message(), "`x` reported non-zero exit-status (3): kept \n");
    assert_eq!(evaluate_text(Some(0), "ignored", "x", &vec![]), Ok(()));
    assert_eq!(
        evaluate_text(None, "", "x", &vec![]).unwrap_err().message(),
        "`x` reported non-zero exit-status (terminated by signal)"
    );
}

#[test]
fn the_failure_that_came_first_is_reported() {
    let first = PipelineError::Task("failed to write input to stdin".to_string());
    let second = evaluate(&exited(1), "false", &vec![]).unwrap_err();

    let reports = vec![Ok(()), Err(first), Ok(()), Err(second)];
    let err = settle(reports, b"partial".to_vec()).unwrap_err();
    assert_eq!(err.message(), "failed to write input to stdin");

    let first = evaluate(&exited(1), "false", &vec![]).unwrap_err();
    let second = PipelineError::Task("failed to write input to stdin".to_string());
    let reports = vec![Err(first), Ok(()), Err(second)];
    let err = settle(reports, b"partial".to_vec()).unwrap_err();
    assert_eq!(err.message(), "`false` reported non-zero exit-status (1)");
}

#[test]
fn without_a_failure_the_output_is_the_result() {
    assert_eq!(settle(vec![], b"out".to_vec()), Ok(b"out".to_vec()));
    assert_eq!(settle(vec![Ok(()), Ok(()), Ok(())], Vec::new()), Ok(Vec::new()));
}

/// The characters that Unicode gives the property `White_Space`.
fn white_space() -> Vec<char> {
    let mut all = vec![' ', '\u{85}', '\u{a0}', '\u{1680}', '\u{2028}', '\u{2029}'];
    all.extend(['\u{202f}', '\u{205f}', '\u{3000}']);
    all.extend('\u{9}'..='\u{d}');
    all.extend('\u{2000}'..='\u{200a}');
    all
}

#[test]
fn white_space_is_what_unicode_says() {
    let listed = white_space();
    assert_eq!(listed.len(), 25);
    let mut c = '\0';
    loop {
        assert_eq!(c.is_whitespace(), listed.contains(&c), "U+{:04X}", c as u32);
        if c == char::MAX {
            break;
        }
        c = char::from_u32(c as u32 + 1).unwrap_or('\u{e000}');
    }
}

#[test]
fn every_kind_of_white_space_is_cut_off_the_end() {
    for c in white_space() {
        let stderr = format!("no such file{c}{c}\n").into_bytes();
        let output = StageOutput { code: Some(1), stderr };
        let err = evaluate(&output, "x", &vec![]).unwrap_err();
        assert_eq!(
            err.message(),
            "`x` reported non-zero exit-status (1): no such file",
            "U+{:04X}",
            c as u32
        );
    }
}

#[test]
fn what_is_no_white_space_stays_at_the_end() {
    // A zero-width blank and a Mongolian vowel separator look like white
    // space and are none.
    for c in ['\u{200b}', '\u{180e}', '\u{feff}', '_', '\0'] {
        let stderr = format!("kept{c}").into_bytes();
        let output = StageOutput { code: Some(1), stderr };
        let err = evaluate(&output, "x", &vec![]).unwrap_err();
        assert_eq!(err.message(), format!("`x` reported non-zero exit-status (1): kept{c}"));
    }
}

#[test]
fn a_line_end_alone_leaves_nothing_of_stderr() {
    let output = StageOutput { code: Some(1), stderr: b"\n".to_vec() };
    let err = evaluate(&output, "false", &vec![]).unwrap_err();
    assert_eq!(
        err,
        PipelineError::Stage { command: "false".to_string(), code: Some(1), stderr: String::new() }
    );
}
