//! A chain of filter programs: how it is wired, and how its outcome is
//! judged.
//!
//! The output of each program is the input of the next, as in a shell
//! pipeline, without a shell. This module decides; its caller spawns the
//! processes, moves the bytes and waits. [`pipeline`] says whether anything
//! is to be spawned and how each process is wired. The caller then writes
//! the input to the first process, drains the output of the last and waits
//! for each process, all at once, lets every one of these tasks come to its
//! end, and hands [`settle`] a report of each in the order in which they
//! ended.

use vstd::prelude::*;
use vstd::string::*;

use crate::text::push_signed_decimal;
use crate::text::signed_decimal;
use crate::text::texts;

verus! {

/// One filter program with its arguments.
#[derive(Clone, Debug, PartialEq, Eq)]
pub struct FilterStep {
    /// The program to run.
    pub command: String,
    /// Its arguments.
    pub args: Vec<String>,
}

/// The mathematical value of a [`FilterStep`].
pub struct FilterStepView {
    pub command: Seq<char>,
    pub args: Seq<Seq<char>>,
}

impl View for FilterStep {
    type V = FilterStepView;

    open spec fn view(&self) -> FilterStepView {
        FilterStepView { command: self.command@, args: texts(self.args@) }
    }
}

/// A command followed by its arguments, with one space before each
/// argument.
pub open spec fn command_line(command: Seq<char>, args: Seq<Seq<char>>) -> Seq<char>
    decreases args.len(),
{
    if args.len() == 0 {
        command
    } else {
        command_line(command, args.drop_last()) + seq![' '] + args.last()
    }
}

/// Joins a command and its arguments into one line.
pub fn concat_command(command: &str, args: &Vec<String>) -> (line: String)
    ensures
        line@ == command_line(command@, texts(args@)),
{
    let ghost all = texts(args@);
    let mut line = command.to_owned();
    let mut i: usize = 0;
    while i < args.len()
        invariant
            i <= args.len(),
            all == texts(args@),
            line@ == command_line(command@, all.take(i as int)),
        decreases args.len() - i,
    {
        proof {
            reveal_strlit(" ");
        }
        line.append(" ");
        assert(" "@ =~= seq![' ']);
        line.append(args[i].as_str());
        assert(all.take(i as int + 1).drop_last() =~= all.take(i as int));
        i = i + 1;
    }
    assert(all.take(i as int) =~= all);
    line
}

/// Why a chain of filters failed.
#[derive(Debug, PartialEq, Eq)]
pub enum PipelineError {
    /// A program ended with a status other than zero, or was ended by a
    /// signal.
    Stage {
        /// The program and its arguments, in one line.
        command: String,
        /// The exit status; `None` where a signal ended the program.
        code: Option<i32>,
        /// What the program wrote to its standard error, without the white
        /// space at its end.
        stderr: String,
    },
    /// Something around the programs failed: starting one, writing the
    /// input, reading the output or waiting for a program to end.
    Task(String),
}

/// The mathematical value of a [`PipelineError`].
pub enum PipelineErrorView {
    Stage { command: Seq<char>, code: Option<i32>, stderr: Seq<char> },
    Task(Seq<char>),
}

impl View for PipelineError {
    type V = PipelineErrorView;

    open spec fn view(&self) -> PipelineErrorView {
        match self {
            PipelineError::Stage { command, code, stderr } => PipelineErrorView::Stage {
                command: command@,
                code: *code,
                stderr: stderr@,
            },
            PipelineError::Task(message) => PipelineErrorView::Task(message@),
        }
    }
}

/// The exit status in the text of a failure.
pub open spec fn status_text(code: Option<i32>) -> Seq<char> {
    match code {
        Some(code) => " ("@ + signed_decimal(code as int) + ")"@,
        None => " (terminated by signal)"@,
    }
}

/// What a program wrote to its standard error, in the text of a failure:
/// nothing where it wrote nothing.
pub open spec fn stderr_text(stderr: Seq<char>) -> Seq<char> {
    if stderr.len() == 0 {
        Seq::empty()
    } else {
        ": "@ + stderr
    }
}

impl PipelineErrorView {
    /// The text of the failure. That of a failed program names the program
    /// with its arguments and the exit status, and ends with what the
    /// program wrote to its standard error.
    pub open spec fn message(self) -> Seq<char> {
        match self {
            PipelineErrorView::Stage { command, code, stderr } => "`"@ + command
                + "` reported non-zero exit-status"@ + status_text(code) + stderr_text(stderr),
            PipelineErrorView::Task(message) => message,
        }
    }
}

impl PipelineError {
    /// The text of the failure.
    pub fn message(&self) -> (text: String)
        ensures
            text@ == self@.message(),
    {
        match self {
            PipelineError::Stage { command, code, stderr } => {
                let mut text = String::new();
                text.append("`");
                text.append(command.as_str());
                text.append("` reported non-zero exit-status");
                match code {
                    Some(code) => {
                        text.append(" (");
                        push_signed_decimal(&mut text, *code);
                        text.append(")");
                    },
                    None => {
                        text.append(" (terminated by signal)");
                    },
                }
                if !stderr.as_str().is_empty() {
                    text.append(": ");
                    text.append(stderr.as_str());
                }
                text
            },
            PipelineError::Task(message) => message.clone(),
        }
    }
}

/// Whether a program with this exit status did its work: it ended by itself
/// with status zero.
pub open spec fn succeeded(code: Option<i32>) -> bool {
    code == Some(0i32)
}

/// The failure, if any, of a program that ended with `code` and left
/// `stderr`, already without the white space at its end, on its standard
/// error.
pub open spec fn fault(
    code: Option<i32>,
    stderr: Seq<char>,
    command: Seq<char>,
    args: Seq<Seq<char>>,
) -> Option<PipelineErrorView> {
    if succeeded(code) {
        None
    } else {
        Some(PipelineErrorView::Stage { command: command_line(command, args), code, stderr })
    }
}

/// The failure in `result`, if any.
pub open spec fn failure_in(result: Result<(), PipelineError>) -> Option<PipelineErrorView> {
    match result {
        Ok(_) => None,
        Err(error) => Some(error@),
    }
}

/// Judges how a program ended, given its exit status and what it wrote to
/// its standard error, as text without the white space at its end.
pub fn evaluate_text(code: Option<i32>, stderr: &str, command: &str, args: &Vec<String>) -> (result:
    Result<(), PipelineError>)
    ensures
        failure_in(result) == fault(code, stderr@, command@, texts(args@)),
{
    let success = match code {
        Some(code) => code == 0,
        None => false,
    };
    if success {
        Ok(())
    } else {
        Err(
            PipelineError::Stage {
                command: concat_command(command, args),
                code,
                stderr: stderr.to_owned(),
            },
        )
    }
}

/// The text that a lossy decoding makes of bytes: `String::from_utf8_lossy`
/// of the standard library, which puts a replacement character in the place
/// of what is not UTF-8.
pub uninterp spec fn lossy_text(bytes: Seq<u8>) -> Seq<char>;

/// Whether a character is white space in the sense of Unicode, the sense in
/// which `str::trim_end` of the standard library trims: the characters with
/// the property `White_Space`, among them the blank, the tabulator and the
/// ends of lines.
pub open spec fn white_space(c: char) -> bool {
    ||| '\u{9}' <= c <= '\u{d}'
    ||| c == ' '
    ||| c == '\u{85}'
    ||| c == '\u{a0}'
    ||| c == '\u{1680}'
    ||| '\u{2000}' <= c <= '\u{200a}'
    ||| c == '\u{2028}'
    ||| c == '\u{2029}'
    ||| c == '\u{202f}'
    ||| c == '\u{205f}'
    ||| c == '\u{3000}'
}

/// `text` without the white space at its end.
pub open spec fn trimmed_end(text: Seq<char>) -> Seq<char>
    decreases text.len(),
{
    if text.len() > 0 && white_space(text.last()) {
        trimmed_end(text.drop_last())
    } else {
        text
    }
}

/// Decodes bytes as text, whatever they hold.
///
/// Calls `String::from_utf8_lossy`. The contract names its result, and
/// claims that valid UTF-8 is decoded as it stands.
#[verifier::external_body]
fn decode_lossy(bytes: &[u8]) -> (text: String)
    ensures
        text@ == lossy_text(bytes@),
        vstd::utf8::valid_utf8(bytes@) ==> text@ == vstd::utf8::decode_utf8(bytes@),
{
    String::from_utf8_lossy(bytes).into_owned()
}

/// Cuts the white space off the end of a text.
///
/// Calls `str::trim_end`. The contract claims that the result is the text
/// up to and including its last character that is not white space, where
/// white space is what Unicode gives the property `White_Space`.
#[verifier::external_body]
fn trim_end<'a>(text: &'a str) -> (trimmed: &'a str)
    ensures
        trimmed@ == trimmed_end(text@),
{
    text.trim_end()
}

/// How a program ended.
#[derive(Debug, PartialEq, Eq)]
pub struct StageOutput {
    /// The exit status; `None` where a signal ended the program.
    pub code: Option<i32>,
    /// What the program wrote to its standard error.
    pub stderr: Vec<u8>,
}

/// Judges how a program ended: whoever ends with a status other than zero
/// or by a signal has failed, and the failure names the program with its
/// arguments, the status, and what the program wrote to its standard error,
/// decoded leniently and without the white space at its end. What is valid
/// UTF-8 is decoded as it stands.
pub fn evaluate(output: &StageOutput, command: &str, args: &Vec<String>) -> (result: Result<
    (),
    PipelineError,
>)
    ensures
        failure_in(result) == fault(
            output.code,
            trimmed_end(lossy_text(output.stderr@)),
            command@,
            texts(args@),
        ),
        vstd::utf8::valid_utf8(output.stderr@) ==> lossy_text(output.stderr@)
            == vstd::utf8::decode_utf8(output.stderr@),
{
    let text = decode_lossy(output.stderr.as_slice());
    let trimmed = trim_end(text.as_str());
    evaluate_text(output.code, trimmed, command, args)
}

/// Where a program reads from.
#[derive(Clone, Copy, Debug, PartialEq, Eq, Structural)]
pub enum Source {
    /// A pipe into which the caller writes the input, and which it closes
    /// behind the last byte.
    Input,
    /// The standard output of the program before it.
    Previous,
}

/// Where the standard output of a program goes.
#[derive(Clone, Copy, Debug, PartialEq, Eq, Structural)]
pub enum Sink {
    /// Into the program after it.
    Next,
    /// Into a buffer of the caller: this is the output of the chain.
    Capture,
}

/// How one program of a chain is to be started. Its standard error always
/// goes into a buffer of its own, apart from the data.
#[derive(Debug, PartialEq, Eq)]
pub struct StagePlan {
    /// The program to run.
    pub command: String,
    /// Its arguments.
    pub args: Vec<String>,
    /// Where it reads from.
    pub stdin: Source,
    /// Where it writes to.
    pub stdout: Sink,
}

/// The mathematical value of a [`StagePlan`].
pub struct StagePlanView {
    pub command: Seq<char>,
    pub args: Seq<Seq<char>>,
    pub stdin: Source,
    pub stdout: Sink,
}

impl View for StagePlan {
    type V = StagePlanView;

    open spec fn view(&self) -> StagePlanView {
        StagePlanView {
            command: self.command@,
            args: texts(self.args@),
            stdin: self.stdin,
            stdout: self.stdout,
        }
    }
}

/// What is to be done with an input and a chain.
#[derive(Debug, PartialEq, Eq)]
pub enum Launch<'a> {
    /// Nothing: the chain is empty and the input is the output.
    Unchanged(&'a [u8]),
    /// Start these programs, in this order.
    Spawn(Vec<StagePlan>),
}

/// The mathematical value of a [`Launch`].
pub enum LaunchView {
    Unchanged(Seq<u8>),
    Spawn(Seq<StagePlanView>),
}

impl<'a> View for Launch<'a> {
    type V = LaunchView;

    open spec fn view(&self) -> LaunchView {
        match self {
            Launch::Unchanged(bytes) => LaunchView::Unchanged(bytes@),
            Launch::Spawn(plans) => LaunchView::Spawn(plans_of(plans@)),
        }
    }
}

/// What a list of plans holds.
pub open spec fn plans_of(plans: Seq<StagePlan>) -> Seq<StagePlanView> {
    Seq::new(plans.len(), |i: int| plans[i]@)
}

/// What a chain holds.
pub open spec fn steps_of(chain: Seq<FilterStep>) -> Seq<FilterStepView> {
    Seq::new(chain.len(), |i: int| chain[i]@)
}

/// How the program at place `i` of `chain` is started: the first reads what
/// the caller writes, every other what the one before it writes; the
/// output of the last is captured.
pub open spec fn plan_at(chain: Seq<FilterStepView>, i: int) -> StagePlanView {
    StagePlanView {
        command: chain[i].command,
        args: chain[i].args,
        stdin: if i == 0 {
            Source::Input
        } else {
            Source::Previous
        },
        stdout: if i == chain.len() - 1 {
            Sink::Capture
        } else {
            Sink::Next
        },
    }
}

/// What is to be done with `input` and `chain`: nothing where the chain is
/// empty, else one program for each step, in the order of the chain.
pub open spec fn launched(input: Seq<u8>, chain: Seq<FilterStepView>) -> LaunchView {
    if chain.len() == 0 {
        LaunchView::Unchanged(input)
    } else {
        LaunchView::Spawn(Seq::new(chain.len(), |i: int| plan_at(chain, i)))
    }
}

/// Begins to pipe `input` through `chain`.
///
/// With an empty chain the input is the output, nothing is copied and
/// nothing is to be spawned. Else the result says how each program is to be
/// started.
pub fn pipeline<'a>(input: &'a [u8], chain: &Vec<FilterStep>) -> (launch: Launch<'a>)
    ensures
        launch@ == launched(input@, steps_of(chain@)),
        chain.len() == 0 ==> launch@ == LaunchView::Unchanged(input@),
{
    if chain.len() == 0 {
        return Launch::Unchanged(input);
    }
    let ghost steps = steps_of(chain@);
    let mut plans: Vec<StagePlan> = Vec::new();
    let mut i: usize = 0;
    while i < chain.len()
        invariant
            i <= chain.len(),
            steps == steps_of(chain@),
            plans@.len() == i,
            forall|k: int| 0 <= k < i ==> (#[trigger] plans@[k])@ == plan_at(steps, k),
        decreases chain.len() - i,
    {
        let step = &chain[i];
        let plan = StagePlan {
            command: step.command.clone(),
            args: crate::text::copy_texts(&step.args),
            stdin: if i == 0 {
                Source::Input
            } else {
                Source::Previous
            },
            stdout: if i == chain.len() - 1 {
                Sink::Capture
            } else {
                Sink::Next
            },
        };
        plans.push(plan);
        i = i + 1;
    }
    assert(plans_of(plans@) =~= Seq::new(steps.len(), |k: int| plan_at(steps, k)));
    Launch::Spawn(plans)
}

/// The first failure among `reports`, if any.
pub open spec fn first_failure(reports: Seq<Result<(), PipelineError>>) -> Option<
    PipelineErrorView,
>
    decreases reports.len(),
{
    if reports.len() == 0 {
        None
    } else {
        match reports[0] {
            Err(error) => Some(error@),
            Ok(_) => first_failure(reports.drop_first()),
        }
    }
}

/// The first of two failures.
pub open spec fn earlier(
    first: Option<PipelineErrorView>,
    second: Option<PipelineErrorView>,
) -> Option<PipelineErrorView> {
    match first {
        Some(_) => first,
        None => second,
    }
}

proof fn lemma_first_failure_push(
    reports: Seq<Result<(), PipelineError>>,
    last: Result<(), PipelineError>,
)
    ensures
        first_failure(reports.push(last)) == earlier(first_failure(reports), failure_in(last)),
    decreases reports.len(),
{
    let all = reports.push(last);
    if reports.len() == 0 {
        assert(first_failure(all.drop_first()) is None);
    } else {
        assert(all.drop_first() =~= reports.drop_first().push(last));
        lemma_first_failure_push(reports.drop_first(), last);
    }
}

/// What a finished chain amounts to.
pub open spec fn settled(reports: Seq<Result<(), PipelineError>>, output: Seq<u8>) -> Result<
    Seq<u8>,
    PipelineErrorView,
> {
    match first_failure(reports) {
        Some(error) => Err(error),
        None => Ok(output),
    }
}

/// What `result` holds.
pub open spec fn outcome_of(result: Result<Vec<u8>, PipelineError>) -> Result<
    Seq<u8>,
    PipelineErrorView,
> {
    match result {
        Ok(bytes) => Ok(bytes@),
        Err(error) => Err(error@),
    }
}

/// Judges a chain whose every task has come to its end.
///
/// `reports` holds how each task ended (the writing of the input, the
/// draining of the output, and each program, judged by [`evaluate`]), in the
/// order in which they ended; `output` is what the last program wrote. Where
/// no task failed, the output is the result, whole. Else the failure that
/// came first is the result, and nothing of the output is.
pub fn settle(reports: Vec<Result<(), PipelineError>>, output: Vec<u8>) -> (result: Result<
    Vec<u8>,
    PipelineError,
>)
    ensures
        outcome_of(result) == settled(reports@, output@),
{
    let ghost all = reports@;
    let mut reports = reports;
    let mut failure: Option<PipelineError> = None;
    while reports.len() > 0
        invariant
            first_failure(all) == earlier(
                first_failure(reports@),
                match failure {
                    Some(error) => Some(error@),
                    None => None,
                },
            ),
        decreases reports.len(),
    {
        let ghost before = reports@;
        let last = reports.pop();
        proof {
            assert(before =~= reports@.push(last.unwrap()));
            lemma_first_failure_push(reports@, last.unwrap());
        }
        match last {
            Some(Err(error)) => {
                failure = Some(error);
            },
            _ => {},
        }
    }
    match failure {
        Some(error) => Err(error),
        None => Ok(output),
    }
}

/// Piping through an empty chain gives the input back, however often it is
/// done: the output of one run is the input, and so is that of a second run
/// on the same input or on the output of the first.
pub proof fn lemma_empty_chain_is_identity(input: Seq<u8>)
    ensures
        launched(input, Seq::empty()) == LaunchView::Unchanged(input),
        launched(launched(input, Seq::empty())->Unchanged_0, Seq::empty()) == launched(
            input,
            Seq::empty(),
        ),
{
}

/// A command line starts with the command.
pub proof fn lemma_command_line_starts_with_command(command: Seq<char>, args: Seq<Seq<char>>)
    ensures
        command_line(command, args).len() >= command.len(),
        command_line(command, args).take(command.len() as int) == command,
    decreases args.len(),
{
    if args.len() > 0 {
        lemma_command_line_starts_with_command(command, args.drop_last());
    }
}

/// A program that ends with status 1 has failed, and the text of its
/// failure holds the command, which its command line starts with, and the
/// status, written as `(1)`.
pub proof fn lemma_status_one_is_reported(
    command: Seq<char>,
    args: Seq<Seq<char>>,
    stderr: Seq<char>,
)
    ensures
        fault(Some(1i32), stderr, command, args) == Some(
            PipelineErrorView::Stage {
                command: command_line(command, args),
                code: Some(1i32),
                stderr,
            },
        ),
        fault(Some(1i32), stderr, command, args)->Some_0.message() == "`"@ + command_line(
            command,
            args,
        ) + "` reported non-zero exit-status"@ + " ("@ + seq!['1'] + ")"@ + stderr_text(stderr),
        command_line(command, args).take(command.len() as int) == command,
{
    lemma_command_line_starts_with_command(command, args);
}

/// A chain with a task that failed has failed: its outcome is a failure,
/// and where every task that ended before that one did well, it is the
/// failure of that task.
pub proof fn lemma_failed_task_fails_the_chain(
    reports: Seq<Result<(), PipelineError>>,
    output: Seq<u8>,
    failed: int,
)
    requires
        0 <= failed < reports.len(),
        reports[failed] is Err,
    ensures
        settled(reports, output) is Err,
        (forall|k: int| 0 <= k < failed ==> (#[trigger] reports[k]) is Ok) ==> settled(
            reports,
            output,
        ) == Err::<Seq<u8>, PipelineErrorView>(reports[failed]->Err_0@),
    decreases failed,
{
    if failed > 0 {
        let rest = reports.drop_first();
        lemma_failed_task_fails_the_chain(rest, output, failed - 1);
        assert forall|k: int| 0 <= k < rest.len() implies #[trigger] rest[k] == reports[k + 1] by {}
    }
}

/// A chain whose every task did well gives the output of its last program,
/// whole.
pub proof fn lemma_sound_chain_gives_its_output(
    reports: Seq<Result<(), PipelineError>>,
    output: Seq<u8>,
)
    requires
        forall|k: int| 0 <= k < reports.len() ==> (#[trigger] reports[k]) is Ok,
    ensures
        settled(reports, output) == Ok::<Seq<u8>, PipelineErrorView>(output),
    decreases reports.len(),
{
    if reports.len() > 0 {
        let rest = reports.drop_first();
        assert forall|k: int| 0 <= k < rest.len() implies (#[trigger] rest[k]) is Ok by {
            assert(reports[k + 1] is Ok);
        }
        lemma_sound_chain_gives_its_output(rest, output);
    }
}

} // verus!
