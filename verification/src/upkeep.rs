//! The two commands that reach beyond the status sources: `update`, which
//! asks the release source for a newer build, and `ping`, which runs the
//! system's `ping` against the server. Both are run by the caller; what is
//! said before and after is decided here.

use crate::command::SERVER_HOST;
use crate::style::{styled, Line, Span, Styled, Tone};
use crate::text::{join2, join3};
use vstd::prelude::*;
use vstd::string::*;

verus! {

/// The owner of the repository that releases are taken from.
pub const REPO_OWNER: &'static str = "KoHaRxnP";

/// The program that `ping` runs.
pub const PING_PROGRAM: &'static str = "ping";

/// How many echo requests `ping` sends.
pub const PING_COUNT: &'static str = "4";

/// The text of the warning that a command is not recommended.
pub const NOT_RECOMMENDED: &'static str =
    "!! このコマンドは現在推奨されていません。不安定な動作をする、もしくは機能しない可能性があります。\n";

/// The text of the warning that a feature is under development.
pub const UNDER_DEVELOPMENT: &'static str =
    "!! この機能は現在開発中です。不安定な動作をする、もしくは機能しない可能性があります。\n";

/// How an update ended.
#[derive(Clone, Debug)]
pub enum UpdateOutcome {
    /// A newer build was installed; its version.
    Updated(String),
    /// The build is the newest; its version.
    UpToDate(String),
    /// The update failed; the reason.
    Failed(String),
}

/// The model of an [`UpdateOutcome`].
pub enum UpdateModel {
    Updated(Seq<char>),
    UpToDate(Seq<char>),
    Failed(Seq<char>),
}

impl View for UpdateOutcome {
    type V = UpdateModel;

    open spec fn view(&self) -> UpdateModel {
        match self {
            UpdateOutcome::Updated(v) => UpdateModel::Updated(v@),
            UpdateOutcome::UpToDate(v) => UpdateModel::UpToDate(v@),
            UpdateOutcome::Failed(e) => UpdateModel::Failed(e@),
        }
    }
}

/// A line of a mark in a tone and plain text after it.
pub open spec fn marked(tone: Tone, mark: Seq<char>, rest: Seq<char>) -> Seq<Styled> {
    seq![styled(tone, mark), styled(Tone::Plain, rest)]
}

/// The line that is printed before the release source is asked.
pub open spec fn update_banner_of() -> Seq<Styled> {
    marked(Tone::Blue, ">>"@, " 最新バージョンを確認中..."@)
}

/// The line that tells how an update ended.
pub open spec fn update_line_of(outcome: UpdateModel) -> Seq<Styled> {
    match outcome {
        UpdateModel::Updated(v) => marked(
            Tone::Green,
            ">>"@,
            " アップデートが完了しました！ ("@ + v + ")"@,
        ),
        UpdateModel::UpToDate(v) => marked(
            Tone::Yellow,
            ">>"@,
            " すでに最新バージョン ("@ + v + ") です。"@,
        ),
        UpdateModel::Failed(e) => marked(
            Tone::Red,
            "!!"@,
            " アップデート中にエラーが発生しました: "@ + e,
        ),
    }
}

/// The flag by which `ping` takes the number of requests.
pub open spec fn count_flag_of(windows: bool) -> Seq<char> {
    if windows {
        "-n"@
    } else {
        "-c"@
    }
}

/// The arguments of `ping`.
pub open spec fn ping_arguments_of(windows: bool) -> Seq<Seq<char>> {
    seq![count_flag_of(windows), PING_COUNT@, SERVER_HOST@]
}

/// The lines before `ping` runs: the two warnings, then the banner.
pub open spec fn ping_preamble_of() -> Seq<Seq<Styled>> {
    seq![
        seq![styled(Tone::Yellow, NOT_RECOMMENDED@)],
        seq![styled(Tone::Yellow, UNDER_DEVELOPMENT@)],
        marked(Tone::Blue, ">>"@, " "@ + SERVER_HOST@ + " へ Ping を送信中..."@),
    ]
}

/// What is said of a `ping` that could not be started, with the reason.
pub open spec fn ping_start_error_of(reason: Seq<char>) -> Seq<char> {
    "外部コマンド 'ping' の実行に失敗しました。パスが通っているか確認してください: "@ + reason
}

/// What a finished `ping` left behind.
#[derive(Clone, Debug)]
pub struct PingOutput {
    /// Whether it ended with success.
    pub success: bool,
    /// What it wrote to standard output.
    pub stdout: String,
    /// What it wrote to standard error.
    pub stderr: String,
}

/// How a run of `ping` went.
#[derive(Clone, Debug)]
pub enum PingRun {
    /// It could not be started; the reason.
    NotStarted(String),
    /// It ran to its end.
    Finished(PingOutput),
}

/// The model of a [`PingRun`]: the reason where it did not start, else its
/// success and what it wrote to standard output and standard error.
pub enum PingRunModel {
    NotStarted(Seq<char>),
    Finished(bool, Seq<char>, Seq<char>),
}

impl View for PingRun {
    type V = PingRunModel;

    open spec fn view(&self) -> PingRunModel {
        match self {
            PingRun::NotStarted(reason) => PingRunModel::NotStarted(reason@),
            PingRun::Finished(output) => PingRunModel::Finished(
                output.success,
                output.stdout@,
                output.stderr@,
            ),
        }
    }
}

/// A line and the stream it goes to.
#[derive(Clone, Debug)]
pub struct Routed {
    pub line: Line,
    pub to_stderr: bool,
}

/// The line for a finished `ping`: its output where it succeeded, else a
/// notice with what it wrote to standard error.
pub open spec fn ping_line_of(success: bool, stdout: Seq<char>, stderr: Seq<char>) -> Seq<Styled> {
    if success {
        seq![styled(Tone::Plain, stdout)]
    } else {
        marked(Tone::Red, "!!"@, " Pingに失敗しました: "@ + stderr)
    }
}

/// The line for a run of `ping`: for one that could not be started, a
/// notice with the reason; else the line of the finished run.
pub open spec fn ping_report_of(run: PingRunModel) -> Seq<Styled> {
    match run {
        PingRunModel::NotStarted(reason) => marked(
            Tone::Red,
            "!!"@,
            " "@ + ping_start_error_of(reason),
        ),
        PingRunModel::Finished(success, stdout, stderr) => ping_line_of(success, stdout, stderr),
    }
}

fn marked_line(tone: Tone, mark: &str, rest: String) -> (line: Line)
    ensures
        line@ == marked(tone, mark@, rest@),
{
    let mut line: Line = Line::of(Span::new(tone, mark));
    line.push(Span::owned(rest));
    line
}

/// The line that is printed before the release source is asked.
pub fn update_banner() -> (line: Line)
    ensures
        line@ == update_banner_of(),
{
    marked_line(Tone::Blue, ">>", String::from_str(" 最新バージョンを確認中..."))
}

/// The line that tells how an update ended. A failed update is reported and
/// is no failure of the program.
pub fn update_line(outcome: &UpdateOutcome) -> (line: Line)
    ensures
        line@ == update_line_of(outcome@),
{
    match outcome {
        UpdateOutcome::Updated(v) => marked_line(
            Tone::Green,
            ">>",
            join3(" アップデートが完了しました！ (", v.as_str(), ")"),
        ),
        UpdateOutcome::UpToDate(v) => marked_line(
            Tone::Yellow,
            ">>",
            join3(" すでに最新バージョン (", v.as_str(), ") です。"),
        ),
        UpdateOutcome::Failed(e) => marked_line(
            Tone::Red,
            "!!",
            join2(" アップデート中にエラーが発生しました: ", e.as_str()),
        ),
    }
}

/// The arguments of `ping`; `windows` where the program runs on Windows,
/// whose `ping` takes the number of requests by another flag.
pub fn ping_arguments(windows: bool) -> (args: Vec<&'static str>)
    ensures
        args.deep_view() == ping_arguments_of(windows),
{
    let mut args: Vec<&'static str> = Vec::new();
    if windows {
        args.push("-n");
    } else {
        args.push("-c");
    }
    args.push(PING_COUNT);
    args.push(SERVER_HOST);
    args
}

/// The warning that a command is not recommended.
pub fn not_recommended() -> (line: Line)
    ensures
        line@ == seq![styled(Tone::Yellow, NOT_RECOMMENDED@)],
{
    Line::of(Span::new(Tone::Yellow, NOT_RECOMMENDED))
}

/// The warning that a feature is under development.
pub fn under_dev() -> (line: Line)
    ensures
        line@ == seq![styled(Tone::Yellow, UNDER_DEVELOPMENT@)],
{
    Line::of(Span::new(Tone::Yellow, UNDER_DEVELOPMENT))
}

/// The lines before `ping` runs.
pub fn ping_preamble() -> (lines: Vec<Line>)
    ensures
        lines.deep_view() == ping_preamble_of(),
{
    let mut lines: Vec<Line> = Vec::new();
    lines.push(not_recommended());
    lines.push(under_dev());
    lines.push(marked_line(Tone::Blue, ">>", join3(" ", SERVER_HOST, " へ Ping を送信中...")));
    lines
}

/// What is said of a `ping` that could not be started.
pub fn ping_start_error(reason: &str) -> (text: String)
    ensures
        text@ == ping_start_error_of(reason@),
{
    join2("外部コマンド 'ping' の実行に失敗しました。パスが通っているか確認してください: ", reason)
}

/// What is said of a run of `ping`, and on which stream. No failure of
/// `ping` is a failure of the program: one that could not be started is
/// reported on standard error with the reason, as is one that ran and
/// failed; the output of one that succeeded goes to standard output.
pub fn ping_report(run: &PingRun) -> (routed: Routed)
    ensures
        routed.line@ == ping_report_of(run@),
        routed.to_stderr == match run@ {
            PingRunModel::NotStarted(_) => true,
            PingRunModel::Finished(success, _, _) => !success,
        },
{
    match run {
        PingRun::NotStarted(reason) => Routed {
            line: marked_line(
                Tone::Red,
                "!!",
                join2(" ", ping_start_error(reason.as_str()).as_str()),
            ),
            to_stderr: true,
        },
        PingRun::Finished(output) => ping_line(output),
    }
}

/// The line for a finished `ping`. Its output goes to standard output; the
/// notice of a failed one goes to standard error, and is no failure of the
/// program.
pub fn ping_line(output: &PingOutput) -> (routed: Routed)
    ensures
        routed.line@ == ping_line_of(output.success, output.stdout@, output.stderr@),
        routed.to_stderr == !output.success,
{
    if output.success {
        Routed { line: Line::of(Span::plain(output.stdout.as_str())), to_stderr: false }
    } else {
        Routed {
            line: marked_line(
                Tone::Red,
                "!!",
                join2(" Pingに失敗しました: ", output.stderr.as_str()),
            ),
            to_stderr: true,
        }
    }
}

} // verus!
