//! Building a project: which command to run for which engine, what its
//! output says of errors and warnings, and what the build is reported as.
use crate::command::{Invocation, InvocationView, ProcessOutput};
use crate::number::{
    all_digits,
    count_leading_digits,
    digits_value,
    is_digit,
    leading_digits,
    read_digits,
};
use crate::path::{join, join_path, replace_extension, with_extension};
use crate::project::{load_outcome, ProjectConfig, ProjectConfigView, StoredConfig};
use crate::svc_file::{respond, ApiResponse};
use crate::text::{
    chars_of,
    clone_strings,
    contains,
    find,
    find_first,
    has_infix,
    has_prefix,
    joined,
    joined3,
    line_views,
    lines_of,
    option_view,
    same_text,
    split_lines,
    starts_with,
    string_of,
    string_views,
    strip_prefix,
    without_prefix,
};
use vstd::prelude::*;
use vstd::slice::slice_subrange;

verus! {

/// An error that a build reported.
#[derive(Debug, Clone)]
pub struct BuildError {
    pub file: Option<String>,
    pub line: Option<u32>,
    pub message: String,
}

/// A warning that a build reported.
#[derive(Debug, Clone)]
pub struct BuildWarning {
    pub file: Option<String>,
    pub line: Option<u32>,
    pub message: String,
}

/// What a [`BuildError`] or a [`BuildWarning`] holds: a message and, where it
/// could be recovered, the source file and the line in it, counted from 1.
pub struct Diagnostic {
    pub file: Option<Seq<char>>,
    pub line: Option<u32>,
    pub message: Seq<char>,
}

impl View for BuildError {
    type V = Diagnostic;

    open spec fn view(&self) -> Diagnostic {
        Diagnostic { file: option_view(self.file), line: self.line, message: self.message@ }
    }
}

impl View for BuildWarning {
    type V = Diagnostic;

    open spec fn view(&self) -> Diagnostic {
        Diagnostic { file: option_view(self.file), line: self.line, message: self.message@ }
    }
}

/// The views of the errors held in `v`.
pub open spec fn error_views(v: Seq<BuildError>) -> Seq<Diagnostic> {
    v.map_values(|e: BuildError| e@)
}

/// The views of the warnings held in `v`.
pub open spec fn warning_views(v: Seq<BuildWarning>) -> Seq<Diagnostic> {
    v.map_values(|w: BuildWarning| w@)
}

/// The diagnostic with the given message and no location.
pub open spec fn unlocated(message: Seq<char>) -> Diagnostic {
    Diagnostic { file: None, line: None, message }
}

// ---------------------------------------------------------------------------
// Diagnostics in what an engine printed
// ---------------------------------------------------------------------------
/// A printed line reports an error if it holds "error:" or "Error:".
pub open spec fn is_error_line(l: Seq<char>) -> bool {
    contains(l, "error:"@) || contains(l, "Error:"@)
}

/// A printed line reports a warning if it reports no error and holds
/// "warning:" or "Warning:".
pub open spec fn is_warning_line(l: Seq<char>) -> bool {
    !is_error_line(l) && (contains(l, "warning:"@) || contains(l, "Warning:"@))
}

/// The errors that the printed lines report, in their order.
pub open spec fn direct_errors(lines: Seq<Seq<char>>) -> Seq<Diagnostic> {
    lines.filter_map(
        |l: Seq<char>|
            if is_error_line(l) {
                Some(unlocated(l))
            } else {
                None
            },
    )
}

/// The warnings that the printed lines report, in their order.
pub open spec fn direct_warnings(lines: Seq<Seq<char>>) -> Seq<Diagnostic> {
    lines.filter_map(
        |l: Seq<char>|
            if is_warning_line(l) {
                Some(unlocated(l))
            } else {
                None
            },
    )
}

/// What an engine printed: its standard output, a line feed, its standard
/// error.
pub open spec fn combined(stdout: Seq<char>, stderr: Seq<char>) -> Seq<char> {
    stdout + seq!['\n'] + stderr
}

/// The errors and the warnings in what an engine printed. Each line that
/// reports one gives one diagnostic, with the whole line as its message and
/// no location.
pub fn parse_tectonic_output(stdout: &str, stderr: &str) -> (r: (
    Vec<BuildError>,
    Vec<BuildWarning>,
))
    ensures
        error_views(r.0@) == direct_errors(lines_of(combined(stdout@, stderr@))),
        warning_views(r.1@) == direct_warnings(lines_of(combined(stdout@, stderr@))),
{
    let mut text = chars_of(stdout);
    text.push('\n');
    let mut tail = chars_of(stderr);
    text.append(&mut tail);
    assert(text@ =~= combined(stdout@, stderr@));
    let lines = split_lines(text.as_slice());
    let error_lower = chars_of("error:");
    let error_upper = chars_of("Error:");
    let warning_lower = chars_of("warning:");
    let warning_upper = chars_of("Warning:");
    let mut errors: Vec<BuildError> = Vec::new();
    let mut warnings: Vec<BuildWarning> = Vec::new();
    let ghost all = line_views(lines@);
    let mut i: usize = 0;
    assert(all.take(0) =~= Seq::<Seq<char>>::empty());
    assert(error_views(errors@) =~= Seq::<Diagnostic>::empty());
    assert(warning_views(warnings@) =~= Seq::<Diagnostic>::empty());
    while i < lines.len()
        invariant
            i <= lines.len(),
            all == line_views(lines@),
            error_lower@ == "error:"@,
            error_upper@ == "Error:"@,
            warning_lower@ == "warning:"@,
            warning_upper@ == "Warning:"@,
            error_views(errors@) == direct_errors(all.take(i as int)),
            warning_views(warnings@) == direct_warnings(all.take(i as int)),
        decreases lines.len() - i,
    {
        let line = lines[i].as_slice();
        let ghost errors_before = error_views(errors@);
        let ghost warnings_before = warning_views(warnings@);
        proof {
            assert(all.take(i + 1).drop_last() =~= all.take(i as int));
            assert(all.take(i + 1).last() == line@);
        }
        if has_infix(line, error_lower.as_slice()) || has_infix(line, error_upper.as_slice()) {
            errors.push(BuildError { file: None, line: None, message: string_of(line) });
            assert(error_views(errors@) =~= errors_before + seq![unlocated(line@)]);
        } else if has_infix(line, warning_lower.as_slice()) || has_infix(
            line,
            warning_upper.as_slice(),
        ) {
            warnings.push(BuildWarning { file: None, line: None, message: string_of(line) });
            assert(warning_views(warnings@) =~= warnings_before + seq![unlocated(line@)]);
        }
        i = i + 1;
    }
    assert(all.take(all.len() as int) =~= all);
    (errors, warnings)
}

// ---------------------------------------------------------------------------
// Diagnostics in a build log
// ---------------------------------------------------------------------------
/// What follows the name of a source file where a log line gives a place in it.
pub open spec fn tex_mark() -> Seq<char> {
    ".tex:"@
}

/// The place that a log line gives: it holds ".tex:", and right after the
/// leftmost ".tex:" stand decimal digits that write a number within `u32`.
/// The file is the line up to and with that ".tex", without a leading "./";
/// the line number is that number.
pub open spec fn tex_location(line: Seq<char>) -> Option<(Seq<char>, u32)> {
    match find(line, tex_mark()) {
        None => None,
        Some(pos) => {
            let after = line.skip(pos + tex_mark().len());
            let digits = after.take(leading_digits(after) as int);
            if digits.len() > 0 && digits_value(digits) <= u32::MAX {
                Some(
                    (
                        strip_prefix(line.take(pos + tex_mark().len() - 1), "./"@),
                        digits_value(digits) as u32,
                    ),
                )
            } else {
                None
            }
        },
    }
}

/// The place given by the nearest of the `reach` lines before line `idx` that
/// gives one.
pub open spec fn location_before(lines: Seq<Seq<char>>, idx: int, reach: nat) -> Option<
    (Seq<char>, u32),
>
    decreases reach,
{
    if reach == 0 || idx <= 0 {
        None
    } else {
        match tex_location(lines[idx - 1]) {
            Some(place) => Some(place),
            None => location_before(lines, idx - 1, (reach - 1) as nat),
        }
    }
}

/// How many lines before an error are searched for its place.
pub open spec fn location_reach() -> nat {
    5
}

/// The leading digits of a text are digits.
proof fn lemma_leading_digits(s: Seq<char>)
    ensures
        leading_digits(s) <= s.len(),
        all_digits(s.take(leading_digits(s) as int)),
    decreases s.len(),
{
    if s.len() > 0 && is_digit(s[0]) {
        lemma_leading_digits(s.skip(1));
        let n = leading_digits(s);
        assert forall|i: int| 0 <= i < n implies is_digit(#[trigger] s.take(n as int)[i]) by {
            if i > 0 {
                assert(s.skip(1).take(n - 1)[i - 1] == s.take(n as int)[i]);
            }
        }
    }
}

/// The place that the line `line` gives, if it gives one.
pub fn locate_in_line(line: &[char]) -> (r: Option<(String, u32)>)
    ensures
        match tex_location(line@) {
            Some((file, number)) => r matches Some((f, n)) && f@ == file && n == number,
            None => r is None,
        },
{
    let mark = chars_of(".tex:");
    proof {
        reveal_strlit(".tex:");
    }
    match find_first(line, mark.as_slice()) {
        None => None,
        Some(pos) => {
            let end = line.len();
            let after = slice_subrange(line, pos + 5, end);
            assert(after@ =~= line@.skip(pos + tex_mark().len()));
            let count = count_leading_digits(after);
            if count == 0 {
                assert(after@.take(0).len() == 0);
                return None;
            }
            let digits = slice_subrange(after, 0, count);
            proof {
                lemma_leading_digits(after@);
                assert(digits@ =~= after@.take(leading_digits(after@) as int));
            }
            match read_digits(digits, 0xffff_ffff) {
                None => None,
                Some(value) => {
                    let head = slice_subrange(line, 0, pos + 4);
                    assert(head@ =~= line@.take(pos + tex_mark().len() - 1));
                    let dot_slash = chars_of("./");
                    let file = without_prefix(head, dot_slash.as_slice());
                    Some((string_of(file), value as u32))
                },
            }
        },
    }
}

/// The source file and the line number for the error on line `error_idx` of
/// `lines`: those of the nearest of the five lines before it that gives a
/// place; neither where none of them does.
pub fn extract_file_line(lines: &Vec<Vec<char>>, error_idx: usize) -> (r: (
    Option<String>,
    Option<u32>,
))
    requires
        error_idx <= lines.len(),
    ensures
        match location_before(line_views(lines@), error_idx as int, location_reach()) {
            Some((file, number)) => r.0 matches Some(f) && f@ == file && r.1 == Some(number),
            None => r.0 is None && r.1 is None,
        },
{
    let mut idx: usize = error_idx;
    let mut reach: usize = 5;
    let ghost all = line_views(lines@);
    while reach > 0 && idx > 0
        invariant
            idx <= error_idx <= lines.len(),
            reach <= 5,
            all == line_views(lines@),
            location_before(all, error_idx as int, location_reach()) == location_before(
                all,
                idx as int,
                reach as nat,
            ),
        decreases reach,
    {
        assert(all[idx - 1] == lines@[idx - 1]@);
        match locate_in_line(lines[idx - 1].as_slice()) {
            Some((file, number)) => {
                return (Some(file), Some(number));
            },
            None => {},
        }
        idx = idx - 1;
        reach = reach - 1;
    }
    (None, None)
}

/// What begins a log line that reports an error.
pub open spec fn error_marker() -> Seq<char> {
    "! "@
}

/// The error that line `i` of a log reports, if it reports one: the line
/// begins with "! ", the message is the line without its leading "! ", and
/// the place is the one that the lines before it give.
pub open spec fn log_error_at(lines: Seq<Seq<char>>, i: int) -> Option<Diagnostic> {
    if starts_with(lines[i], error_marker()) {
        let message = lines[i].skip(error_marker().len() as int);
        Some(
            match location_before(lines, i, location_reach()) {
                Some((file, number)) => Diagnostic {
                    file: Some(file),
                    line: Some(number),
                    message,
                },
                None => unlocated(message),
            },
        )
    } else {
        None
    }
}

/// The warning that line `i` of a log reports, if it reports one: the line
/// reports no error and holds "Warning:"; the message is the whole line.
pub open spec fn log_warning_at(lines: Seq<Seq<char>>, i: int) -> Option<Diagnostic> {
    if !starts_with(lines[i], error_marker()) && contains(lines[i], "Warning:"@) {
        Some(unlocated(lines[i]))
    } else {
        None
    }
}

/// The numbers from 0 up to `n`, without `n`.
pub open spec fn indices(n: nat) -> Seq<int> {
    Seq::new(n, |i: int| i)
}

/// The errors that the first `n` lines of a log report, in their order.
pub open spec fn log_errors(lines: Seq<Seq<char>>, n: nat) -> Seq<Diagnostic> {
    indices(n).filter_map(|i: int| log_error_at(lines, i))
}

/// The warnings that the first `n` lines of a log report, in their order.
pub open spec fn log_warnings(lines: Seq<Seq<char>>, n: nat) -> Seq<Diagnostic> {
    indices(n).filter_map(|i: int| log_warning_at(lines, i))
}

/// The errors and the warnings that the text of a build log reports.
pub fn parse_latex_log(content: &str) -> (r: (Vec<BuildError>, Vec<BuildWarning>))
    ensures
        error_views(r.0@) == log_errors(lines_of(content@), lines_of(content@).len()),
        warning_views(r.1@) == log_warnings(lines_of(content@), lines_of(content@).len()),
{
    let text = chars_of(content);
    let lines = split_lines(text.as_slice());
    let marker = chars_of("! ");
    let warning = chars_of("Warning:");
    let mut errors: Vec<BuildError> = Vec::new();
    let mut warnings: Vec<BuildWarning> = Vec::new();
    let ghost all = line_views(lines@);
    let mut i: usize = 0;
    assert(indices(0) =~= Seq::<int>::empty());
    assert(error_views(errors@) =~= Seq::<Diagnostic>::empty());
    assert(warning_views(warnings@) =~= Seq::<Diagnostic>::empty());
    while i < lines.len()
        invariant
            i <= lines.len(),
            all == line_views(lines@),
            marker@ == error_marker(),
            warning@ == "Warning:"@,
            error_views(errors@) == log_errors(all, i as nat),
            warning_views(warnings@) == log_warnings(all, i as nat),
        decreases lines.len() - i,
    {
        let line = lines[i].as_slice();
        let ghost errors_before = error_views(errors@);
        let ghost warnings_before = warning_views(warnings@);
        proof {
            assert(indices((i + 1) as nat).drop_last() =~= indices(i as nat));
            assert(indices((i + 1) as nat).last() == i);
            assert(all[i as int] == line@);
        }
        if has_prefix(line, marker.as_slice()) {
            let rest = slice_subrange(line, marker.len(), line.len());
            assert(rest@ =~= line@.skip(error_marker().len() as int));
            let message = string_of(rest);
            let (file, number) = extract_file_line(&lines, i);
            errors.push(BuildError { file, line: number, message });
            assert(error_views(errors@) =~= errors_before + seq![
                log_error_at(all, i as int).unwrap(),
            ]);
        } else if has_infix(line, warning.as_slice()) {
            warnings.push(BuildWarning { file: None, line: None, message: string_of(line) });
            assert(warning_views(warnings@) =~= warnings_before + seq![unlocated(line@)]);
        }
        i = i + 1;
    }
    (errors, warnings)
}


// ---------------------------------------------------------------------------
// Planning a build
// ---------------------------------------------------------------------------
/// The engines that can typeset a project.
#[derive(PartialEq, Eq, Structural, Clone, Copy, Debug)]
pub enum Engine {
    /// Prints its diagnostics; writes no log.
    Tectonic,
    /// Writes its diagnostics to a log beside the PDF.
    Latexmk,
}

/// The engine that a configuration names, if it names one.
pub open spec fn engine_of(engine_type: Seq<char>) -> Option<Engine> {
    if engine_type == "tectonic"@ {
        Some(Engine::Tectonic)
    } else if engine_type == "latexmk"@ {
        Some(Engine::Latexmk)
    } else {
        None
    }
}

/// The program that runs an engine.
pub open spec fn engine_program(engine: Engine) -> Seq<char> {
    match engine {
        Engine::Tectonic => "tectonic"@,
        Engine::Latexmk => "latexmk"@,
    }
}

/// The engine that `engine_type` names.
pub fn recognize_engine(engine_type: &str) -> (r: Option<Engine>)
    ensures
        r == engine_of(engine_type@),
{
    if same_text(engine_type, "tectonic") {
        Some(Engine::Tectonic)
    } else if same_text(engine_type, "latexmk") {
        Some(Engine::Latexmk)
    } else {
        None
    }
}

/// What a build is going to do, in this order: create the output directory,
/// run the command in the working directory, then look for the log, where
/// one is expected, and for the PDF.
#[derive(Debug, Clone)]
pub struct BuildPlan {
    pub engine: Engine,
    pub working_dir: String,
    pub out_dir: String,
    pub command: Invocation,
    pub pdf_path: String,
    pub log_path: Option<String>,
}

/// What a [`BuildPlan`] holds.
pub struct BuildPlanView {
    pub engine: Engine,
    pub working_dir: Seq<char>,
    pub out_dir: Seq<char>,
    pub command: InvocationView,
    pub pdf_path: Seq<char>,
    pub log_path: Option<Seq<char>>,
}

impl View for BuildPlan {
    type V = BuildPlanView;

    open spec fn view(&self) -> BuildPlanView {
        BuildPlanView {
            engine: self.engine,
            working_dir: self.working_dir@,
            out_dir: self.out_dir@,
            command: self.command@,
            pdf_path: self.pdf_path@,
            log_path: option_view(self.log_path),
        }
    }
}

/// `flag` where `on` holds, nothing otherwise.
pub open spec fn flag_if(on: bool, flag: Seq<char>) -> Seq<Seq<char>> {
    if on {
        seq![flag]
    } else {
        Seq::empty()
    }
}

/// The arguments of tectonic: the output directory, the SyncTeX flag where
/// SyncTeX is on, the entry file, then the extra arguments.
pub open spec fn tectonic_args(config: ProjectConfigView) -> Seq<Seq<char>> {
    seq!["--outdir="@ + config.compile.outdir] + flag_if(config.compile.synctex, "--synctex"@)
        + seq![config.main] + config.engine.args
}

/// The arguments of latexmk: PDF output without interaction, the SyncTeX flag
/// where SyncTeX is on, the shell-escape flag where shell escape is on, the
/// output directory, the entry file, then the extra arguments.
pub open spec fn latexmk_args(config: ProjectConfigView) -> Seq<Seq<char>> {
    seq!["-pdf"@, "-interaction=nonstopmode"@] + flag_if(config.compile.synctex, "-synctex=1"@)
        + flag_if(config.compile.shell_escape, "-shell-escape"@) + seq![
        "-outdir="@ + config.compile.outdir,
        config.main,
    ] + config.engine.args
}

/// The arguments of an engine.
pub open spec fn engine_args(engine: Engine, config: ProjectConfigView) -> Seq<Seq<char>> {
    match engine {
        Engine::Tectonic => tectonic_args(config),
        Engine::Latexmk => latexmk_args(config),
    }
}

/// The directory below `project_dir` that receives what a build writes.
pub open spec fn output_dir(project_dir: Seq<char>, config: ProjectConfigView) -> Seq<char> {
    join(project_dir, config.compile.outdir)
}

/// The file that a build of `config` is expected to leave in the output
/// directory, for the extension given: the entry file with that extension.
pub open spec fn artifact_path(
    project_dir: Seq<char>,
    config: ProjectConfigView,
    ext: Seq<char>,
) -> Seq<char> {
    join(output_dir(project_dir, config), with_extension(config.main, ext))
}

/// The plan of a build with `engine`: the engine runs in the project
/// directory, and the PDF is expected in the output directory under the name
/// of the entry file; only latexmk leaves a log there.
pub open spec fn plan_of(
    engine: Engine,
    project_dir: Seq<char>,
    config: ProjectConfigView,
) -> BuildPlanView {
    BuildPlanView {
        engine,
        working_dir: project_dir,
        out_dir: output_dir(project_dir, config),
        command: InvocationView {
            program: engine_program(engine),
            args: engine_args(engine, config),
        },
        pdf_path: artifact_path(project_dir, config, "pdf"@),
        log_path: match engine {
            Engine::Tectonic => None,
            Engine::Latexmk => Some(artifact_path(project_dir, config, "log"@)),
        },
    }
}

/// The path of the file with extension `ext` that a build leaves.
fn artifact(out_dir: &str, config: &ProjectConfig, ext: &str) -> (r: String)
    ensures
        r@ == join(out_dir@, with_extension(config@.main, ext@)),
{
    let name = replace_extension(config.main.as_str(), ext);
    join_path(out_dir, name.as_str())
}

/// The plan of a build with tectonic.
pub fn compile_with_tectonic(project_dir: &str, config: &ProjectConfig) -> (plan: BuildPlan)
    ensures
        plan@ == plan_of(Engine::Tectonic, project_dir@, config@),
{
    let out_dir = join_path(project_dir, config.compile.outdir.as_str());
    let mut args: Vec<String> = Vec::new();
    args.push(joined("--outdir=", config.compile.outdir.as_str()));
    if config.compile.synctex {
        args.push(String::from_str("--synctex"));
    }
    args.push(config.main.clone());
    let mut extra = clone_strings(&config.engine.args);
    args.append(&mut extra);
    assert(string_views(args@) =~= tectonic_args(config@));
    let pdf_path = artifact(out_dir.as_str(), config, "pdf");
    BuildPlan {
        engine: Engine::Tectonic,
        working_dir: String::from_str(project_dir),
        out_dir,
        command: Invocation { program: String::from_str("tectonic"), args },
        pdf_path,
        log_path: None,
    }
}

/// The plan of a build with latexmk.
pub fn compile_with_latexmk(project_dir: &str, config: &ProjectConfig) -> (plan: BuildPlan)
    ensures
        plan@ == plan_of(Engine::Latexmk, project_dir@, config@),
{
    let out_dir = join_path(project_dir, config.compile.outdir.as_str());
    let mut args: Vec<String> = Vec::new();
    args.push(String::from_str("-pdf"));
    args.push(String::from_str("-interaction=nonstopmode"));
    if config.compile.synctex {
        args.push(String::from_str("-synctex=1"));
    }
    if config.compile.shell_escape {
        args.push(String::from_str("-shell-escape"));
    }
    args.push(joined("-outdir=", config.compile.outdir.as_str()));
    args.push(config.main.clone());
    let mut extra = clone_strings(&config.engine.args);
    args.append(&mut extra);
    assert(string_views(args@) =~= latexmk_args(config@));
    let pdf_path = artifact(out_dir.as_str(), config, "pdf");
    let log_path = artifact(out_dir.as_str(), config, "log");
    BuildPlan {
        engine: Engine::Latexmk,
        working_dir: String::from_str(project_dir),
        out_dir,
        command: Invocation { program: String::from_str("latexmk"), args },
        pdf_path,
        log_path: Some(log_path),
    }
}

/// What a build request comes to, for what was found where the project keeps
/// its configuration: the report that the configuration could not be loaded,
/// the report that it names no known engine, or the plan of the build.
pub open spec fn build_request(project_dir: Seq<char>, stored: StoredConfig) -> Result<
    BuildPlanView,
    Seq<char>,
> {
    match load_outcome(stored) {
        Err(report) => Err("Failed to load project config: "@ + report),
        Ok(config) => match engine_of(config.engine.engine_type) {
            None => Err("Unknown engine type: "@ + config.engine.engine_type),
            Some(engine) => Ok(plan_of(engine, project_dir, config)),
        },
    }
}

/// Begins a build of the project in `project_dir`: loads its configuration
/// from what was found stored and plans the build with the engine that it
/// names. Nothing is planned, and so nothing run or written, for a
/// configuration that cannot be loaded or names no known engine.
pub fn build_compile(project_dir: &str, stored: StoredConfig) -> (r: Result<BuildPlan, String>)
    ensures
        match build_request(project_dir@, stored) {
            Ok(plan) => r matches Ok(p) && p@ == plan,
            Err(report) => r matches Err(m) && m@ == report,
        },
{
    let config = match ProjectConfig::load(stored) {
        Ok(config) => config,
        Err(report) => {
            return Err(joined("Failed to load project config: ", report.as_str()));
        },
    };
    match recognize_engine(config.engine.engine_type.as_str()) {
        Some(Engine::Tectonic) => Ok(compile_with_tectonic(project_dir, &config)),
        Some(Engine::Latexmk) => Ok(compile_with_latexmk(project_dir, &config)),
        None => Err(joined("Unknown engine type: ", config.engine.engine_type.as_str())),
    }
}

// ---------------------------------------------------------------------------
// Reporting a build
// ---------------------------------------------------------------------------
/// What a build came to.
#[derive(Debug, Clone)]
pub struct BuildResult {
    pub success: bool,
    pub pdf_path: Option<String>,
    pub log_path: Option<String>,
    pub errors: Vec<BuildError>,
    pub warnings: Vec<BuildWarning>,
    pub duration_ms: u128,
}

/// What a [`BuildResult`] holds.
pub struct BuildResultView {
    pub success: bool,
    pub pdf_path: Option<Seq<char>>,
    pub log_path: Option<Seq<char>>,
    pub errors: Seq<Diagnostic>,
    pub warnings: Seq<Diagnostic>,
    pub duration_ms: u128,
}

impl View for BuildResult {
    type V = BuildResultView;

    open spec fn view(&self) -> BuildResultView {
        BuildResultView {
            success: self.success,
            pdf_path: option_view(self.pdf_path),
            log_path: option_view(self.log_path),
            errors: error_views(self.errors@),
            warnings: warning_views(self.warnings@),
            duration_ms: self.duration_ms,
        }
    }
}

/// The report that the output directory could not be created.
pub open spec fn out_dir_failure(cause: Seq<char>) -> Seq<char> {
    "Failed to create output directory: "@ + cause
}

/// The report that an engine could not be started, with a hint at how to get
/// it.
pub open spec fn launch_failure(engine: Engine, cause: Seq<char>) -> Seq<char> {
    match engine {
        Engine::Tectonic => "Failed to execute tectonic: "@ + cause
            + ". Make sure tectonic is installed (brew install tectonic)."@,
        Engine::Latexmk => "Failed to execute latexmk: "@ + cause
            + ". Make sure latexmk is installed."@,
    }
}

/// The lines in which an engine reported its diagnostics: tectonic prints
/// them; latexmk writes them to its log, and reports none where the log is
/// missing or was not read.
pub open spec fn diagnostic_lines(
    engine: Engine,
    stdout: Seq<char>,
    stderr: Seq<char>,
    log_exists: bool,
    log_text: Option<Seq<char>>,
) -> Seq<Seq<char>> {
    match engine {
        Engine::Tectonic => lines_of(combined(stdout, stderr)),
        Engine::Latexmk => match log_text {
            Some(text) => if log_exists {
                lines_of(text)
            } else {
                Seq::empty()
            },
            None => Seq::empty(),
        },
    }
}

/// What a build that ran is reported as. It succeeded if the engine exited
/// with success and the PDF exists; the list of errors has no part in this.
/// The PDF and the log are named where they exist, and tectonic has no log.
pub open spec fn build_outcome(
    plan: BuildPlanView,
    exit_ok: bool,
    stdout: Seq<char>,
    stderr: Seq<char>,
    pdf_exists: bool,
    log_exists: bool,
    log_text: Option<Seq<char>>,
    elapsed_ms: u128,
) -> BuildResultView {
    let lines = diagnostic_lines(plan.engine, stdout, stderr, log_exists, log_text);
    BuildResultView {
        success: exit_ok && pdf_exists,
        pdf_path: if pdf_exists {
            Some(plan.pdf_path)
        } else {
            None
        },
        log_path: if log_exists && plan.engine == Engine::Latexmk {
            plan.log_path
        } else {
            None
        },
        errors: match plan.engine {
            Engine::Tectonic => direct_errors(lines),
            Engine::Latexmk => log_errors(lines, lines.len()),
        },
        warnings: match plan.engine {
            Engine::Tectonic => direct_warnings(lines),
            Engine::Latexmk => log_warnings(lines, lines.len()),
        },
        duration_ms: elapsed_ms,
    }
}

impl BuildPlan {
    /// The report that the output directory could not be created, for the
    /// cause given.
    pub fn out_dir_failed(&self, cause: &str) -> (r: String)
        ensures
            r@ == out_dir_failure(cause@),
    {
        joined("Failed to create output directory: ", cause)
    }

    /// The report that the engine could not be started, for the cause given.
    pub fn launch_failed(&self, cause: &str) -> (r: String)
        ensures
            r@ == launch_failure(self.engine, cause@),
    {
        match self.engine {
            Engine::Tectonic => joined3(
                "Failed to execute tectonic: ",
                cause,
                ". Make sure tectonic is installed (brew install tectonic).",
            ),
            Engine::Latexmk => joined3(
                "Failed to execute latexmk: ",
                cause,
                ". Make sure latexmk is installed.",
            ),
        }
    }

    /// The result of the build, once the engine has run: for what it left
    /// behind, whether the PDF and the log exist, the text of the log where it
    /// was read, and the time taken.
    pub fn finish(
        &self,
        output: &ProcessOutput,
        pdf_exists: bool,
        log_exists: bool,
        log_text: Option<&str>,
        elapsed_ms: u128,
    ) -> (r: BuildResult)
        ensures
            r@ == build_outcome(
                self@,
                output.success,
                output.stdout@,
                output.stderr@,
                pdf_exists,
                log_exists,
                match log_text {
                    Some(t) => Some(t@),
                    None => None,
                },
                elapsed_ms,
            ),
            r.success ==> r.pdf_path is Some,
    {
        let (errors, warnings) = match self.engine {
            Engine::Tectonic => parse_tectonic_output(
                output.stdout.as_str(),
                output.stderr.as_str(),
            ),
            Engine::Latexmk => match log_text {
                Some(text) => if log_exists {
                    parse_latex_log(text)
                } else {
                    no_diagnostics()
                },
                None => no_diagnostics(),
            },
        };
        let log_path = if log_exists && self.engine == Engine::Latexmk {
            clone_option(&self.log_path)
        } else {
            None
        };
        BuildResult {
            success: output.success && pdf_exists,
            pdf_path: if pdf_exists {
                Some(self.pdf_path.clone())
            } else {
                None
            },
            log_path,
            errors,
            warnings,
            duration_ms: elapsed_ms,
        }
    }
}

/// No errors and no warnings.
fn no_diagnostics() -> (r: (Vec<BuildError>, Vec<BuildWarning>))
    ensures
        error_views(r.0@) == Seq::<Diagnostic>::empty(),
        warning_views(r.1@) == Seq::<Diagnostic>::empty(),
        error_views(r.0@) == log_errors(Seq::empty(), 0),
        warning_views(r.1@) == log_warnings(Seq::empty(), 0),
{
    let errors: Vec<BuildError> = Vec::new();
    let warnings: Vec<BuildWarning> = Vec::new();
    assert(error_views(errors@) =~= Seq::<Diagnostic>::empty());
    assert(warning_views(warnings@) =~= Seq::<Diagnostic>::empty());
    assert(indices(0) =~= Seq::<int>::empty());
    (errors, warnings)
}

/// A copy of an optional string.
fn clone_option(s: &Option<String>) -> (r: Option<String>)
    ensures
        option_view(r) == option_view(*s),
{
    match s {
        Some(t) => Some(t.clone()),
        None => None,
    }
}

/// What a request to clean comes to: the report that the configuration could
/// not be loaded, or the output directory, which is to be removed if it is
/// there.
pub open spec fn clean_request(project_dir: Seq<char>, stored: StoredConfig) -> Result<
    Seq<char>,
    Seq<char>,
> {
    match load_outcome(stored) {
        Err(report) => Err("Failed to load project config: "@ + report),
        Ok(config) => Ok(output_dir(project_dir, config)),
    }
}

/// Begins cleaning the project in `project_dir`: names the directory to
/// remove, with all that it holds, if it is there.
pub fn build_clean(project_dir: &str, stored: StoredConfig) -> (r: Result<String, String>)
    ensures
        match clean_request(project_dir@, stored) {
            Ok(dir) => r matches Ok(d) && d@ == dir,
            Err(report) => r matches Err(m) && m@ == report,
        },
{
    match ProjectConfig::load(stored) {
        Ok(config) => Ok(join_path(project_dir, config.compile.outdir.as_str())),
        Err(report) => Err(joined("Failed to load project config: ", report.as_str())),
    }
}

/// The answer to cleaning: `removal` is `None` where the output directory was
/// not there, which is a success, and otherwise says how removing it went.
pub fn build_cleaned(removal: Option<Result<(), String>>) -> (r: ApiResponse<()>)
    ensures
        r.well_formed(),
        match removal {
            None => r.succeeded_with(()),
            Some(Ok(_)) => r.succeeded_with(()),
            Some(Err(cause)) => r.failed_with("Failed to clean output directory: "@ + cause@),
        },
{
    match removal {
        None => ApiResponse::success(()),
        Some(outcome) => respond(outcome, "Failed to clean output directory: "),
    }
}

/// The answer to a build request that came to `outcome`.
pub fn build_response(outcome: Result<BuildResult, String>) -> (r: ApiResponse<BuildResult>)
    ensures
        r.well_formed(),
        match outcome {
            Ok(result) => r.succeeded_with(result),
            Err(report) => r.failed_with(report@),
        },
{
    match outcome {
        Ok(result) => ApiResponse::success(result),
        Err(report) => ApiResponse::error(report),
    }
}

// ---------------------------------------------------------------------------
// Laws
// ---------------------------------------------------------------------------
/// What `filter_map` keeps of two sequences joined is what it keeps of each.
pub proof fn lemma_filter_map_add<A, B>(a: Seq<A>, b: Seq<A>, f: spec_fn(A) -> Option<B>)
    ensures
        (a + b).filter_map(f) == a.filter_map(f) + b.filter_map(f),
    decreases b.len(),
{
    if b.len() == 0 {
        assert(a + b =~= a);
        assert(a.filter_map(f) + b.filter_map(f) =~= a.filter_map(f));
    } else {
        lemma_filter_map_add(a, b.drop_last(), f);
        assert((a + b).drop_last() =~= a + b.drop_last());
        assert((a + b).last() == b.last());
        match f(b.last()) {
            Some(x) => {
                assert((a + b).filter_map(f) =~= a.filter_map(f) + b.filter_map(f));
            },
            None => {},
        }
    }
}

/// Diagnostics come in the order of the lines: what is read from two runs of
/// printed lines, one after the other, is what is read from the first
/// followed by what is read from the second.
pub proof fn lemma_direct_diagnostics_in_order(first: Seq<Seq<char>>, second: Seq<Seq<char>>)
    ensures
        direct_errors(first + second) == direct_errors(first) + direct_errors(second),
        direct_warnings(first + second) == direct_warnings(first) + direct_warnings(second),
{
    lemma_filter_map_add(
        first,
        second,
        |l: Seq<char>|
            if is_error_line(l) {
                Some(unlocated(l))
            } else {
                None
            },
    );
    lemma_filter_map_add(
        first,
        second,
        |l: Seq<char>|
            if is_warning_line(l) {
                Some(unlocated(l))
            } else {
                None
            },
    );
}

/// Diagnostics of a log come in the order of its lines: one more line adds
/// what it reports, if anything, after what was reported before it.
pub proof fn lemma_log_diagnostics_in_order(lines: Seq<Seq<char>>, n: nat)
    ensures
        log_errors(lines, n + 1) == log_errors(lines, n) + (match log_error_at(lines, n as int) {
            Some(d) => seq![d],
            None => Seq::empty(),
        }),
        log_warnings(lines, n + 1) == log_warnings(lines, n) + (match log_warning_at(
            lines,
            n as int,
        ) {
            Some(d) => seq![d],
            None => Seq::empty(),
        }),
{
    assert(indices(n + 1).drop_last() =~= indices(n));
    assert(indices(n + 1).last() == n);
    assert(log_errors(lines, n) + Seq::<Diagnostic>::empty() =~= log_errors(lines, n));
    assert(log_warnings(lines, n) + Seq::<Diagnostic>::empty() =~= log_warnings(lines, n));
}

/// The lines among the first `n` of a log that begin with "! ", in order.
pub open spec fn marked_lines(lines: Seq<Seq<char>>, n: nat) -> Seq<Seq<char>> {
    lines.take(n as int).filter(|l: Seq<char>| starts_with(l, error_marker()))
}

/// A log reports one error for each line that begins with "! ", in the order
/// of the lines, and the message of each is that line without its leading
/// "! ".
pub proof fn lemma_error_messages(lines: Seq<Seq<char>>, n: nat)
    requires
        n <= lines.len(),
    ensures
        log_errors(lines, n).len() == marked_lines(lines, n).len(),
        forall|k: int|
            0 <= k < marked_lines(lines, n).len() ==> (#[trigger] log_errors(lines, n)[k]).message
                == marked_lines(lines, n)[k].skip(error_marker().len() as int),
    decreases n,
{
    reveal(Seq::filter);
    if n > 0 {
        let m = (n - 1) as nat;
        lemma_error_messages(lines, m);
        assert(indices(n).drop_last() =~= indices(m));
        assert(indices(n).last() == m);
        assert(lines.take(n as int).drop_last() =~= lines.take(m as int));
        assert(lines.take(n as int).last() == lines[m as int]);
    } else {
        assert(indices(0) =~= Seq::<int>::empty());
        assert(lines.take(0) =~= Seq::<Seq<char>>::empty());
    }
}

/// A printed line that holds both "error:" and "warning:" is reported once,
/// as an error, wherever it stands in the output.
pub proof fn lemma_error_takes_priority(
    before: Seq<Seq<char>>,
    line: Seq<char>,
    after: Seq<Seq<char>>,
)
    requires
        contains(line, "error:"@),
        contains(line, "warning:"@),
    ensures
        direct_errors(before + seq![line] + after) == direct_errors(before) + seq![
            unlocated(line),
        ] + direct_errors(after),
        direct_warnings(before + seq![line] + after) == direct_warnings(before) + direct_warnings(
            after,
        ),
{
    let fe = |l: Seq<char>|
        if is_error_line(l) {
            Some(unlocated(l))
        } else {
            None
        };
    let fw = |l: Seq<char>|
        if is_warning_line(l) {
            Some(unlocated(l))
        } else {
            None
        };
    lemma_filter_map_add(before + seq![line], after, fe);
    lemma_filter_map_add(before, seq![line], fe);
    Seq::lemma_filter_map_singleton(line, fe);
    lemma_filter_map_add(before + seq![line], after, fw);
    lemma_filter_map_add(before, seq![line], fw);
    Seq::lemma_filter_map_singleton(line, fw);
    assert(direct_warnings(before) + Seq::<Diagnostic>::empty() =~= direct_warnings(before));
}

/// A build of a configuration that names no known engine is refused with a
/// report that names the engine asked for, and nothing is planned.
pub proof fn lemma_unknown_engine_plans_nothing(project_dir: Seq<char>, config: ProjectConfig)
    requires
        config@.engine.engine_type != "tectonic"@,
        config@.engine.engine_type != "latexmk"@,
    ensures
        build_request(project_dir, StoredConfig::Parsed(config)) == Err::<BuildPlanView, Seq<char>>(
            "Unknown engine type: "@ + config@.engine.engine_type,
        ),
{
}

/// A build is reported as a success exactly where the engine exited with
/// success and the PDF exists, whatever was reported as errors; and a build
/// that is reported as a success names its PDF.
pub proof fn lemma_success_is_exit_and_pdf(
    plan: BuildPlanView,
    exit_ok: bool,
    stdout: Seq<char>,
    stderr: Seq<char>,
    pdf_exists: bool,
    log_exists: bool,
    log_text: Option<Seq<char>>,
    elapsed_ms: u128,
)
    ensures
        ({
            let r = build_outcome(
                plan,
                exit_ok,
                stdout,
                stderr,
                pdf_exists,
                log_exists,
                log_text,
                elapsed_ms,
            );
            &&& r.success == (exit_ok && pdf_exists)
            &&& r.success ==> r.pdf_path == Some(plan.pdf_path)
            &&& r.pdf_path is Some <==> pdf_exists
        }),
{
}

/// The place of an error is the one given by the nearest line before it that
/// gives one, where that line is among the `reach` lines before the error.
pub proof fn lemma_location_nearest(lines: Seq<Seq<char>>, idx: int, reach: nat, gap: int)
    requires
        1 <= gap <= reach,
        gap <= idx,
        tex_location(lines[idx - gap]) is Some,
        forall|j: int| idx - gap < j < idx ==> tex_location(#[trigger] lines[j]) is None,
    ensures
        location_before(lines, idx, reach) == tex_location(lines[idx - gap]),
    decreases gap,
{
    if gap > 1 {
        assert(tex_location(lines[idx - 1]) is None);
        lemma_location_nearest(lines, idx - 1, (reach - 1) as nat, gap - 1);
    }
}

/// Where none of the `reach` lines before an error gives a place, the error
/// has none.
pub proof fn lemma_location_absent(lines: Seq<Seq<char>>, idx: int, reach: nat)
    requires
        forall|j: int|
            0 <= j < idx && idx - reach <= j ==> tex_location(#[trigger] lines[j]) is None,
    ensures
        location_before(lines, idx, reach) is None,
    decreases reach,
{
    if reach > 0 && idx > 0 {
        assert(tex_location(lines[idx - 1]) is None);
        lemma_location_absent(lines, idx - 1, (reach - 1) as nat);
    }
}

/// A log line that begins with "! ", with no place given in the five lines
/// before it, reports an error without file and without line number.
pub proof fn lemma_error_without_place(lines: Seq<Seq<char>>, idx: int)
    requires
        0 <= idx < lines.len(),
        starts_with(lines[idx], error_marker()),
        forall|j: int| 0 <= j < idx && idx - 5 <= j ==> tex_location(#[trigger] lines[j]) is None,
    ensures
        log_error_at(lines, idx) == Some(
            unlocated(lines[idx].skip(error_marker().len() as int)),
        ),
{
    lemma_location_absent(lines, idx, location_reach());
}

/// A log line that begins with "! ", with a place given at most five lines
/// before it and none in between, reports an error at that place.
pub proof fn lemma_error_with_place(lines: Seq<Seq<char>>, idx: int, gap: int)
    requires
        0 <= idx < lines.len(),
        starts_with(lines[idx], error_marker()),
        1 <= gap <= 5,
        gap <= idx,
        tex_location(lines[idx - gap]) is Some,
        forall|j: int| idx - gap < j < idx ==> tex_location(#[trigger] lines[j]) is None,
    ensures
        tex_location(lines[idx - gap]) matches Some((file, number)) && log_error_at(lines, idx)
            == Some(
            Diagnostic {
                file: Some(file),
                line: Some(number),
                message: lines[idx].skip(error_marker().len() as int),
            },
        ),
{
    lemma_location_nearest(lines, idx, location_reach(), gap);
}

} // verus!
