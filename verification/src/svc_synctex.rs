//! SyncTeX: which program answers a query, how a query is put to it, and what
//! its answer says.
use crate::command::{Invocation, InvocationView, ProcessOutput};
use crate::number::{decimal, format_i32, is_float_text, parse_i32, read_i32, writes_float};
use crate::svc_file::ApiResponse;
use crate::text::{
    chars_of,
    has_prefix,
    joined,
    line_views,
    lines_of,
    option_view,
    same_text,
    split_lines,
    starts_with,
    string_of,
    string_views,
    trim,
    trimmed,
};
use vstd::prelude::*;
use vstd::slice::slice_subrange;

verus! {

/// A place in a source file.
#[derive(Debug, Clone)]
pub struct SyncTexResult {
    pub file: String,
    pub line: i32,
    pub column: i32,
}

/// What a [`SyncTexResult`] holds.
pub struct SourcePlace {
    pub file: Seq<char>,
    pub line: i32,
    pub column: i32,
}

impl View for SyncTexResult {
    type V = SourcePlace;

    open spec fn view(&self) -> SourcePlace {
        SourcePlace { file: self.file@, line: self.line, column: self.column }
    }
}

/// A place in a PDF: the page, and each coordinate as the answer wrote it.
/// A coordinate that the answer did not give is `None` and stands for 0.
#[derive(Debug, Clone)]
pub struct SyncTexPdfPos {
    pub page: i32,
    pub x: Option<String>,
    pub y: Option<String>,
}

/// What a [`SyncTexPdfPos`] holds.
pub struct PdfPlace {
    pub page: i32,
    pub x: Option<Seq<char>>,
    pub y: Option<Seq<char>>,
}

impl View for SyncTexPdfPos {
    type V = PdfPlace;

    open spec fn view(&self) -> PdfPlace {
        PdfPlace { page: self.page, x: option_view(self.x), y: option_view(self.y) }
    }
}

// ---------------------------------------------------------------------------
// The program
// ---------------------------------------------------------------------------
/// The name under which the program is found on the search path.
pub open spec fn bare_name() -> Seq<char> {
    "synctex"@
}

/// Where the program is looked for, in this order.
pub open spec fn known_locations() -> Seq<Seq<char>> {
    seq![
        "synctex"@,
        "/opt/homebrew/bin/synctex"@,
        "/usr/local/bin/synctex"@,
        "/Library/TeX/texbin/synctex"@,
        "/usr/local/texlive/2025/bin/universal-darwin/synctex"@,
        "/usr/local/texlive/2024/bin/universal-darwin/synctex"@,
        "/usr/local/texlive/2023/bin/universal-darwin/synctex"@,
    ]
}

/// Where the program is looked for, in this order.
pub fn synctex_paths() -> (r: Vec<String>)
    ensures
        string_views(r@) == known_locations(),
{
    let mut r: Vec<String> = Vec::new();
    r.push(String::from_str("synctex"));
    r.push(String::from_str("/opt/homebrew/bin/synctex"));
    r.push(String::from_str("/usr/local/bin/synctex"));
    r.push(String::from_str("/Library/TeX/texbin/synctex"));
    r.push(String::from_str("/usr/local/texlive/2025/bin/universal-darwin/synctex"));
    r.push(String::from_str("/usr/local/texlive/2024/bin/universal-darwin/synctex"));
    r.push(String::from_str("/usr/local/texlive/2023/bin/universal-darwin/synctex"));
    assert(string_views(r@) =~= known_locations());
    r
}

/// Candidate `i` can be run: it is the bare name, which the search path
/// resolves, or it was found to exist. A candidate without a flag in
/// `present` counts as not found.
pub open spec fn usable(candidates: Seq<Seq<char>>, present: Seq<bool>, i: int) -> bool {
    0 <= i < candidates.len() && (candidates[i] == bare_name() || (i < present.len()
        && present[i]))
}

/// The first usable candidate from index `i` on.
pub open spec fn resolve_from(candidates: Seq<Seq<char>>, present: Seq<bool>, i: int) -> Option<
    int,
>
    decreases candidates.len() - i,
{
    if i < 0 || i >= candidates.len() {
        None
    } else if usable(candidates, present, i) {
        Some(i)
    } else {
        resolve_from(candidates, present, i + 1)
    }
}

/// The program to run: the first usable candidate.
pub open spec fn resolve(candidates: Seq<Seq<char>>, present: Seq<bool>) -> Option<Seq<char>> {
    match resolve_from(candidates, present, 0) {
        Some(i) => Some(candidates[i]),
        None => None,
    }
}

/// The program to run among `candidates`, where `present` says of each
/// whether it exists.
pub fn resolve_binary(candidates: &Vec<String>, present: &Vec<bool>) -> (r: Option<String>)
    ensures
        match resolve(string_views(candidates@), present@) {
            Some(program) => r matches Some(p) && p@ == program,
            None => r is None,
        },
{
    let ghost names = string_views(candidates@);
    let mut i: usize = 0;
    while i < candidates.len()
        invariant
            i <= candidates.len(),
            names == string_views(candidates@),
            resolve_from(names, present@, 0) == resolve_from(names, present@, i as int),
        decreases candidates.len() - i,
    {
        assert(names[i as int] == candidates@[i as int]@);
        let found = i < present.len() && present[i];
        if found || same_text(candidates[i].as_str(), "synctex") {
            return Some(candidates[i].clone());
        }
        i = i + 1;
    }
    None
}

/// The report that no candidate can be run.
pub open spec fn not_installed() -> Seq<char> {
    "SyncTeX not installed. Please install MacTeX or TeX Live."@
}

/// The report that the program could not be started, for the cause given.
pub fn synctex_launch_failed(cause: &str) -> (r: String)
    ensures
        r@ == "Failed to run synctex: "@ + cause@,
{
    joined("Failed to run synctex: ", cause)
}

// ---------------------------------------------------------------------------
// From a place in the PDF to the source
// ---------------------------------------------------------------------------
/// The question where in the source the point (`x`, `y`) of page `page` of
/// the PDF comes from. The coordinates are given as they are to be written.
pub open spec fn forward_query(page: i32, x: Seq<char>, y: Seq<char>, pdf_path: Seq<char>) -> Seq<
    char,
> {
    decimal(page as int) + seq![':'] + x + seq![':'] + y + seq![':'] + pdf_path
}

/// What asking for the source of a point of the PDF comes to: the report
/// that the program is not installed, or the command that asks.
pub open spec fn forward_request(
    candidates: Seq<Seq<char>>,
    present: Seq<bool>,
    pdf_path: Seq<char>,
    page: i32,
    x: Seq<char>,
    y: Seq<char>,
) -> Result<InvocationView, Seq<char>> {
    match resolve(candidates, present) {
        None => Err(not_installed()),
        Some(program) => Ok(
            InvocationView {
                program,
                args: seq!["view"@, "-i"@, forward_query(page, x, y, pdf_path)],
            },
        ),
    }
}

/// The command that asks where in the source a point of the PDF comes from.
pub fn synctex_forward_request(
    candidates: &Vec<String>,
    present: &Vec<bool>,
    pdf_path: &str,
    page: i32,
    x: &str,
    y: &str,
) -> (r: Result<Invocation, String>)
    ensures
        match forward_request(string_views(candidates@), present@, pdf_path@, page, x@, y@) {
            Ok(command) => r matches Ok(c) && c@ == command,
            Err(report) => r matches Err(m) && m@ == report,
        },
{
    match resolve_binary(candidates, present) {
        None => Err(String::from_str("SyncTeX not installed. Please install MacTeX or TeX Live.")),
        Some(program) => {
            let mut query = format_i32(page);
            query.push(':');
            query.append(x);
            query.push(':');
            query.append(y);
            query.push(':');
            query.append(pdf_path);
            assert(query@ =~= forward_query(page, x@, y@, pdf_path@));
            let mut args: Vec<String> = Vec::new();
            args.push(String::from_str("view"));
            args.push(String::from_str("-i"));
            args.push(query);
            assert(string_views(args@) =~= seq![
                "view"@,
                "-i"@,
                forward_query(page, x@, y@, pdf_path@),
            ]);
            Ok(Invocation { program, args })
        },
    }
}

/// The place known before any line of an answer is read.
pub open spec fn no_source_place() -> SourcePlace {
    SourcePlace { file: Seq::empty(), line: 0, column: 0 }
}

/// What follows `key` in a line `l` that begins with it.
pub open spec fn after_key(l: Seq<char>, key: Seq<char>) -> Seq<char> {
    l.skip(key.len() as int)
}

/// The place known after the line `l` of an answer, where `seen` was known
/// before it. A line that begins with "Output:" names the file, by what
/// follows; one that begins with "Line:" or "Column:" gives the line or the
/// column, where what follows writes a number, and changes nothing where it
/// does not.
pub open spec fn forward_step(seen: SourcePlace, l: Seq<char>) -> SourcePlace {
    if starts_with(l, "Output:"@) {
        SourcePlace { file: after_key(l, "Output:"@), line: seen.line, column: seen.column }
    } else if starts_with(l, "Line:"@) {
        match parse_i32(after_key(l, "Line:"@)) {
            Some(n) => SourcePlace { file: seen.file, line: n, column: seen.column },
            None => seen,
        }
    } else if starts_with(l, "Column:"@) {
        match parse_i32(after_key(l, "Column:"@)) {
            Some(n) => SourcePlace { file: seen.file, line: seen.line, column: n },
            None => seen,
        }
    } else {
        seen
    }
}

/// The place that the lines of an answer give: each line in turn, a later
/// one replacing what an earlier one gave.
pub open spec fn forward_scan(lines: Seq<Seq<char>>) -> SourcePlace {
    lines.fold_left(no_source_place(), |seen: SourcePlace, l: Seq<char>| forward_step(seen, l))
}

/// What is answered for what the program left behind: the report of its
/// failure with what it printed as errors, the report that its answer names
/// no file, or the place that its answer gives.
pub open spec fn forward_answer(exit_ok: bool, stdout: Seq<char>, stderr: Seq<char>) -> Result<
    SourcePlace,
    Seq<char>,
> {
    if !exit_ok {
        Err("Synctex command failed: "@ + stderr)
    } else if forward_scan(lines_of(stdout)).file.len() == 0 {
        Err("Could not find source location"@)
    } else {
        Ok(forward_scan(lines_of(stdout)))
    }
}

/// What follows `key` at the start of `line`.
fn after_prefix<'a>(line: &'a [char], key: &[char]) -> (r: &'a [char])
    requires
        starts_with(line@, key@),
    ensures
        r@ == after_key(line@, key@),
{
    let r = slice_subrange(line, key.len(), line.len());
    assert(r@ =~= line@.skip(key@.len() as int));
    r
}

/// The answer to asking where in the source a point of the PDF comes from,
/// for what the program left behind.
pub fn synctex_forward(output: &ProcessOutput) -> (r: ApiResponse<SyncTexResult>)
    ensures
        r.well_formed(),
        match forward_answer(output.success, output.stdout@, output.stderr@) {
            Ok(place) => r.data matches Some(d) && d@ == place && r.ok && r.error is None,
            Err(report) => r.failed_with(report),
        },
{
    if !output.success {
        return ApiResponse::error(joined("Synctex command failed: ", output.stderr.as_str()));
    }
    let text = chars_of(output.stdout.as_str());
    let lines = split_lines(text.as_slice());
    let output_key = chars_of("Output:");
    let line_key = chars_of("Line:");
    let column_key = chars_of("Column:");
    let mut file: Vec<char> = Vec::new();
    let mut line: i32 = 0;
    let mut column: i32 = 0;
    let ghost all = line_views(lines@);
    let ghost step = |seen: SourcePlace, l: Seq<char>| forward_step(seen, l);
    let mut i: usize = 0;
    assert(all.take(0) =~= Seq::<Seq<char>>::empty());
    while i < lines.len()
        invariant
            i <= lines.len(),
            all == line_views(lines@),
            output_key@ == "Output:"@,
            line_key@ == "Line:"@,
            column_key@ == "Column:"@,
            step == |seen: SourcePlace, l: Seq<char>| forward_step(seen, l),
            all.take(i as int).fold_left(no_source_place(), step) == (SourcePlace {
                file: file@,
                line,
                column,
            }),
        decreases lines.len() - i,
    {
        let l = lines[i].as_slice();
        proof {
            assert(all.take(i + 1).drop_last() =~= all.take(i as int));
            assert(all.take(i + 1).last() == l@);
        }
        if has_prefix(l, output_key.as_slice()) {
            file = crate::text::to_vec(after_prefix(l, output_key.as_slice()));
        } else if has_prefix(l, line_key.as_slice()) {
            match read_i32(after_prefix(l, line_key.as_slice())) {
                Some(n) => {
                    line = n;
                },
                None => {},
            }
        } else if has_prefix(l, column_key.as_slice()) {
            match read_i32(after_prefix(l, column_key.as_slice())) {
                Some(n) => {
                    column = n;
                },
                None => {},
            }
        }
        i = i + 1;
    }
    assert(all.take(all.len() as int) =~= all);
    if file.len() == 0 {
        return ApiResponse::error(String::from_str("Could not find source location"));
    }
    ApiResponse::success(SyncTexResult { file: string_of(file.as_slice()), line, column })
}

// ---------------------------------------------------------------------------
// From a place in the source to the PDF
// ---------------------------------------------------------------------------
/// The question where in the PDF column `column` of line `line` of the
/// source file ends up.
pub open spec fn backward_query(line: i32, column: i32, source_path: Seq<char>) -> Seq<char> {
    decimal(line as int) + seq![':'] + decimal(column as int) + seq![':'] + source_path
}

/// What asking for the place of a source line in the PDF comes to: the
/// report that the program is not installed, or the command that asks.
pub open spec fn backward_request(
    candidates: Seq<Seq<char>>,
    present: Seq<bool>,
    source_path: Seq<char>,
    line: i32,
    column: i32,
    pdf_path: Seq<char>,
) -> Result<InvocationView, Seq<char>> {
    match resolve(candidates, present) {
        None => Err(not_installed()),
        Some(program) => Ok(
            InvocationView {
                program,
                args: seq![
                    "view"@,
                    "-i"@,
                    backward_query(line, column, source_path),
                    "-o"@,
                    pdf_path,
                ],
            },
        ),
    }
}

/// The command that asks where in the PDF a place of the source ends up.
pub fn synctex_backward_request(
    candidates: &Vec<String>,
    present: &Vec<bool>,
    source_path: &str,
    line: i32,
    column: i32,
    pdf_path: &str,
) -> (r: Result<Invocation, String>)
    ensures
        match backward_request(
            string_views(candidates@),
            present@,
            source_path@,
            line,
            column,
            pdf_path@,
        ) {
            Ok(command) => r matches Ok(c) && c@ == command,
            Err(report) => r matches Err(m) && m@ == report,
        },
{
    match resolve_binary(candidates, present) {
        None => Err(String::from_str("SyncTeX not installed. Please install MacTeX or TeX Live.")),
        Some(program) => {
            let mut query = format_i32(line);
            query.push(':');
            let column_text = format_i32(column);
            query.append(column_text.as_str());
            query.push(':');
            query.append(source_path);
            assert(query@ =~= backward_query(line, column, source_path@));
            let mut args: Vec<String> = Vec::new();
            args.push(String::from_str("view"));
            args.push(String::from_str("-i"));
            args.push(query);
            args.push(String::from_str("-o"));
            args.push(String::from_str(pdf_path));
            assert(string_views(args@) =~= seq![
                "view"@,
                "-i"@,
                backward_query(line, column, source_path@),
                "-o"@,
                pdf_path@,
            ]);
            Ok(Invocation { program, args })
        },
    }
}

/// The place known before any line of an answer is read: the first page,
/// and neither coordinate.
pub open spec fn no_pdf_place() -> PdfPlace {
    PdfPlace { page: 1, x: None, y: None }
}

/// What follows `key` in `l`, without white space at either end.
pub open spec fn value_after(l: Seq<char>, key: Seq<char>) -> Seq<char> {
    trim(after_key(l, key))
}

/// The place known after the line `l` of an answer, where `seen` was known
/// before it. A line that begins with "Page:" gives the page, one that begins
/// with "x:" or "y:" gives that coordinate, each where what follows writes a
/// number; a line changes nothing where it does not.
pub open spec fn backward_step(seen: PdfPlace, l: Seq<char>) -> PdfPlace {
    if starts_with(l, "Page:"@) {
        match parse_i32(value_after(l, "Page:"@)) {
            Some(n) => PdfPlace { page: n, x: seen.x, y: seen.y },
            None => seen,
        }
    } else if starts_with(l, "x:"@) {
        if writes_float(value_after(l, "x:"@)) {
            PdfPlace { page: seen.page, x: Some(value_after(l, "x:"@)), y: seen.y }
        } else {
            seen
        }
    } else if starts_with(l, "y:"@) {
        if writes_float(value_after(l, "y:"@)) {
            PdfPlace { page: seen.page, x: seen.x, y: Some(value_after(l, "y:"@)) }
        } else {
            seen
        }
    } else {
        seen
    }
}

/// The place that the lines of an answer give.
pub open spec fn backward_scan(lines: Seq<Seq<char>>) -> PdfPlace {
    lines.fold_left(no_pdf_place(), |seen: PdfPlace, l: Seq<char>| backward_step(seen, l))
}

/// What is answered for what the program left behind: the report of its
/// failure with what it printed as errors, or the place that its answer
/// gives.
pub open spec fn backward_answer(exit_ok: bool, stdout: Seq<char>, stderr: Seq<char>) -> Result<
    PdfPlace,
    Seq<char>,
> {
    if !exit_ok {
        Err("Synctex command failed: "@ + stderr)
    } else {
        Ok(backward_scan(lines_of(stdout)))
    }
}

/// What follows `key` at the start of `line`, trimmed.
fn trimmed_value<'a>(line: &'a [char], key: &[char]) -> (r: &'a [char])
    requires
        starts_with(line@, key@),
    ensures
        r@ == value_after(line@, key@),
{
    trimmed(after_prefix(line, key))
}

/// The answer to asking where in the PDF a place of the source ends up, for
/// what the program left behind.
pub fn synctex_backward(output: &ProcessOutput) -> (r: ApiResponse<SyncTexPdfPos>)
    ensures
        r.well_formed(),
        match backward_answer(output.success, output.stdout@, output.stderr@) {
            Ok(place) => r.data matches Some(d) && d@ == place && r.ok && r.error is None,
            Err(report) => r.failed_with(report),
        },
{
    if !output.success {
        return ApiResponse::error(joined("Synctex command failed: ", output.stderr.as_str()));
    }
    let text = chars_of(output.stdout.as_str());
    let lines = split_lines(text.as_slice());
    let page_key = chars_of("Page:");
    let x_key = chars_of("x:");
    let y_key = chars_of("y:");
    let mut page: i32 = 1;
    let mut x: Option<String> = None;
    let mut y: Option<String> = None;
    let ghost all = line_views(lines@);
    let ghost step = |seen: PdfPlace, l: Seq<char>| backward_step(seen, l);
    let mut i: usize = 0;
    assert(all.take(0) =~= Seq::<Seq<char>>::empty());
    while i < lines.len()
        invariant
            i <= lines.len(),
            all == line_views(lines@),
            page_key@ == "Page:"@,
            x_key@ == "x:"@,
            y_key@ == "y:"@,
            step == |seen: PdfPlace, l: Seq<char>| backward_step(seen, l),
            all.take(i as int).fold_left(no_pdf_place(), step) == (PdfPlace {
                page,
                x: option_view(x),
                y: option_view(y),
            }),
        decreases lines.len() - i,
    {
        let l = lines[i].as_slice();
        proof {
            assert(all.take(i + 1).drop_last() =~= all.take(i as int));
            assert(all.take(i + 1).last() == l@);
        }
        if has_prefix(l, page_key.as_slice()) {
            match read_i32(trimmed_value(l, page_key.as_slice())) {
                Some(n) => {
                    page = n;
                },
                None => {},
            }
        } else if has_prefix(l, x_key.as_slice()) {
            let value = trimmed_value(l, x_key.as_slice());
            if is_float_text(value) {
                x = Some(string_of(value));
            }
        } else if has_prefix(l, y_key.as_slice()) {
            let value = trimmed_value(l, y_key.as_slice());
            if is_float_text(value) {
                y = Some(string_of(value));
            }
        }
        i = i + 1;
    }
    assert(all.take(all.len() as int) =~= all);
    ApiResponse::success(SyncTexPdfPos { page, x, y })
}

// ---------------------------------------------------------------------------
// Laws
// ---------------------------------------------------------------------------
/// The program that is resolved is the first usable candidate, and none is
/// resolved exactly where no candidate is usable.
pub proof fn lemma_resolve_first(candidates: Seq<Seq<char>>, present: Seq<bool>, from: int)
    requires
        0 <= from,
    ensures
        match resolve_from(candidates, present, from) {
            Some(i) => from <= i && usable(candidates, present, i) && forall|j: int|
                from <= j < i ==> !usable(candidates, present, j),
            None => forall|j: int| from <= j ==> !usable(candidates, present, j),
        },
    decreases candidates.len() - from,
{
    if from < candidates.len() && !usable(candidates, present, from) {
        lemma_resolve_first(candidates, present, from + 1);
    }
}

/// Among the known locations the bare name comes first, so whatever exists,
/// the program that is run is "synctex" as the search path resolves it.
pub proof fn lemma_known_locations_resolve(present: Seq<bool>)
    ensures
        resolve(known_locations(), present) == Some(bare_name()),
{
    assert(usable(known_locations(), present, 0));
}

/// A coordinate that an answer gives writes a number.
pub proof fn lemma_coordinates_write_numbers(lines: Seq<Seq<char>>)
    ensures
        backward_scan(lines).x matches Some(x) ==> writes_float(x),
        backward_scan(lines).y matches Some(y) ==> writes_float(y),
    decreases lines.len(),
{
    if lines.len() > 0 {
        lemma_coordinates_write_numbers(lines.drop_last());
    }
}

/// An answer without a line that begins with "Output:" names no file.
pub proof fn lemma_scan_without_output(lines: Seq<Seq<char>>)
    requires
        forall|i: int| 0 <= i < lines.len() ==> !starts_with(#[trigger] lines[i], "Output:"@),
    ensures
        forward_scan(lines).file.len() == 0,
    decreases lines.len(),
{
    if lines.len() > 0 {
        lemma_scan_without_output(lines.drop_last());
        assert(!starts_with(lines[lines.len() - 1], "Output:"@));
    }
}

/// Where the program ran with success and its answer has no line that
/// begins with "Output:", the source location is reported as not found.
pub proof fn lemma_no_output_no_location(stdout: Seq<char>, stderr: Seq<char>)
    requires
        forall|i: int|
            0 <= i < lines_of(stdout).len() ==> !starts_with(
                #[trigger] lines_of(stdout)[i],
                "Output:"@,
            ),
    ensures
        forward_answer(true, stdout, stderr) == Err::<SourcePlace, Seq<char>>(
            "Could not find source location"@,
        ),
{
    lemma_scan_without_output(lines_of(stdout));
}

} // verus!
