//! Tables of jobs and of variables, built as `comfy_table` tables.

use vstd::prelude::*;
use vstd::string::StringExecFns;
use crate::records::{Job, Status, Variable};
use crate::style::Tint;
use crate::text::{lines_of, same_text, signed_decimal, signed_decimal_text, texts};

verus! {

/// A table as `comfy_table` holds it.
#[verifier::external_type_specification]
#[verifier::external_body]
pub struct ExTable(comfy_table::Table);

/// A cell of a table as `comfy_table` holds it.
#[verifier::external_type_specification]
#[verifier::external_body]
pub struct ExCell(comfy_table::Cell);

/// What a cell shows: its text, the colour of the text if it has one, and
/// whether the text is bold.
pub struct CellLook {
    pub text: Seq<char>,
    pub tint: Option<Tint>,
    pub bold: bool,
}

/// What a table shows: its header row if it has one, its rows from the top
/// down, the characters that draw its frame, whether the widths of its
/// columns follow the width of the terminal, and whether it is plain: no
/// column of it is hidden or held to a width, and no row of it is held to
/// a height.
pub struct TableLook {
    pub header: Option<Seq<CellLook>>,
    pub rows: Seq<Seq<CellLook>>,
    pub frame: Seq<char>,
    pub dynamic: bool,
    pub plain: bool,
}

/// What `cell` shows.
pub uninterp spec fn cell_look(cell: comfy_table::Cell) -> CellLook;

/// What `table` shows.
pub uninterp spec fn table_look(table: comfy_table::Table) -> TableLook;

/// What each cell of `cells` shows.
pub open spec fn cell_looks(cells: Seq<comfy_table::Cell>) -> Seq<CellLook> {
    cells.map_values(|cell: comfy_table::Cell| cell_look(cell))
}

/// The frame of solid lines.
pub open spec fn full_frame() -> Seq<char> {
    "││──╞═╪╡┆╌┼├┤┬┴┌┐└┘"@
}

/// Trusted: `comfy_table::Cell::new` makes a cell of the text, without
/// colour and without attributes.
#[verifier::external_body]
fn new_cell(text: &str) -> (cell: comfy_table::Cell)
    ensures
        cell_look(cell) == (CellLook { text: text@, tint: None, bold: false }),
{
    comfy_table::Cell::new(text)
}

/// Trusted: `comfy_table::Cell::fg` sets the colour of the cell's text and
/// leaves the rest of the cell.
#[verifier::external_body]
fn cell_with_tint(cell: comfy_table::Cell, tint: Tint) -> (out: comfy_table::Cell)
    ensures
        cell_look(out) == (CellLook {
            text: cell_look(cell).text,
            tint: Some(tint),
            bold: cell_look(cell).bold,
        }),
{
    cell.fg(
        match tint {
            Tint::Red => comfy_table::Color::Red,
            Tint::Yellow => comfy_table::Color::Yellow,
            Tint::Green => comfy_table::Color::Green,
        },
    )
}

/// Trusted: `comfy_table::Cell::add_attribute` with `Attribute::Bold` makes
/// the cell's text bold and leaves the rest of the cell.
#[verifier::external_body]
fn cell_in_bold(cell: comfy_table::Cell) -> (out: comfy_table::Cell)
    ensures
        cell_look(out) == (CellLook {
            text: cell_look(cell).text,
            tint: cell_look(cell).tint,
            bold: true,
        }),
{
    cell.add_attribute(comfy_table::Attribute::Bold)
}

/// Trusted: `comfy_table::Table::new` makes a table without header, without
/// rows and without columns, whose columns will not follow the terminal.
#[verifier::external_body]
fn new_table() -> (table: comfy_table::Table)
    ensures
        table_look(table).header is None,
        table_look(table).rows == Seq::<Seq<CellLook>>::empty(),
        !table_look(table).dynamic,
        table_look(table).plain,
{
    comfy_table::Table::new()
}

/// Trusted: `comfy_table::Table::load_preset` with the preset `UTF8_FULL`
/// gives the table the frame of solid lines and leaves its cells.
#[verifier::external_body]
fn frame_table(table: &mut comfy_table::Table)
    ensures
        table_look(*final(table)) == (TableLook {
            header: table_look(*old(table)).header,
            rows: table_look(*old(table)).rows,
            frame: full_frame(),
            dynamic: table_look(*old(table)).dynamic,
            plain: table_look(*old(table)).plain,
        }),
{
    table.load_preset(comfy_table::presets::UTF8_FULL);
}

/// Trusted: `comfy_table::Table::set_content_arrangement` with
/// `ContentArrangement::Dynamic` makes the columns follow the terminal and
/// leaves the rest of the table.
#[verifier::external_body]
fn arrange_dynamically(table: &mut comfy_table::Table)
    ensures
        table_look(*final(table)) == (TableLook {
            header: table_look(*old(table)).header,
            rows: table_look(*old(table)).rows,
            frame: table_look(*old(table)).frame,
            dynamic: true,
            plain: table_look(*old(table)).plain,
        }),
{
    table.set_content_arrangement(comfy_table::ContentArrangement::Dynamic);
}

/// Trusted: `comfy_table::Table::set_header` makes the cells the header row
/// and leaves the rest of the table; a column that it adds is not hidden
/// and not held to a width.
#[verifier::external_body]
fn set_header(table: &mut comfy_table::Table, cells: Vec<comfy_table::Cell>)
    ensures
        table_look(*final(table)) == (TableLook {
            header: Some(cell_looks(cells@)),
            rows: table_look(*old(table)).rows,
            frame: table_look(*old(table)).frame,
            dynamic: table_look(*old(table)).dynamic,
            plain: table_look(*old(table)).plain,
        }),
{
    table.set_header(cells);
}

/// Trusted: `comfy_table::Table::add_row` puts the cells below the rows
/// that the table has, as one more row, and leaves the rest of the table;
/// the row is not held to a height, and a column that it adds is not
/// hidden and not held to a width.
#[verifier::external_body]
fn add_row(table: &mut comfy_table::Table, cells: Vec<comfy_table::Cell>)
    ensures
        table_look(*final(table)) == (TableLook {
            header: table_look(*old(table)).header,
            rows: table_look(*old(table)).rows.push(cell_looks(cells@)),
            frame: table_look(*old(table)).frame,
            dynamic: table_look(*old(table)).dynamic,
            plain: table_look(*old(table)).plain,
        }),
{
    table.add_row(cells);
}

/// The table as text.
///
/// Trusted: the `Display` of `comfy_table::Table`. A row that is held to no
/// height at all cannot be drawn, so the table is to be plain. Most of what
/// is written depends on the terminal. Of a table in the frame of solid
/// lines this much is written on any terminal: the top border first and
/// the bottom border last; and of one with a header, one line under the
/// header and one line between every two rows, whatever the cells hold.
/// Every line begins with a character of the frame, which tells what line
/// it is.
#[verifier::external_body]
pub(crate) fn table_text(table: &comfy_table::Table) -> (shown: String)
    requires
        table_look(*table).plain,
    ensures
        table_look(*table).frame == full_frame() ==> framed(shown@),
        table_look(*table).frame == full_frame() && table_look(*table).header is Some ==> ruled(
            shown@,
            table_look(*table).rows.len(),
        ),
{
    table.to_string()
}

/// A cell of a table before it is drawn.
#[derive(Debug, Clone, PartialEq, Eq)]
pub struct TableCell {
    pub text: String,
    pub tint: Option<Tint>,
    pub bold: bool,
}

impl View for TableCell {
    type V = CellLook;

    open spec fn view(&self) -> CellLook {
        CellLook { text: self.text@, tint: self.tint, bold: self.bold }
    }
}

/// What each cell of `cells` shows.
pub open spec fn row_look(cells: Seq<TableCell>) -> Seq<CellLook> {
    cells.map_values(|cell: TableCell| cell@)
}

/// What each cell of each row of `rows` shows.
pub open spec fn rows_look(rows: Seq<Vec<TableCell>>) -> Seq<Seq<CellLook>> {
    rows.map_values(|row: Vec<TableCell>| row_look(row@))
}

/// A header row of the names `names`: bold, without colour.
pub open spec fn header_look(names: Seq<Seq<char>>) -> Seq<CellLook> {
    names.map_values(|name: Seq<char>| CellLook { text: name, tint: None, bold: true })
}

/// The cell of `comfy_table` that shows what `cell` shows.
fn to_cell(cell: &TableCell) -> (out: comfy_table::Cell)
    ensures
        cell_look(out) == cell@,
{
    let plain = new_cell(cell.text.as_str());
    let tinted = match cell.tint {
        Some(tint) => cell_with_tint(plain, tint),
        None => plain,
    };
    if cell.bold {
        cell_in_bold(tinted)
    } else {
        tinted
    }
}

fn to_cells(cells: &Vec<TableCell>) -> (out: Vec<comfy_table::Cell>)
    ensures
        cell_looks(out@) == row_look(cells@),
{
    let mut out: Vec<comfy_table::Cell> = Vec::new();
    let mut i: usize = 0;
    while i < cells.len()
        invariant
            i <= cells.len(),
            out@.len() == i,
            forall|k: int| 0 <= k < i ==> cell_look(#[trigger] out@[k]) == cells@[k]@,
        decreases cells.len() - i,
    {
        out.push(to_cell(&cells[i]));
        i += 1;
    }
    assert(cell_looks(out@) =~= row_look(cells@));
    out
}

fn header_cells(names: &Vec<String>) -> (out: Vec<comfy_table::Cell>)
    ensures
        cell_looks(out@) == header_look(texts(names@)),
{
    let mut out: Vec<comfy_table::Cell> = Vec::new();
    let mut i: usize = 0;
    while i < names.len()
        invariant
            i <= names.len(),
            out@.len() == i,
            forall|k: int|
                0 <= k < i ==> cell_look(#[trigger] out@[k]) == (CellLook {
                    text: names@[k]@,
                    tint: None,
                    bold: true,
                }),
        decreases names.len() - i,
    {
        out.push(cell_in_bold(new_cell(names[i].as_str())));
        i += 1;
    }
    assert(cell_looks(out@) =~= header_look(texts(names@)));
    out
}

/// Whether every row of `rows` has `width` cells.
pub open spec fn rows_fit(rows: Seq<Vec<TableCell>>, width: nat) -> bool {
    forall|i: int| 0 <= i < rows.len() ==> (#[trigger] rows[i]).len() == width
}

/// Builds a table in the frame of solid lines: a bold header row of the
/// names `names`, then the rows `rows` from the top down.
///
/// Every row has as many cells as there are names; a caller that hands over
/// a row of another width has made a mistake, and no such call verifies.
pub fn make_table(names: &Vec<String>, rows: &Vec<Vec<TableCell>>, dynamic: bool) -> (table:
    comfy_table::Table)
    requires
        rows_fit(rows@, names@.len()),
    ensures
        table_look(table) == (TableLook {
            header: Some(header_look(texts(names@))),
            rows: rows_look(rows@),
            frame: full_frame(),
            dynamic: dynamic,
            plain: true,
        }),
{
    let mut table = new_table();
    frame_table(&mut table);
    if dynamic {
        arrange_dynamically(&mut table);
    }
    set_header(&mut table, header_cells(names));
    let mut i: usize = 0;
    while i < rows.len()
        invariant
            i <= rows.len(),
            table_look(table).header == Some(header_look(texts(names@))),
            table_look(table).rows.len() == i,
            forall|k: int|
                0 <= k < i ==> #[trigger] table_look(table).rows[k] == row_look(rows@[k]@),
            table_look(table).frame == full_frame(),
            table_look(table).dynamic == dynamic,
            table_look(table).plain,
        decreases rows.len() - i,
    {
        add_row(&mut table, to_cells(&rows[i]));
        i += 1;
    }
    assert(table_look(table).rows =~= rows_look(rows@));
    table
}

/// Draws the table that `make_table` builds of `names` and `rows`: between
/// its top and its bottom border the header, the line under it, and the
/// rows with a line between every two of them. How wide the columns are,
/// where a text is broken, and whether colours are written depends on the
/// terminal.
pub fn render_table(names: &Vec<String>, rows: &Vec<Vec<TableCell>>, dynamic: bool) -> (written:
    String)
    requires
        rows_fit(rows@, names@.len()),
    ensures
        framed(written@),
        ruled(written@, rows@.len()),
{
    let table = make_table(names, rows, dynamic);
    assert(rows_look(rows@).len() == rows@.len());
    table_text(&table)
}

/// Whether `line` is a border: the corner `left`, then nothing but the
/// stroke `dash` and the joint `joint`, then the corner `right`.
pub open spec fn is_border(line: Seq<char>, left: char, dash: char, joint: char, right: char)
    -> bool {
    &&& line.len() >= 2
    &&& line.first() == left
    &&& line.last() == right
    &&& forall|i: int| 0 < i < line.len() - 1 ==> line[i] == dash || line[i] == joint
}

/// Whether `text` stands in the frame of solid lines: its first line is the
/// top border, its last line is the bottom border, and they are two lines.
/// The first line ends at `top`, and the last begins at `bottom`.
pub open spec fn framed_at(text: Seq<char>, top: int, bottom: int) -> bool {
    &&& 0 < top < bottom <= text.len()
    &&& text[top] == '\n'
    &&& text[bottom - 1] == '\n'
    &&& is_border(text.take(top), '┌', '─', '┬', '┐')
    &&& is_border(text.skip(bottom), '└', '─', '┴', '┘')
}

/// Whether `text` stands in the frame of solid lines.
pub open spec fn framed(text: Seq<char>) -> bool {
    exists|top: int, bottom: int| framed_at(text, top, bottom)
}

/// Whether `line` begins with the character `mark`.
pub open spec fn begins_with(line: Seq<char>, mark: char) -> bool {
    line.len() > 0 && line[0] == mark
}

/// How many lines of `text` begin with the character `mark`.
pub open spec fn lines_beginning(text: Seq<char>, mark: char) -> nat {
    lines_of(text).filter(|line: Seq<char>| begins_with(line, mark)).len()
}

/// How many lines stand between `rows` rows: one between every two.
pub open spec fn gaps(rows: nat) -> nat {
    if rows > 0 {
        (rows - 1) as nat
    } else {
        0
    }
}

/// Whether `text` is ruled as a table of `rows` rows under a header: one of
/// its lines is the line under the header, which begins with `╞`, and of
/// its lines as many as there are gaps between the rows are lines between
/// two rows, which begin with `├`.
pub open spec fn ruled(text: Seq<char>, rows: nat) -> bool {
    &&& lines_beginning(text, '╞') == 1
    &&& lines_beginning(text, '├') == gaps(rows)
}

/// The text of a field; the empty text of a field that is absent.
pub open spec fn shown_text(field: Option<String>) -> Seq<char> {
    match field {
        Some(text) => text@,
        None => Seq::empty(),
    }
}

/// The decimal form of a number; the empty text of one that is absent.
pub open spec fn shown_number(field: Option<i64>) -> Seq<char> {
    match field {
        Some(n) => signed_decimal(n as int),
        None => Seq::empty(),
    }
}

/// The name of a status; the empty text of one that is absent.
pub open spec fn shown_status(field: Option<Status>) -> Seq<char> {
    match field {
        Some(status) => status.label(),
        None => Seq::empty(),
    }
}

/// A cell of plain text.
pub open spec fn plain_look(text: Seq<char>) -> CellLook {
    CellLook { text, tint: None, bold: false }
}

/// The cell of a job's status: green where the status is exactly `success`,
/// red for any other, an absent one too.
pub open spec fn status_look(status: Option<Status>) -> CellLook {
    let text = shown_status(status);
    CellLook { text, tint: Some(if text == "success"@ { Tint::Green } else { Tint::Red }), bold: false }
}

/// The cell of a job's status is green where the status is exactly
/// `success`, and red for every other status: for an empty one and for an
/// absent one too.
pub proof fn lemma_status_is_green_or_red(status: Option<Status>)
    ensures
        shown_status(status) == "success"@ ==> status_look(status).tint == Some(Tint::Green),
        shown_status(status) != "success"@ ==> status_look(status).tint == Some(Tint::Red),
        status is None ==> status_look(status).tint == Some(Tint::Red),
        shown_status(status).len() == 0 ==> status_look(status).tint == Some(Tint::Red),
        status_look(status).text == shown_status(status),
{
    reveal_strlit("success");
    assert("success"@.len() == 7);
}

/// The names of the columns of a table of jobs.
pub open spec fn job_columns() -> Seq<Seq<char>> {
    seq![
        "Job ID"@,
        "Name"@,
        "Stage"@,
        "Status"@,
        "Ref"@,
        "Duration"@,
        "Created At"@,
        "Finished At"@,
        "Web URL"@,
    ]
}

/// The row of `job` in a table of jobs.
pub open spec fn job_row(job: Job) -> Seq<CellLook> {
    seq![
        plain_look(shown_number(job.id)),
        plain_look(shown_text(job.name)),
        plain_look(shown_text(job.stage)),
        status_look(job.status),
        plain_look(shown_text(job.reference)),
        plain_look(shown_text(job.duration)),
        plain_look(shown_text(job.created_at)),
        plain_look(shown_text(job.finished_at)),
        plain_look(shown_text(job.web_url)),
    ]
}

/// The rows of `jobs` in a table of jobs.
pub open spec fn job_rows(jobs: Seq<Job>) -> Seq<Seq<CellLook>> {
    jobs.map_values(|job: Job| job_row(job))
}

/// The names of the columns of a table of variables.
pub open spec fn variable_columns() -> Seq<Seq<char>> {
    seq!["Key"@, "Value"@]
}

/// The row of `variable` in a table of variables.
pub open spec fn variable_row(variable: Variable) -> Seq<CellLook> {
    seq![plain_look(shown_text(variable.key)), plain_look(shown_text(variable.value))]
}

/// The rows of `variables` in a table of variables.
pub open spec fn variable_rows(variables: Seq<Variable>) -> Seq<Seq<CellLook>> {
    variables.map_values(|variable: Variable| variable_row(variable))
}

fn plain_cell(field: &Option<String>) -> (cell: TableCell)
    ensures
        cell@ == plain_look(shown_text(*field)),
{
    let text = match field {
        Some(text) => text.clone(),
        None => String::new(),
    };
    TableCell { text, tint: None, bold: false }
}

fn number_cell(field: Option<i64>) -> (cell: TableCell)
    ensures
        cell@ == plain_look(shown_number(field)),
{
    let text = match field {
        Some(n) => signed_decimal_text(n),
        None => String::new(),
    };
    TableCell { text, tint: None, bold: false }
}

/// The cell of a job's status.
pub fn status_cell(status: &Option<Status>) -> (cell: TableCell)
    ensures
        cell@ == status_look(*status),
{
    let text = match status {
        Some(status) => status.name(),
        None => String::new(),
    };
    let tint = if same_text(text.as_str(), "success") { Tint::Green } else { Tint::Red };
    TableCell { text, tint: Some(tint), bold: false }
}

/// The cells of the row of `job` in a table of jobs.
pub fn job_cells(job: &Job) -> (cells: Vec<TableCell>)
    ensures
        row_look(cells@) == job_row(*job),
{
    let mut cells: Vec<TableCell> = Vec::new();
    cells.push(number_cell(job.id));
    cells.push(plain_cell(&job.name));
    cells.push(plain_cell(&job.stage));
    cells.push(status_cell(&job.status));
    cells.push(plain_cell(&job.reference));
    cells.push(plain_cell(&job.duration));
    cells.push(plain_cell(&job.created_at));
    cells.push(plain_cell(&job.finished_at));
    cells.push(plain_cell(&job.web_url));
    assert(row_look(cells@) =~= job_row(*job));
    cells
}

/// What the table of `jobs` shows: one row for each, in their order, under
/// the names of the nine columns, in the frame of solid lines; its columns
/// follow the width of the terminal.
pub open spec fn job_table_look(jobs: Seq<Job>) -> TableLook {
    TableLook {
        header: Some(header_look(job_columns())),
        rows: job_rows(jobs),
        frame: full_frame(),
        dynamic: true,
        plain: true,
    }
}

/// What the table of `variables` shows: one row for each, in their order,
/// under the names of the two columns, in the frame of solid lines.
pub open spec fn variable_table_look(variables: Seq<Variable>) -> TableLook {
    TableLook {
        header: Some(header_look(variable_columns())),
        rows: variable_rows(variables),
        frame: full_frame(),
        dynamic: false,
        plain: true,
    }
}

/// The table of `jobs`: one row for each, in their order, under the names
/// of the nine columns; its columns follow the width of the terminal.
pub fn job_table(jobs: &Vec<Job>) -> (table: comfy_table::Table)
    ensures
        table_look(table) == job_table_look(jobs@),
{
    let mut names: Vec<String> = Vec::new();
    names.push(String::from_str("Job ID"));
    names.push(String::from_str("Name"));
    names.push(String::from_str("Stage"));
    names.push(String::from_str("Status"));
    names.push(String::from_str("Ref"));
    names.push(String::from_str("Duration"));
    names.push(String::from_str("Created At"));
    names.push(String::from_str("Finished At"));
    names.push(String::from_str("Web URL"));
    assert(texts(names@) =~= job_columns());
    let mut rows: Vec<Vec<TableCell>> = Vec::new();
    let mut i: usize = 0;
    while i < jobs.len()
        invariant
            i <= jobs.len(),
            names@.len() == 9,
            rows_fit(rows@, 9),
            rows@.len() == i,
            forall|k: int| 0 <= k < i ==> row_look((#[trigger] rows@[k])@) == job_row(jobs@[k]),
        decreases jobs.len() - i,
    {
        let cells = job_cells(&jobs[i]);
        assert(cells@.len() == row_look(cells@).len());
        rows.push(cells);
        i += 1;
    }
    assert(rows_look(rows@) =~= job_rows(jobs@));
    make_table(&names, &rows, true)
}

/// The table of `variables`: one row for each, in their order, under the
/// names of the two columns.
pub fn variable_table(variables: &Vec<Variable>) -> (table: comfy_table::Table)
    ensures
        table_look(table) == variable_table_look(variables@),
{
    let mut names: Vec<String> = Vec::new();
    names.push(String::from_str("Key"));
    names.push(String::from_str("Value"));
    assert(texts(names@) =~= variable_columns());
    let mut rows: Vec<Vec<TableCell>> = Vec::new();
    let mut i: usize = 0;
    while i < variables.len()
        invariant
            i <= variables.len(),
            names@.len() == 2,
            rows_fit(rows@, 2),
            rows@.len() == i,
            forall|k: int|
                0 <= k < i ==> row_look((#[trigger] rows@[k])@) == variable_row(variables@[k]),
        decreases variables.len() - i,
    {
        let mut cells: Vec<TableCell> = Vec::new();
        cells.push(plain_cell(&variables[i].key));
        cells.push(plain_cell(&variables[i].value));
        assert(row_look(cells@) =~= variable_row(variables@[i as int]));
        rows.push(cells);
        i += 1;
    }
    assert(rows_look(rows@) =~= variable_rows(variables@));
    make_table(&names, &rows, false)
}

} // verus!
