//! What an operation shows: lines of text, lines in colour, and tables.

use vstd::prelude::*;
use crate::records::{Job, Variable};
use crate::style::{paint, painted, Tint};
use crate::table::{framed, job_rows, job_table, job_table_look, ruled, table_look, table_text,
    variable_rows, variable_table, variable_table_look};

verus! {

/// One piece of what an operation shows.
#[derive(Debug, Clone, PartialEq, Eq)]
pub enum Line {
    /// A line of text on the standard output.
    Text(String),
    /// A line of text on the error stream.
    Warning(String),
    /// A line of text on the standard output, in a colour.
    Tinted(String, Tint),
    /// The table of these jobs, on the standard output.
    Jobs(Vec<Job>),
    /// The table of these variables, on the standard output.
    Variables(Vec<Variable>),
}

/// What a piece of output holds.
pub enum LineView {
    Text(Seq<char>),
    Warning(Seq<char>),
    Tinted(Seq<char>, Tint),
    Jobs(Seq<Job>),
    Variables(Seq<Variable>),
}

impl View for Line {
    type V = LineView;

    open spec fn view(&self) -> LineView {
        match self {
            Line::Text(text) => LineView::Text(text@),
            Line::Warning(text) => LineView::Warning(text@),
            Line::Tinted(text, tint) => LineView::Tinted(text@, *tint),
            Line::Jobs(jobs) => LineView::Jobs(jobs@),
            Line::Variables(variables) => LineView::Variables(variables@),
        }
    }
}

/// What each piece of `lines` holds.
pub open spec fn shown(lines: Seq<Line>) -> Seq<LineView> {
    lines.map_values(|line: Line| line@)
}

impl Line {
    /// Whether the line belongs on the error stream.
    pub fn is_warning(&self) -> (yes: bool)
        ensures
            yes == (self is Warning),
    {
        match self {
            Line::Warning(_) => true,
            _ => false,
        }
    }

    /// The table that the line shows, where it shows one: of jobs the table
    /// that `job_table` builds, of variables the one that `variable_table`
    /// builds. It is this table that `render` writes.
    pub fn table(&self) -> (table: Option<comfy_table::Table>)
        ensures
            match self@ {
                LineView::Jobs(jobs) => table matches Some(built) && table_look(built)
                    == job_table_look(jobs),
                LineView::Variables(variables) => table matches Some(built) && table_look(built)
                    == variable_table_look(variables),
                _ => table is None,
            },
    {
        match self {
            Line::Jobs(jobs) => Some(job_table(jobs)),
            Line::Variables(variables) => Some(variable_table(variables)),
            _ => None,
        }
    }

    /// The line as it is written.
    ///
    /// A line of text is written as it is. How a line in colour and how a
    /// table are written depends on the terminal. A line in colour is
    /// written as it is, or after the sequence of its colour and before the
    /// reset sequence, as `painted` tells. A table is written between its
    /// top and its bottom border, with one line under the header and one
    /// line between every two rows.
    pub fn render(&self) -> (written: String)
        ensures
            self@ matches LineView::Text(text) ==> written@ == text,
            self@ matches LineView::Warning(text) ==> written@ == text,
            self@ matches LineView::Tinted(text, tint) ==> written@ == text || written@
                == painted(text, tint),
            self@ is Jobs || self@ is Variables ==> framed(written@),
            self@ matches LineView::Jobs(jobs) ==> ruled(written@, jobs.len()),
            self@ matches LineView::Variables(variables) ==> ruled(written@, variables.len()),
    {
        match self {
            Line::Text(text) => text.clone(),
            Line::Warning(text) => text.clone(),
            Line::Tinted(text, tint) => paint(text.as_str(), *tint),
            Line::Jobs(jobs) => {
                let table = job_table(jobs);
                assert(job_rows(jobs@).len() == jobs@.len());
                table_text(&table)
            },
            Line::Variables(variables) => {
                let table = variable_table(variables);
                assert(variable_rows(variables@).len() == variables@.len());
                table_text(&table)
            },
        }
    }
}

} // verus!
