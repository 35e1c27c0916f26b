//! Lookups into the game's data sheets.
//!
//! Reading a sheet is the caller's business: the formatter consults a table
//! of answers that the caller filled in, and notes every question whose
//! answer the table lacks. A caller runs the formatter, answers the noted
//! questions, and runs it again until nothing is missing; with all answers
//! present the output is the one that direct reads would give.

use vstd::prelude::*;
use crate::state::{CGWState, StateView};

verus! {

/// The name of a sheet's column, by the column's position (`None`: the
/// sheet or the column does not exist).
pub struct SheetColumn {
    pub sheet: String,
    pub index: u32,
    pub name: Option<String>,
}

/// The formatted text of a sheet's cell (`None`: no such row or column, or
/// the cell holds no string).
pub struct SheetCell {
    pub sheet: String,
    pub row: u32,
    pub column: String,
    pub text: Option<String>,
}

/// The lower-case English name of a class or job (`None`: no such row, or
/// the sheet could not be read). It is built from a row of the sheet by
/// `from_row`, so a name is always what `class_job_entry` gives.
pub struct ClassJobName {
    pub(crate) index: u32,
    pub(crate) name: Option<String>,
}

/// A question that the table could not answer.
pub enum LookupRequest {
    Column { sheet: String, index: u32 },
    Cell { sheet: String, row: u32, column: String },
    ClassJob { index: u32 },
}

/// The answers known so far, and the questions met without an answer.
pub struct Lookups {
    pub columns: Vec<SheetColumn>,
    pub cells: Vec<SheetCell>,
    pub class_jobs: Vec<ClassJobName>,
    pub missing: Vec<LookupRequest>,
}

/// A column name answer as a mathematical object.
pub struct ColumnV {
    pub sheet: Seq<char>,
    pub index: u32,
    pub name: Option<Seq<char>>,
}

/// A cell text answer as a mathematical object.
pub struct CellV {
    pub sheet: Seq<char>,
    pub row: u32,
    pub column: Seq<char>,
    pub text: Option<Seq<char>>,
}

/// A class or job name answer as a mathematical object.
pub struct JobV {
    pub index: u32,
    pub name: Option<Seq<char>>,
}

/// A question as a mathematical object.
pub enum RequestV {
    Column(Seq<char>, u32),
    Cell(Seq<char>, u32, Seq<char>),
    ClassJob(u32),
}

/// The lookup table as a mathematical object.
pub struct LookupsView {
    pub columns: Seq<ColumnV>,
    pub cells: Seq<CellV>,
    pub class_jobs: Seq<JobV>,
    pub missing: Seq<RequestV>,
}

/// The characters of an optional string.
pub open spec fn opt_text(o: Option<String>) -> Option<Seq<char>> {
    match o {
        Some(s) => Some(s@),
        None => None,
    }
}

impl View for SheetColumn {
    type V = ColumnV;

    open spec fn view(&self) -> ColumnV {
        ColumnV { sheet: self.sheet@, index: self.index, name: opt_text(self.name) }
    }
}

impl View for SheetCell {
    type V = CellV;

    open spec fn view(&self) -> CellV {
        CellV { sheet: self.sheet@, row: self.row, column: self.column@, text: opt_text(self.text) }
    }
}

impl View for ClassJobName {
    type V = JobV;

    closed spec fn view(&self) -> JobV {
        JobV { index: self.index, name: opt_text(self.name) }
    }
}

/// A class or job name as a row of the sheet gives it: the row numbered zero
/// names the adventurer; any other name is the lower-case form of a text.
pub open spec fn class_job_name_ok(index: u32, name: Option<Seq<char>>) -> bool {
    match name {
        Some(n) => if index == 0 {
            n == "adventurer"@
        } else {
            exists|m: Seq<char>| n == #[trigger] lowercase_text(m)
        },
        None => true,
    }
}

impl ClassJobName {
    #[verifier::type_invariant]
    spec fn well_formed(self) -> bool {
        class_job_name_ok(self.index, opt_text(self.name))
    }

    /// The entry a row of the class and job sheet gives, from the row's
    /// number and its formatted name (`None`: the cell holds no text).
    pub fn from_row(row_id: u32, name: Option<String>) -> (r: Self)
        ensures
            r@ == (JobV { index: row_id, name: class_job_entry_text(row_id, opt_text(name)) }),
    {
        let entry = class_job_entry(row_id, name);
        ClassJobName { index: row_id, name: entry }
    }

    /// The entry of a class or job that has no name: no such row, or the
    /// sheet could not be read.
    pub fn absent(index: u32) -> (r: Self)
        ensures
            r@ == (JobV { index, name: None }),
    {
        ClassJobName { index, name: None }
    }

    /// The number of the class or job.
    pub fn index(&self) -> (r: u32)
        ensures
            r == self@.index,
    {
        self.index
    }

    /// The name of the class or job.
    pub fn name(&self) -> (r: Option<String>)
        ensures
            opt_text(r) == self@.name,
    {
        clone_opt(&self.name)
    }
}

impl View for LookupRequest {
    type V = RequestV;

    open spec fn view(&self) -> RequestV {
        match self {
            LookupRequest::Column { sheet, index } => RequestV::Column(sheet@, *index),
            LookupRequest::Cell { sheet, row, column } => RequestV::Cell(sheet@, *row, column@),
            LookupRequest::ClassJob { index } => RequestV::ClassJob(*index),
        }
    }
}

impl View for Lookups {
    type V = LookupsView;

    open spec fn view(&self) -> LookupsView {
        LookupsView {
            columns: self.columns@.map_values(|c: SheetColumn| c@),
            cells: self.cells@.map_values(|c: SheetCell| c@),
            class_jobs: self.class_jobs@.map_values(|j: ClassJobName| j@),
            missing: self.missing@.map_values(|r: LookupRequest| r@),
        }
    }
}

/// The first answer for a column, if the table has one.
pub open spec fn find_column(cols: Seq<ColumnV>, sheet: Seq<char>, index: u32) -> Option<Option<Seq<char>>>
    decreases cols.len(),
{
    if cols.len() == 0 {
        None
    } else if cols[0].sheet == sheet && cols[0].index == index {
        Some(cols[0].name)
    } else {
        find_column(cols.drop_first(), sheet, index)
    }
}

/// The first answer for a cell, if the table has one.
pub open spec fn find_cell(cells: Seq<CellV>, sheet: Seq<char>, row: u32, column: Seq<char>) -> Option<Option<Seq<char>>>
    decreases cells.len(),
{
    if cells.len() == 0 {
        None
    } else if cells[0].sheet == sheet && cells[0].row == row && cells[0].column == column {
        Some(cells[0].text)
    } else {
        find_cell(cells.drop_first(), sheet, row, column)
    }
}

/// The first answer for a class or job, if the table has one.
pub open spec fn find_job(jobs: Seq<JobV>, index: u32) -> Option<Option<Seq<char>>>
    decreases jobs.len(),
{
    if jobs.len() == 0 {
        None
    } else if jobs[0].index == index {
        Some(jobs[0].name)
    } else {
        find_job(jobs.drop_first(), index)
    }
}

/// The table after `req` is noted as missing.
pub open spec fn noted(lk: LookupsView, req: RequestV) -> LookupsView {
    LookupsView { missing: lk.missing.push(req), ..lk }
}

/// A column name lookup: the table's answer, or `None` with the question noted.
pub open spec fn column_lookup(lk: LookupsView, sheet: Seq<char>, index: u32) -> (LookupsView, Option<Seq<char>>) {
    match find_column(lk.columns, sheet, index) {
        Some(answer) => (lk, answer),
        None => (noted(lk, RequestV::Column(sheet, index)), None),
    }
}

/// A cell lookup: the table's answer, or `None` with the question noted.
pub open spec fn cell_lookup(lk: LookupsView, sheet: Seq<char>, row: u32, column: Seq<char>) -> (LookupsView, Option<Seq<char>>) {
    match find_cell(lk.cells, sheet, row, column) {
        Some(answer) => (lk, answer),
        None => (noted(lk, RequestV::Cell(sheet, row, column)), None),
    }
}

/// A class or job lookup: the table's answer, or `None` with the question noted.
pub open spec fn job_lookup(lk: LookupsView, index: u32) -> (LookupsView, Option<Seq<char>>) {
    match find_job(lk.class_jobs, index) {
        Some(answer) => (lk, answer),
        None => (noted(lk, RequestV::ClassJob(index)), None),
    }
}

fn clone_opt(o: &Option<String>) -> (r: Option<String>)
    ensures
        opt_text(r) == opt_text(*o),
{
    match o {
        Some(s) => Some(s.clone()),
        None => None,
    }
}

impl Lookups {
    /// A table with no answers and nothing missing.
    pub fn new() -> (r: Self)
        ensures
            r@.columns.len() == 0,
            r@.cells.len() == 0,
            r@.class_jobs.len() == 0,
            r@.missing.len() == 0,
    {
        Lookups { columns: Vec::new(), cells: Vec::new(), class_jobs: Vec::new(), missing: Vec::new() }
    }

    fn note(&mut self, req: LookupRequest)
        ensures
            final(self)@ == noted(old(self)@, req@),
    {
        self.missing.push(req);
        assert(final(self)@.missing =~= old(self)@.missing.push(req@));
        assert(final(self)@.columns =~= old(self)@.columns);
        assert(final(self)@.cells =~= old(self)@.cells);
        assert(final(self)@.class_jobs =~= old(self)@.class_jobs);
    }

    /// The name of column `index` of `sheet`.
    pub fn column_name(&mut self, sheet: &String, index: u32) -> (r: Option<String>)
        ensures
            (final(self)@, opt_text(r)) == column_lookup(old(self)@, sheet@, index),
    {
        let ghost cols = self@.columns;
        assert(cols.skip(0) =~= cols);
        let mut i: usize = 0;
        while i < self.columns.len()
            invariant
                cols == self@.columns,
                i <= cols.len(),
                find_column(cols, sheet@, index) == find_column(cols.skip(i as int), sheet@, index),
            decreases cols.len() - i,
        {
            assert(cols.skip(i as int).drop_first() =~= cols.skip(i + 1));
            assert(cols.skip(i as int)[0] == self.columns@[i as int]@);
            if self.columns[i].index == index && self.columns[i].sheet == *sheet {
                return clone_opt(&self.columns[i].name);
            }
            i = i + 1;
        }
        assert(cols.skip(i as int).len() == 0);
        self.note(LookupRequest::Column { sheet: sheet.clone(), index });
        None
    }

    /// The text of the cell of `sheet` at `row` and `column`.
    pub fn cell_text(&mut self, sheet: &String, row: u32, column: &String) -> (r: Option<String>)
        ensures
            (final(self)@, opt_text(r)) == cell_lookup(old(self)@, sheet@, row, column@),
    {
        let ghost cells = self@.cells;
        assert(cells.skip(0) =~= cells);
        let mut i: usize = 0;
        while i < self.cells.len()
            invariant
                cells == self@.cells,
                i <= cells.len(),
                find_cell(cells, sheet@, row, column@) == find_cell(cells.skip(i as int), sheet@, row, column@),
            decreases cells.len() - i,
        {
            assert(cells.skip(i as int).drop_first() =~= cells.skip(i + 1));
            assert(cells.skip(i as int)[0] == self.cells@[i as int]@);
            if self.cells[i].row == row && self.cells[i].sheet == *sheet && self.cells[i].column == *column {
                return clone_opt(&self.cells[i].text);
            }
            i = i + 1;
        }
        self.note(LookupRequest::Cell { sheet: sheet.clone(), row, column: column.clone() });
        None
    }

    /// The name of class or job `index`.
    pub fn class_job_name(&mut self, index: u32) -> (r: Option<String>)
        ensures
            (final(self)@, opt_text(r)) == job_lookup(old(self)@, index),
            class_job_name_ok(index, opt_text(r)),
    {
        let ghost jobs = self@.class_jobs;
        assert(jobs.skip(0) =~= jobs);
        let mut i: usize = 0;
        while i < self.class_jobs.len()
            invariant
                jobs == self@.class_jobs,
                i <= jobs.len(),
                find_job(jobs, index) == find_job(jobs.skip(i as int), index),
            decreases jobs.len() - i,
        {
            assert(jobs.skip(i as int).drop_first() =~= jobs.skip(i + 1));
            assert(jobs.skip(i as int)[0] == self.class_jobs@[i as int]@);
            let entry = &self.class_jobs[i];
            if entry.index == index {
                proof {
                    use_type_invariant(entry);
                }
                return clone_opt(&entry.name);
            }
            i = i + 1;
        }
        self.note(LookupRequest::ClassJob { index });
        None
    }
}

/// The state after a lookup changed its table.
pub open spec fn with_lookups(st: StateView, lk: LookupsView) -> StateView {
    StateView { lookups: lk, ..st }
}

/// Looks up the formatted text of a cell of a sheet.
pub fn lookup_sheet(state: &mut CGWState, sheet_name: &str, row_index: u32, col_name: &String) -> (r: Option<String>)
    ensures
        final(state)@ == with_lookups(old(state)@, cell_lookup(old(state)@.lookups, sheet_name@, row_index, col_name@).0),
        opt_text(r) == cell_lookup(old(state)@.lookups, sheet_name@, row_index, col_name@).1,
{
    let sheet = String::from_str(sheet_name);
    state.lookups.cell_text(&sheet, row_index, col_name)
}

/// Looks up the lower-case name of a class or job.
pub fn get_class_job(state: &mut CGWState, job_index: u32) -> (r: Option<String>)
    ensures
        final(state)@ == with_lookups(old(state)@, job_lookup(old(state)@.lookups, job_index).0),
        opt_text(r) == job_lookup(old(state)@.lookups, job_index).1,
        class_job_name_ok(job_index, opt_text(r)),
{
    state.lookups.class_job_name(job_index)
}

/// Looks up the name of a column of a sheet by its position.
pub fn get_sheet_col(state: &mut CGWState, sheet_name: &str, column_index: u32) -> (r: Option<String>)
    ensures
        final(state)@ == with_lookups(old(state)@, column_lookup(old(state)@.lookups, sheet_name@, column_index).0),
        opt_text(r) == column_lookup(old(state)@.lookups, sheet_name@, column_index).1,
{
    let sheet = String::from_str(sheet_name);
    state.lookups.column_name(&sheet, column_index)
}


/// The lower-case form of a text, as `str::to_lowercase` gives it.
pub uninterp spec fn lowercase_text(s: Seq<char>) -> Seq<char>;

/// `str::to_lowercase`. Claimed of std: the result is `lowercase_text` of
/// the argument (std defines it by the Unicode `Lowercase` property; that
/// mapping is not stated here).
#[verifier::external_body]
fn to_lowercase(s: &str) -> (r: String)
    ensures
        r@ == lowercase_text(s@),
{
    s.to_lowercase()
}

/// The name that a row of the class and job sheet gives: the row numbered
/// zero is the adventurer, who has no class; any other row gives its
/// formatted English name in lower case, where its name cell holds text.
pub open spec fn class_job_entry_text(row_id: u32, name: Option<Seq<char>>) -> Option<Seq<char>> {
    if row_id == 0 {
        Some("adventurer"@)
    } else {
        match name {
            Some(n) => Some(lowercase_text(n)),
            None => None,
        }
    }
}

/// The name that a row of the class and job sheet gives, from the row's
/// number and its formatted name (`None`: the cell holds no text).
pub fn class_job_entry(row_id: u32, name: Option<String>) -> (r: Option<String>)
    ensures
        opt_text(r) == class_job_entry_text(row_id, opt_text(name)),
{
    if row_id == 0 {
        Some(String::from_str("adventurer"))
    } else {
        match name {
            Some(n) => Some(to_lowercase(n.as_str())),
            None => None,
        }
    }
}


/// `b` holds the answers of `a` unchanged, and the questions of `a`
/// followed by any that were noted since.
#[verifier::opaque]
pub open spec fn answers_kept(a: LookupsView, b: LookupsView) -> bool {
    &&& b.columns == a.columns
    &&& b.cells == a.cells
    &&& b.class_jobs == a.class_jobs
    &&& a.missing.len() <= b.missing.len()
    &&& forall|i: int| 0 <= i < a.missing.len() ==> #[trigger] b.missing[i] == a.missing[i]
}

/// A lookup keeps the table's answers and notes at most the question it
/// asked; a question that the table answers is not noted.
pub proof fn law_lookup_keeps_answers(lk: LookupsView, sheet: Seq<char>, row: u32, column: Seq<char>, index: u32)
    ensures
        answers_kept(lk, column_lookup(lk, sheet, index).0),
        answers_kept(lk, cell_lookup(lk, sheet, row, column).0),
        answers_kept(lk, job_lookup(lk, index).0),
        find_column(lk.columns, sheet, index) is Some ==> column_lookup(lk, sheet, index).0 == lk,
        find_cell(lk.cells, sheet, row, column) is Some ==> cell_lookup(lk, sheet, row, column).0 == lk,
        find_job(lk.class_jobs, index) is Some ==> job_lookup(lk, index).0 == lk,
        column_lookup(lk, sheet, index).0.missing.len() <= lk.missing.len() + 1,
        cell_lookup(lk, sheet, row, column).0.missing.len() <= lk.missing.len() + 1,
        job_lookup(lk, index).0.missing.len() <= lk.missing.len() + 1,
{
    reveal(answers_kept);
}

} // verus!
