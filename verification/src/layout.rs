//! The dashboard's screens and the state behind them: the menu, the keys
//! that move through the list of runs, and the text of each list entry,
//! table row and detail line.

use vstd::prelude::*;
use crate::datetime::DateTimeParts;
use crate::text::{
    append_signed_decimal, count_newlines, is_signed_decimal_of, law_signed_decimal_writes_the_number,
    newline_count, signed_decimal,
};

verus! {

/// A key that moves the selection in the list of runs.
#[derive(Clone, Copy, Debug)]
pub enum Action {
    KeyDown,
    KeyUp,
}

/// The screen on display.
#[derive(Clone, Copy, Debug)]
pub enum Menu {
    Main,
    Help,
    ShowProcess,
}

/// The welcome screen.
pub struct LayoutMain {}

impl LayoutMain {
    pub fn new() -> (l: LayoutMain) {
        LayoutMain {}
    }
}

/// The entry selected after `action` in a list of `len` entries with entry
/// `current` selected: down moves to the next entry unless on the last one,
/// up moves to the previous one unless on the first one.
pub open spec fn next_selection(current: nat, action: Option<Action>, len: nat) -> nat {
    match action {
        Some(Action::KeyDown) => if current + 1 < len { current + 1 } else { current },
        Some(Action::KeyUp) => if current > 0 { (current - 1) as nat } else { current },
        None => current,
    }
}

/// The state of the screen that shows past runs.
pub struct LayoutShowProcess {
    pub current_action: Option<Action>,
    pub selected_index_list: usize,
    pub files_processed: i64,
}

impl LayoutShowProcess {
    /// No key pending, first run selected, nothing counted.
    pub fn new() -> (l: LayoutShowProcess)
        ensures
            l.current_action is None,
            l.selected_index_list == 0,
            l.files_processed == 0,
    {
        LayoutShowProcess { current_action: None, selected_index_list: 0, files_processed: 0 }
    }

    /// Records the key to apply on the next drawing.
    pub fn set_current_action(&mut self, current_action: Option<Action>)
        ensures
            final(self).current_action == current_action,
            final(self).selected_index_list == old(self).selected_index_list,
            final(self).files_processed == old(self).files_processed,
    {
        self.current_action = current_action;
    }

    /// Applies the pending key to the selection in a list of
    /// `executions_len` runs. Moving down needs at least one run.
    pub fn apply_navigation(&mut self, executions_len: usize)
        requires
            old(self).current_action matches Some(Action::KeyDown) ==> executions_len > 0,
        ensures
            final(self).selected_index_list == next_selection(
                old(self).selected_index_list as nat,
                old(self).current_action,
                executions_len as nat,
            ),
            final(self).current_action == old(self).current_action,
            final(self).files_processed == old(self).files_processed,
    {
        match self.current_action {
            Some(Action::KeyDown) => {
                if self.selected_index_list < executions_len - 1 {
                    self.selected_index_list = self.selected_index_list + 1;
                }
            },
            Some(Action::KeyUp) => {
                if self.selected_index_list > 0 {
                    self.selected_index_list = self.selected_index_list - 1;
                }
            },
            None => {},
        }
    }

    /// Keeps the number of files done in the selected run; a count that
    /// could not be read counts as zero.
    pub fn set_files_processed(&mut self, files_processed: Option<i64>)
        ensures
            final(self).files_processed == match files_processed {
                Some(n) => n,
                None => 0,
            },
            final(self).selected_index_list == old(self).selected_index_list,
            final(self).current_action == old(self).current_action,
    {
        self.files_processed = match files_processed {
            Some(n) => n,
            None => 0,
        };
    }
}

/// Law: a selection inside the list stays inside it whatever key is pressed.
pub proof fn law_selection_stays_in_list(current: nat, action: Option<Action>, len: nat)
    requires
        current < len,
    ensures
        next_selection(current, action, len) < len,
{
}

/// Law: up undoes down, and down undoes up, away from the ends of the list.
pub proof fn law_up_undoes_down(current: nat, len: nat)
    ensures
        current + 1 < len ==> next_selection(
            next_selection(current, Some(Action::KeyDown), len),
            Some(Action::KeyUp),
            len,
        ) == current,
        0 < current < len ==> next_selection(
            next_selection(current, Some(Action::KeyUp), len),
            Some(Action::KeyDown),
            len,
        ) == current,
{
}

/// Law: with no key pending the selection does not move; a key moves it
/// by at most one entry, down only when there is a next entry and up only
/// when there is a previous one.
pub proof fn law_only_keys_move_selection(current: nat, len: nat)
    ensures
        next_selection(current, None, len) == current,
        current + 1 < len ==> next_selection(current, Some(Action::KeyDown), len) == current + 1,
        current + 1 >= len ==> next_selection(current, Some(Action::KeyDown), len) == current,
        current > 0 ==> next_selection(current, Some(Action::KeyUp), len) + 1 == current,
        current == 0 ==> next_selection(current, Some(Action::KeyUp), len) == 0,
{
}

/// Shown in place of an end time that is not there yet.
pub open spec fn missing_time_text() -> Seq<char> {
    "__/__"@
}

/// A time in one layout, or the placeholder when it is missing.
pub open spec fn optional_text(t: Option<Seq<char>>) -> Seq<char> {
    match t {
        Some(s) => s,
        None => missing_time_text(),
    }
}

/// An entry of the list of runs: whether the run has ended, and its line.
pub struct ExecutionLabel {
    pub finished: bool,
    pub text: String,
}

/// `"{id}) {start} - {end} [{total_files}]"`
pub open spec fn execution_label_text(id: int, start: Seq<char>, end: Seq<char>, total_files: int) -> Seq<char> {
    signed_decimal(id) + ") "@ + start + " - "@ + end + " ["@ + signed_decimal(total_files) + "]"@
}

/// The list entry of a run: its number, start (day, month and time), end
/// time or the placeholder, and the number of files.
pub fn execution_label(id: i32, start: &DateTimeParts, end: Option<DateTimeParts>, total_files: i32) -> (l: ExecutionLabel)
    requires
        start.wf(),
        end matches Some(e) ==> e.wf(),
    ensures
        l.finished == end is Some,
        l.text@ == execution_label_text(
            id as int,
            start.day_month_time_text(),
            optional_text(match end { Some(e) => Some(e.time_text()), None => None }),
            total_files as int,
        ),
{
    let start_text = start.format_day_month_time();
    let end_text = match end {
        Some(e) => e.format_time(),
        None => String::from_str("__/__"),
    };
    let mut out = String::new();
    append_signed_decimal(&mut out, id as i64);
    out.append(") ");
    out.append(start_text.as_str());
    out.append(" - ");
    out.append(end_text.as_str());
    out.append(" [");
    append_signed_decimal(&mut out, total_files as i64);
    out.append("]");
    ExecutionLabel { finished: end.is_some(), text: out }
}

/// Marks the first cell of a row of the file table: `"1"` for a file
/// finished, `"0"` for one in progress.
pub open spec fn status_flag(finished: bool) -> Seq<char> {
    if finished { "1"@ } else { "0"@ }
}

/// The cells of a row of the file table: status flag, file number, start
/// time, end time or the placeholder, file name.
pub fn file_row_cells(id: i64, start: &DateTimeParts, end: Option<DateTimeParts>, name_file: &String) -> (cells: Vec<String>)
    requires
        start.wf(),
        end matches Some(e) ==> e.wf(),
    ensures
        cells.len() == 5,
        cells@[0]@ == status_flag(end is Some),
        cells@[1]@ == signed_decimal(id as int),
        cells@[2]@ == start.time_text(),
        cells@[3]@ == optional_text(match end { Some(e) => Some(e.time_text()), None => None }),
        cells@[4]@ == name_file@,
{
    let (flag, end_text) = match end {
        Some(e) => (String::from_str("1"), e.format_time()),
        None => (String::from_str("0"), String::from_str("__/__")),
    };
    let mut id_text = String::new();
    append_signed_decimal(&mut id_text, id);
    let mut cells: Vec<String> = Vec::new();
    cells.push(flag);
    cells.push(id_text);
    cells.push(start.format_time());
    cells.push(end_text);
    cells.push(name_file.clone());
    cells
}

/// The largest number of line breaks in any of `cells`, 0 when there are none.
pub open spec fn max_newlines(cells: Seq<String>) -> nat
    decreases cells.len(),
{
    if cells.len() == 0 {
        0
    } else {
        let rest = max_newlines(cells.drop_last());
        let here = newline_count(cells.last()@);
        if here > rest { here } else { rest }
    }
}

/// The height of a table row: one line more than the most line breaks in
/// any of its cells.
pub fn row_height(cells: &Vec<String>) -> (h: usize)
    requires
        forall|i: int| 0 <= i < cells.len() ==> newline_count(#[trigger] cells@[i]@) < usize::MAX,
    ensures
        h == max_newlines(cells@) + 1,
{
    let mut best: usize = 0;
    let mut i: usize = 0;
    assert(cells@.subrange(0, 0) =~= Seq::<String>::empty());
    while i < cells.len()
        invariant
            i <= cells.len(),
            best == max_newlines(cells@.subrange(0, i as int)),
            best < usize::MAX,
            forall|k: int| 0 <= k < cells.len() ==> newline_count(#[trigger] cells@[k]@) < usize::MAX,
        decreases cells.len() - i,
    {
        assert(cells@.subrange(0, i + 1).drop_last() =~= cells@.subrange(0, i as int));
        let n = count_newlines(cells[i].as_str());
        if n > best {
            best = n;
        }
        i = i + 1;
    }
    assert(cells@.subrange(0, cells.len() as int) =~= cells@);
    best + 1
}

/// How a cell of the file table is drawn.
#[derive(Clone, Copy, Debug, PartialEq, Eq)]
pub enum CellKind {
    /// Status column, file finished: a green check mark.
    Finished,
    /// Status column, file in progress: a red hourglass.
    InProgress,
    /// Status column with any other value: `--`.
    UnknownStatus,
    /// Any other column: its text as it is.
    Plain,
}

/// How the cell in `column` holding `value` is drawn.
pub fn cell_kind(column: usize, value: &str) -> (k: CellKind)
    ensures
        column != 0 ==> k == CellKind::Plain,
        column == 0 ==> k == if value@ == "1"@ {
            CellKind::Finished
        } else if value@ == "0"@ {
            CellKind::InProgress
        } else {
            CellKind::UnknownStatus
        },
{
    if column != 0 {
        return CellKind::Plain;
    }
    let v = String::from_str(value);
    if v == String::from_str("1") {
        CellKind::Finished
    } else if v == String::from_str("0") {
        CellKind::InProgress
    } else {
        CellKind::UnknownStatus
    }
}

/// The detail panel of the selected run, line by line.
pub struct ExecutionDetails {
    pub finished: bool,
    pub id_line: String,
    pub total_files_line: String,
    pub start_line: String,
    pub end_line: String,
    pub state_line: String,
    pub seconds_line: String,
}

/// The state shown for a run.
pub open spec fn state_text(finished: bool) -> Seq<char> {
    if finished { "  Finalizado  "@ } else { "  En proceso  "@ }
}

/// The detail panel of a run: number and file count indented by three
/// spaces, full start and end dates (or the placeholder), state, and the
/// duration in seconds as the database wrote it.
pub fn execution_details(
    id: i32,
    total_files: i32,
    start: &DateTimeParts,
    end: Option<DateTimeParts>,
    total_seconds: &str,
) -> (d: ExecutionDetails)
    requires
        start.wf(),
        end matches Some(e) ==> e.wf(),
    ensures
        d.finished == end is Some,
        d.id_line@ == "   "@ + signed_decimal(id as int),
        d.total_files_line@ == "   "@ + signed_decimal(total_files as int),
        d.start_line@ == start.full_text(),
        d.end_line@ == optional_text(match end { Some(e) => Some(e.full_text()), None => None }),
        d.state_line@ == state_text(end is Some),
        d.seconds_line@ == "   "@ + total_seconds@ + " segundos"@,
{
    let mut id_line = String::from_str("   ");
    append_signed_decimal(&mut id_line, id as i64);
    let mut total_files_line = String::from_str("   ");
    append_signed_decimal(&mut total_files_line, total_files as i64);
    let end_line = match end {
        Some(e) => e.format_full(),
        None => String::from_str("__/__"),
    };
    let state_line = if end.is_some() {
        String::from_str("  Finalizado  ")
    } else {
        String::from_str("  En proceso  ")
    };
    let mut seconds_line = String::from_str("   ");
    seconds_line.append(total_seconds);
    seconds_line.append(" segundos");
    ExecutionDetails {
        finished: end.is_some(),
        id_line,
        total_files_line,
        start_line: start.format_full(),
        end_line,
        state_line,
        seconds_line,
    }
}

/// Law: a run's list entry writes the run number and its file count as
/// the integers they are, in ordinary decimal, around the start and end
/// texts: `{id}) {start} - {end} [{total_files}]`.
pub proof fn law_label_shows_numbers(id: int, start: Seq<char>, end: Seq<char>, total_files: int)
    ensures
        exists|a: Seq<char>, b: Seq<char>|
            #![trigger is_signed_decimal_of(a, id), is_signed_decimal_of(b, total_files)]
            is_signed_decimal_of(a, id) && is_signed_decimal_of(b, total_files) && execution_label_text(
                id,
                start,
                end,
                total_files,
            ) == a + ") "@ + start + " - "@ + end + " ["@ + b + "]"@,
{
    law_signed_decimal_writes_the_number(id);
    law_signed_decimal_writes_the_number(total_files);
    let a = signed_decimal(id);
    let b = signed_decimal(total_files);
    assert(is_signed_decimal_of(a, id) && is_signed_decimal_of(b, total_files));
    assert(execution_label_text(id, start, end, total_files) == a + ") "@ + start + " - "@ + end + " ["@ + b
        + "]"@);
}

/// Law: the detail panel writes the run number and the file count as the
/// integers they are, after three spaces.
pub proof fn law_details_show_numbers(id: int, total_files: int)
    ensures
        is_signed_decimal_of(signed_decimal(id), id),
        is_signed_decimal_of(signed_decimal(total_files), total_files),
{
    law_signed_decimal_writes_the_number(id);
    law_signed_decimal_writes_the_number(total_files);
}

} // verus!
