//! File names that are safe to write into a directory, and text tables for the terminal.

use vstd::prelude::*;

verus! {

/// Whether `s` names a file directly inside a directory: it is not empty, holds no path
/// separator, and is neither `.` nor `..`.
pub open spec fn valid_file_name(s: Seq<char>) -> bool {
    &&& s.len() > 0
    &&& !s.contains('/')
    &&& s != seq!['.']
    &&& s != seq!['.', '.']
}

/// Checks that a file name names a file directly inside a directory, so that writing to it
/// cannot reach another directory.
///
/// Valid: `.hello.txt`, `valid`, `somefile.jar`, `.lots.of.dots`.
/// Invalid: `/long/big/path`, `subdirectory/file.exe`, `directory/`, `/invalid.json`, `/`,
/// `.`, `..`, and the empty name. Whether the name is that of an existing directory is a
/// question for the file system, which the caller asks.
pub fn validate_file_name(file_name_candidate: &str) -> (r: bool)
    ensures
        r == valid_file_name(file_name_candidate@),
{
    let len = file_name_candidate.unicode_len();
    if len == 0 {
        return false;
    }
    let mut i: usize = 0;
    while i < len
        invariant
            i <= len,
            len == file_name_candidate@.len(),
            forall|j: int| 0 <= j < i ==> file_name_candidate@[j] != '/',
        decreases len - i,
    {
        if file_name_candidate.get_char(i) == '/' {
            assert(file_name_candidate@[i as int] == '/');
            return false;
        }
        i = i + 1;
    }
    let first = file_name_candidate.get_char(0);
    if len == 1 && first == '.' {
        assert(file_name_candidate@ =~= seq!['.']);
        return false;
    }
    if len == 2 && first == '.' && file_name_candidate.get_char(1) == '.' {
        assert(file_name_candidate@ =~= seq!['.', '.']);
        return false;
    }
    proof {
        if file_name_candidate@ == seq!['.'] {
            assert(file_name_candidate@[0] == '.');
        }
        if file_name_candidate@ == seq!['.', '.'] {
            assert(file_name_candidate@[0] == '.' && file_name_candidate@[1] == '.');
        }
    }
    true
}

/// A name that holds a path separator or names the parent directory is never valid.
pub proof fn lemma_path_escaping_names_invalid(s: Seq<char>)
    requires
        s.contains('/') || s == seq!['.', '.'],
    ensures
        !valid_file_name(s),
{
}


/// The colors of text and background on a terminal.
#[derive(Clone, Copy, Debug, PartialEq, Eq, Hash, Structural)]
pub enum TermColor {
    Black,
    Red,
    Green,
    Yellow,
    Blue,
    Magenta,
    Cyan,
    White,
    Default,
    BrightBlack,
    BrightRed,
    BrightGreen,
    BrightYellow,
    BrightBlue,
    BrightMagenta,
    BrightCyan,
    BrightWhite,
}

/// A cell of a [`CliTable`]: its text and the color of the text.
#[derive(Clone, Debug)]
pub struct CliTableCell {
    pub text: String,
    pub color: TermColor,
}

impl Default for CliTableCell {
    fn default() -> (r: Self)
        ensures
            r.text@ == Seq::<char>::empty(),
            r.color == TermColor::Default,
    {
        CliTableCell { text: String::new(), color: TermColor::Default }
    }
}

impl CliTableCell {
    /// A cell with the given text in the default color.
    pub fn new(text: String) -> (r: Self)
        ensures
            r.text == text,
            r.color == TermColor::Default,
    {
        CliTableCell { text, color: TermColor::Default }
    }

    /// The width of the cell's text, in characters.
    pub fn width(&self) -> (r: usize)
        ensures
            r == self.text@.len(),
    {
        self.text.as_str().unicode_len()
    }
}

/// A row of a [`CliTable`]: its cells and its background color.
#[derive(Clone, Debug)]
pub struct CliTableRow {
    pub cells: Vec<CliTableCell>,
    pub bg_color: TermColor,
}

impl CliTableRow {
    /// A row of `columns` empty cells, in the default colors.
    pub fn empty(columns: usize) -> (r: Self)
        ensures
            r.cells@.len() == columns,
            forall|i: int| 0 <= i < columns ==> (#[trigger] r.cells@[i]).text@.len() == 0
                && r.cells@[i].color == TermColor::Default,
            r.bg_color == TermColor::Default,
    {
        let mut cells: Vec<CliTableCell> = Vec::new();
        let mut i: usize = 0;
        while i < columns
            invariant
                i <= columns,
                cells@.len() == i,
                forall|j: int| 0 <= j < i ==> (#[trigger] cells@[j]).text@.len() == 0
                    && cells@[j].color == TermColor::Default,
            decreases columns - i,
        {
            cells.push(CliTableCell::default());
            i = i + 1;
        }
        CliTableRow { cells, bg_color: TermColor::Default }
    }

    /// A row with the given texts in its cells, in the default colors.
    pub fn new(columns: &[String]) -> (r: Self)
        ensures
            r.cells@.len() == columns@.len(),
            forall|i: int| 0 <= i < columns@.len() ==> (#[trigger] r.cells@[i]).text == columns@[i]
                && r.cells@[i].color == TermColor::Default,
            r.bg_color == TermColor::Default,
    {
        let mut cells: Vec<CliTableCell> = Vec::new();
        let mut i: usize = 0;
        while i < columns.len()
            invariant
                i <= columns@.len(),
                cells@.len() == i,
                forall|j: int| 0 <= j < i ==> (#[trigger] cells@[j]).text == columns@[j]
                    && cells@[j].color == TermColor::Default,
            decreases columns@.len() - i,
        {
            cells.push(CliTableCell::new(columns[i].clone()));
            i = i + 1;
        }
        CliTableRow { cells, bg_color: TermColor::Default }
    }

    /// Whether the row is empty: no cell has text and the background is the default one.
    pub fn is_empty(&self) -> (r: bool)
        ensures
            r == (self.bg_color == TermColor::Default && forall|i: int|
                0 <= i < self.cells@.len() ==> (#[trigger] self.cells@[i]).text@.len() == 0),
    {
        if self.bg_color != TermColor::Default {
            return false;
        }
        let mut i: usize = 0;
        while i < self.cells.len()
            invariant
                i <= self.cells@.len(),
                forall|j: int| 0 <= j < i ==> (#[trigger] self.cells@[j]).text@.len() == 0,
            decreases self.cells@.len() - i,
        {
            if self.cells[i].width() != 0 {
                return false;
            }
            i = i + 1;
        }
        true
    }

    /// The number of columns of the row.
    pub fn columns(&self) -> (r: usize)
        ensures
            r == self.cells@.len(),
    {
        self.cells.len()
    }

    /// Gives the text of every cell the color `color`.
    pub fn color_all(&mut self, color: TermColor)
        ensures
            final(self).cells@.len() == old(self).cells@.len(),
            final(self).bg_color == old(self).bg_color,
            forall|i: int| 0 <= i < final(self).cells@.len() ==> (#[trigger] final(self).cells@[i]).text
                == old(self).cells@[i].text && final(self).cells@[i].color == color,
    {
        let mut i: usize = 0;
        while i < self.cells.len()
            invariant
                i <= self.cells@.len(),
                self.cells@.len() == old(self).cells@.len(),
                self.bg_color == old(self).bg_color,
                forall|j: int| 0 <= j < self.cells@.len() ==> (#[trigger] self.cells@[j]).text
                    == old(self).cells@[j].text,
                forall|j: int| 0 <= j < i ==> (#[trigger] self.cells@[j]).color == color,
            decreases self.cells@.len() - i,
        {
            let mut cell = self.cells.remove(i);
            cell.color = color;
            self.cells.insert(i, cell);
            i = i + 1;
        }
    }
}

/// The width of column `c`: the widest of its header cell and its cells in `rows`.
pub open spec fn column_max_width(header: CliTableRow, rows: Seq<CliTableRow>, c: int) -> nat
    decreases rows.len(),
{
    if rows.len() == 0 {
        header.cells@[c].text@.len()
    } else {
        let w = rows.last().cells@[c].text@.len();
        let before = column_max_width(header, rows.drop_last(), c);
        if w > before { w } else { before }
    }
}

/// The width of a table's borders and their padding, for `columns` columns.
pub fn calculate_border_widths(columns: usize) -> (r: usize)
    requires
        columns * 3 + 1 <= usize::MAX,
    ensures
        r == columns * 3 + 1,
{
    columns * 3 + 1
}

/// A table of text for the terminal: a row of column names and rows of cells.
#[derive(Clone, Debug)]
pub struct CliTable {
    /// The names of the columns; their number is the number of columns of the table.
    pub column_names: CliTableRow,
    pub rows: Vec<CliTableRow>,
}

impl CliTable {
    /// Every row has as many columns as the table.
    pub open spec fn wf(&self) -> bool {
        forall|i: int| 0 <= i < self.rows@.len() ==> (#[trigger] self.rows@[i]).cells@.len()
            == self.column_names.cells@.len()
    }

    /// An empty table with the given column names.
    pub fn new(columns: CliTableRow) -> (r: Self)
        ensures
            r.wf(),
            r.column_names == columns,
            r.rows@.len() == 0,
    {
        CliTable { column_names: columns, rows: Vec::new() }
    }

    /// The number of rows.
    pub fn rows(&self) -> (r: usize)
        ensures
            r == self.rows@.len(),
    {
        self.rows.len()
    }

    /// The number of columns.
    pub fn columns(&self) -> (r: usize)
        ensures
            r == self.column_names.cells@.len(),
    {
        self.column_names.columns()
    }

    /// Appends a row with as many columns as the table, and returns its index.
    pub fn add(&mut self, row: CliTableRow) -> (r: usize)
        requires
            old(self).wf(),
            row.cells@.len() == old(self).column_names.cells@.len(),
            old(self).rows@.len() < usize::MAX,
        ensures
            final(self).wf(),
            final(self).column_names == old(self).column_names,
            final(self).rows@ == old(self).rows@.push(row),
            r == old(self).rows@.len(),
    {
        self.rows.push(row);
        self.rows.len() - 1
    }

    /// Removes the row at `row_index` and returns it, keeping the order of the others.
    /// Nothing when there is no such row.
    pub fn remove(&mut self, row_index: usize) -> (r: Option<CliTableRow>)
        requires
            old(self).wf(),
        ensures
            final(self).wf(),
            final(self).column_names == old(self).column_names,
            row_index < old(self).rows@.len() ==> r == Some(old(self).rows@[row_index as int])
                && final(self).rows@ == old(self).rows@.remove(row_index as int),
            row_index >= old(self).rows@.len() ==> r is None && final(self).rows@ == old(self).rows@,
    {
        if self.rows() <= row_index {
            None
        } else {
            let row = self.rows.remove(row_index);
            proof {
                assert forall|i: int| 0 <= i < self.rows@.len() implies (#[trigger] self.rows@[i]).cells@.len()
                    == self.column_names.cells@.len() by {
                    if i < row_index {
                        assert(self.rows@[i] == old(self).rows@[i]);
                    } else {
                        assert(self.rows@[i] == old(self).rows@[i + 1]);
                    }
                }
            }
            Some(row)
        }
    }

    /// The width of each column: the widest of its name and its cells.
    pub fn calculate_max_widths(&self) -> (r: Vec<usize>)
        requires
            self.wf(),
        ensures
            r@.len() == self.column_names.cells@.len(),
            forall|c: int| 0 <= c < r@.len() ==> #[trigger] r@[c] == column_max_width(
                self.column_names,
                self.rows@,
                c,
            ),
    {
        let n = self.columns();
        let mut cols: Vec<usize> = Vec::new();
        let mut c: usize = 0;
        while c < n
            invariant
                n == self.column_names.cells@.len(),
                c <= n,
                cols@.len() == c,
                forall|k: int| 0 <= k < c ==> #[trigger] cols@[k] == column_max_width(
                    self.column_names,
                    self.rows@.take(0),
                    k,
                ),
            decreases n - c,
        {
            cols.push(self.column_names.cells[c].width());
            c = c + 1;
        }
        let mut j: usize = 0;
        while j < self.rows.len()
            invariant
                self.wf(),
                n == self.column_names.cells@.len(),
                j <= self.rows@.len(),
                cols@.len() == n,
                forall|k: int| 0 <= k < n ==> #[trigger] cols@[k] == column_max_width(
                    self.column_names,
                    self.rows@.take(j as int),
                    k,
                ),
            decreases self.rows@.len() - j,
        {
            let row = &self.rows[j];
            assert(row.cells@.len() == n);
            assert(self.rows@.take(j as int + 1).drop_last() =~= self.rows@.take(j as int));
            let mut k: usize = 0;
            while k < n
                invariant
                    n == self.column_names.cells@.len(),
                    row.cells@.len() == n,
                    *row == self.rows@[j as int],
                    j < self.rows@.len(),
                    k <= n,
                    cols@.len() == n,
                    self.rows@.take(j as int + 1).drop_last() == self.rows@.take(j as int),
                    forall|m: int| 0 <= m < k ==> #[trigger] cols@[m] == column_max_width(
                        self.column_names,
                        self.rows@.take(j as int + 1),
                        m,
                    ),
                    forall|m: int| k <= m < n ==> #[trigger] cols@[m] == column_max_width(
                        self.column_names,
                        self.rows@.take(j as int),
                        m,
                    ),
                decreases n - k,
            {
                let w = row.cells[k].width();
                let cur = cols[k];
                let next = if w > cur { w } else { cur };
                cols.set(k, next);
                k = k + 1;
            }
            j = j + 1;
        }
        assert(self.rows@.take(self.rows@.len() as int) =~= self.rows@);
        cols
    }
}

} // verus!
