//! Position and bounds rules for editing a text buffer shown in a window.
//!
//! Rows are 0-based; columns are byte offsets into a line. The window reports its
//! cursor with a 1-based row and a 0-based column on the character under the
//! cursor; the helpers here speak of the column just after that character, and 0
//! on an empty line.
use vstd::prelude::*;

verus! {

#[derive(Debug, PartialEq, Eq)]
pub enum BufferError {
    /// The buffer is shown in no window, so it has no cursor.
    NotVisible,
    /// The row (first) is past the last row (second).
    RowOutOfBounds(usize, usize),
    /// The column (first) is past the end of its line (second).
    ColOutOfBounds(usize, usize),
    /// The editor's API failed, with its message.
    NvimError(String),
}

pub open spec fn sat_add(a: usize, b: usize) -> usize {
    if a + b > usize::MAX {
        usize::MAX
    } else {
        (a + b) as usize
    }
}

pub open spec fn sat_sub_one(a: usize) -> usize {
    if a == 0 {
        0
    } else {
        (a - 1) as usize
    }
}

/// The last row of a buffer whose lines have the byte lengths `lens`.
pub open spec fn last_row(lens: Seq<usize>) -> usize {
    (lens.len() - 1) as usize
}

/// The end of line `row`: `(row, its length)`, or `RowOutOfBounds`.
pub open spec fn row_end(lens: Seq<usize>, row: usize) -> Result<(usize, usize), BufferError> {
    if row >= lens.len() {
        Err(BufferError::RowOutOfBounds(row, last_row(lens)))
    } else {
        Ok((row, lens[row as int]))
    }
}

/// The cursor seen from the buffer, given the window's cursor `win`.
pub open spec fn cursor_of(lens: Seq<usize>, win: Option<(usize, usize)>) -> Result<
    (usize, usize),
    BufferError,
> {
    match win {
        None => Err(BufferError::NotVisible),
        Some((r, c)) => {
            let row = (r - 1) as usize;
            if row >= lens.len() {
                Err(BufferError::RowOutOfBounds(row, last_row(lens)))
            } else if lens[row as int] == 0 {
                Ok((row, 0))
            } else {
                Ok((row, (c + 1) as usize))
            }
        },
    }
}

/// The window cursor to set so that the buffer's cursor is at `(row, col)`.
pub open spec fn window_cursor_for(
    lens: Seq<usize>,
    win: Option<(usize, usize)>,
    row: usize,
    col: usize,
) -> Result<(usize, usize), BufferError> {
    if win is None {
        Err(BufferError::NotVisible)
    } else {
        match row_end(lens, row) {
            Err(e) => Err(e),
            Ok((_, max_col)) => if col > max_col {
                Err(BufferError::ColOutOfBounds(col, max_col))
            } else {
                Ok(((row + 1) as usize, sat_sub_one(col)))
            },
        }
    }
}

/// The window cursor to set to move the buffer's cursor by `rows` and `cols`.
pub open spec fn window_cursor_moved(
    lens: Seq<usize>,
    win: Option<(usize, usize)>,
    rows: usize,
    cols: usize,
) -> Result<(usize, usize), BufferError> {
    match cursor_of(lens, win) {
        Err(e) => Err(e),
        Ok((r, c)) => window_cursor_for(lens, win, sat_add(r, rows), sat_add(c, cols)),
    }
}

/// Where text inserted after column `col` of row `row` goes.
pub open spec fn append_point(lens: Seq<usize>, row: usize, col: usize) -> Result<
    (usize, usize),
    BufferError,
> {
    match row_end(lens, row) {
        Err(e) => Err(e),
        Ok((_, max_col)) => if col > max_col {
            Err(BufferError::ColOutOfBounds(col, max_col))
        } else {
            Ok((row, col))
        },
    }
}

/// Where text inserted before column `col` of row `row` goes.
pub open spec fn prepend_point(lens: Seq<usize>, row: usize, col: usize) -> Result<
    (usize, usize),
    BufferError,
> {
    match row_end(lens, row) {
        Err(e) => Err(e),
        Ok((_, max_col)) => if col > max_col + 1 {
            Err(BufferError::ColOutOfBounds(col, max_col))
        } else {
            Ok((row, sat_sub_one(col)))
        },
    }
}

/// What a buffer looks like at one moment: the byte length of each line, and the
/// cursor of the window that shows it, if one does.
pub struct BufferState {
    line_lens: Vec<usize>,
    window_cursor: Option<(usize, usize)>,
}

/// Editing helpers: each says where an edit or a cursor move goes, or why it
/// cannot be made.
pub trait BufferUtils {
    spec fn lens(&self) -> Seq<usize>;

    spec fn win(&self) -> Option<(usize, usize)>;

    spec fn wf(&self) -> bool;

    fn max_row(&self) -> (r: Result<usize, BufferError>)
        requires
            self.wf(),
        ensures
            r == Ok::<usize, BufferError>(last_row(self.lens())),
    ;

    fn max_row_pos(&self, row: usize) -> (r: Result<(usize, usize), BufferError>)
        requires
            self.wf(),
        ensures
            r == row_end(self.lens(), row),
    ;

    fn max_pos(&self) -> (r: Result<(usize, usize), BufferError>)
        requires
            self.wf(),
        ensures
            r == row_end(self.lens(), last_row(self.lens())),
            r == Ok::<(usize, usize), BufferError>(
                (last_row(self.lens()), self.lens()[last_row(self.lens()) as int]),
            ),
    ;

    fn get_cursor(&self) -> (r: Result<(usize, usize), BufferError>)
        requires
            self.wf(),
        ensures
            r == cursor_of(self.lens(), self.win()),
    ;

    /// The window cursor that puts the cursor at `(row, col)`.
    fn set_cursor(&self, row: usize, col: usize) -> (r: Result<(usize, usize), BufferError>)
        requires
            self.wf(),
        ensures
            r == window_cursor_for(self.lens(), self.win(), row, col),
    ;

    /// The window cursor that moves the cursor by `rows` and `cols`.
    fn move_cursor(&self, rows: usize, cols: usize) -> (r: Result<(usize, usize), BufferError>)
        requires
            self.wf(),
        ensures
            r == window_cursor_moved(self.lens(), self.win(), rows, cols),
    ;

    fn append_at_position(&self, row: usize, col: usize) -> (r: Result<(usize, usize), BufferError>)
        requires
            self.wf(),
        ensures
            r == append_point(self.lens(), row, col),
    ;

    fn prepend_at_position(&self, row: usize, col: usize) -> (r: Result<
        (usize, usize),
        BufferError,
    >)
        requires
            self.wf(),
        ensures
            r == prepend_point(self.lens(), row, col),
    ;

    /// Where text appended to the buffer goes: the end of its last line.
    fn append(&self) -> (r: Result<(usize, usize), BufferError>)
        requires
            self.wf(),
        ensures
            r == append_point(self.lens(), last_row(self.lens()), self.lens()[last_row(self.lens()) as int]),
            r == Ok::<(usize, usize), BufferError>(
                (last_row(self.lens()), self.lens()[last_row(self.lens()) as int]),
            ),
    ;

    /// Where text prepended to the buffer goes: the start of its first line.
    fn prepend(&self) -> (r: Result<(usize, usize), BufferError>)
        requires
            self.wf(),
        ensures
            r == prepend_point(self.lens(), 0, 0),
            r == Ok::<(usize, usize), BufferError>((0, 0)),
    ;

    fn append_at_cursor(&self) -> (r: Result<(usize, usize), BufferError>)
        requires
            self.wf(),
        ensures
            r == match cursor_of(self.lens(), self.win()) {
                Err(e) => Err(e),
                Ok((row, col)) => append_point(self.lens(), row, col),
            },
    ;

    fn prepend_at_cursor(&self) -> (r: Result<(usize, usize), BufferError>)
        requires
            self.wf(),
        ensures
            r == match cursor_of(self.lens(), self.win()) {
                Err(e) => Err(e),
                Ok((row, col)) => prepend_point(self.lens(), row, col),
            },
    ;
}

fn sat_add_exec(a: usize, b: usize) -> (r: usize)
    ensures
        r == sat_add(a, b),
{
    if a > usize::MAX - b {
        usize::MAX
    } else {
        a + b
    }
}

fn sat_sub_one_exec(a: usize) -> (r: usize)
    ensures
        r == sat_sub_one(a),
{
    if a == 0 {
        0
    } else {
        a - 1
    }
}

impl BufferState {
    /// A snapshot of a buffer with lines of the byte lengths `line_lens` (a buffer
    /// always has a line), shown where `window_cursor` is `Some` in a window with
    /// that cursor (a 1-based row).
    pub fn new(line_lens: Vec<usize>, window_cursor: Option<(usize, usize)>) -> (s: Self)
        requires
            line_lens@.len() >= 1,
            window_cursor matches Some((r, c)) ==> r >= 1 && c < usize::MAX,
        ensures
            s.wf(),
            s.lens() == line_lens@,
            s.win() == window_cursor,
    {
        BufferState { line_lens, window_cursor }
    }
}

impl BufferUtils for BufferState {
    closed spec fn lens(&self) -> Seq<usize> {
        self.line_lens@
    }

    closed spec fn win(&self) -> Option<(usize, usize)> {
        self.window_cursor
    }

    closed spec fn wf(&self) -> bool {
        &&& self.line_lens@.len() >= 1
        &&& self.window_cursor matches Some((r, c)) ==> r >= 1 && c < usize::MAX
    }

    fn max_row(&self) -> (r: Result<usize, BufferError>) {
        Ok(self.line_lens.len() - 1)
    }

    fn max_row_pos(&self, row: usize) -> (r: Result<(usize, usize), BufferError>) {
        let n = self.line_lens.len();
        if row >= n {
            Err(BufferError::RowOutOfBounds(row, n - 1))
        } else {
            Ok((row, self.line_lens[row]))
        }
    }

    fn max_pos(&self) -> (r: Result<(usize, usize), BufferError>) {
        let last = self.line_lens.len() - 1;
        self.max_row_pos(last)
    }

    fn get_cursor(&self) -> (r: Result<(usize, usize), BufferError>) {
        match self.window_cursor {
            None => Err(BufferError::NotVisible),
            Some((r, c)) => {
                let row = r - 1;
                match self.max_row_pos(row) {
                    Err(e) => Err(e),
                    Ok((_, len)) => if len == 0 {
                        Ok((row, 0))
                    } else {
                        Ok((row, c + 1))
                    },
                }
            },
        }
    }

    fn set_cursor(&self, row: usize, col: usize) -> (r: Result<(usize, usize), BufferError>) {
        if self.window_cursor.is_none() {
            return Err(BufferError::NotVisible);
        }
        let n = self.line_lens.len();
        match self.max_row_pos(row) {
            Err(e) => Err(e),
            Ok((_, max_col)) => if col > max_col {
                Err(BufferError::ColOutOfBounds(col, max_col))
            } else {
                assert(row < n);
                Ok((row + 1, sat_sub_one_exec(col)))
            },
        }
    }

    fn move_cursor(&self, rows: usize, cols: usize) -> (r: Result<(usize, usize), BufferError>) {
        match self.get_cursor() {
            Err(e) => Err(e),
            Ok((row, col)) => self.set_cursor(sat_add_exec(row, rows), sat_add_exec(col, cols)),
        }
    }

    fn append_at_position(&self, row: usize, col: usize) -> (r: Result<(usize, usize), BufferError>) {
        match self.max_row_pos(row) {
            Err(e) => Err(e),
            Ok((_, max_col)) => if col > max_col {
                Err(BufferError::ColOutOfBounds(col, max_col))
            } else {
                Ok((row, col))
            },
        }
    }

    fn prepend_at_position(&self, row: usize, col: usize) -> (r: Result<
        (usize, usize),
        BufferError,
    >) {
        match self.max_row_pos(row) {
            Err(e) => Err(e),
            Ok((_, max_col)) => if col > max_col && col - max_col > 1 {
                Err(BufferError::ColOutOfBounds(col, max_col))
            } else {
                Ok((row, sat_sub_one_exec(col)))
            },
        }
    }

    fn append(&self) -> (r: Result<(usize, usize), BufferError>) {
        match self.max_pos() {
            Err(e) => Err(e),
            Ok((row, col)) => self.append_at_position(row, col),
        }
    }

    fn prepend(&self) -> (r: Result<(usize, usize), BufferError>) {
        self.prepend_at_position(0, 0)
    }

    fn append_at_cursor(&self) -> (r: Result<(usize, usize), BufferError>) {
        match self.get_cursor() {
            Err(e) => Err(e),
            Ok((row, col)) => self.append_at_position(row, col),
        }
    }

    fn prepend_at_cursor(&self) -> (r: Result<(usize, usize), BufferError>) {
        match self.get_cursor() {
            Err(e) => Err(e),
            Ok((row, col)) => self.prepend_at_position(row, col),
        }
    }
}

} // verus!
