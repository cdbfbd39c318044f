use vstd::prelude::*;
use crate::input::{Action, Mode};
use crate::text::{indent_len, min_nat, spaces, split_at};

verus! {

/// The editor's whole state, as plain mathematical values.
pub ghost struct EditorState {
    pub mode: Mode,
    /// Cursor row inside the viewport.
    pub row: nat,
    /// Cursor column inside the current line.
    pub col: nat,
    /// Column that vertical moves try to return to.
    pub desired_col: nat,
    /// Number of document lines above the viewport.
    pub scroll: nat,
    pub size_cols: nat,
    pub size_rows: nat,
    pub lines: Seq<Seq<char>>,
    pub name: Seq<char>,
}

/// Three-letter code of `mode` shown in the status line.
pub open spec fn mode_label(mode: Mode) -> Seq<char> {
    match mode {
        Mode::Normal => seq!['N', 'O', 'R'],
        Mode::Insert => seq!['I', 'N', 'S'],
    }
}

impl EditorState {
    /// Document line under the cursor.
    pub open spec fn doc_row(self) -> nat {
        self.row + self.scroll
    }

    pub open spec fn current_line(self) -> Seq<char> {
        self.lines[self.doc_row() as int]
    }

    /// Rows available to the document: the terminal's rows less the status
    /// line, and at least one.
    pub open spec fn visible_rows(self) -> nat {
        if self.size_rows >= 2 {
            (self.size_rows - 1) as nat
        } else {
            1
        }
    }

    /// The cursor is inside the viewport and on an existing position.
    pub open spec fn inv(self) -> bool {
        &&& self.lines.len() > 0
        &&& self.row < self.visible_rows()
        &&& self.doc_row() < self.lines.len()
        &&& self.col <= self.current_line().len()
    }

    /// The cursor one document line further down, scrolling at the viewport's
    /// bottom edge.
    pub open spec fn view_down(self) -> EditorState {
        if self.row + 1 < self.visible_rows() {
            EditorState { row: self.row + 1, ..self }
        } else {
            EditorState { scroll: self.scroll + 1, ..self }
        }
    }

    /// The cursor one document line further up, scrolling at the viewport's
    /// top edge.
    pub open spec fn view_up(self) -> EditorState {
        if self.row > 0 {
            EditorState { row: (self.row - 1) as nat, ..self }
        } else {
            EditorState { scroll: (self.scroll - 1) as nat, ..self }
        }
    }

    /// On arriving at a line vertically, the column goes back to the desired
    /// one, as far as the line reaches.
    pub open spec fn settle_col(self) -> EditorState {
        EditorState { col: min_nat(self.desired_col, self.current_line().len()), ..self }
    }

    /// One column left, stopping at column 0; the desired column follows the
    /// column either way.
    pub open spec fn move_left(self) -> EditorState {
        let col: nat = if self.col > 0 {
            (self.col - 1) as nat
        } else {
            0
        };
        EditorState { col: col, desired_col: col, ..self }
    }

    pub open spec fn move_right(self) -> EditorState {
        if self.col < self.current_line().len() {
            EditorState { col: self.col + 1, desired_col: self.col + 1, ..self }
        } else {
            self
        }
    }

    /// Moving up from the first document line does nothing.
    pub open spec fn move_up(self) -> EditorState {
        if self.doc_row() == 0 {
            self
        } else {
            self.view_up().settle_col()
        }
    }

    /// Moving down from the last document line does nothing.
    pub open spec fn move_down(self) -> EditorState {
        if self.doc_row() + 1 >= self.lines.len() {
            self
        } else {
            self.view_down().settle_col()
        }
    }

    pub open spec fn move_to_line_begin(self) -> EditorState {
        EditorState { col: 0, desired_col: 0, ..self }
    }

    pub open spec fn insert_char(self, c: char) -> EditorState {
        EditorState {
            lines: self.lines.update(
                self.doc_row() as int,
                self.current_line().insert(self.col as int, c),
            ),
            col: self.col + 1,
            desired_col: self.col + 1,
            ..self
        }
    }

    /// At column 0 nothing is deleted and lines are not joined.
    pub open spec fn delete_char(self) -> EditorState {
        if self.col == 0 {
            self
        } else {
            EditorState {
                lines: self.lines.update(
                    self.doc_row() as int,
                    self.current_line().remove(self.col - 1),
                ),
                col: (self.col - 1) as nat,
                desired_col: (self.col - 1) as nat,
                ..self
            }
        }
    }

    /// Indentation that a split at the cursor carries over to the new line.
    pub open spec fn carried_indent(self) -> nat {
        min_nat(self.col, indent_len(self.current_line()))
    }

    /// Splits the current line at the cursor and puts the cursor on the new
    /// line, just after the indentation carried over.
    pub open spec fn insert_new_line(self) -> EditorState {
        let k = self.carried_indent();
        let moved = self.view_down();
        EditorState {
            lines: split_at(self.lines, self.doc_row() as int, self.col as int, k),
            col: k,
            desired_col: k,
            ..moved
        }
    }

    /// The state after `action`. Quitting leaves the state as it is.
    pub open spec fn apply(self, action: Action) -> EditorState {
        match action {
            Action::MoveLeft => self.move_left(),
            Action::MoveRight => self.move_right(),
            Action::MoveUp => self.move_up(),
            Action::MoveDown => self.move_down(),
            Action::MoveToLineBegin => self.move_to_line_begin(),
            Action::DeleteChar => self.delete_char(),
            Action::InsertNewLine => EditorState { mode: Mode::Insert, ..self }.insert_new_line(),
            Action::ChangeMode(m) => EditorState { mode: m, ..self },
            Action::InsertChar(c) => self.insert_char(c),
            Action::Quit => self,
        }
    }

    /// The state after each of `actions` in turn.
    pub open spec fn run(self, actions: Seq<Action>) -> EditorState
        decreases actions.len(),
    {
        if actions.len() == 0 {
            self
        } else {
            self.apply(actions[0]).run(actions.drop_first())
        }
    }

    /// Text of screen row `i`: the document line shown there, or nothing below
    /// the document's end, padded with spaces to the terminal's width.
    pub open spec fn screen_line(self, i: nat) -> Seq<char> {
        let d = i + self.scroll;
        let text = if d < self.lines.len() {
            self.lines[d as int]
        } else {
            Seq::<char>::empty()
        };
        if text.len() >= self.size_cols {
            text
        } else {
            text + spaces((self.size_cols - text.len()) as nat)
        }
    }

    /// New terminal dimensions; a cursor left below the viewport is pulled back
    /// into it by scrolling, so that it stays on the same document line.
    pub open spec fn resized(self, cols: nat, rows: nat) -> EditorState {
        let s = EditorState { size_cols: cols, size_rows: rows, ..self };
        if s.row < s.visible_rows() {
            s
        } else {
            EditorState {
                row: (s.visible_rows() - 1) as nat,
                scroll: (s.scroll + s.row - (s.visible_rows() - 1)) as nat,
                ..s
            }
        }
    }
}

} // verus!
