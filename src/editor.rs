use vstd::prelude::*;
use crate::input::{event_action, handle_insert_mode, handle_normal_mode, Action, Event, Mode};
use crate::model::{mode_label, EditorState};
use crate::text::{spaces, Buffer};

verus! {

/// The editing engine: owns the buffer and the cursor, and is the only place
/// where either changes.
pub struct Editor {
    mode: Mode,
    c_row: usize,
    c_col: usize,
    c_col_prev: usize,
    size_cols: u16,
    size_rows: u16,
    scroll: usize,
    buffer: Buffer,
}

impl View for Editor {
    type V = EditorState;

    closed spec fn view(&self) -> EditorState {
        EditorState {
            mode: self.mode,
            row: self.c_row as nat,
            col: self.c_col as nat,
            desired_col: self.c_col_prev as nat,
            scroll: self.scroll as nat,
            size_cols: self.size_cols as nat,
            size_rows: self.size_rows as nat,
            lines: self.buffer@,
            name: self.buffer.name_view(),
        }
    }
}

/// The starting state over `lines`: normal mode, cursor at the top left.
pub open spec fn initial_state(
    lines: Seq<Seq<char>>,
    name: Seq<char>,
    size_cols: nat,
    size_rows: nat,
) -> EditorState {
    EditorState {
        mode: Mode::Normal,
        row: 0,
        col: 0,
        desired_col: 0,
        scroll: 0,
        size_cols,
        size_rows,
        lines,
        name,
    }
}

impl Editor {
    pub fn new(buffer: Buffer, size_cols: u16, size_rows: u16) -> (e: Editor)
        requires
            buffer@.len() > 0,
        ensures
            e@ == initial_state(buffer@, buffer.name_view(), size_cols as nat, size_rows as nat),
            e@.inv(),
    {
        Editor {
            mode: Mode::Normal,
            c_row: 0,
            c_col: 0,
            c_col_prev: 0,
            size_cols,
            size_rows,
            scroll: 0,
            buffer,
        }
    }

    /// Terminal rows left for the document under the status line.
    pub fn v_height(&self) -> (h: usize)
        ensures
            h == if self@.size_rows == 0 { 0 } else { self@.size_rows - 1 },
    {
        if self.size_rows == 0 {
            0
        } else {
            (self.size_rows - 1) as usize
        }
    }

    pub fn v_width(&self) -> (w: usize)
        ensures
            w == self@.size_cols,
    {
        self.size_cols as usize
    }

    /// Document line under the cursor.
    fn doc_row(&self) -> (d: usize)
        requires
            self@.doc_row() < self@.lines.len(),
        ensures
            d == self@.doc_row(),
    {
        let n = self.buffer.len();
        assert(self.c_row + self.scroll < n);
        self.c_row + self.scroll
    }

    fn visible_rows(&self) -> (n: usize)
        ensures
            n == self@.visible_rows(),
    {
        if self.size_rows >= 2 {
            (self.size_rows - 1) as usize
        } else {
            1
        }
    }

    /// The line under the cursor and the cursor's column in it.
    pub fn current_line(&self) -> (r: (&Vec<char>, usize))
        requires
            self@.inv(),
        ensures
            r.0@ == self@.current_line(),
            r.1 == self@.col,
    {
        (self.buffer.line(self.doc_row()), self.c_col)
    }

    pub fn get_current_line_len(&self) -> (n: usize)
        requires
            self@.doc_row() < self@.lines.len(),
        ensures
            n == self@.current_line().len(),
    {
        self.buffer.line_len(self.doc_row())
    }

    /// Text of screen row `i`, padded with spaces to the terminal's width.
    pub fn render_line(&self, i: usize) -> (r: Vec<char>)
        requires
            self@.inv(),
        ensures
            r@ == self@.screen_line(i as nat),
    {
        let n = self.buffer.len();
        let mut r: Vec<char> = Vec::new();
        if i < n - self.scroll {
            let line = self.buffer.line(i + self.scroll);
            let mut j: usize = 0;
            while j < line.len()
                invariant
                    j <= line@.len(),
                    r@ == line@.subrange(0, j as int),
                decreases line@.len() - j,
            {
                r.push(line[j]);
                j = j + 1;
                assert(r@ =~= line@.subrange(0, j as int));
            }
            assert(r@ =~= line@);
        }
        let ghost text = r@;
        let width = self.v_width();
        while r.len() < width
            invariant
                text.len() <= r@.len() <= width || (r@.len() == text.len() && text.len() > width),
                r@ == text + spaces((r@.len() - text.len()) as nat),
            decreases width - r@.len(),
        {
            r.push(' ');
            assert(r@ =~= text + spaces((r@.len() - text.len()) as nat));
        }
        assert(text.len() < width ==> r@.len() == width);
        assert(text.len() >= width ==> r@ =~= text);
        r
    }

    /// Three-letter code of the current mode for the status line.
    pub fn mode_label(&self) -> (r: &'static str)
        ensures
            r@ == mode_label(self@.mode),
    {
        proof {
            reveal_strlit("NOR");
            reveal_strlit("INS");
        }
        match self.mode {
            Mode::Normal => "NOR",
            Mode::Insert => "INS",
        }
    }

    pub fn mode(&self) -> (m: Mode)
        ensures
            m == self@.mode,
    {
        self.mode
    }

    /// Cursor row inside the viewport.
    pub fn row(&self) -> (r: usize)
        ensures
            r == self@.row,
    {
        self.c_row
    }

    pub fn col(&self) -> (c: usize)
        ensures
            c == self@.col,
    {
        self.c_col
    }

    pub fn desired_col(&self) -> (c: usize)
        ensures
            c == self@.desired_col,
    {
        self.c_col_prev
    }

    pub fn scroll(&self) -> (s: usize)
        ensures
            s == self@.scroll,
    {
        self.scroll
    }

    pub fn buffer(&self) -> (b: &Buffer)
        ensures
            b@ == self@.lines,
            b.name_view() == self@.name,
    {
        &self.buffer
    }

    pub fn move_left(&mut self)
        requires
            old(self)@.inv(),
        ensures
            final(self)@ == old(self)@.move_left(),
            final(self)@.inv(),
    {
        if self.c_col > 0 {
            self.c_col = self.c_col - 1;
        }
        self.c_col_prev = self.c_col;
    }

    pub fn move_right(&mut self)
        requires
            old(self)@.inv(),
        ensures
            final(self)@ == old(self)@.move_right(),
            final(self)@.inv(),
    {
        if self.c_col < self.get_current_line_len() {
            self.c_col = self.c_col + 1;
            self.c_col_prev = self.c_col;
        }
    }

    /// Puts the column back at the desired one, as far as the line reaches.
    fn settle_col(&mut self)
        requires
            old(self)@.lines.len() > 0,
            old(self)@.row < old(self)@.visible_rows(),
            old(self)@.doc_row() < old(self)@.lines.len(),
        ensures
            final(self)@ == old(self)@.settle_col(),
            final(self)@.inv(),
    {
        let len = self.get_current_line_len();
        if self.c_col_prev <= len {
            self.c_col = self.c_col_prev;
        } else {
            self.c_col = len;
        }
    }

    pub fn move_up(&mut self)
        requires
            old(self)@.inv(),
        ensures
            final(self)@ == old(self)@.move_up(),
            final(self)@.inv(),
    {
        if self.c_row > 0 {
            self.c_row = self.c_row - 1;
            self.settle_col();
        } else if self.scroll > 0 {
            self.scroll = self.scroll - 1;
            self.settle_col();
        }
    }

    /// Moves the cursor one document line down in the viewport, scrolling at
    /// its bottom edge; the column is left to the caller.
    fn view_down(&mut self)
        requires
            old(self)@.doc_row() + 1 < old(self)@.lines.len(),
        ensures
            final(self)@ == old(self)@.view_down(),
    {
        let n = self.buffer.len();
        assert(self.c_row + self.scroll + 1 < n);
        if self.c_row + 1 < self.visible_rows() {
            self.c_row = self.c_row + 1;
        } else {
            self.scroll = self.scroll + 1;
        }
    }

    pub fn move_down(&mut self)
        requires
            old(self)@.inv(),
        ensures
            final(self)@ == old(self)@.move_down(),
            final(self)@.inv(),
    {
        let doc = self.doc_row();
        if doc < self.buffer.len() - 1 {
            self.view_down();
            self.settle_col();
        }
    }

    pub fn move_to_line_begin(&mut self)
        requires
            old(self)@.inv(),
        ensures
            final(self)@ == old(self)@.move_to_line_begin(),
            final(self)@.inv(),
    {
        self.c_col = 0;
        self.c_col_prev = 0;
    }

    /// Inserts `c` at the cursor and moves the cursor past it.
    pub fn insert_char(&mut self, c: char)
        requires
            old(self)@.inv(),
        ensures
            final(self)@ == old(self)@.insert_char(c),
            final(self)@.inv(),
    {
        let doc = self.doc_row();
        self.buffer.insert_char(doc, self.c_col, c);
        // The lengthened line's length bounds the new column.
        let new_len = self.buffer.line_len(doc);
        assert(self.c_col < new_len);
        self.c_col = self.c_col + 1;
        self.c_col_prev = self.c_col;
    }

    /// Deletes the character before the cursor; at column 0 nothing happens.
    pub fn delete_char(&mut self)
        requires
            old(self)@.inv(),
        ensures
            final(self)@ == old(self)@.delete_char(),
            final(self)@.inv(),
    {
        if self.c_col > 0 {
            let doc = self.doc_row();
            self.buffer.delete_char_before(doc, self.c_col);
            self.c_col = self.c_col - 1;
            self.c_col_prev = self.c_col;
        }
    }

    /// Splits the line at the cursor; the cursor goes to the new line, after
    /// the indentation carried over.
    pub fn insert_new_line(&mut self)
        requires
            old(self)@.inv(),
        ensures
            final(self)@ == old(self)@.insert_new_line(),
            final(self)@.inv(),
    {
        let doc = self.doc_row();
        let indent = self.buffer.split_line(doc, self.c_col);
        self.view_down();
        self.c_col = indent;
        self.c_col_prev = indent;
    }

    /// Applies `action`; the result tells whether the editor keeps running.
    pub fn apply(&mut self, action: Action) -> (running: bool)
        requires
            old(self)@.inv(),
        ensures
            final(self)@ == old(self)@.apply(action),
            final(self)@.inv(),
            running == (action != Action::Quit),
    {
        match action {
            Action::Quit => {
                return false;
            },
            Action::MoveLeft => self.move_left(),
            Action::MoveRight => self.move_right(),
            Action::MoveUp => self.move_up(),
            Action::MoveDown => self.move_down(),
            Action::MoveToLineBegin => self.move_to_line_begin(),
            Action::InsertNewLine => {
                self.mode = Mode::Insert;
                self.insert_new_line();
            },
            Action::ChangeMode(m) => self.mode = m,
            Action::InsertChar(c) => self.insert_char(c),
            Action::DeleteChar => self.delete_char(),
        }
        true
    }

    /// Takes new terminal dimensions, scrolling so that the cursor stays on
    /// its document line and inside the viewport.
    pub fn resize(&mut self, cols: u16, rows: u16)
        requires
            old(self)@.inv(),
        ensures
            final(self)@ == old(self)@.resized(cols as nat, rows as nat),
            final(self)@.inv(),
    {
        // The cursor's document line bounds the new scroll offset.
        let doc = self.doc_row();
        assert(self.scroll + self.c_row == doc);
        self.size_cols = cols;
        self.size_rows = rows;
        let vis = self.visible_rows();
        if self.c_row >= vis {
            self.scroll = self.scroll + (self.c_row - (vis - 1));
            self.c_row = vis - 1;
        }
    }

    /// Takes one input event: a resize is applied at once; the action the
    /// event stands for in the current mode is returned, to be applied.
    pub fn handle_event(&mut self, event: Event) -> (r: Option<Action>)
        requires
            old(self)@.inv(),
        ensures
            r == event_action(old(self)@.mode, event),
            final(self)@ == (match event {
                Event::Resize(cols, rows) => old(self)@.resized(cols as nat, rows as nat),
                _ => old(self)@,
            }),
            final(self)@.inv(),
    {
        if let Event::Resize(cols, rows) = event {
            self.resize(cols, rows);
        }
        match self.mode {
            Mode::Normal => handle_normal_mode(event),
            Mode::Insert => handle_insert_mode(event),
        }
    }
}

} // verus!
