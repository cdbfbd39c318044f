use vstd::prelude::*;

verus! {

/// Whether `c` has Unicode's White_Space property: U+0009 to U+000D, U+0020,
/// U+0085, U+00A0, U+1680, U+2000 to U+200A, U+2028, U+2029, U+202F, U+205F
/// and U+3000.
pub open spec fn white_space(c: char) -> bool {
    let u = c as u32;
    ||| 0x9 <= u <= 0xd
    ||| u == 0x20
    ||| u == 0x85
    ||| u == 0xa0
    ||| u == 0x1680
    ||| 0x2000 <= u <= 0x200a
    ||| u == 0x2028
    ||| u == 0x2029
    ||| u == 0x202f
    ||| u == 0x205f
    ||| u == 0x3000
}

/// Relies on `char::is_whitespace`: true exactly for the characters with the
/// White_Space property.
#[verifier::external_body]
fn is_white_space(c: char) -> (r: bool)
    ensures
        r == white_space(c),
{
    c.is_whitespace()
}

/// A character that counts as indentation: white space other than a line feed.
pub open spec fn is_indent_char(c: char) -> bool {
    white_space(c) && c != '\n'
}

/// Number of indentation characters in `line` starting at position `i`.
pub open spec fn indent_run_from(line: Seq<char>, i: int) -> nat
    decreases line.len() - i,
{
    if i < 0 || i >= line.len() {
        0
    } else if is_indent_char(line[i]) {
        1 + indent_run_from(line, i + 1)
    } else {
        0
    }
}

/// Length of the leading run of indentation characters of `line`.
pub open spec fn indent_len(line: Seq<char>) -> nat {
    indent_run_from(line, 0)
}

/// `n` space characters.
pub open spec fn spaces(n: nat) -> Seq<char> {
    Seq::new(n, |i: int| ' ')
}

pub open spec fn min_nat(a: nat, b: nat) -> nat {
    if a <= b {
        a
    } else {
        b
    }
}

/// The lines of `lines`, with a single empty line standing for an empty document.
pub open spec fn loaded(lines: Seq<Seq<char>>) -> Seq<Seq<char>> {
    if lines.len() == 0 {
        seq![Seq::<char>::empty()]
    } else {
        lines
    }
}

/// `text` after splitting line `row` at column `col`: the head stays, and the
/// tail follows on a new line behind `indent` spaces.
pub open spec fn split_at(text: Seq<Seq<char>>, row: int, col: int, indent: nat) -> Seq<Seq<char>> {
    let line = text[row];
    text.update(row, line.subrange(0, col)).insert(
        row + 1,
        spaces(indent) + line.subrange(col, line.len() as int),
    )
}

/// Length of the leading indentation of `line`.
pub fn indent_of(line: &Vec<char>) -> (n: usize)
    ensures
        n == indent_len(line@),
{
    let mut i: usize = 0;
    while i < line.len() && is_indent(line[i])
        invariant
            i <= line@.len(),
            indent_len(line@) == i + indent_run_from(line@, i as int),
        decreases line@.len() - i,
    {
        i = i + 1;
    }
    i
}

fn is_indent(c: char) -> (r: bool)
    ensures
        r == is_indent_char(c),
{
    c != '\n' && is_white_space(c)
}

/// A line of `n` spaces.
fn space_line(n: usize) -> (r: Vec<char>)
    ensures
        r@ == spaces(n as nat),
{
    let mut r: Vec<char> = Vec::new();
    let mut i: usize = 0;
    while i < n
        invariant
            i <= n,
            r@ == spaces(i as nat),
        decreases n - i,
    {
        r.push(' ');
        i = i + 1;
        assert(r@ =~= spaces(i as nat));
    }
    r
}

/// The ordered lines of an open document and the name it was opened under.
pub struct Buffer {
    lines: Vec<Vec<char>>,
    name: String,
}

impl View for Buffer {
    type V = Seq<Seq<char>>;

    closed spec fn view(&self) -> Seq<Seq<char>> {
        self.lines@.map_values(|l: Vec<char>| l@)
    }
}

impl Buffer {
    /// The name the buffer was opened under.
    pub closed spec fn name_view(&self) -> Seq<char> {
        self.name@
    }

    /// A buffer holding `lines`; an empty document holds one empty line.
    pub fn new(lines: Vec<Vec<char>>, name: String) -> (b: Buffer)
        ensures
            b@ == loaded(lines@.map_values(|l: Vec<char>| l@)),
            b@.len() > 0,
            b.name_view() == name@,
    {
        let mut lines = lines;
        if lines.len() == 0 {
            lines.push(Vec::new());
            assert(lines@.map_values(|l: Vec<char>| l@) =~= seq![Seq::<char>::empty()]);
        }
        Buffer { lines, name }
    }

    pub fn name(&self) -> (r: &String)
        ensures
            r@ == self.name_view(),
    {
        &self.name
    }

    /// Number of lines.
    pub fn len(&self) -> (n: usize)
        ensures
            n == self@.len(),
    {
        self.lines.len()
    }

    pub fn line(&self, row: usize) -> (r: &Vec<char>)
        requires
            row < self@.len(),
        ensures
            r@ == self@[row as int],
    {
        &self.lines[row]
    }

    pub fn line_len(&self, row: usize) -> (n: usize)
        requires
            row < self@.len(),
        ensures
            n == self@[row as int].len(),
    {
        self.lines[row].len()
    }

    /// Inserts `ch` into line `row` at column `col`.
    pub fn insert_char(&mut self, row: usize, col: usize, ch: char)
        requires
            row < old(self)@.len(),
            col <= old(self)@[row as int].len(),
        ensures
            final(self)@ == old(self)@.update(row as int, old(self)@[row as int].insert(col as int, ch)),
            final(self).name_view() == old(self).name_view(),
    {
        self.lines[row].insert(col, ch);
        assert(self@ =~= old(self)@.update(row as int, old(self)@[row as int].insert(col as int, ch)));
    }

    /// Removes the character just before column `col` of line `row`; at column 0
    /// nothing changes (lines are not joined).
    pub fn delete_char_before(&mut self, row: usize, col: usize)
        requires
            row < old(self)@.len(),
            col <= old(self)@[row as int].len(),
        ensures
            col == 0 ==> final(self)@ == old(self)@,
            col > 0 ==> final(self)@ == old(self)@.update(
                row as int,
                old(self)@[row as int].remove(col - 1),
            ),
            final(self).name_view() == old(self).name_view(),
    {
        if col > 0 {
            self.lines[row].remove(col - 1);
            assert(self@ =~= old(self)@.update(row as int, old(self)@[row as int].remove(col - 1)));
        }
    }

    /// Splits line `row` at column `col`. The new line, inserted right after it,
    /// starts with as many spaces as the line's indentation, but no more than
    /// `col`; that count is returned.
    pub fn split_line(&mut self, row: usize, col: usize) -> (indent: usize)
        requires
            row < old(self)@.len(),
            col <= old(self)@[row as int].len(),
        ensures
            indent == min_nat(col as nat, indent_len(old(self)@[row as int])),
            final(self)@ == split_at(old(self)@, row as int, col as int, indent as nat),
            final(self).name_view() == old(self).name_view(),
    {
        // The line count bounds `row + 1`.
        let count = self.lines.len();
        assert(row < count);
        let n = indent_of(&self.lines[row]);
        let indent = if col <= n { col } else { n };
        let mut tail = self.lines[row].split_off(col);
        let mut new_line = space_line(indent);
        new_line.append(&mut tail);
        self.lines.insert(row + 1, new_line);
        assert(self@ =~= split_at(old(self)@, row as int, col as int, indent as nat));
        indent
    }
}

} // verus!
