use vstd::prelude::*;
use crate::input::Action;
use crate::model::EditorState;
use crate::text::{indent_len, min_nat, spaces};

verus! {

/// Every action keeps the cursor inside the viewport and on an existing
/// position of an existing line.
pub proof fn lemma_apply_keeps_inv(s: EditorState, action: Action)
    requires
        s.inv(),
    ensures
        s.apply(action).inv(),
{
    match action {
        Action::InsertNewLine => {
            let m = EditorState { mode: crate::input::Mode::Insert, ..s };
            let t = m.insert_new_line();
            assert(t.lines.len() == s.lines.len() + 1);
            assert(t.current_line() == spaces(m.carried_indent()) + s.current_line().subrange(
                s.col as int,
                s.current_line().len() as int,
            ));
        },
        _ => {},
    }
}

/// Any run of actions keeps the cursor inside the viewport and on an existing
/// position of an existing line.
pub proof fn lemma_run_keeps_inv(s: EditorState, actions: Seq<Action>)
    requires
        s.inv(),
    ensures
        s.run(actions).inv(),
    decreases actions.len(),
{
    if actions.len() > 0 {
        lemma_apply_keeps_inv(s, actions[0]);
        lemma_run_keeps_inv(s.apply(actions[0]), actions.drop_first());
    }
}

pub open spec fn is_horizontal(a: Action) -> bool {
    a == Action::MoveLeft || a == Action::MoveRight
}

pub open spec fn is_vertical(a: Action) -> bool {
    a == Action::MoveUp || a == Action::MoveDown
}

/// Under any sequence of left and right moves the column stays between 0 and
/// the length of the current line, which itself does not change.
pub proof fn lemma_horizontal_moves_keep_col(s: EditorState, moves: Seq<Action>)
    requires
        s.inv(),
        forall|i: int| 0 <= i < moves.len() ==> is_horizontal(#[trigger] moves[i]),
    ensures
        s.run(moves).col <= s.run(moves).current_line().len(),
        s.run(moves).lines == s.lines,
        s.run(moves).doc_row() == s.doc_row(),
    decreases moves.len(),
{
    if moves.len() > 0 {
        assert(is_horizontal(moves[0]));
        let rest = moves.drop_first();
        assert forall|i: int| 0 <= i < rest.len() implies is_horizontal(#[trigger] rest[i]) by {
            assert(rest[i] == moves[i + 1]);
        }
        lemma_apply_keeps_inv(s, moves[0]);
        lemma_horizontal_moves_keep_col(s.apply(moves[0]), rest);
    }
}

/// Under any sequence of up and down moves the cursor's document line
/// (viewport row plus scroll offset) stays an existing line, the viewport row
/// stays inside the viewport, and the text and the desired column do not change.
pub proof fn lemma_vertical_moves_stay_in_document(s: EditorState, moves: Seq<Action>)
    requires
        s.inv(),
        forall|i: int| 0 <= i < moves.len() ==> is_vertical(#[trigger] moves[i]),
    ensures
        s.run(moves).doc_row() < s.run(moves).lines.len(),
        s.run(moves).row < s.run(moves).visible_rows(),
        s.run(moves).lines == s.lines,
        s.run(moves).desired_col == s.desired_col,
    decreases moves.len(),
{
    if moves.len() > 0 {
        assert(is_vertical(moves[0]));
        let rest = moves.drop_first();
        assert forall|i: int| 0 <= i < rest.len() implies is_vertical(#[trigger] rest[i]) by {
            assert(rest[i] == moves[i + 1]);
        }
        lemma_apply_keeps_inv(s, moves[0]);
        lemma_vertical_moves_stay_in_document(s.apply(moves[0]), rest);
    }
}

/// Inserting a character and then deleting the one before the cursor gives
/// back the text and the column from before the insertion.
pub proof fn lemma_insert_then_delete_restores(s: EditorState, c: char)
    requires
        s.inv(),
    ensures
        s.apply(Action::InsertChar(c)).apply(Action::DeleteChar).lines == s.lines,
        s.apply(Action::InsertChar(c)).apply(Action::DeleteChar).col == s.col,
        s.apply(Action::InsertChar(c)).apply(Action::DeleteChar).doc_row() == s.doc_row(),
{
    let t = s.apply(Action::InsertChar(c));
    assert(t.current_line().remove(s.col as int) =~= s.current_line());
    assert(t.apply(Action::DeleteChar).lines =~= s.lines);
}

/// Splitting a line whose indentation is `n` characters long, with the cursor at
/// column `c`, gives a new line that starts with `min(c, n)` spaces, and puts the
/// cursor on it at that column.
pub proof fn lemma_new_line_keeps_indentation(s: EditorState)
    requires
        s.inv(),
    ensures
        ({
            let k = min_nat(s.col, indent_len(s.current_line()));
            let t = s.apply(Action::InsertNewLine);
            &&& t.doc_row() == s.doc_row() + 1
            &&& t.current_line().len() >= k
            &&& t.current_line().subrange(0, k as int) == spaces(k)
            &&& t.col == k
            &&& t.desired_col == k
        }),
{
    let k = min_nat(s.col, indent_len(s.current_line()));
    let t = s.apply(Action::InsertNewLine);
    let tail = s.current_line().subrange(s.col as int, s.current_line().len() as int);
    assert(t.current_line() == spaces(k) + tail);
    assert((spaces(k) + tail).subrange(0, k as int) =~= spaces(k));
}

/// Two moves up keep the desired column: each lands at the desired column, as
/// far as its line reaches, so a short line in between does not lose it.
pub proof fn lemma_desired_col_survives_short_line(s: EditorState)
    requires
        s.inv(),
        s.doc_row() >= 2,
    ensures
        ({
            let u = s.apply(Action::MoveUp);
            let v = u.apply(Action::MoveUp);
            &&& u.col == min_nat(s.desired_col, s.lines[s.doc_row() - 1].len())
            &&& v.col == min_nat(s.desired_col, s.lines[s.doc_row() - 2].len())
            &&& v.desired_col == s.desired_col
            &&& v.doc_row() == s.doc_row() - 2
        }),
{
}

/// Moving down from the document's last line changes nothing.
pub proof fn lemma_move_down_at_last_line(s: EditorState)
    requires
        s.inv(),
        s.doc_row() + 1 == s.lines.len(),
    ensures
        s.apply(Action::MoveDown) == s,
{
}

} // verus!
