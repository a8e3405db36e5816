//! What holds of the operations taken together.

use vstd::prelude::*;
use crate::action::Action;
use crate::app::AppMode;
use crate::handler::{action_of, after_key, KeyEvent};
use crate::model::AppView;

verus! {

/// No operation takes the cursor off the board: after any operation on a
/// well-formed board the board is well-formed, so the cursor's column names
/// a list and its row names a card of it, or is 0 in an empty list.
pub proof fn lemma_step_keeps_cursor_in_bounds(s: AppView, action: Action)
    requires
        s.wf(),
    ensures
        s.apply(action).wf(),
{
    // Each operation is looked at on its own, which keeps every case small.
    match action {
        Action::MotionLeft => {},
        Action::MotionDown => {},
        Action::MotionUp => {},
        Action::MotionRight => {},
        Action::MoveLeft => {},
        Action::MoveDown => {},
        Action::MoveUp => {},
        Action::MoveRight => {},
        Action::EditCard => {},
        Action::TypeCard(c) => {},
        Action::BackspaceCard => {},
        Action::CancelCardEdit => {},
        Action::AppendCard => {},
        Action::PrependCard => {},
        Action::RemoveCard => {},
        Action::EditList => {},
        Action::TypeList(c) => {},
        Action::BackspaceList => {},
        Action::CancelListEdit => {},
        Action::AppendList => {},
        Action::PrependList => {},
        Action::RemoveList => {},
        Action::DoneEditing => {},
        Action::Quit => {},
    }
}

/// After each operation of any sequence of operations on a well-formed
/// board, the board is well-formed.
pub proof fn lemma_run_keeps_cursor_in_bounds(s: AppView, actions: Seq<Action>)
    requires
        s.wf(),
    ensures
        forall|k: int| 0 <= k <= actions.len() ==> (#[trigger] s.run(actions.take(k))).wf(),
    decreases actions.len(),
{
    assert forall|k: int| 0 <= k <= actions.len() implies (#[trigger] s.run(actions.take(k))).wf() by {
        if k == actions.len() {
            assert(actions.take(k) =~= actions);
            if actions.len() > 0 {
                lemma_run_keeps_cursor_in_bounds(s, actions.drop_last());
                assert(actions.drop_last().take(k - 1) =~= actions.drop_last());
                lemma_step_keeps_cursor_in_bounds(s.run(actions.drop_last()), actions.last());
            }
        } else {
            lemma_run_keeps_cursor_in_bounds(s, actions.drop_last());
            assert(actions.drop_last().take(k) =~= actions.take(k));
        }
    }
}

/// Motions move the cursor and nothing else: after any sequence of motions
/// the lists, the mode, the kept text and the running flag are what they
/// were.
pub proof fn lemma_motions_keep_contents(s: AppView, motions: Seq<Action>)
    requires
        forall|i: int| 0 <= i < motions.len() ==> (#[trigger] motions[i]).is_motion(),
    ensures
        s.run(motions) == (AppView { row: s.run(motions).row, col: s.run(motions).col, ..s }),
    decreases motions.len(),
{
    if motions.len() > 0 {
        lemma_motions_keep_contents(s, motions.drop_last());
        assert(motions.last().is_motion());
    }
}

/// A card moved to the left and then to the right is back in its list. The
/// list on the left is what it was, and so is every other list but the
/// card's own; there the card stands at its old row, or at the row that the
/// shorter list on the left gave it.
pub proof fn lemma_move_left_then_right(s: AppView)
    requires
        s.wf(),
        s.has_card(),
        s.col > 0,
    ensures
        ({
            let t = s.move_left().move_right();
            let row = if s.row <= s.lists[s.col - 1].cards.len() {
                s.row
            } else {
                s.lists[s.col - 1].cards.len() as int
            };
            &&& t.col == s.col
            &&& t.row == row
            &&& t.card() == s.card()
            &&& t.list().cards == s.list().cards.remove(s.row).insert(row, s.card())
            &&& t == AppView { row, ..s.with_cards(s.col, t.list().cards) }
            &&& row == s.row ==> t == s
        }),
{
    let left = s.col - 1;
    let m = s.move_left();
    let t = m.move_right();
    let row = if s.row <= s.lists[left].cards.len() {
        s.row
    } else {
        s.lists[left].cards.len() as int
    };
    assert(m.lists[left].cards.remove(row) =~= s.lists[left].cards);
    assert(t.lists =~~= s.with_cards(s.col, t.list().cards).lists);
    if row == s.row {
        assert(s.list().cards.remove(s.row).insert(row, s.card()) =~= s.list().cards);
        assert(t.lists =~~= s.lists);
    }
}

/// A card moved to the right and then to the left is back in its list, as
/// in `lemma_move_left_then_right` with the sides exchanged.
pub proof fn lemma_move_right_then_left(s: AppView)
    requires
        s.wf(),
        s.has_card(),
        s.col + 1 < s.cols(),
    ensures
        ({
            let t = s.move_right().move_left();
            let row = if s.row <= s.lists[s.col + 1].cards.len() {
                s.row
            } else {
                s.lists[s.col + 1].cards.len() as int
            };
            &&& t.col == s.col
            &&& t.row == row
            &&& t.card() == s.card()
            &&& t.list().cards == s.list().cards.remove(s.row).insert(row, s.card())
            &&& t == AppView { row, ..s.with_cards(s.col, t.list().cards) }
            &&& row == s.row ==> t == s
        }),
{
    let right = s.col + 1;
    let m = s.move_right();
    let t = m.move_left();
    let row = if s.row <= s.lists[right].cards.len() {
        s.row
    } else {
        s.lists[right].cards.len() as int
    };
    assert(m.lists[right].cards.remove(row) =~= s.lists[right].cards);
    assert(t.lists =~~= s.with_cards(s.col, t.list().cards).lists);
    if row == s.row {
        assert(s.list().cards.remove(s.row).insert(row, s.card()) =~= s.list().cards);
        assert(t.lists =~~= s.lists);
    }
}

/// The characters of `typed` typed one after the other onto the card under
/// the cursor.
pub open spec fn type_card_all(s: AppView, typed: Seq<char>) -> AppView
    decreases typed.len(),
{
    if typed.len() == 0 {
        s
    } else {
        type_card_all(s, typed.drop_last()).type_card(typed.last())
    }
}

/// Typing onto a card appends what is typed to the card's text and changes
/// nothing else.
pub proof fn lemma_type_card_all(s: AppView, typed: Seq<char>)
    requires
        s.wf(),
        s.has_card(),
    ensures
        type_card_all(s, typed) == s.with_card(s.card() + typed),
    decreases typed.len(),
{
    if typed.len() == 0 {
        assert(s.card() + typed =~= s.card());
        assert(s.with_card(s.card()) =~~= s);
    } else {
        lemma_type_card_all(s, typed.drop_last());
        let before = s.with_card(s.card() + typed.drop_last());
        assert((s.card() + typed.drop_last()).push(typed.last()) =~= s.card() + typed);
        assert(before.type_card(typed.last()) =~~= s.with_card(s.card() + typed));
    }
}

/// An edit of a card that is confirmed keeps what was typed: the card holds
/// its old text followed by the typed characters, and the board is back in
/// the main mode.
pub proof fn lemma_confirmed_card_edit_keeps_typed(s: AppView, typed: Seq<char>)
    requires
        s.wf(),
        s.has_card(),
    ensures
        ({
            let t = type_card_all(s.edit_card(), typed).done_editing();
            &&& t.card() == s.card() + typed
            &&& t.mode == AppMode::Main
            &&& t == AppView { mode: AppMode::Main, prev_val: s.card(), ..s.with_card(s.card() + typed) }
        }),
{
    lemma_type_card_all(s.edit_card(), typed);
}

/// An edit of a card that is cancelled leaves no trace on the lists: every
/// card and every name is what it was when the edit began, and the board is
/// back in the main mode.
pub proof fn lemma_cancelled_card_edit_restores(s: AppView, typed: Seq<char>)
    requires
        s.wf(),
        s.has_card(),
    ensures
        ({
            let t = type_card_all(s.edit_card(), typed).cancel_card_edit();
            &&& t.card() == s.card()
            &&& t.mode == AppMode::Main
            &&& t == AppView { mode: AppMode::Main, prev_val: s.card(), ..s }
        }),
{
    lemma_type_card_all(s.edit_card(), typed);
    let t = type_card_all(s.edit_card(), typed).cancel_card_edit();
    assert(t.lists =~~= s.lists);
}

/// Whatever is typed and deleted during an edit of a card, in any order,
/// cancelling the edit gives the card back the text that it had when the
/// edit began and leaves every other card and name as it was.
pub proof fn lemma_cancel_undoes_card_session(s: AppView, keys: Seq<Action>)
    requires
        s.wf(),
        s.has_card(),
        forall|i: int| 0 <= i < keys.len() ==> (#[trigger] keys[i]).is_card_typing(),
    ensures
        s.edit_card().run(keys).cancel_card_edit() == (AppView {
            mode: AppMode::Main,
            prev_val: s.card(),
            ..s
        }),
{
    lemma_card_session(s.edit_card(), keys);
    let t = s.edit_card().run(keys).cancel_card_edit();
    assert(t.lists =~~= s.lists);
}

/// Typing and deleting on a card changes the text of that card and nothing
/// else.
pub proof fn lemma_card_session(s: AppView, keys: Seq<Action>)
    requires
        s.wf(),
        s.has_card(),
        forall|i: int| 0 <= i < keys.len() ==> (#[trigger] keys[i]).is_card_typing(),
    ensures
        s.run(keys) == s.with_card(s.run(keys).card()),
    decreases keys.len(),
{
    if keys.len() == 0 {
        assert(s.with_card(s.card()) =~~= s);
    } else {
        lemma_card_session(s, keys.drop_last());
        assert(keys.last().is_card_typing());
        assert(s.run(keys) =~~= s.with_card(s.run(keys).card()));
    }
}

/// The characters of `typed` typed one after the other onto the name of the
/// list under the cursor.
pub open spec fn type_list_all(s: AppView, typed: Seq<char>) -> AppView
    decreases typed.len(),
{
    if typed.len() == 0 {
        s
    } else {
        type_list_all(s, typed.drop_last()).type_list(typed.last())
    }
}

/// Typing onto a list's name appends what is typed to the name and changes
/// nothing else.
pub proof fn lemma_type_list_all(s: AppView, typed: Seq<char>)
    requires
        s.wf(),
    ensures
        type_list_all(s, typed) == s.with_name(s.list().name + typed),
    decreases typed.len(),
{
    if typed.len() == 0 {
        assert(s.list().name + typed =~= s.list().name);
        assert(s.with_name(s.list().name) =~~= s);
    } else {
        lemma_type_list_all(s, typed.drop_last());
        let before = s.with_name(s.list().name + typed.drop_last());
        assert((s.list().name + typed.drop_last()).push(typed.last()) =~= s.list().name + typed);
        assert(before.type_list(typed.last()) =~~= s.with_name(s.list().name + typed));
    }
}

/// An edit of a list's name that is confirmed keeps what was typed.
pub proof fn lemma_confirmed_list_edit_keeps_typed(s: AppView, typed: Seq<char>)
    requires
        s.wf(),
    ensures
        type_list_all(s.edit_list(), typed).done_editing() == (AppView {
            mode: AppMode::Main,
            prev_val: s.list().name,
            ..s.with_name(s.list().name + typed)
        }),
{
    lemma_type_list_all(s.edit_list(), typed);
}

/// An edit of a list's name that is cancelled leaves no trace on the lists.
pub proof fn lemma_cancelled_list_edit_restores(s: AppView, typed: Seq<char>)
    requires
        s.wf(),
    ensures
        type_list_all(s.edit_list(), typed).cancel_list_edit() == (AppView {
            mode: AppMode::Main,
            prev_val: s.list().name,
            ..s
        }),
{
    lemma_type_list_all(s.edit_list(), typed);
    let t = type_list_all(s.edit_list(), typed).cancel_list_edit();
    assert(t.lists =~~= s.lists);
}

/// The board never loses its last list: `remove_list` on a board with one
/// list changes nothing, and on any well-formed board it leaves at least one
/// list.
pub proof fn lemma_remove_list_keeps_one(s: AppView)
    requires
        s.wf(),
    ensures
        s.cols() == 1 ==> s.remove_list() == s,
        s.remove_list().cols() >= 1,
        s.cols() > 1 ==> s.remove_list().cols() == s.cols() - 1,
{
}

/// `remove_card` in an empty list changes nothing.
pub proof fn lemma_remove_card_on_empty_list(s: AppView)
    requires
        s.wf(),
        s.rows() == 0,
    ensures
        s.remove_card() == s,
{
}

/// Whatever is typed and deleted during an edit of a list's name, in any
/// order, cancelling the edit gives the list back the name that it had when
/// the edit began and leaves every card and every other name as it was.
pub proof fn lemma_cancel_undoes_list_session(s: AppView, keys: Seq<Action>)
    requires
        s.wf(),
        forall|i: int| 0 <= i < keys.len() ==> (#[trigger] keys[i]).is_list_typing(),
    ensures
        s.edit_list().run(keys).cancel_list_edit() == (AppView {
            mode: AppMode::Main,
            prev_val: s.list().name,
            ..s
        }),
{
    lemma_list_session(s.edit_list(), keys);
    let t = s.edit_list().run(keys).cancel_list_edit();
    assert(t.lists =~~= s.lists);
}

/// Typing and deleting on a list's name changes that name and nothing else.
pub proof fn lemma_list_session(s: AppView, keys: Seq<Action>)
    requires
        s.wf(),
        forall|i: int| 0 <= i < keys.len() ==> (#[trigger] keys[i]).is_list_typing(),
    ensures
        s.run(keys) == s.with_name(s.run(keys).list().name),
    decreases keys.len(),
{
    if keys.len() == 0 {
        assert(s.with_name(s.list().name) =~~= s);
    } else {
        lemma_list_session(s, keys.drop_last());
        assert(keys.last().is_list_typing());
        assert(s.run(keys) =~~= s.with_name(s.run(keys).list().name));
    }
}

/// While a card is being edited there is a card under the cursor.
pub open spec fn card_edit_has_card(s: AppView) -> bool {
    s.mode == AppMode::CardEdit ==> s.has_card()
}

/// A board that is driven by key events alone stays well-formed, and never
/// finds itself editing a card where there is none: no key that is live
/// during an edit moves the cursor or deletes anything.
pub proof fn lemma_keys_keep_card_under_edit(s: AppView, ev: KeyEvent)
    requires
        s.wf(),
        card_edit_has_card(s),
    ensures
        after_key(s, ev).wf(),
        card_edit_has_card(after_key(s, ev)),
{
    match action_of(s.mode, ev) {
        Some(action) => {
            lemma_step_keeps_cursor_in_bounds(s, action);
        },
        None => {},
    }
}

/// During an edit the keys reach the edited text only: whatever keys are
/// pressed while a card is being edited, the cursor stays where it is and
/// every list keeps its name and its number of cards.
pub proof fn lemma_card_edit_keys_stay_on_card(s: AppView, ev: KeyEvent)
    requires
        s.wf(),
        s.has_card(),
        s.mode == AppMode::CardEdit,
    ensures
        ({
            let t = after_key(s, ev);
            &&& t.row == s.row
            &&& t.col == s.col
            &&& t.running == s.running
            &&& t.prev_val == s.prev_val
            &&& t.mode == AppMode::CardEdit || t.mode == AppMode::Main
            &&& t == AppView { mode: t.mode, ..s.with_card(t.card()) }
        }),
{
    let t = after_key(s, ev);
    assert(t =~~= AppView { mode: t.mode, ..s.with_card(t.card()) });
}

} // verus!
