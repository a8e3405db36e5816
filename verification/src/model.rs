//! The mathematical model of the board: what a list and a board are, and what
//! each operation makes of them.

use vstd::prelude::*;
use vstd::math::{max, min};
use crate::app::AppMode;

verus! {

/// The text of each string of `v`, in order.
pub open spec fn texts(v: Seq<String>) -> Seq<Seq<char>> {
    v.map_values(|s: String| s@)
}

/// The text that a new card starts with.
pub open spec fn new_card_text() -> Seq<char> {
    "New Card"@
}

/// A list as contracts see it: its name and its cards from top to bottom.
#[verifier::ext_equal]
pub struct CardListView {
    pub name: Seq<char>,
    pub cards: Seq<Seq<char>>,
    pub todo: Seq<Seq<char>>,
}

impl CardListView {
    /// The list that `append_list` and `prepend_list` put on the board.
    pub open spec fn fresh() -> CardListView {
        CardListView { name: "New List"@, cards: seq![new_card_text()], todo: seq!["list"@] }
    }

    /// This list with other cards.
    pub open spec fn with_cards(self, cards: Seq<Seq<char>>) -> CardListView {
        CardListView { cards, ..self }
    }

    /// This list under another name.
    pub open spec fn with_name(self, name: Seq<char>) -> CardListView {
        CardListView { name, ..self }
    }
}

/// `text` without its last character; an empty text stays empty.
pub open spec fn without_last(text: Seq<char>) -> Seq<char> {
    if text.len() > 0 {
        text.drop_last()
    } else {
        text
    }
}

/// `cards` with the cards at `a` and `b` exchanged.
pub open spec fn swapped(cards: Seq<Seq<char>>, a: int, b: int) -> Seq<Seq<char>> {
    cards.update(a, cards[b]).update(b, cards[a])
}

/// A board as contracts see it. `lists` runs from left to right; the cursor
/// stands on list `col` and, where that list has cards, on its card `row`.
#[verifier::ext_equal]
pub struct AppView {
    pub running: bool,
    pub lists: Seq<CardListView>,
    pub row: int,
    pub col: int,
    pub mode: AppMode,
    pub prev_val: Seq<char>,
}

impl AppView {
    /// The board a session starts with, its one list under the name `name`.
    pub open spec fn initial(name: Seq<char>) -> AppView {
        AppView {
            running: true,
            lists: seq![
                CardListView {
                    name,
                    cards: seq!["Card 1 in List 1"@, "Card 2 in List 1"@],
                    todo: seq!["todo 1 in List 1"@, "todo 2 in List 1"@],
                },
            ],
            row: 0,
            col: 0,
            mode: AppMode::Main,
            prev_val: Seq::empty(),
        }
    }

    /// The number of lists.
    pub open spec fn cols(self) -> int {
        self.lists.len() as int
    }

    /// The list under the cursor.
    pub open spec fn list(self) -> CardListView {
        self.lists[self.col]
    }

    /// The number of cards in the list under the cursor.
    pub open spec fn rows(self) -> int {
        self.list().cards.len() as int
    }

    /// Whether the cursor stands on a card.
    pub open spec fn has_card(self) -> bool {
        0 <= self.row < self.rows()
    }

    /// The text of the card under the cursor.
    pub open spec fn card(self) -> Seq<char> {
        self.list().cards[self.row]
    }

    /// The board is never without a list, the cursor's column names a list,
    /// and its row names a card of that list, or is 0 where the list is empty.
    pub open spec fn wf(self) -> bool {
        &&& self.lists.len() >= 1
        &&& 0 <= self.col < self.lists.len()
        &&& 0 <= self.row <= max(self.rows() - 1, 0)
    }

    /// This board with other cards in list `col`.
    pub open spec fn with_cards(self, col: int, cards: Seq<Seq<char>>) -> AppView {
        AppView { lists: self.lists.update(col, self.lists[col].with_cards(cards)), ..self }
    }

    /// This board with another text on the card under the cursor.
    pub open spec fn with_card(self, text: Seq<char>) -> AppView {
        self.with_cards(self.col, self.list().cards.update(self.row, text))
    }

    /// This board with another name on the list under the cursor.
    pub open spec fn with_name(self, name: Seq<char>) -> AppView {
        AppView { lists: self.lists.update(self.col, self.list().with_name(name)), ..self }
    }

    /// The cursor brought back inside the board: the column to the last list
    /// at most, then the row to the last card of that list at most.
    pub open spec fn clamp(self) -> AppView {
        let col = min(self.col, max(self.cols() - 1, 0));
        let row = min(self.row, max(self.lists[col].cards.len() - 1, 0));
        AppView { col, row, ..self }
    }

    /// The session asked to end; the board itself stays as it is.
    pub open spec fn quit(self) -> AppView {
        AppView { running: false, ..self }
    }

    /// The cursor one list to the left, if there is one, and back on a card of
    /// the list that it comes to.
    pub open spec fn motion_left(self) -> AppView {
        AppView { col: max(self.col - 1, 0), ..self }.clamp()
    }

    /// The cursor one list to the right, if there is one, and back on a card
    /// of the list that it comes to.
    pub open spec fn motion_right(self) -> AppView {
        AppView { col: self.col + 1, ..self }.clamp()
    }

    /// The cursor one card up, if there is one.
    pub open spec fn motion_up(self) -> AppView {
        AppView { row: max(self.row - 1, 0), ..self }.clamp()
    }

    /// The cursor one card down, if there is one.
    pub open spec fn motion_down(self) -> AppView {
        AppView { row: self.row + 1, ..self }.clamp()
    }

    /// The card under the cursor taken out of its list and put into list
    /// `t_col` at the cursor's row, or at that list's end if it is shorter;
    /// the cursor goes with the card.
    pub open spec fn carry_to(self, t_col: int) -> AppView {
        let t_row = min(self.row, self.lists[t_col].cards.len() as int);
        let taken = self.with_cards(self.col, self.list().cards.remove(self.row));
        let given = taken.with_cards(t_col, self.lists[t_col].cards.insert(t_row, self.card()));
        AppView { row: t_row, col: t_col, ..given }
    }

    /// The card under the cursor carried into the list on the left. Nothing
    /// changes in the first list or without a card.
    pub open spec fn move_left(self) -> AppView {
        if self.col > 0 && self.has_card() {
            self.carry_to(self.col - 1)
        } else {
            self
        }
    }

    /// The card under the cursor carried into the list on the right. Nothing
    /// changes in the last list or without a card.
    pub open spec fn move_right(self) -> AppView {
        if self.col + 1 < self.cols() && self.has_card() {
            self.carry_to(self.col + 1)
        } else {
            self
        }
    }

    /// The card under the cursor exchanged with the one above it, the cursor
    /// with it. Nothing changes on the first card or without a card.
    pub open spec fn move_up(self) -> AppView {
        if 0 < self.row < self.rows() {
            AppView {
                row: self.row - 1,
                ..self.with_cards(self.col, swapped(self.list().cards, self.row, self.row - 1))
            }
        } else {
            self
        }
    }

    /// The card under the cursor exchanged with the one below it, the cursor
    /// with it. Nothing changes on the last card or without a card.
    pub open spec fn move_down(self) -> AppView {
        if 0 <= self.row && self.row + 1 < self.rows() {
            AppView {
                row: self.row + 1,
                ..self.with_cards(self.col, swapped(self.list().cards, self.row, self.row + 1))
            }
        } else {
            self
        }
    }

    /// An edit of the card under the cursor begun, its text kept for a
    /// cancel. Nothing changes without a card.
    pub open spec fn edit_card(self) -> AppView {
        if self.has_card() {
            AppView { mode: AppMode::CardEdit, prev_val: self.card(), ..self }
        } else {
            self
        }
    }

    /// `c` appended to the card under the cursor. Nothing changes without a
    /// card.
    pub open spec fn type_card(self, c: char) -> AppView {
        if self.has_card() {
            self.with_card(self.card().push(c))
        } else {
            self
        }
    }

    /// The last character taken off the card under the cursor. Nothing
    /// changes without a card.
    pub open spec fn backspace_card(self) -> AppView {
        if self.has_card() {
            self.with_card(without_last(self.card()))
        } else {
            self
        }
    }

    /// An edit ended, what was typed kept.
    pub open spec fn done_editing(self) -> AppView {
        AppView { mode: AppMode::Main, ..self }
    }

    /// An edit of a card ended, the card under the cursor given the kept
    /// text. Nothing changes without a card.
    pub open spec fn cancel_card_edit(self) -> AppView {
        if self.has_card() {
            AppView { mode: AppMode::Main, ..self.with_card(self.prev_val) }
        } else {
            self
        }
    }

    /// A new card at `index` of the list under the cursor, the cursor on it,
    /// and an edit of it begun.
    pub open spec fn add_card(self, index: int) -> AppView {
        AppView {
            row: index,
            mode: AppMode::CardEdit,
            prev_val: new_card_text(),
            ..self.with_cards(self.col, self.list().cards.insert(index, new_card_text()))
        }
    }

    /// A new card below the one under the cursor, or first in an empty list.
    pub open spec fn append_card(self) -> AppView {
        self.add_card(min(self.row + 1, self.rows()))
    }

    /// A new card where the cursor stands, the card that was there below it.
    pub open spec fn prepend_card(self) -> AppView {
        self.add_card(self.row)
    }

    /// The card under the cursor deleted and the cursor back on a card, if
    /// one is left. Nothing changes in an empty list.
    pub open spec fn remove_card(self) -> AppView {
        if self.rows() > 0 {
            self.with_cards(self.col, self.list().cards.remove(self.row)).clamp()
        } else {
            self
        }
    }

    /// An edit of the name of the list under the cursor begun, the name kept
    /// for a cancel.
    pub open spec fn edit_list(self) -> AppView {
        AppView { mode: AppMode::ListEdit, prev_val: self.list().name, ..self }
    }

    /// `c` appended to the name of the list under the cursor.
    pub open spec fn type_list(self, c: char) -> AppView {
        self.with_name(self.list().name.push(c))
    }

    /// The last character taken off the name of the list under the cursor.
    pub open spec fn backspace_list(self) -> AppView {
        self.with_name(without_last(self.list().name))
    }

    /// An edit of a name ended, the list under the cursor given the kept
    /// name.
    pub open spec fn cancel_list_edit(self) -> AppView {
        AppView { mode: AppMode::Main, ..self.with_name(self.prev_val) }
    }

    /// A fresh list at `index`, the cursor on its one card, and an edit of
    /// its name begun.
    pub open spec fn add_list(self, index: int) -> AppView {
        AppView {
            lists: self.lists.insert(index, CardListView::fresh()),
            col: index,
            row: 0,
            mode: AppMode::ListEdit,
            prev_val: CardListView::fresh().name,
            ..self
        }
    }

    /// A fresh list to the right of the one under the cursor.
    pub open spec fn append_list(self) -> AppView {
        self.add_list(self.col + 1)
    }

    /// A fresh list where the cursor stands, the list that was there to its
    /// right.
    pub open spec fn prepend_list(self) -> AppView {
        self.add_list(self.col)
    }

    /// The list under the cursor deleted and the cursor back on the board.
    /// Nothing changes where the board has one list only.
    pub open spec fn remove_list(self) -> AppView {
        if self.cols() == 1 {
            self
        } else {
            AppView { lists: self.lists.remove(self.col), ..self }.clamp()
        }
    }
}

} // verus!
