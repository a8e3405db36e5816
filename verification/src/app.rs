//! The board itself: lists of cards, the cursor and the edit mode.

use vstd::prelude::*;
use std::ops::{Index, IndexMut};
use crate::db::User;
use crate::model::{swapped, texts, AppView, CardListView};

verus! {

/// Which keys are live and whether an edit is in progress.
#[derive(Debug, PartialEq, Eq, Clone, Copy, Structural)]
pub enum AppMode {
    Main,
    CardEdit,
    ListEdit,
}

/// A named column of cards.
#[derive(Debug)]
pub struct CardList {
    name: String,
    cards: Vec<String>,
    todo: Vec<String>,
}

impl View for CardList {
    type V = CardListView;

    closed spec fn view(&self) -> CardListView {
        CardListView { name: self.name@, cards: texts(self.cards@), todo: texts(self.todo@) }
    }
}

impl CardList {
    /// A fresh list: the placeholder name and one placeholder card.
    pub fn new() -> (list: Self)
        ensures
            list@ == CardListView::fresh(),
    {
        let mut cards: Vec<String> = Vec::new();
        cards.push("New Card".to_owned());
        let mut todo: Vec<String> = Vec::new();
        todo.push("list".to_owned());
        let list = Self { name: "New List".to_owned(), cards, todo };
        assert(list@.cards =~= seq!["New Card"@]);
        assert(list@.todo =~= seq!["list"@]);
        list
    }

    pub fn name(&self) -> (name: &str)
        ensures
            name@ == self@.name,
    {
        self.name.as_str()
    }

    pub fn is_empty(&self) -> (empty: bool)
        ensures
            empty == (self@.cards.len() == 0),
    {
        self.cards.is_empty()
    }

    pub fn len(&self) -> (len: usize)
        ensures
            len == self@.cards.len(),
    {
        self.cards.len()
    }

    /// Takes the card at `index` out of the list; the cards below it move up.
    pub fn remove(&mut self, index: usize) -> (card: String)
        requires
            index < old(self)@.cards.len(),
        ensures
            card@ == old(self)@.cards[index as int],
            final(self)@ == old(self)@.with_cards(old(self)@.cards.remove(index as int)),
    {
        let card = self.cards.remove(index);
        assert(self@.cards =~= old(self)@.cards.remove(index as int));
        card
    }

    /// Puts `element` at `index`; the cards from there on move down.
    pub fn insert(&mut self, index: usize, element: String)
        requires
            index <= old(self)@.cards.len(),
        ensures
            final(self)@ == old(self)@.with_cards(old(self)@.cards.insert(index as int, element@)),
    {
        self.cards.insert(index, element);
        assert(self@.cards =~= old(self)@.cards.insert(index as int, element@));
    }

    /// Exchanges the cards at `a` and `b`.
    pub fn swap(&mut self, a: usize, b: usize)
        requires
            a < old(self)@.cards.len(),
            b < old(self)@.cards.len(),
        ensures
            final(self)@ == old(self)@.with_cards(swapped(old(self)@.cards, a as int, b as int)),
    {
        self.cards.swap(a, b);
        assert(self@.cards =~= swapped(old(self)@.cards, a as int, b as int));
    }

    pub fn cards(&self) -> (cards: &[String])
        ensures
            texts(cards@) == self@.cards,
    {
        self.cards.as_slice()
    }

    pub fn todo(&self) -> (todo: &[String])
        ensures
            texts(todo@) == self@.todo,
    {
        self.todo.as_slice()
    }
}

impl Default for CardList {
    fn default() -> (list: Self)
        ensures
            list@ == CardListView::fresh(),
    {
        Self::new()
    }
}

impl Index<usize> for CardList {
    type Output = String;

    /// The card at `index`.
    fn index(&self, index: usize) -> (card: &String)
        ensures
            card@ == self@.cards[index as int],
    {
        &self.cards[index]
    }
}

impl vstd::std_specs::core::IndexSpecImpl<usize> for CardList {
    open spec fn index_req(&self, index: &usize) -> bool {
        *index < self@.cards.len()
    }
}

impl IndexMut<usize> for CardList {
    /// The card at `index`, to be written to: what the card holds when the
    /// borrow ends is what the list then holds at `index`.
    fn index_mut(&mut self, index: usize) -> (card: &mut String)
        requires
            index < old(self)@.cards.len(),
        ensures
            card@ == old(self)@.cards[index as int],
            final(self)@ == old(self)@.with_cards(
                old(self)@.cards.update(index as int, final(card)@),
            ),
    {
        let card = &mut self.cards[index];
        proof {
            assert(texts(old(self).cards@.update(index as int, *final(card)))
                =~= texts(old(self).cards@).update(index as int, final(card)@));
        }
        card
    }
}

/// The view of each list of `v`, in order.
pub open spec fn views(v: Seq<CardList>) -> Seq<CardListView> {
    v.map_values(|l: CardList| l@)
}

/// The whole board: its lists, the cursor, the mode, and the text kept to
/// undo an edit.
#[derive(Debug)]
pub struct App {
    running: bool,
    lists: Vec<CardList>,
    row: usize,
    col: usize,
    mode: AppMode,
    prev_val: String,
}

impl View for App {
    type V = AppView;

    closed spec fn view(&self) -> AppView {
        AppView {
            running: self.running,
            lists: views(self.lists@),
            row: self.row as int,
            col: self.col as int,
            mode: self.mode,
            prev_val: self.prev_val@,
        }
    }
}

impl App {
    /// What every board satisfies between two operations.
    pub open spec fn wf(&self) -> bool {
        self@.wf()
    }

    /// The board a session starts with: one list, named after `user`, with
    /// two cards, the cursor on the first.
    pub fn new(user: User) -> (app: Self)
        ensures
            app.wf(),
            app@ == AppView::initial(user.name@),
    {
        let mut cards: Vec<String> = Vec::new();
        cards.push("Card 1 in List 1".to_owned());
        cards.push("Card 2 in List 1".to_owned());
        let mut todo: Vec<String> = Vec::new();
        todo.push("todo 1 in List 1".to_owned());
        todo.push("todo 2 in List 1".to_owned());
        let list = CardList { name: user.name, cards, todo };
        assert(list@.cards =~= AppView::initial(user.name@).lists[0].cards);
        assert(list@.todo =~= AppView::initial(user.name@).lists[0].todo);
        let mut lists: Vec<CardList> = Vec::new();
        lists.push(list);
        let app = Self {
            running: true,
            lists,
            row: 0,
            col: 0,
            mode: AppMode::Main,
            prev_val: String::new(),
        };
        assert(app@.lists =~= AppView::initial(user.name@).lists);
        app
    }

    pub fn mode(&self) -> (mode: AppMode)
        ensures
            mode == self@.mode,
    {
        self.mode
    }

    pub fn lists(&self) -> (lists: &[CardList])
        ensures
            views(lists@) == self@.lists,
    {
        self.lists.as_slice()
    }

    /// The list under the cursor.
    pub fn list(&self) -> (list: &CardList)
        requires
            self.wf(),
        ensures
            list@ == self@.list(),
    {
        &self.lists[self.col]
    }

    pub fn row(&self) -> (row: usize)
        ensures
            row == self@.row,
    {
        self.row
    }

    /// The number of cards in the list under the cursor.
    pub fn rows(&self) -> (rows: usize)
        requires
            self.wf(),
        ensures
            rows == self@.rows(),
    {
        self.list().len()
    }

    pub fn col(&self) -> (col: usize)
        ensures
            col == self@.col,
    {
        self.col
    }

    /// The number of lists.
    pub fn cols(&self) -> (cols: usize)
        ensures
            cols == self@.cols(),
    {
        self.lists.len()
    }

    pub fn running(&self) -> (running: bool)
        ensures
            running == self@.running,
    {
        self.running
    }

    /// The passing of time changes nothing on the board.
    pub fn tick(&self) {
    }

    /// Asks the session to end; the board itself stays as it is.
    pub fn quit(&mut self)
        ensures
            final(self)@ == old(self)@.quit(),
            old(self).wf() ==> final(self).wf(),
    {
        self.running = false;
    }

    /// The lengths that the model speaks of are lengths of vectors, so they
    /// fit the machine's word.
    proof fn lemma_lengths_fit(&self)
        ensures
            self@.cols() <= usize::MAX,
            0 <= self@.col < self@.cols() ==> self@.rows() <= usize::MAX,
    {
        assert(self.lists.len() == self@.cols());
        if 0 <= self@.col < self@.cols() {
            assert(self.lists[self.col as int].cards.len() == self@.rows());
        }
    }

    fn update_selection(&mut self)
        requires
            old(self)@.lists.len() >= 1,
        ensures
            final(self)@ == old(self)@.clamp(),
    {
        self.col = self.col.min(self.cols().saturating_sub(1));
        self.row = self.row.min(self.lists[self.col].len().saturating_sub(1));
    }

    pub fn motion_left(&mut self)
        requires
            old(self).wf(),
        ensures
            final(self).wf(),
            final(self)@ == old(self)@.motion_left(),
    {
        self.col = self.col.saturating_sub(1);
        self.update_selection();
    }

    pub fn motion_down(&mut self)
        requires
            old(self).wf(),
        ensures
            final(self).wf(),
            final(self)@ == old(self)@.motion_down(),
    {
        proof {
            self.lemma_lengths_fit();
        }
        self.row += 1;
        self.update_selection();
    }

    pub fn motion_up(&mut self)
        requires
            old(self).wf(),
        ensures
            final(self).wf(),
            final(self)@ == old(self)@.motion_up(),
    {
        self.row = self.row.saturating_sub(1);
        self.update_selection();
    }

    pub fn motion_right(&mut self)
        requires
            old(self).wf(),
        ensures
            final(self).wf(),
            final(self)@ == old(self)@.motion_right(),
    {
        proof {
            self.lemma_lengths_fit();
        }
        self.col += 1;
        self.update_selection();
    }

    /// Moves the card under the cursor into the list on the left, the cursor
    /// with it. Nothing happens in the first list or without a card.
    pub fn move_left(&mut self)
        requires
            old(self).wf(),
        ensures
            final(self).wf(),
            final(self)@ == old(self)@.move_left(),
    {
        if self.col == 0 || self.row >= self.rows() {
            return;
        }
        let t_col = self.col - 1;
        let t_row = self.row.min(self.lists[t_col].len());
        let card = self.lists[self.col].remove(self.row);
        self.lists[t_col].insert(t_row, card);
        self.row = t_row;
        self.col = t_col;
        assert(self@.lists =~= old(self)@.move_left().lists);
    }

    /// Exchanges the card under the cursor with the one below it, the cursor
    /// with it. Nothing happens on the last card or without a card.
    pub fn move_down(&mut self)
        requires
            old(self).wf(),
        ensures
            final(self).wf(),
            final(self)@ == old(self)@.move_down(),
    {
        proof {
            self.lemma_lengths_fit();
        }
        let t_row = self.row + 1;
        if t_row >= self.rows() {
            return;
        }
        self.lists[self.col].swap(self.row, t_row);
        self.row = t_row;
        assert(self@.lists =~= old(self)@.move_down().lists);
    }

    /// Exchanges the card under the cursor with the one above it, the cursor
    /// with it. Nothing happens on the first card or without a card.
    pub fn move_up(&mut self)
        requires
            old(self).wf(),
        ensures
            final(self).wf(),
            final(self)@ == old(self)@.move_up(),
    {
        let t_row = self.row.saturating_sub(1);
        if t_row >= self.rows() {
            return;
        }
        self.lists[self.col].swap(self.row, t_row);
        self.row = t_row;
        proof {
            let before = old(self)@.list().cards;
            assert(swapped(before, 0, 0) =~= before);
            assert(self@.lists =~= old(self)@.move_up().lists);
        }
    }

    /// Moves the card under the cursor into the list on the right, the cursor
    /// with it. Nothing happens in the last list or without a card.
    pub fn move_right(&mut self)
        requires
            old(self).wf(),
        ensures
            final(self).wf(),
            final(self)@ == old(self)@.move_right(),
    {
        if self.row >= self.rows() {
            return;
        }
        proof {
            self.lemma_lengths_fit();
        }
        let t_col = self.col + 1;
        if t_col >= self.cols() {
            return;
        }
        let t_row = self.row.min(self.lists[t_col].len());
        let card = self.lists[self.col].remove(self.row);
        self.lists[t_col].insert(t_row, card);
        self.row = t_row;
        self.col = t_col;
        assert(self@.lists =~= old(self)@.move_right().lists);
    }

    /// Begins an edit of the card under the cursor and keeps its text, so
    /// that the edit can be undone. Nothing happens without a card.
    pub fn edit_card(&mut self)
        requires
            old(self).wf(),
        ensures
            final(self).wf(),
            final(self)@ == old(self)@.edit_card(),
    {
        if self.row >= self.rows() {
            return;
        }
        self.mode = AppMode::CardEdit;
        self.prev_val = self.lists[self.col][self.row].clone();
    }

    /// Appends `c` to the card under the cursor. Nothing happens without a
    /// card.
    pub fn type_card(&mut self, c: char)
        requires
            old(self).wf(),
        ensures
            final(self).wf(),
            final(self)@ == old(self)@.type_card(c),
    {
        if self.row >= self.rows() {
            return;
        }
        self.lists[self.col].index_mut(self.row).push(c);
        assert(self@.lists =~= old(self)@.type_card(c).lists);
    }

    /// Takes the last character off the card under the cursor, if it has
    /// one. Nothing happens without a card.
    pub fn backspace_card(&mut self)
        requires
            old(self).wf(),
        ensures
            final(self).wf(),
            final(self)@ == old(self)@.backspace_card(),
    {
        if self.row >= self.rows() {
            return;
        }
        self.lists[self.col].index_mut(self.row).pop();
        assert(self@.lists =~= old(self)@.backspace_card().lists);
    }

    /// Ends an edit and keeps what was typed.
    pub fn done_editing(&mut self)
        ensures
            final(self)@ == old(self)@.done_editing(),
            old(self).wf() ==> final(self).wf(),
    {
        self.mode = AppMode::Main;
    }

    /// Ends an edit of a card and gives the card under the cursor the text
    /// that it had when the edit began. Nothing happens without a card.
    pub fn cancel_card_edit(&mut self)
        requires
            old(self).wf(),
        ensures
            final(self).wf(),
            final(self)@ == old(self)@.cancel_card_edit(),
    {
        if self.row >= self.rows() {
            return;
        }
        let text = self.prev_val.clone();
        *self.lists[self.col].index_mut(self.row) = text;
        self.mode = AppMode::Main;
        assert(self@.lists =~= old(self)@.cancel_card_edit().lists);
    }

    fn add_card(&mut self, index: usize)
        requires
            old(self).wf(),
            index <= old(self)@.rows(),
        ensures
            final(self).wf(),
            final(self)@ == old(self)@.add_card(index as int),
    {
        self.lists[self.col].insert(index, "New Card".to_owned());
        self.row = index;
        assert(self@.lists =~= old(self)@.add_card(index as int).lists);
        self.edit_card();
    }

    /// Puts a new card below the one under the cursor, moves the cursor to
    /// it and begins an edit of it.
    pub fn append_card(&mut self)
        requires
            old(self).wf(),
        ensures
            final(self).wf(),
            final(self)@ == old(self)@.append_card(),
    {
        proof {
            self.lemma_lengths_fit();
        }
        let index = (self.row + 1).min(self.rows());
        self.add_card(index);
    }

    /// Puts a new card where the cursor stands, the card that was there
    /// below it, and begins an edit of the new card.
    pub fn prepend_card(&mut self)
        requires
            old(self).wf(),
        ensures
            final(self).wf(),
            final(self)@ == old(self)@.prepend_card(),
    {
        self.add_card(self.row);
    }

    /// Deletes the card under the cursor; the cursor stays on a card where
    /// one is left. Nothing happens in an empty list.
    pub fn remove_card(&mut self)
        requires
            old(self).wf(),
        ensures
            final(self).wf(),
            final(self)@ == old(self)@.remove_card(),
            old(self)@.rows() == 0 ==> final(self)@ == old(self)@,
    {
        if self.lists[self.col].is_empty() {
            return;
        }
        self.lists[self.col].remove(self.row);
        assert(self@.lists =~= old(self)@.with_cards(
            old(self)@.col,
            old(self)@.list().cards.remove(old(self)@.row),
        ).lists);
        self.update_selection();
    }

    /// Begins an edit of the name of the list under the cursor and keeps the
    /// name, so that the edit can be undone.
    pub fn edit_list(&mut self)
        requires
            old(self).wf(),
        ensures
            final(self).wf(),
            final(self)@ == old(self)@.edit_list(),
    {
        self.mode = AppMode::ListEdit;
        self.prev_val = self.list().name.clone();
    }

    /// Appends `c` to the name of the list under the cursor.
    pub fn type_list(&mut self, c: char)
        requires
            old(self).wf(),
        ensures
            final(self).wf(),
            final(self)@ == old(self)@.type_list(c),
    {
        self.lists[self.col].name.push(c);
        assert(self@.lists =~= old(self)@.type_list(c).lists);
    }

    /// Takes the last character off the name of the list under the cursor,
    /// if it has one.
    pub fn backspace_list(&mut self)
        requires
            old(self).wf(),
        ensures
            final(self).wf(),
            final(self)@ == old(self)@.backspace_list(),
    {
        self.lists[self.col].name.pop();
        assert(self@.lists =~= old(self)@.backspace_list().lists);
    }

    /// Ends an edit of a list's name and gives the list under the cursor the
    /// name that it had when the edit began.
    pub fn cancel_list_edit(&mut self)
        requires
            old(self).wf(),
        ensures
            final(self).wf(),
            final(self)@ == old(self)@.cancel_list_edit(),
    {
        self.lists[self.col].name = self.prev_val.clone();
        self.mode = AppMode::Main;
        assert(self@.lists =~= old(self)@.cancel_list_edit().lists);
    }

    fn add_list(&mut self, index: usize)
        requires
            old(self).wf(),
            index <= old(self)@.cols(),
        ensures
            final(self).wf(),
            final(self)@ == old(self)@.add_list(index as int),
    {
        self.lists.insert(index, CardList::new());
        self.col = index;
        assert(self@.lists =~= old(self)@.add_list(index as int).lists);
        self.update_selection();
        self.edit_list();
    }

    /// Puts a new list to the right of the one under the cursor, moves the
    /// cursor to it and begins an edit of its name.
    pub fn append_list(&mut self)
        requires
            old(self).wf(),
        ensures
            final(self).wf(),
            final(self)@ == old(self)@.append_list(),
    {
        proof {
            self.lemma_lengths_fit();
        }
        self.add_list(self.col + 1);
    }

    /// Puts a new list where the cursor stands, the list that was there to
    /// its right, and begins an edit of the new list's name.
    pub fn prepend_list(&mut self)
        requires
            old(self).wf(),
        ensures
            final(self).wf(),
            final(self)@ == old(self)@.prepend_list(),
    {
        self.add_list(self.col);
    }

    /// Deletes the list under the cursor. The board keeps at least one list:
    /// nothing happens where it has only one.
    pub fn remove_list(&mut self)
        requires
            old(self).wf(),
        ensures
            final(self).wf(),
            final(self)@ == old(self)@.remove_list(),
            old(self)@.cols() == 1 ==> final(self)@ == old(self)@,
    {
        if self.cols() == 1 {
            return;
        }
        self.lists.remove(self.col);
        assert(self@.lists =~= old(self)@.lists.remove(old(self)@.col));
        self.update_selection();
    }
}

} // verus!
