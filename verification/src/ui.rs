//! What the screen shows of a board: the texts and the highlights, ready
//! for a renderer to paint.

use vstd::prelude::*;
use crate::app::{App, AppMode};
use crate::db::Board;
use crate::model::AppView;

verus! {

/// Whether the cursor stands on card `card_index` of list `list_index`.
pub open spec fn selected(s: AppView, list_index: int, card_index: int) -> bool {
    card_index == s.row && list_index == s.col
}

/// The title of list `list_index`: its name and a space, with an underscore
/// between the two while that name is being edited.
pub open spec fn list_title_text(s: AppView, list_index: int) -> Seq<char> {
    if s.col == list_index && s.mode == AppMode::ListEdit {
        s.lists[list_index].name.push('_').push(' ')
    } else {
        s.lists[list_index].name.push(' ')
    }
}

/// The line of card `card_index` of list `list_index`: its text, followed
/// by an underscore while that card is being edited.
pub open spec fn card_line_text(s: AppView, list_index: int, card_index: int) -> Seq<char> {
    if selected(s, list_index, card_index) && s.mode == AppMode::CardEdit {
        s.lists[list_index].cards[card_index].push('_')
    } else {
        s.lists[list_index].cards[card_index]
    }
}

/// The footer's word for each mode.
pub open spec fn mode_label_text(mode: AppMode) -> Seq<char> {
    match mode {
        AppMode::Main => "Main"@,
        AppMode::CardEdit => "CardEdit"@,
        AppMode::ListEdit => "ListEdit"@,
    }
}

/// The header's title: a clipboard sign, a space and the board's name.
pub open spec fn board_title_text(name: Seq<char>) -> Seq<char> {
    seq!['\u{1F4CB}', '\u{FE0F}', ' '] + name
}

/// Whether the cursor stands on card `card_index` of list `list_index`, so
/// that the renderer highlights it.
pub fn is_selected(app: &App, list_index: usize, card_index: usize) -> (on: bool)
    ensures
        on == selected(app@, list_index as int, card_index as int),
{
    card_index == app.row() && list_index == app.col()
}

/// The title to paint above list `list_index`.
pub fn list_title(app: &App, list_index: usize) -> (title: String)
    requires
        list_index < app@.cols(),
    ensures
        title@ == list_title_text(app@, list_index as int),
{
    let lists = app.lists();
    let mut title = lists[list_index].name().to_owned();
    if app.col() == list_index && app.mode() == AppMode::ListEdit {
        title.push('_');
    }
    title.push(' ');
    title
}

/// The line to paint for card `card_index` of list `list_index`.
pub fn card_line(app: &App, list_index: usize, card_index: usize) -> (line: String)
    requires
        list_index < app@.cols(),
        card_index < app@.lists[list_index as int].cards.len(),
    ensures
        line@ == card_line_text(app@, list_index as int, card_index as int),
{
    let lists = app.lists();
    let cards = lists[list_index].cards();
    let mut line = cards[card_index].clone();
    if is_selected(app, list_index, card_index) && app.mode() == AppMode::CardEdit {
        line.push('_');
    }
    line
}

/// The word to paint in the footer.
pub fn mode_label(mode: AppMode) -> (label: &'static str)
    ensures
        label@ == mode_label_text(mode),
{
    match mode {
        AppMode::Main => "Main",
        AppMode::CardEdit => "CardEdit",
        AppMode::ListEdit => "ListEdit",
    }
}

/// The title to paint in the header.
pub fn board_title(board: &Board) -> (title: String)
    ensures
        title@ == board_title_text(board.name@),
{
    let mut title = String::new();
    title.push('\u{1F4CB}');
    title.push('\u{FE0F}');
    title.push(' ');
    title.append(board.name.as_str());
    assert(title@ =~= board_title_text(board.name@));
    title
}

} // verus!
