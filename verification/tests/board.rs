use kanban_tui::action::Action;
use kanban_tui::app::{App, AppMode, CardList};
use kanban_tui::db::User;

/// The names and cards of all lists, the cursor, the mode and the flag.
type Snapshot = (Vec<(String, Vec<String>)>, usize, usize, AppMode, bool);

fn snapshot(app: &App) -> Snapshot {
    let lists = app
        .lists()
        .iter()
        .map(|l| (l.name().to_string(), l.cards().to_vec()))
        .collect();
    (lists, app.col(), app.row(), app.mode(), app.running())
}

fn names(app: &App) -> Vec<String> {
    app.lists().iter().map(|l| l.name().to_string()).collect()
}

fn cards(app: &App, col: usize) -> Vec<String> {
    app.lists()[col].cards().to_vec()
}

fn strings(texts: &[&str]) -> Vec<String> {
    texts.iter().map(|t| t.to_string()).collect()
}

fn retype_card(app: &mut App, text: &str) {
    while !app.list()[app.row()].is_empty() {
        app.backspace_card();
    }
    for c in text.chars() {
        app.type_card(c);
    }
    app.done_editing();
}

fn retype_list(app: &mut App, text: &str) {
    while !app.list().name().is_empty() {
        app.backspace_list();
    }
    for c in text.chars() {
        app.type_list(c);
    }
    app.done_editing();
}

/// A board with the given lists, built through the operations alone, with
/// the cursor on the first card of the first list.
fn board(lists: &[(&str, &[&str])]) -> App {
    let mut app = App::new(User { id: 1, name: lists[0].0.to_string() });
    app.remove_card();
    app.remove_card();
    for (i, (name, texts)) in lists.iter().enumerate() {
        if i > 0 {
            app.append_list();
            retype_list(&mut app, name);
            app.remove_card();
        }
        for text in texts.iter() {
            app.append_card();
            retype_card(&mut app, text);
        }
    }
    for _ in 0..lists.len() {
        app.motion_left();
    }
    while app.row() > 0 {
        app.motion_up();
    }
    app
}

fn in_bounds(app: &App) -> bool {
    app.cols() >= 1
        && app.col() < app.cols()
        && (if app.rows() == 0 { app.row() == 0 } else { app.row() < app.rows() })
}

#[test]
fn new_board_has_one_list_named_after_the_user() {
    let app = App::new(User { id: 7, name: "Jon".to_string() });
    assert_eq!(app.cols(), 1);
    assert_eq!(app.rows(), 2);
    assert_eq!(app.list().name(), "Jon");
    assert_eq!(cards(&app, 0), strings(&["Card 1 in List 1", "Card 2 in List 1"]));
    assert_eq!(app.list().todo().to_vec(), strings(&["todo 1 in List 1", "todo 2 in List 1"]));
    assert_eq!((app.col(), app.row()), (0, 0));
    assert_eq!(app.mode(), AppMode::Main);
    assert!(app.running());
}

#[test]
fn new_board_with_an_empty_name() {
    let app = App::new(User { id: 0, name: String::new() });
    assert_eq!(app.list().name(), "");
    assert_eq!(app.rows(), 2);
}

#[test]
fn board_helper_builds_what_it_is_given() {
    let app = board(&[("L1", &["a", "b", "c"]), ("L2", &[]), ("L3", &["d"])]);
    assert_eq!(names(&app), strings(&["L1", "L2", "L3"]));
    assert_eq!(cards(&app, 0), strings(&["a", "b", "c"]));
    assert_eq!(cards(&app, 1), strings(&[]));
    assert_eq!(cards(&app, 2), strings(&["d"]));
    assert_eq!((app.col(), app.row()), (0, 0));
    assert_eq!(app.mode(), AppMode::Main);
}

#[test]
fn card_list_new_holds_the_placeholders() {
    let list = CardList::new();
    assert_eq!(list.name(), "New List");
    assert_eq!(list.cards().to_vec(), strings(&["New Card"]));
    assert_eq!(list.todo().to_vec(), strings(&["list"]));
    assert_eq!(list.len(), 1);
    assert!(!list.is_empty());
}

#[test]
fn card_list_default_is_new() {
    let list = CardList::default();
    assert_eq!(list.name(), "New List");
    assert_eq!(list.cards().to_vec(), strings(&["New Card"]));
    assert_eq!(list.todo().to_vec(), strings(&["list"]));
}

#[test]
fn card_list_insert_puts_the_card_at_the_index() {
    let mut list = CardList::new();
    list.insert(0, "first".to_string());
    list.insert(2, "last".to_string());
    list.insert(1, "second".to_string());
    assert_eq!(list.cards().to_vec(), strings(&["first", "second", "New Card", "last"]));
    assert_eq!(list.len(), 4);
    assert_eq!(list.name(), "New List");
}

#[test]
fn card_list_remove_returns_the_card_and_closes_the_gap() {
    let mut list = CardList::new();
    list.insert(1, "b".to_string());
    list.insert(2, "c".to_string());
    let taken = list.remove(1);
    assert_eq!(taken, "b");
    assert_eq!(list.cards().to_vec(), strings(&["New Card", "c"]));
    let taken = list.remove(0);
    assert_eq!(taken, "New Card");
    let taken = list.remove(0);
    assert_eq!(taken, "c");
    assert!(list.is_empty());
    assert_eq!(list.len(), 0);
}

#[test]
fn card_list_swap_exchanges_two_cards() {
    let mut list = CardList::new();
    list.insert(1, "b".to_string());
    list.insert(2, "c".to_string());
    list.swap(0, 2);
    assert_eq!(list.cards().to_vec(), strings(&["c", "b", "New Card"]));
    list.swap(1, 1);
    assert_eq!(list.cards().to_vec(), strings(&["c", "b", "New Card"]));
    list.swap(2, 1);
    assert_eq!(list.cards().to_vec(), strings(&["c", "New Card", "b"]));
}

#[test]
fn card_list_index_reads_and_writes_a_card() {
    let mut list = CardList::new();
    list.insert(1, "b".to_string());
    assert_eq!(list[0], "New Card");
    assert_eq!(list[1], "b");
    list[1].push('!');
    list[0] = "a".to_string();
    assert_eq!(list.cards().to_vec(), strings(&["a", "b!"]));
}

#[test]
fn motion_right_stops_at_the_last_list() {
    let mut app = board(&[("L1", &["a"]), ("L2", &["b"])]);
    app.motion_right();
    assert_eq!(app.col(), 1);
    app.motion_right();
    assert_eq!(app.col(), 1);
    assert_eq!(app.list().name(), "L2");
}

#[test]
fn motion_left_stops_at_the_first_list() {
    let mut app = board(&[("L1", &["a"]), ("L2", &["b"])]);
    app.motion_left();
    assert_eq!(app.col(), 0);
    app.motion_right();
    app.motion_left();
    assert_eq!(app.col(), 0);
}

#[test]
fn motion_down_stops_at_the_last_card() {
    let mut app = board(&[("L1", &["a", "b", "c"])]);
    app.motion_down();
    assert_eq!(app.row(), 1);
    app.motion_down();
    assert_eq!(app.row(), 2);
    app.motion_down();
    assert_eq!(app.row(), 2);
}

#[test]
fn motion_up_stops_at_the_first_card() {
    let mut app = board(&[("L1", &["a", "b", "c"])]);
    app.motion_up();
    assert_eq!(app.row(), 0);
    app.motion_down();
    app.motion_down();
    app.motion_up();
    assert_eq!(app.row(), 1);
}

#[test]
fn motion_into_a_shorter_list_lowers_the_row() {
    let mut app = board(&[("L1", &["a", "b", "c"]), ("L2", &["d", "e"]), ("L3", &[])]);
    app.motion_down();
    app.motion_down();
    assert_eq!((app.col(), app.row()), (0, 2));
    app.motion_right();
    assert_eq!((app.col(), app.row()), (1, 1));
    app.motion_right();
    assert_eq!((app.col(), app.row()), (2, 0));
    app.motion_down();
    assert_eq!((app.col(), app.row()), (2, 0));
    app.motion_up();
    assert_eq!((app.col(), app.row()), (2, 0));
    app.motion_left();
    assert_eq!((app.col(), app.row()), (1, 0));
}

#[test]
fn motions_leave_the_contents_alone() {
    let mut app = board(&[("L1", &["a", "b"]), ("L2", &["c"])]);
    let before = snapshot(&app);
    app.motion_down();
    app.motion_right();
    app.motion_up();
    app.motion_left();
    let after = snapshot(&app);
    assert_eq!(after.0, before.0);
    assert_eq!(after.3, before.3);
    assert_eq!(after.4, before.4);
}

#[test]
fn cursor_stays_in_bounds_under_any_motions() {
    let mut app = board(&[("L1", &["a", "b", "c"]), ("L2", &[]), ("L3", &["d"]), ("L4", &["e", "f"])]);
    let motions = [
        Action::MotionDown,
        Action::MotionDown,
        Action::MotionDown,
        Action::MotionRight,
        Action::MotionDown,
        Action::MotionRight,
        Action::MotionUp,
        Action::MotionRight,
        Action::MotionDown,
        Action::MotionRight,
        Action::MotionRight,
        Action::MotionLeft,
        Action::MotionLeft,
        Action::MotionLeft,
        Action::MotionLeft,
        Action::MotionUp,
    ];
    assert!(in_bounds(&app));
    for round in 0..3 {
        for (i, motion) in motions.iter().enumerate() {
            if (i + round) % 3 != 2 {
                app.apply(*motion);
            }
            assert!(in_bounds(&app));
        }
    }
}

#[test]
fn cursor_stays_in_bounds_under_any_operations() {
    let mut app = board(&[("L1", &["a", "b"]), ("L2", &["c"])]);
    let actions = [
        Action::MotionDown,
        Action::AppendList,
        Action::DoneEditing,
        Action::RemoveCard,
        Action::PrependCard,
        Action::TypeCard('x'),
        Action::CancelCardEdit,
        Action::RemoveCard,
        Action::RemoveCard,
        Action::MoveLeft,
        Action::MotionLeft,
        Action::MotionDown,
        Action::MoveRight,
        Action::MoveUp,
        Action::MoveDown,
        Action::RemoveList,
        Action::RemoveList,
        Action::RemoveList,
        Action::RemoveList,
        Action::EditCard,
        Action::BackspaceCard,
        Action::DoneEditing,
        Action::PrependList,
        Action::TypeList('y'),
        Action::BackspaceList,
        Action::CancelListEdit,
        Action::EditList,
        Action::DoneEditing,
        Action::AppendCard,
        Action::DoneEditing,
        Action::Quit,
    ];
    for action in actions.iter() {
        app.apply(*action);
        assert!(in_bounds(&app));
    }
    assert!(!app.running());
}

#[test]
fn remove_list_on_the_only_list_changes_nothing() {
    let mut app = board(&[("L1", &["a", "b"])]);
    app.motion_down();
    let before = snapshot(&app);
    app.remove_list();
    assert_eq!(app.cols(), 1);
    assert_eq!(snapshot(&app), before);
}

#[test]
fn remove_list_deletes_the_list_under_the_cursor() {
    let mut app = board(&[("L1", &["a"]), ("L2", &["b", "c"]), ("L3", &["d"])]);
    app.motion_right();
    app.motion_down();
    app.remove_list();
    assert_eq!(names(&app), strings(&["L1", "L3"]));
    assert_eq!((app.col(), app.row()), (1, 0));
    assert_eq!(cards(&app, 1), strings(&["d"]));
}

#[test]
fn remove_list_at_the_end_moves_the_cursor_back() {
    let mut app = board(&[("L1", &["a", "b"]), ("L2", &["c", "d", "e"])]);
    app.motion_right();
    app.motion_down();
    app.motion_down();
    app.remove_list();
    assert_eq!(names(&app), strings(&["L1"]));
    assert_eq!((app.col(), app.row()), (0, 1));
    app.remove_list();
    assert_eq!(names(&app), strings(&["L1"]));
}

#[test]
fn move_left_then_right_brings_the_card_back() {
    let mut app = board(&[("L1", &["a", "b", "c"]), ("L2", &["d", "e", "f"])]);
    app.motion_right();
    app.motion_down();
    let before = snapshot(&app);
    app.move_left();
    assert_eq!(cards(&app, 0), strings(&["a", "e", "b", "c"]));
    assert_eq!(cards(&app, 1), strings(&["d", "f"]));
    assert_eq!((app.col(), app.row()), (0, 1));
    app.move_right();
    assert_eq!(snapshot(&app), before);
}

#[test]
fn move_left_then_right_through_a_shorter_list() {
    let mut app = board(&[("L1", &["a"]), ("L2", &["d", "e", "f"])]);
    app.motion_right();
    app.motion_down();
    app.motion_down();
    app.move_left();
    assert_eq!(cards(&app, 0), strings(&["a", "f"]));
    assert_eq!(cards(&app, 1), strings(&["d", "e"]));
    assert_eq!((app.col(), app.row()), (0, 1));
    app.move_right();
    assert_eq!(cards(&app, 0), strings(&["a"]));
    assert_eq!(cards(&app, 1), strings(&["d", "f", "e"]));
    assert_eq!((app.col(), app.row()), (1, 1));
    assert_eq!(app.list()[app.row()], "f");
}

#[test]
fn move_right_then_left_brings_the_card_back() {
    let mut app = board(&[("L1", &["a", "b", "c"]), ("L2", &["d", "e", "f"])]);
    app.motion_down();
    app.motion_down();
    let before = snapshot(&app);
    app.move_right();
    assert_eq!(cards(&app, 0), strings(&["a", "b"]));
    assert_eq!(cards(&app, 1), strings(&["d", "e", "c", "f"]));
    assert_eq!((app.col(), app.row()), (1, 2));
    app.move_left();
    assert_eq!(snapshot(&app), before);
}

#[test]
fn move_left_in_the_first_list_changes_nothing() {
    let mut app = board(&[("L1", &["a", "b"]), ("L2", &["c"])]);
    let before = snapshot(&app);
    app.move_left();
    assert_eq!(snapshot(&app), before);
}

#[test]
fn move_right_in_the_last_list_changes_nothing() {
    let mut app = board(&[("L1", &["a", "b"]), ("L2", &["c"])]);
    app.motion_right();
    let before = snapshot(&app);
    app.move_right();
    assert_eq!(snapshot(&app), before);
}

#[test]
fn moves_without_a_card_change_nothing() {
    let mut app = board(&[("L1", &["a"]), ("L2", &[]), ("L3", &["b"])]);
    app.motion_right();
    let before = snapshot(&app);
    app.move_left();
    assert_eq!(snapshot(&app), before);
    app.move_right();
    assert_eq!(snapshot(&app), before);
    app.move_up();
    assert_eq!(snapshot(&app), before);
    app.move_down();
    assert_eq!(snapshot(&app), before);
}

#[test]
fn move_into_an_empty_list_puts_the_card_first() {
    let mut app = board(&[("L1", &["a", "b", "c"]), ("L2", &[])]);
    app.motion_down();
    app.motion_down();
    app.move_right();
    assert_eq!(cards(&app, 0), strings(&["a", "b"]));
    assert_eq!(cards(&app, 1), strings(&["c"]));
    assert_eq!((app.col(), app.row()), (1, 0));
}

#[test]
fn move_into_a_shorter_list_puts_the_card_last() {
    let mut app = board(&[("L1", &["a", "b", "c", "d"]), ("L2", &["x", "y"])]);
    app.motion_down();
    app.motion_down();
    app.motion_down();
    app.move_right();
    assert_eq!(cards(&app, 0), strings(&["a", "b", "c"]));
    assert_eq!(cards(&app, 1), strings(&["x", "y", "d"]));
    assert_eq!((app.col(), app.row()), (1, 2));
}

#[test]
fn move_into_a_list_of_equal_row_count_keeps_the_row() {
    let mut app = board(&[("L1", &["a", "b", "c"]), ("L2", &["x", "y"])]);
    app.motion_down();
    app.motion_down();
    app.move_right();
    assert_eq!(cards(&app, 1), strings(&["x", "y", "c"]));
    assert_eq!((app.col(), app.row()), (1, 2));
}

#[test]
fn move_down_exchanges_with_the_card_below() {
    let mut app = board(&[("L1", &["a", "b", "c"])]);
    app.move_down();
    assert_eq!(cards(&app, 0), strings(&["b", "a", "c"]));
    assert_eq!(app.row(), 1);
    app.move_down();
    assert_eq!(cards(&app, 0), strings(&["b", "c", "a"]));
    assert_eq!(app.row(), 2);
    let before = snapshot(&app);
    app.move_down();
    assert_eq!(snapshot(&app), before);
}

#[test]
fn move_up_exchanges_with_the_card_above() {
    let mut app = board(&[("L1", &["a", "b", "c"])]);
    let before = snapshot(&app);
    app.move_up();
    assert_eq!(snapshot(&app), before);
    app.motion_down();
    app.motion_down();
    app.move_up();
    assert_eq!(cards(&app, 0), strings(&["a", "c", "b"]));
    assert_eq!(app.row(), 1);
    app.move_up();
    assert_eq!(cards(&app, 0), strings(&["c", "a", "b"]));
    assert_eq!(app.row(), 0);
}

#[test]
fn edit_type_cancel_restores_the_card() {
    let mut app = board(&[("L1", &["hello", "world"])]);
    app.motion_down();
    let before = snapshot(&app);
    app.edit_card();
    assert_eq!(app.mode(), AppMode::CardEdit);
    app.type_card('a');
    app.type_card('b');
    app.type_card('c');
    assert_eq!(cards(&app, 0), strings(&["hello", "worldabc"]));
    app.cancel_card_edit();
    assert_eq!(app.mode(), AppMode::Main);
    assert_eq!(cards(&app, 0), strings(&["hello", "world"]));
    assert_eq!(snapshot(&app), before);
}

#[test]
fn edit_type_confirm_keeps_the_typed_text() {
    let mut app = board(&[("L1", &["hello", "world"])]);
    app.motion_down();
    app.edit_card();
    app.type_card('a');
    app.type_card('b');
    app.type_card('c');
    app.done_editing();
    assert_eq!(app.mode(), AppMode::Main);
    assert_eq!(cards(&app, 0), strings(&["hello", "worldabc"]));
    assert_eq!((app.col(), app.row()), (0, 1));
}

#[test]
fn edit_with_backspaces_then_cancel_restores_the_card() {
    let mut app = board(&[("L1", &["hi"])]);
    app.edit_card();
    app.backspace_card();
    app.backspace_card();
    app.backspace_card();
    assert_eq!(cards(&app, 0), strings(&[""]));
    app.type_card('x');
    assert_eq!(cards(&app, 0), strings(&["x"]));
    app.cancel_card_edit();
    assert_eq!(cards(&app, 0), strings(&["hi"]));
    assert_eq!(app.mode(), AppMode::Main);
}

#[test]
fn backspace_card_takes_the_last_character() {
    let mut app = board(&[("L1", &["abc", "def"])]);
    app.edit_card();
    app.backspace_card();
    assert_eq!(cards(&app, 0), strings(&["ab", "def"]));
    app.done_editing();
    assert_eq!(cards(&app, 0), strings(&["ab", "def"]));
}

#[test]
fn type_card_handles_characters_beyond_ascii() {
    let mut app = board(&[("L1", &["a"])]);
    app.edit_card();
    app.type_card('\u{e9}');
    app.type_card('\u{1F980}');
    assert_eq!(cards(&app, 0), strings(&["a\u{e9}\u{1F980}"]));
    app.backspace_card();
    assert_eq!(cards(&app, 0), strings(&["a\u{e9}"]));
}

#[test]
fn edit_card_without_a_card_stays_in_main() {
    let mut app = board(&[("L1", &[])]);
    let before = snapshot(&app);
    app.edit_card();
    assert_eq!(app.mode(), AppMode::Main);
    assert_eq!(snapshot(&app), before);
}

#[test]
fn card_keys_without_a_card_change_nothing() {
    let mut app = board(&[("L1", &[]), ("L2", &["a"])]);
    let before = snapshot(&app);
    app.type_card('x');
    assert_eq!(snapshot(&app), before);
    app.backspace_card();
    assert_eq!(snapshot(&app), before);
    app.cancel_card_edit();
    assert_eq!(snapshot(&app), before);
}

#[test]
fn append_card_inserts_below_the_cursor() {
    let mut app = board(&[("L1", &["X", "Y"])]);
    app.append_card();
    assert_eq!(cards(&app, 0), strings(&["X", "New Card", "Y"]));
    assert_eq!(app.row(), 1);
    assert_eq!(app.mode(), AppMode::CardEdit);
}

#[test]
fn append_card_on_the_last_card_appends() {
    let mut app = board(&[("L1", &["X", "Y"])]);
    app.motion_down();
    app.append_card();
    assert_eq!(cards(&app, 0), strings(&["X", "Y", "New Card"]));
    assert_eq!(app.row(), 2);
    assert_eq!(app.mode(), AppMode::CardEdit);
}

#[test]
fn append_card_in_an_empty_list() {
    let mut app = board(&[("L1", &[])]);
    app.append_card();
    assert_eq!(cards(&app, 0), strings(&["New Card"]));
    assert_eq!(app.row(), 0);
    assert_eq!(app.mode(), AppMode::CardEdit);
}

#[test]
fn append_card_then_cancel_keeps_the_placeholder() {
    let mut app = board(&[("L1", &["X"])]);
    app.append_card();
    app.type_card('!');
    assert_eq!(cards(&app, 0), strings(&["X", "New Card!"]));
    app.cancel_card_edit();
    assert_eq!(cards(&app, 0), strings(&["X", "New Card"]));
    assert_eq!(app.mode(), AppMode::Main);
}

#[test]
fn prepend_card_inserts_at_the_cursor() {
    let mut app = board(&[("L1", &["X", "Y"])]);
    app.motion_down();
    app.prepend_card();
    assert_eq!(cards(&app, 0), strings(&["X", "New Card", "Y"]));
    assert_eq!(app.row(), 1);
    assert_eq!(app.mode(), AppMode::CardEdit);
}

#[test]
fn prepend_card_in_an_empty_list() {
    let mut app = board(&[("L1", &[])]);
    app.prepend_card();
    assert_eq!(cards(&app, 0), strings(&["New Card"]));
    assert_eq!(app.row(), 0);
    assert_eq!(app.mode(), AppMode::CardEdit);
}

#[test]
fn remove_card_in_an_empty_list_changes_nothing() {
    let mut app = board(&[("L1", &[]), ("L2", &["a"])]);
    let before = snapshot(&app);
    app.remove_card();
    assert_eq!(snapshot(&app), before);
    app.remove_card();
    assert_eq!(snapshot(&app), before);
}

#[test]
fn remove_card_deletes_the_card_under_the_cursor() {
    let mut app = board(&[("L1", &["a", "b", "c"])]);
    app.motion_down();
    app.remove_card();
    assert_eq!(cards(&app, 0), strings(&["a", "c"]));
    assert_eq!(app.row(), 1);
    app.remove_card();
    assert_eq!(cards(&app, 0), strings(&["a"]));
    assert_eq!(app.row(), 0);
    app.remove_card();
    assert_eq!(cards(&app, 0), strings(&[]));
    assert_eq!(app.row(), 0);
    assert_eq!(app.rows(), 0);
}

#[test]
fn append_list_inserts_to_the_right() {
    let mut app = board(&[("L1", &["a"]), ("L2", &["b"])]);
    app.append_list();
    assert_eq!(names(&app), strings(&["L1", "New List", "L2"]));
    assert_eq!(app.col(), 1);
    assert_eq!(app.mode(), AppMode::ListEdit);
    assert_eq!(cards(&app, 1), strings(&["New Card"]));
    assert_eq!(app.list().todo().to_vec(), strings(&["list"]));
}

#[test]
fn append_list_after_the_last_list() {
    let mut app = board(&[("L1", &["a"]), ("L2", &["b"])]);
    app.motion_right();
    app.append_list();
    assert_eq!(names(&app), strings(&["L1", "L2", "New List"]));
    assert_eq!(app.col(), 2);
    assert_eq!(app.mode(), AppMode::ListEdit);
}

#[test]
fn prepend_list_inserts_at_the_cursor() {
    let mut app = board(&[("L1", &["a"]), ("L2", &["b"])]);
    app.motion_right();
    app.prepend_list();
    assert_eq!(names(&app), strings(&["L1", "New List", "L2"]));
    assert_eq!(app.col(), 1);
    assert_eq!(app.mode(), AppMode::ListEdit);
    app.done_editing();
    app.motion_left();
    app.prepend_list();
    assert_eq!(names(&app), strings(&["New List", "L1", "New List", "L2"]));
    assert_eq!(app.col(), 0);
}

#[test]
fn a_new_list_takes_the_cursor_to_its_one_card() {
    let mut app = board(&[("L1", &["a", "b", "c"])]);
    app.motion_down();
    app.motion_down();
    app.append_list();
    assert_eq!((app.col(), app.row()), (1, 0));
    assert!(in_bounds(&app));
    app.done_editing();
    app.remove_card();
    assert_eq!(cards(&app, 1), strings(&[]));
    app.motion_left();
    app.motion_down();
    app.motion_down();
    app.prepend_list();
    assert_eq!((app.col(), app.row()), (0, 0));
    assert!(in_bounds(&app));
}

#[test]
fn edit_list_type_cancel_restores_the_name() {
    let mut app = board(&[("L1", &["a"]), ("L2", &["b"])]);
    app.motion_right();
    let before = snapshot(&app);
    app.edit_list();
    assert_eq!(app.mode(), AppMode::ListEdit);
    app.type_list('a');
    app.type_list('b');
    app.type_list('c');
    assert_eq!(names(&app), strings(&["L1", "L2abc"]));
    app.backspace_list();
    assert_eq!(names(&app), strings(&["L1", "L2ab"]));
    app.cancel_list_edit();
    assert_eq!(app.mode(), AppMode::Main);
    assert_eq!(snapshot(&app), before);
}

#[test]
fn edit_list_type_confirm_keeps_the_name() {
    let mut app = board(&[("L1", &["a"])]);
    app.edit_list();
    app.type_list('x');
    app.done_editing();
    assert_eq!(app.mode(), AppMode::Main);
    assert_eq!(names(&app), strings(&["L1x"]));
}

#[test]
fn backspace_list_on_an_empty_name_changes_nothing() {
    let mut app = board(&[("L", &["a"])]);
    app.edit_list();
    app.backspace_list();
    assert_eq!(names(&app), strings(&[""]));
    app.backspace_list();
    assert_eq!(names(&app), strings(&[""]));
    app.cancel_list_edit();
    assert_eq!(names(&app), strings(&["L"]));
}

#[test]
fn append_list_then_cancel_keeps_the_placeholder_name() {
    let mut app = board(&[("L1", &["a"])]);
    app.append_list();
    app.type_list('!');
    assert_eq!(names(&app), strings(&["L1", "New List!"]));
    app.cancel_list_edit();
    assert_eq!(names(&app), strings(&["L1", "New List"]));
}

#[test]
fn quit_stops_the_board_and_nothing_else() {
    let mut app = board(&[("L1", &["a", "b"])]);
    app.motion_down();
    let before = snapshot(&app);
    assert!(app.running());
    app.quit();
    assert!(!app.running());
    let after = snapshot(&app);
    assert_eq!((after.0, after.1, after.2, after.3), (before.0, before.1, before.2, before.3));
}

#[test]
fn tick_changes_nothing() {
    let app = board(&[("L1", &["a", "b"])]);
    let before = snapshot(&app);
    app.tick();
    assert_eq!(snapshot(&app), before);
}

#[test]
fn apply_does_what_the_operation_does() {
    let mut by_action = board(&[("L1", &["a", "b"]), ("L2", &["c"])]);
    let mut by_call = board(&[("L1", &["a", "b"]), ("L2", &["c"])]);
    by_action.apply(Action::MotionDown);
    by_call.motion_down();
    assert_eq!(snapshot(&by_action), snapshot(&by_call));
    by_action.apply(Action::MoveRight);
    by_call.move_right();
    assert_eq!(snapshot(&by_action), snapshot(&by_call));
    by_action.apply(Action::EditCard);
    by_call.edit_card();
    by_action.apply(Action::TypeCard('z'));
    by_call.type_card('z');
    assert_eq!(snapshot(&by_action), snapshot(&by_call));
    by_action.apply(Action::CancelCardEdit);
    by_call.cancel_card_edit();
    assert_eq!(snapshot(&by_action), snapshot(&by_call));
    assert_eq!(cards(&by_action, 1), strings(&["c", "b"]));
    by_action.apply(Action::EditList);
    by_action.apply(Action::TypeList('s'));
    by_action.apply(Action::DoneEditing);
    assert_eq!(names(&by_action), strings(&["L1", "L2s"]));
    by_action.apply(Action::Quit);
    assert!(!by_action.running());
}
