//! The closed set of operations that the outside world may ask of a board.

use vstd::prelude::*;
use crate::app::App;
use crate::model::AppView;

verus! {

/// One operation on the board.
#[derive(Debug, PartialEq, Eq, Clone, Copy, Structural)]
pub enum Action {
    MotionLeft,
    MotionDown,
    MotionUp,
    MotionRight,
    MoveLeft,
    MoveDown,
    MoveUp,
    MoveRight,
    EditCard,
    TypeCard(char),
    BackspaceCard,
    CancelCardEdit,
    AppendCard,
    PrependCard,
    RemoveCard,
    EditList,
    TypeList(char),
    BackspaceList,
    CancelListEdit,
    AppendList,
    PrependList,
    RemoveList,
    DoneEditing,
    Quit,
}

impl Action {
    /// Whether the operation only moves the cursor.
    pub open spec fn is_motion(self) -> bool {
        self is MotionLeft || self is MotionDown || self is MotionUp || self is MotionRight
    }

    /// Whether the operation changes the text of the card under the cursor
    /// and nothing else.
    pub open spec fn is_card_typing(self) -> bool {
        self is TypeCard || self is BackspaceCard
    }

    /// Whether the operation changes the name of the list under the cursor
    /// and nothing else.
    pub open spec fn is_list_typing(self) -> bool {
        self is TypeList || self is BackspaceList
    }
}

impl AppView {
    /// The board after `action`.
    pub open spec fn apply(self, action: Action) -> AppView {
        match action {
            Action::MotionLeft => self.motion_left(),
            Action::MotionDown => self.motion_down(),
            Action::MotionUp => self.motion_up(),
            Action::MotionRight => self.motion_right(),
            Action::MoveLeft => self.move_left(),
            Action::MoveDown => self.move_down(),
            Action::MoveUp => self.move_up(),
            Action::MoveRight => self.move_right(),
            Action::EditCard => self.edit_card(),
            Action::TypeCard(c) => self.type_card(c),
            Action::BackspaceCard => self.backspace_card(),
            Action::CancelCardEdit => self.cancel_card_edit(),
            Action::AppendCard => self.append_card(),
            Action::PrependCard => self.prepend_card(),
            Action::RemoveCard => self.remove_card(),
            Action::EditList => self.edit_list(),
            Action::TypeList(c) => self.type_list(c),
            Action::BackspaceList => self.backspace_list(),
            Action::CancelListEdit => self.cancel_list_edit(),
            Action::AppendList => self.append_list(),
            Action::PrependList => self.prepend_list(),
            Action::RemoveList => self.remove_list(),
            Action::DoneEditing => self.done_editing(),
            Action::Quit => self.quit(),
        }
    }

    /// The board after each of `actions` in turn.
    pub open spec fn run(self, actions: Seq<Action>) -> AppView
        decreases actions.len(),
    {
        if actions.len() == 0 {
            self
        } else {
            self.run(actions.drop_last()).apply(actions.last())
        }
    }
}

impl App {
    /// Carries out `action`.
    pub fn apply(&mut self, action: Action)
        requires
            old(self).wf(),
        ensures
            final(self).wf(),
            final(self)@ == old(self)@.apply(action),
    {
        match action {
            Action::MotionLeft => self.motion_left(),
            Action::MotionDown => self.motion_down(),
            Action::MotionUp => self.motion_up(),
            Action::MotionRight => self.motion_right(),
            Action::MoveLeft => self.move_left(),
            Action::MoveDown => self.move_down(),
            Action::MoveUp => self.move_up(),
            Action::MoveRight => self.move_right(),
            Action::EditCard => self.edit_card(),
            Action::TypeCard(c) => self.type_card(c),
            Action::BackspaceCard => self.backspace_card(),
            Action::CancelCardEdit => self.cancel_card_edit(),
            Action::AppendCard => self.append_card(),
            Action::PrependCard => self.prepend_card(),
            Action::RemoveCard => self.remove_card(),
            Action::EditList => self.edit_list(),
            Action::TypeList(c) => self.type_list(c),
            Action::BackspaceList => self.backspace_list(),
            Action::CancelListEdit => self.cancel_list_edit(),
            Action::AppendList => self.append_list(),
            Action::PrependList => self.prepend_list(),
            Action::RemoveList => self.remove_list(),
            Action::DoneEditing => self.done_editing(),
            Action::Quit => self.quit(),
        }
    }
}

} // verus!
