//! The task-list model, the messages that can change it, and the commands
//! a transition can schedule.

use vstd::prelude::*;

verus! {

/// Which subset of the items is visible; a pure view predicate that never
/// deletes or reorders the stored items.
#[derive(Clone, Copy, PartialEq, Eq, Structural, Debug)]
pub enum Filter {
    All,
    Active,
    Completed,
}

impl Default for Filter {
    /// The initial filter shows every item.
    fn default() -> (r: Self)
        ensures
            r == Filter::All,
    {
        Filter::All
    }
}

/// One task entry: its label and its completion flag. The label is stored
/// trimmed of leading and trailing whitespace on commit.
pub struct Item {
    pub text: String,
    pub is_complete: bool,
}

/// The mathematical value of an `Item`.
#[verifier::ext_equal]
pub ghost struct ItemV {
    pub text: Seq<char>,
    pub is_complete: bool,
}

impl View for Item {
    type V = ItemV;

    open spec fn view(&self) -> ItemV {
        ItemV { text: self.text@, is_complete: self.is_complete }
    }
}

impl Default for Item {
    /// A fresh item: empty label, not complete.
    fn default() -> (r: Self)
        ensures
            r@ == (ItemV { text: Seq::<char>::empty(), is_complete: false }),
    {
        Item { text: String::new(), is_complete: false }
    }
}

/// The whole application state.
pub struct Todo {
    /// Live content of the "new todo" input, replaced on every keystroke.
    pub pending_item: String,
    /// The task entries, in insertion order; position doubles as identity.
    pub items: Vec<Item>,
    /// Set while exactly one item is being inline-edited: the position of
    /// that item in the unfiltered list, and the edit draft.
    pub pending_edit: Option<(usize, String)>,
    /// Which subset of `items` is visible.
    pub filter: Filter,
}

/// The mathematical value of a `Todo`.
#[verifier::ext_equal]
pub ghost struct TodoV {
    pub pending_item: Seq<char>,
    pub items: Seq<ItemV>,
    pub pending_edit: Option<(int, Seq<char>)>,
    pub filter: Filter,
}

impl View for Todo {
    type V = TodoV;

    open spec fn view(&self) -> TodoV {
        TodoV {
            pending_item: self.pending_item@,
            items: self.items@.map(|i: int, it: Item| it@),
            pending_edit: match self.pending_edit {
                Some((i, d)) => Some((i as int, d@)),
                None => None,
            },
            filter: self.filter,
        }
    }
}

/// The state the application starts in: no items, nothing pending.
pub open spec fn init_model() -> TodoV {
    TodoV {
        pending_item: Seq::<char>::empty(),
        items: Seq::<ItemV>::empty(),
        pending_edit: None,
        filter: Filter::All,
    }
}

impl Default for Todo {
    /// The empty model.
    fn default() -> (r: Self)
        ensures
            r@ == init_model(),
    {
        let r = Todo {
            pending_item: String::new(),
            items: Vec::new(),
            pending_edit: None,
            filter: Filter::All,
        };
        proof {
            assert(r@ =~= init_model());
        }
        r
    }
}

/// The closed set of state-transition requests.
#[derive(Clone, Debug, PartialEq)]
pub enum Message {
    /// An input event observed but ignored.
    Noop,
    /// Request to move input focus to the "new todo" input.
    FocusPending,
    /// Replace the pending-input buffer verbatim.
    UpdatePending(String),
    /// Append a new item from the trimmed pending input.
    AddTodo,
    /// Remove the item at this position.
    RemoveTodo(usize),
    /// Flip the completion flag of the item at this position.
    ToggleTodo(usize),
    /// Begin inline-editing the item at this position.
    EditTodo(usize),
    /// Request to move input focus to the edit input.
    FocusEdit,
    /// Replace the edit draft verbatim.
    UpdateEdit(String),
    /// Commit the trimmed edit draft, or remove the item if it is empty.
    SaveEdit,
    /// Leave edit mode without committing.
    AbortEdit,
    /// Retain only the items that are not complete.
    ClearCompleted,
    /// Set every item complete, or every item incomplete if all were.
    ToggleAll,
    /// Show every item.
    ShowAll,
    /// Show only items that are not complete.
    ShowActive,
    /// Show only items that are complete.
    ShowCompleted,
}

/// The mathematical value of a `Message`.
pub ghost enum MessageV {
    Noop,
    FocusPending,
    UpdatePending(Seq<char>),
    AddTodo,
    RemoveTodo(int),
    ToggleTodo(int),
    EditTodo(int),
    FocusEdit,
    UpdateEdit(Seq<char>),
    SaveEdit,
    AbortEdit,
    ClearCompleted,
    ToggleAll,
    ShowAll,
    ShowActive,
    ShowCompleted,
}

impl View for Message {
    type V = MessageV;

    open spec fn view(&self) -> MessageV {
        match self {
            Message::Noop => MessageV::Noop,
            Message::FocusPending => MessageV::FocusPending,
            Message::UpdatePending(s) => MessageV::UpdatePending(s@),
            Message::AddTodo => MessageV::AddTodo,
            Message::RemoveTodo(i) => MessageV::RemoveTodo(*i as int),
            Message::ToggleTodo(i) => MessageV::ToggleTodo(*i as int),
            Message::EditTodo(i) => MessageV::EditTodo(*i as int),
            Message::FocusEdit => MessageV::FocusEdit,
            Message::UpdateEdit(s) => MessageV::UpdateEdit(s@),
            Message::SaveEdit => MessageV::SaveEdit,
            Message::AbortEdit => MessageV::AbortEdit,
            Message::ClearCompleted => MessageV::ClearCompleted,
            Message::ToggleAll => MessageV::ToggleAll,
            Message::ShowAll => MessageV::ShowAll,
            Message::ShowActive => MessageV::ShowActive,
            Message::ShowCompleted => MessageV::ShowCompleted,
        }
    }
}

/// The named side effect a command performs once the render following its
/// transition has been patched into the live UI.
#[derive(Clone, Copy, PartialEq, Eq, Structural, Debug)]
pub enum Effect {
    /// Move input focus to the "new todo" input.
    FocusPendingInput,
    /// Move input focus to the inline-edit input.
    FocusEditInput,
}

/// A deferred side-effecting action paired with the message that triggered
/// it; the runtime loop executes it after the render pass.
pub struct Command {
    pub effect: Effect,
    pub msg: Message,
}

/// The mathematical value of a `Command`.
#[verifier::ext_equal]
pub ghost struct CommandV {
    pub effect: Effect,
    pub msg: MessageV,
}

impl View for Command {
    type V = CommandV;

    open spec fn view(&self) -> CommandV {
        CommandV { effect: self.effect, msg: self.msg@ }
    }
}

/// A command is consistent when it carries exactly the message variant its
/// effect was registered for; the runtime's handlers check this before
/// acting.
pub open spec fn command_consistent(c: CommandV) -> bool {
    match c.effect {
        Effect::FocusPendingInput => c.msg is FocusPending,
        Effect::FocusEditInput => c.msg is FocusEdit,
    }
}

} // verus!
