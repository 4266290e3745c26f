//! Tests of the transition function.

use todomvc::model::{Command, Effect, Filter, Item, Message, Todo};

#[test]
fn add_todo() {
    let mut todomvc = Todo::default();

    let mut cmds: Vec<Command> = vec![];

    todomvc.update(Message::UpdatePending("item".to_owned()), &mut cmds);
    todomvc.update(Message::AddTodo, &mut cmds);

    assert_eq!(todomvc.items.len(), 1);
    assert_eq!(todomvc.items[0].text, "item");
    assert_eq!(todomvc.items[0].is_complete, false);
}

#[test]
fn remove_todo() {
    let mut todomvc = Todo::default();
    todomvc.items.push(Item::default());

    let mut cmds: Vec<Command> = vec![];

    todomvc.update(Message::RemoveTodo(0), &mut cmds);

    assert_eq!(todomvc.items.len(), 0);
}

#[test]
fn toggle_todo() {
    let mut todomvc = Todo::default();
    todomvc.items.push(Item::default());

    let mut cmds: Vec<Command> = vec![];

    todomvc.update(Message::ToggleTodo(0), &mut cmds);

    assert_eq!(todomvc.items[0].is_complete, true);
}

#[test]
fn save_edit_removes_empty() {
    let mut todomvc = Todo::default();
    todomvc.items.push(Item {
        text: "text".to_owned(),
        ..Item::default()
    });

    let mut cmds: Vec<Command> = vec![];

    todomvc.update(Message::EditTodo(0), &mut cmds);
    todomvc.update(Message::UpdateEdit("".to_owned()), &mut cmds);
    todomvc.update(Message::SaveEdit, &mut cmds);

    assert_eq!(todomvc.items.len(), 0);
}

#[test]
fn save_edit_trims_whitespace() {
    let mut todomvc = Todo::default();
    todomvc.items.push(Item {
        text: "text".to_owned(),
        ..Item::default()
    });

    let mut cmds: Vec<Command> = vec![];

    todomvc.update(Message::EditTodo(0), &mut cmds);
    todomvc.update(Message::UpdateEdit(" edited text  ".to_owned()), &mut cmds);
    todomvc.update(Message::SaveEdit, &mut cmds);

    assert_eq!(todomvc.items.len(), 1);
    assert_eq!(todomvc.items[0].text, "edited text");
}

#[test]
fn abort_edit_does_not_modify() {
    let mut todomvc = Todo::default();
    todomvc.items.push(Item {
        text: "text".to_owned(),
        ..Item::default()
    });

    let mut cmds: Vec<Command> = vec![];

    todomvc.update(Message::EditTodo(0), &mut cmds);
    todomvc.update(Message::UpdateEdit(" edited text  ".to_owned()), &mut cmds);
    todomvc.update(Message::AbortEdit, &mut cmds);

    assert_eq!(todomvc.items.len(), 1);
    assert_eq!(todomvc.items[0].text, "text");
}

#[test]
fn clear_completed() {
    let mut todomvc = Todo::default();
    todomvc.items.push(Item {
        text: "text1".to_owned(),
        ..Item::default()
    });
    todomvc.items.push(Item {
        text: "text2".to_owned(),
        is_complete: true,
        ..Item::default()
    });
    todomvc.items.push(Item {
        text: "text3".to_owned(),
        ..Item::default()
    });

    let mut cmds: Vec<Command> = vec![];

    todomvc.update(Message::ClearCompleted, &mut cmds);

    assert_eq!(todomvc.items.len(), 2);
    assert_eq!(todomvc.items[0].text, "text1");
    assert_eq!(todomvc.items[1].text, "text3");
}

#[test]
fn toggle_all() {
    let mut todomvc = Todo::default();
    todomvc.items.push(Item {
        text: "text1".to_owned(),
        ..Item::default()
    });
    todomvc.items.push(Item {
        text: "text2".to_owned(),
        is_complete: true,
        ..Item::default()
    });
    todomvc.items.push(Item {
        text: "text3".to_owned(),
        ..Item::default()
    });

    let mut cmds: Vec<Command> = vec![];

    todomvc.update(Message::ToggleAll, &mut cmds);
    assert!(todomvc.items.iter().all(|item| item.is_complete));

    todomvc.update(Message::ToggleAll, &mut cmds);
    assert!(todomvc.items.iter().all(|item| !item.is_complete));
}

#[test]
fn add_trims_pending_and_clears_it() {
    let mut todomvc = Todo::default();
    let mut cmds: Vec<Command> = vec![];

    todomvc.update(Message::UpdatePending("  buy milk \t".to_owned()), &mut cmds);
    todomvc.update(Message::AddTodo, &mut cmds);

    assert_eq!(todomvc.items.len(), 1);
    assert_eq!(todomvc.items[0].text, "buy milk");
    assert_eq!(todomvc.pending_item, "");
}

#[test]
fn add_whitespace_only_appends_empty_item() {
    let mut todomvc = Todo::default();
    let mut cmds: Vec<Command> = vec![];

    todomvc.update(Message::UpdatePending("   ".to_owned()), &mut cmds);
    todomvc.update(Message::AddTodo, &mut cmds);

    assert_eq!(todomvc.items.len(), 1);
    assert_eq!(todomvc.items[0].text, "");
    assert_eq!(todomvc.items[0].is_complete, false);
}

#[test]
fn remove_preserves_order_of_rest() {
    let mut todomvc = Todo::default();
    for t in ["a", "b", "c"] {
        todomvc.items.push(Item {
            text: t.to_owned(),
            ..Item::default()
        });
    }
    let mut cmds: Vec<Command> = vec![];

    todomvc.update(Message::RemoveTodo(1), &mut cmds);

    assert_eq!(todomvc.items.len(), 2);
    assert_eq!(todomvc.items[0].text, "a");
    assert_eq!(todomvc.items[1].text, "c");
}

#[test]
fn toggle_twice_is_identity() {
    let mut todomvc = Todo::default();
    todomvc.items.push(Item {
        text: "a".to_owned(),
        ..Item::default()
    });
    todomvc.items.push(Item {
        text: "b".to_owned(),
        is_complete: true,
        ..Item::default()
    });
    let mut cmds: Vec<Command> = vec![];

    todomvc.update(Message::ToggleTodo(0), &mut cmds);
    assert_eq!(todomvc.items[0].is_complete, true);
    assert_eq!(todomvc.items[1].is_complete, true);
    todomvc.update(Message::ToggleTodo(0), &mut cmds);
    assert_eq!(todomvc.items[0].is_complete, false);
    assert_eq!(todomvc.items[1].is_complete, true);
    assert_eq!(todomvc.items[0].text, "a");
}

#[test]
fn edit_then_save_commits_trimmed() {
    let mut todomvc = Todo::default();
    todomvc.items.push(Item {
        text: "old".to_owned(),
        ..Item::default()
    });
    let mut cmds: Vec<Command> = vec![];

    todomvc.update(Message::EditTodo(0), &mut cmds);
    todomvc.update(Message::UpdateEdit(" x ".to_owned()), &mut cmds);
    todomvc.update(Message::SaveEdit, &mut cmds);

    assert_eq!(todomvc.items[0].text, "x");
    assert!(todomvc.pending_edit.is_none());
}

#[test]
fn edit_sets_draft_and_schedules_focus() {
    let mut todomvc = Todo::default();
    todomvc.items.push(Item {
        text: "old".to_owned(),
        ..Item::default()
    });
    let mut cmds: Vec<Command> = vec![];

    todomvc.update(Message::EditTodo(0), &mut cmds);

    assert_eq!(todomvc.pending_edit, Some((0, "old".to_owned())));
    assert_eq!(cmds.len(), 1);
    assert_eq!(cmds[0].effect, Effect::FocusEditInput);
    assert_eq!(cmds[0].msg, Message::FocusEdit);
}

#[test]
fn focus_pending_schedules_command() {
    let mut todomvc = Todo::default();
    let mut cmds: Vec<Command> = vec![];

    todomvc.update(Message::FocusPending, &mut cmds);

    assert_eq!(todomvc.items.len(), 0);
    assert_eq!(cmds.len(), 1);
    assert_eq!(cmds[0].effect, Effect::FocusPendingInput);
    assert_eq!(cmds[0].msg, Message::FocusPending);
}

#[test]
fn show_filters_do_not_touch_items() {
    let mut todomvc = Todo::default();
    todomvc.items.push(Item {
        text: "a".to_owned(),
        ..Item::default()
    });
    todomvc.items.push(Item {
        text: "b".to_owned(),
        is_complete: true,
        ..Item::default()
    });
    let mut cmds: Vec<Command> = vec![];

    todomvc.update(Message::ShowActive, &mut cmds);
    assert_eq!(todomvc.filter, Filter::Active);
    assert_eq!(todomvc.items.len(), 2);

    todomvc.update(Message::ShowCompleted, &mut cmds);
    assert_eq!(todomvc.filter, Filter::Completed);
    assert_eq!(todomvc.items.len(), 2);

    todomvc.update(Message::ShowAll, &mut cmds);
    assert_eq!(todomvc.filter, Filter::All);
    assert_eq!(todomvc.items.len(), 2);
    assert_eq!(todomvc.items[0].text, "a");
    assert_eq!(todomvc.items[1].text, "b");
    assert!(cmds.is_empty());
}

#[test]
fn noop_changes_nothing() {
    let mut todomvc = Todo::default();
    todomvc.items.push(Item {
        text: "a".to_owned(),
        ..Item::default()
    });
    let mut cmds: Vec<Command> = vec![];

    todomvc.update(Message::Noop, &mut cmds);

    assert_eq!(todomvc.items.len(), 1);
    assert_eq!(todomvc.pending_item, "");
    assert!(cmds.is_empty());
}

#[test]
fn end_to_end_scenario() {
    let mut todomvc = Todo::default();
    let mut cmds: Vec<Command> = vec![];

    todomvc.update(Message::UpdatePending("buy milk".to_owned()), &mut cmds);
    todomvc.update(Message::AddTodo, &mut cmds);
    assert_eq!(todomvc.items.len(), 1);
    assert_eq!(todomvc.items[0].text, "buy milk");
    assert_eq!(todomvc.items[0].is_complete, false);

    todomvc.update(Message::ToggleTodo(0), &mut cmds);
    assert_eq!(todomvc.items.len(), 1);
    assert_eq!(todomvc.items[0].text, "buy milk");
    assert_eq!(todomvc.items[0].is_complete, true);

    todomvc.update(Message::ClearCompleted, &mut cmds);
    assert_eq!(todomvc.items.len(), 0);
}

#[test]
fn toggle_all_on_empty_list() {
    let mut todomvc = Todo::default();
    let mut cmds: Vec<Command> = vec![];

    todomvc.update(Message::ToggleAll, &mut cmds);

    assert_eq!(todomvc.items.len(), 0);
    assert!(cmds.is_empty());
}
