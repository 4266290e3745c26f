//! Tests of the projection function, the event-binding decoding, and the
//! text helpers.

use todomvc::model::{Filter, Item, Message, Todo};
use todomvc::text::{trim_str, usize_to_string};
use todomvc::view::{handler_message, handler_prevents_default, Element, Handler, Node};

fn as_elem(n: &Node) -> &Element {
    match n {
        Node::Elem(e) => e,
        Node::Text(t) => panic!("expected an element, found text {:?}", t),
    }
}

fn as_text(n: &Node) -> &str {
    match n {
        Node::Text(t) => t,
        Node::Elem(e) => panic!("expected text, found element <{}>", e.tag),
    }
}

fn attr_value<'a>(e: &'a Element, name: &str) -> &'a str {
    for (k, v) in e.attrs.iter() {
        if k == name {
            return v;
        }
    }
    panic!("attribute {} not present", name);
}

fn todo_with(items: &[(&str, bool)]) -> Todo {
    let mut todo = Todo::default();
    for (t, c) in items {
        todo.items.push(Item {
            text: (*t).to_owned(),
            is_complete: *c,
        });
    }
    todo
}

#[test]
fn trim_removes_unicode_whitespace() {
    assert_eq!(trim_str(" x "), "x");
    assert_eq!(trim_str(""), "");
    assert_eq!(trim_str(" \t\r\n "), "");
    assert_eq!(trim_str("\u{a0}\u{3000}a b\u{2003}"), "a b");
    assert_eq!(trim_str("no trim needed"), "no trim needed");
}

#[test]
fn decimal_formatting() {
    assert_eq!(usize_to_string(0), "0");
    assert_eq!(usize_to_string(7), "7");
    assert_eq!(usize_to_string(42), "42");
    assert_eq!(usize_to_string(1234567890), "1234567890");
}

#[test]
fn empty_model_renders_header_only() {
    let todo = Todo::default();
    let v = todo.render();
    assert_eq!(v.len(), 1);
    let header = as_elem(&v[0]);
    assert_eq!(header.tag, "header");
    let input = as_elem(&header.children[1]);
    assert_eq!(input.tag, "input");
    assert_eq!(attr_value(input, "value"), "");
}

#[test]
fn nonempty_model_renders_list_and_footer() {
    let todo = todo_with(&[("a", false)]);
    let v = todo.render();
    assert_eq!(v.len(), 3);
    assert_eq!(as_elem(&v[1]).tag, "section");
    assert_eq!(as_elem(&v[2]).tag, "footer");
}

#[test]
fn pending_text_is_bound_to_input() {
    let mut todo = todo_with(&[("a", false)]);
    todo.pending_item = "half typed".to_owned();
    let v = todo.render();
    let header = as_elem(&v[0]);
    let input = as_elem(&header.children[1]);
    assert_eq!(attr_value(input, "value"), "half typed");
}

#[test]
fn footer_count_singular_and_plural() {
    let one = todo_with(&[("a", false)]).render();
    let footer = as_elem(&one[2]);
    let span = as_elem(&footer.children[0]);
    let strong = as_elem(&span.children[0]);
    assert_eq!(as_text(&strong.children[0]), "1");
    assert_eq!(as_text(&span.children[1]), " item left");

    let two = todo_with(&[("a", false), ("b", true)]).render();
    let footer = as_elem(&two[2]);
    let span = as_elem(&footer.children[0]);
    let strong = as_elem(&span.children[0]);
    assert_eq!(as_text(&strong.children[0]), "2");
    assert_eq!(as_text(&span.children[1]), " items left");
}

#[test]
fn toggle_all_checked_reflects_all_complete() {
    let mixed = todo_with(&[("a", true), ("b", false)]).render();
    let section = as_elem(&mixed[1]);
    let toggle = as_elem(&section.children[0]);
    assert_eq!(attr_value(toggle, "checked"), "false");

    let done = todo_with(&[("a", true), ("b", true)]).render();
    let section = as_elem(&done[1]);
    let toggle = as_elem(&section.children[0]);
    assert_eq!(attr_value(toggle, "checked"), "true");
}

#[test]
fn visible_rows_match_filter_predicate() {
    let mut todo = todo_with(&[("a", false), ("b", true), ("c", false)]);

    let all = todo.render();
    let rows = &as_elem(&as_elem(&all[1]).children[2]).children;
    assert_eq!(rows.len(), 3);

    todo.filter = Filter::Active;
    let active = todo.render();
    let rows = &as_elem(&as_elem(&active[1]).children[2]).children;
    assert_eq!(rows.len(), 2);
    for row in rows.iter() {
        let li = as_elem(row);
        assert!(li.attrs.iter().all(|(k, v)| !(k == "class" && v == "completed")));
    }

    todo.filter = Filter::Completed;
    let completed = todo.render();
    let rows = &as_elem(&as_elem(&completed[1]).children[2]).children;
    assert_eq!(rows.len(), 1);
    let li = as_elem(&rows[0]);
    assert_eq!(attr_value(li, "class"), "completed");
}

#[test]
fn selected_filter_link_is_marked() {
    let mut todo = todo_with(&[("a", false)]);
    todo.filter = Filter::Active;
    let v = todo.render();
    let footer = as_elem(&v[2]);
    let links = as_elem(&footer.children[1]);
    let all_a = as_elem(&as_elem(&links.children[0]).children[0]);
    let active_a = as_elem(&as_elem(&links.children[1]).children[0]);
    let completed_a = as_elem(&as_elem(&links.children[2]).children[0]);
    assert_eq!(attr_value(all_a, "class"), "");
    assert_eq!(attr_value(active_a, "class"), "selected");
    assert_eq!(attr_value(completed_a, "class"), "");
    assert_eq!(as_text(&all_a.children[0]), "All");
    assert_eq!(as_text(&active_a.children[0]), "Active");
    assert_eq!(as_text(&completed_a.children[0]), "Completed");
}

#[test]
fn clear_completed_control_only_when_something_complete() {
    let none_done = todo_with(&[("a", false)]).render();
    let footer = as_elem(&none_done[2]);
    assert_eq!(footer.children.len(), 2);

    let some_done = todo_with(&[("a", false), ("b", true)]).render();
    let footer = as_elem(&some_done[2]);
    assert_eq!(footer.children.len(), 3);
    let button = as_elem(&footer.children[2]);
    assert_eq!(button.tag, "button");
    assert_eq!(attr_value(button, "class"), "clear-completed");
}

#[test]
fn editing_row_shows_draft() {
    let mut todo = todo_with(&[("a", false), ("b", false)]);
    todo.pending_edit = Some((1, "b draft".to_owned()));
    let v = todo.render();
    let rows = &as_elem(&as_elem(&v[1]).children[2]).children;
    let normal = as_elem(&rows[0]);
    assert_eq!(as_text(&as_elem(&as_elem(&normal.children[0]).children[1]).children[0]), "a");
    let editing = as_elem(&rows[1]);
    assert_eq!(attr_value(editing, "class"), "editing");
    let edit_input = as_elem(&editing.children[0]);
    assert_eq!(attr_value(edit_input, "value"), "b draft");
}

#[test]
fn row_controls_carry_the_row_position() {
    let todo = todo_with(&[("a", false), ("b", false)]);
    let v = todo.render();
    let rows = &as_elem(&as_elem(&v[1]).children[2]).children;
    let second = as_elem(&rows[1]);
    let view_div = as_elem(&second.children[0]);
    let checkbox = as_elem(&view_div.children[0]);
    let (event, handler) = &checkbox.events[0];
    assert_eq!(event, "change");
    assert!(matches!(handler, Handler::Msg(Message::ToggleTodo(1))));
    let label = as_elem(&view_div.children[1]);
    assert!(matches!(&label.events[0].1, Handler::Msg(Message::EditTodo(1))));
    let destroy = as_elem(&view_div.children[2]);
    assert!(matches!(&destroy.events[0].1, Handler::Msg(Message::RemoveTodo(1))));
}

#[test]
fn handler_decoding() {
    assert_eq!(
        handler_message(&Handler::PendingInput, "abc"),
        Message::UpdatePending("abc".to_owned())
    );
    assert_eq!(handler_message(&Handler::PendingKey, "Enter"), Message::AddTodo);
    assert_eq!(handler_message(&Handler::PendingKey, "Escape"), Message::Noop);
    assert_eq!(
        handler_message(&Handler::EditInput, "dr"),
        Message::UpdateEdit("dr".to_owned())
    );
    assert_eq!(handler_message(&Handler::EditKey, "Enter"), Message::SaveEdit);
    assert_eq!(handler_message(&Handler::EditKey, "Escape"), Message::AbortEdit);
    assert_eq!(handler_message(&Handler::EditKey, "a"), Message::Noop);
    assert_eq!(
        handler_message(&Handler::Msg(Message::ToggleAll), "ignored"),
        Message::ToggleAll
    );
    assert!(handler_prevents_default(&Handler::MsgNoDefault(Message::ShowAll)));
    assert!(!handler_prevents_default(&Handler::Msg(Message::ShowAll)));
}
