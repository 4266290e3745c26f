//! The declarative view tree the projection function produces: labeled
//! nodes carrying attributes, event-to-message bindings, and children.
//! This tree is the sole interface to the diffing engine that reconciles
//! it with the live UI.

use vstd::prelude::*;
use crate::model::{Filter, Item, ItemV, Message, MessageV, Todo, TodoV};
use crate::text::{dec_str, str_eq, usize_to_string};
use crate::update::{all_complete, any_complete};

verus! {

/// An event binding: either a constant message, or a named decoding of the
/// native event payload into a message (see `handler_message`).
pub enum Handler {
    /// The event produces this message.
    Msg(Message),
    /// As `Msg`, but the binding also suppresses the event's default
    /// navigation behavior.
    MsgNoDefault(Message),
    /// The input's new value `s` produces `UpdatePending(s)`.
    PendingInput,
    /// The key `"Enter"` produces `AddTodo`; any other key, `Noop`.
    PendingKey,
    /// The input's new value `s` produces `UpdateEdit(s)`.
    EditInput,
    /// `"Enter"` produces `SaveEdit`, `"Escape"` produces `AbortEdit`; any
    /// other key, `Noop`.
    EditKey,
}

/// The mathematical value of a `Handler`.
pub ghost enum HandlerV {
    Msg(MessageV),
    MsgNoDefault(MessageV),
    PendingInput,
    PendingKey,
    EditInput,
    EditKey,
}

impl View for Handler {
    type V = HandlerV;

    open spec fn view(&self) -> HandlerV {
        match self {
            Handler::Msg(m) => HandlerV::Msg(m@),
            Handler::MsgNoDefault(m) => HandlerV::MsgNoDefault(m@),
            Handler::PendingInput => HandlerV::PendingInput,
            Handler::PendingKey => HandlerV::PendingKey,
            Handler::EditInput => HandlerV::EditInput,
            Handler::EditKey => HandlerV::EditKey,
        }
    }
}

/// A node of the view tree: an element or a text leaf.
pub enum Node {
    Elem(Element),
    Text(String),
}

/// An element: tag name, ordered attribute pairs, event bindings, and
/// ordered children.
pub struct Element {
    pub tag: String,
    pub attrs: Vec<(String, String)>,
    pub events: Vec<(String, Handler)>,
    pub children: Vec<Node>,
}

/// The mathematical value of a `Node`.
#[verifier::ext_equal]
pub ghost enum NodeV {
    Elem(ElementV),
    Text(Seq<char>),
}

/// The mathematical value of an `Element`.
#[verifier::ext_equal]
pub ghost struct ElementV {
    pub tag: Seq<char>,
    pub attrs: Seq<(Seq<char>, Seq<char>)>,
    pub events: Seq<(Seq<char>, HandlerV)>,
    pub children: Seq<NodeV>,
}

/// The mathematical value of a `Node`.
pub open spec fn node_view(n: Node) -> NodeV
    decreases n,
{
    match n {
        Node::Elem(e) => NodeV::Elem(elem_view(e)),
        Node::Text(s) => NodeV::Text(s@),
    }
}

/// The mathematical values of a sequence of nodes, element for element.
pub open spec fn nodes_view(v: Seq<Node>) -> Seq<NodeV>
    decreases v,
{
    if v.len() == 0 {
        Seq::<NodeV>::empty()
    } else {
        seq![node_view(v[0])] + nodes_view(v.drop_first())
    }
}

/// The attribute values of a sequence of attribute pairs.
pub open spec fn attrs_view(s: Seq<(String, String)>) -> Seq<(Seq<char>, Seq<char>)> {
    s.map(|i: int, kv: (String, String)| (kv.0@, kv.1@))
}

/// The event-binding values of a sequence of event bindings.
pub open spec fn events_view(s: Seq<(String, Handler)>) -> Seq<(Seq<char>, HandlerV)> {
    s.map(|i: int, ev: (String, Handler)| (ev.0@, ev.1@))
}

/// The mathematical value of an `Element`.
pub open spec fn elem_view(e: Element) -> ElementV
    decreases e,
{
    ElementV {
        tag: e.tag@,
        attrs: attrs_view(e.attrs@),
        events: events_view(e.events@),
        children: nodes_view(e.children@),
    }
}

/// `attrs_view` maps the pair views over the sequence.
pub broadcast proof fn lemma_attrs_view(s: Seq<(String, String)>)
    ensures
        #[trigger] attrs_view(s).len() == s.len(),
        forall|i: int| 0 <= i < s.len() ==> (#[trigger] attrs_view(s)[i]) == (s[i].0@, s[i].1@),
{
}

/// `events_view` maps the binding views over the sequence.
pub broadcast proof fn lemma_events_view(s: Seq<(String, Handler)>)
    ensures
        #[trigger] events_view(s).len() == s.len(),
        forall|i: int| 0 <= i < s.len() ==> (#[trigger] events_view(s)[i]) == (s[i].0@, s[i].1@),
{
}

/// `nodes_view` maps `node_view` over the sequence: same length, and the
/// value at each position is the value of the node there.
pub broadcast proof fn lemma_nodes_view(v: Seq<Node>)
    ensures
        #[trigger] nodes_view(v).len() == v.len(),
        forall|i: int| 0 <= i < v.len() ==> (#[trigger] nodes_view(v)[i]) == node_view(v[i]),
    decreases v,
{
    if v.len() > 0 {
        lemma_nodes_view(v.drop_first());
    }
}


/// The node values of an empty sequence.
pub proof fn nodes_view_is0(v: Seq<Node>)
    requires
        v.len() == 0,
    ensures
        nodes_view(v) == Seq::<NodeV>::empty(),
{
    lemma_nodes_view(v);
    assert(nodes_view(v) =~= Seq::<NodeV>::empty());
}

/// The node values of a one-node sequence.
pub proof fn nodes_view_is1(v: Seq<Node>, n0: NodeV)
    requires
        v.len() == 1,
        node_view(v[0]) == n0,
    ensures
        nodes_view(v) == seq![n0],
{
    lemma_nodes_view(v);
    assert(nodes_view(v) =~= seq![n0]);
}

/// The node values of a two-node sequence.
pub proof fn nodes_view_is2(v: Seq<Node>, n0: NodeV, n1: NodeV)
    requires
        v.len() == 2,
        node_view(v[0]) == n0,
        node_view(v[1]) == n1,
    ensures
        nodes_view(v) == seq![n0, n1],
{
    lemma_nodes_view(v);
    assert(nodes_view(v) =~= seq![n0, n1]);
}

/// The node values of a three-node sequence.
pub proof fn nodes_view_is3(v: Seq<Node>, n0: NodeV, n1: NodeV, n2: NodeV)
    requires
        v.len() == 3,
        node_view(v[0]) == n0,
        node_view(v[1]) == n1,
        node_view(v[2]) == n2,
    ensures
        nodes_view(v) == seq![n0, n1, n2],
{
    lemma_nodes_view(v);
    assert(nodes_view(v) =~= seq![n0, n1, n2]);
}

/// The attribute values of an empty sequence.
pub proof fn attrs_view_is0(s: Seq<(String, String)>)
    requires
        s.len() == 0,
    ensures
        attrs_view(s) == Seq::<(Seq<char>, Seq<char>)>::empty(),
{
    lemma_attrs_view(s);
    assert(attrs_view(s) =~= Seq::<(Seq<char>, Seq<char>)>::empty());
}

/// The attribute values of a one-pair sequence.
pub proof fn attrs_view_is1(s: Seq<(String, String)>, a0: (Seq<char>, Seq<char>))
    requires
        s.len() == 1,
        s[0].0@ == a0.0 && s[0].1@ == a0.1,
    ensures
        attrs_view(s) == seq![a0],
{
    lemma_attrs_view(s);
    assert(attrs_view(s) =~= seq![a0]);
}

/// The attribute values of a two-pair sequence.
pub proof fn attrs_view_is2(
    s: Seq<(String, String)>,
    a0: (Seq<char>, Seq<char>),
    a1: (Seq<char>, Seq<char>),
)
    requires
        s.len() == 2,
        s[0].0@ == a0.0 && s[0].1@ == a0.1,
        s[1].0@ == a1.0 && s[1].1@ == a1.1,
    ensures
        attrs_view(s) == seq![a0, a1],
{
    lemma_attrs_view(s);
    assert(attrs_view(s) =~= seq![a0, a1]);
}

/// The attribute values of a three-pair sequence.
pub proof fn attrs_view_is3(
    s: Seq<(String, String)>,
    a0: (Seq<char>, Seq<char>),
    a1: (Seq<char>, Seq<char>),
    a2: (Seq<char>, Seq<char>),
)
    requires
        s.len() == 3,
        s[0].0@ == a0.0 && s[0].1@ == a0.1,
        s[1].0@ == a1.0 && s[1].1@ == a1.1,
        s[2].0@ == a2.0 && s[2].1@ == a2.1,
    ensures
        attrs_view(s) == seq![a0, a1, a2],
{
    lemma_attrs_view(s);
    assert(attrs_view(s) =~= seq![a0, a1, a2]);
}

/// The attribute values of a four-pair sequence.
pub proof fn attrs_view_is4(
    s: Seq<(String, String)>,
    a0: (Seq<char>, Seq<char>),
    a1: (Seq<char>, Seq<char>),
    a2: (Seq<char>, Seq<char>),
    a3: (Seq<char>, Seq<char>),
)
    requires
        s.len() == 4,
        s[0].0@ == a0.0 && s[0].1@ == a0.1,
        s[1].0@ == a1.0 && s[1].1@ == a1.1,
        s[2].0@ == a2.0 && s[2].1@ == a2.1,
        s[3].0@ == a3.0 && s[3].1@ == a3.1,
    ensures
        attrs_view(s) == seq![a0, a1, a2, a3],
{
    lemma_attrs_view(s);
    assert(attrs_view(s) =~= seq![a0, a1, a2, a3]);
}

/// The binding values of an empty sequence.
pub proof fn events_view_is0(s: Seq<(String, Handler)>)
    requires
        s.len() == 0,
    ensures
        events_view(s) == Seq::<(Seq<char>, HandlerV)>::empty(),
{
    lemma_events_view(s);
    assert(events_view(s) =~= Seq::<(Seq<char>, HandlerV)>::empty());
}

/// The binding values of a one-binding sequence.
pub proof fn events_view_is1(s: Seq<(String, Handler)>, e0: (Seq<char>, HandlerV))
    requires
        s.len() == 1,
        s[0].0@ == e0.0 && s[0].1@ == e0.1,
    ensures
        events_view(s) == seq![e0],
{
    lemma_events_view(s);
    assert(events_view(s) =~= seq![e0]);
}

/// The binding values of a two-binding sequence.
pub proof fn events_view_is2(
    s: Seq<(String, Handler)>,
    e0: (Seq<char>, HandlerV),
    e1: (Seq<char>, HandlerV),
)
    requires
        s.len() == 2,
        s[0].0@ == e0.0 && s[0].1@ == e0.1,
        s[1].0@ == e1.0 && s[1].1@ == e1.1,
    ensures
        events_view(s) == seq![e0, e1],
{
    lemma_events_view(s);
    assert(events_view(s) =~= seq![e0, e1]);
}

/// The binding values of a three-binding sequence.
pub proof fn events_view_is3(
    s: Seq<(String, Handler)>,
    e0: (Seq<char>, HandlerV),
    e1: (Seq<char>, HandlerV),
    e2: (Seq<char>, HandlerV),
)
    requires
        s.len() == 3,
        s[0].0@ == e0.0 && s[0].1@ == e0.1,
        s[1].0@ == e1.0 && s[1].1@ == e1.1,
        s[2].0@ == e2.0 && s[2].1@ == e2.1,
    ensures
        events_view(s) == seq![e0, e1, e2],
{
    lemma_events_view(s);
    assert(events_view(s) =~= seq![e0, e1, e2]);
}

/// No attributes.
pub open spec fn no_attrs() -> Seq<(Seq<char>, Seq<char>)> {
    Seq::<(Seq<char>, Seq<char>)>::empty()
}

/// No event bindings.
pub open spec fn no_events() -> Seq<(Seq<char>, HandlerV)> {
    Seq::<(Seq<char>, HandlerV)>::empty()
}

/// No children.
pub open spec fn no_children() -> Seq<NodeV> {
    Seq::<NodeV>::empty()
}

/// The string an attribute carries for a flag: `"true"` or `"false"`.
pub open spec fn bool_str(b: bool) -> Seq<char> {
    if b {
        "true"@
    } else {
        "false"@
    }
}

/// Does the filter show this item?
pub open spec fn filter_pred(f: Filter, it: ItemV) -> bool {
    match f {
        Filter::All => true,
        Filter::Active => !it.is_complete,
        Filter::Completed => it.is_complete,
    }
}

/// The visible subset of the items: those the current filter shows, in
/// stored order.
pub open spec fn visible_items(m: TodoV) -> Seq<ItemV> {
    m.items.filter(|it: ItemV| filter_pred(m.filter, it))
}

/// The edit draft shown at visible row `i`, if the pending edit addresses
/// that row. Note the index hazard: the pending edit's position indexes
/// the unfiltered items, but rows are numbered over the filtered subset,
/// so the two coincide only under the all-showing filter.
pub open spec fn edit_at(m: TodoV, i: int) -> Option<Seq<char>> {
    match m.pending_edit {
        Some((j, d)) => if j == i {
            Some(d)
        } else {
            None
        },
        None => None,
    }
}

/// The header: the title and the pending-input control, whose value is the
/// live pending text; input replaces the pending text, and the Enter key
/// adds the item.
pub open spec fn header_view(pending: Seq<char>) -> NodeV {
    NodeV::Elem(
        ElementV {
            tag: "header"@,
            attrs: seq![("class"@, "header"@)],
            events: no_events(),
            children: seq![
                NodeV::Elem(
                    ElementV {
                        tag: "h1"@,
                        attrs: no_attrs(),
                        events: no_events(),
                        children: seq![NodeV::Text("todos"@)],
                    },
                ),
                NodeV::Elem(
                    ElementV {
                        tag: "input"@,
                        attrs: seq![
                            ("class"@, "new-todo"@),
                            ("placeholder"@, "What needs to be done?"@),
                            ("autofocus"@, "true"@),
                            ("value"@, pending),
                        ],
                        events: seq![
                            ("input"@, HandlerV::PendingInput),
                            ("keyup"@, HandlerV::PendingKey),
                        ],
                        children: no_children(),
                    },
                ),
            ],
        },
    )
}

/// A visible row in its normal (non-editing) form: completion checkbox,
/// label, and destroy control, each bound to the message carrying this
/// row's visible position.
pub open spec fn row_normal_view(i: int, it: ItemV) -> NodeV {
    NodeV::Elem(
        ElementV {
            tag: "li"@,
            attrs: if it.is_complete {
                seq![("class"@, "completed"@)]
            } else {
                no_attrs()
            },
            events: no_events(),
            children: seq![
                NodeV::Elem(
                    ElementV {
                        tag: "div"@,
                        attrs: seq![("class"@, "view"@)],
                        events: no_events(),
                        children: seq![
                            NodeV::Elem(
                                ElementV {
                                    tag: "input"@,
                                    attrs: seq![
                                        ("class"@, "toggle"@),
                                        ("type"@, "checkbox"@),
                                        ("checked"@, bool_str(it.is_complete)),
                                    ],
                                    events: seq![
                                        ("change"@, HandlerV::Msg(MessageV::ToggleTodo(i))),
                                    ],
                                    children: no_children(),
                                },
                            ),
                            NodeV::Elem(
                                ElementV {
                                    tag: "label"@,
                                    attrs: no_attrs(),
                                    events: seq![
                                        ("dblclick"@, HandlerV::Msg(MessageV::EditTodo(i))),
                                    ],
                                    children: seq![NodeV::Text(it.text)],
                                },
                            ),
                            NodeV::Elem(
                                ElementV {
                                    tag: "button"@,
                                    attrs: seq![("class"@, "destroy"@)],
                                    events: seq![
                                        ("click"@, HandlerV::Msg(MessageV::RemoveTodo(i))),
                                    ],
                                    children: no_children(),
                                },
                            ),
                        ],
                    },
                ),
            ],
        },
    )
}

/// A visible row in editing form: the edit input bound to the draft;
/// input replaces the draft, blur and Enter save, Escape aborts.
pub open spec fn row_editing_view(draft: Seq<char>) -> NodeV {
    NodeV::Elem(
        ElementV {
            tag: "li"@,
            attrs: seq![("class"@, "editing"@)],
            events: no_events(),
            children: seq![
                NodeV::Elem(
                    ElementV {
                        tag: "input"@,
                        attrs: seq![("class"@, "edit"@), ("value"@, draft)],
                        events: seq![
                            ("input"@, HandlerV::EditInput),
                            ("blur"@, HandlerV::Msg(MessageV::SaveEdit)),
                            ("keyup"@, HandlerV::EditKey),
                        ],
                        children: no_children(),
                    },
                ),
            ],
        },
    )
}

/// One visible row: its editing form when an edit addresses it, otherwise
/// its normal form.
pub open spec fn row_view(i: int, it: ItemV, edit: Option<Seq<char>>) -> NodeV {
    match edit {
        Some(d) => row_editing_view(d),
        None => row_normal_view(i, it),
    }
}

/// The row nodes for a sequence of visible items, re-indexed from zero.
pub open spec fn row_nodes(m: TodoV, items: Seq<ItemV>) -> Seq<NodeV> {
    Seq::new(items.len(), |i: int| row_view(i, items[i], edit_at(m, i)))
}

/// The visible rows: the filtered items, re-indexed from zero over the
/// filtered sequence.
pub open spec fn rows_view(m: TodoV) -> Seq<NodeV> {
    row_nodes(m, visible_items(m))
}

/// The main section, rendered only when items exist: the toggle-all
/// control, whose checked state reflects "all items complete", and the
/// visible item list.
pub open spec fn main_view(m: TodoV) -> NodeV {
    NodeV::Elem(
        ElementV {
            tag: "section"@,
            attrs: seq![("class"@, "main"@)],
            events: no_events(),
            children: seq![
                NodeV::Elem(
                    ElementV {
                        tag: "input"@,
                        attrs: seq![
                            ("id"@, "toggle-all"@),
                            ("class"@, "toggle-all"@),
                            ("type"@, "checkbox"@),
                            ("checked"@, bool_str(all_complete(m.items))),
                        ],
                        events: seq![("change"@, HandlerV::Msg(MessageV::ToggleAll))],
                        children: no_children(),
                    },
                ),
                NodeV::Elem(
                    ElementV {
                        tag: "label"@,
                        attrs: seq![("for"@, "toggle-all"@)],
                        events: no_events(),
                        children: seq![NodeV::Text("Mark all as complete"@)],
                    },
                ),
                NodeV::Elem(
                    ElementV {
                        tag: "ul"@,
                        attrs: seq![("class"@, "todo-list"@)],
                        events: no_events(),
                        children: rows_view(m),
                    },
                ),
            ],
        },
    )
}

/// One filter link: marked selected when it matches the current filter,
/// emitting its message while suppressing the link's default navigation.
pub open spec fn filter_link_view(
    href: Seq<char>,
    label: Seq<char>,
    selected: bool,
    msg: MessageV,
) -> NodeV {
    NodeV::Elem(
        ElementV {
            tag: "li"@,
            attrs: no_attrs(),
            events: no_events(),
            children: seq![
                NodeV::Elem(
                    ElementV {
                        tag: "a"@,
                        attrs: seq![
                            ("href"@, href),
                            ("class"@, if selected { "selected"@ } else { ""@ }),
                        ],
                        events: seq![("click"@, HandlerV::MsgNoDefault(msg))],
                        children: seq![NodeV::Text(label)],
                    },
                ),
            ],
        },
    )
}

/// The footer, rendered only when items exist: the item count with
/// singular or plural phrasing, the three filter links, and - only when
/// some item is complete - the clear-completed control.
pub open spec fn footer_view(m: TodoV) -> NodeV {
    NodeV::Elem(
        ElementV {
            tag: "footer"@,
            attrs: seq![("class"@, "footer"@)],
            events: no_events(),
            children: seq![
                NodeV::Elem(
                    ElementV {
                        tag: "span"@,
                        attrs: seq![("class"@, "todo-count"@)],
                        events: no_events(),
                        children: seq![
                            NodeV::Elem(
                                ElementV {
                                    tag: "strong"@,
                                    attrs: no_attrs(),
                                    events: no_events(),
                                    children: seq![NodeV::Text(dec_str(m.items.len() as nat))],
                                },
                            ),
                            NodeV::Text(
                                if m.items.len() == 1 {
                                    " item left"@
                                } else {
                                    " items left"@
                                },
                            ),
                        ],
                    },
                ),
                NodeV::Elem(
                    ElementV {
                        tag: "ul"@,
                        attrs: seq![("class"@, "filters"@)],
                        events: no_events(),
                        children: seq![
                            filter_link_view(
                                "#/"@,
                                "All"@,
                                m.filter == Filter::All,
                                MessageV::ShowAll,
                            ),
                            filter_link_view(
                                "#/active"@,
                                "Active"@,
                                m.filter == Filter::Active,
                                MessageV::ShowActive,
                            ),
                            filter_link_view(
                                "#/completed"@,
                                "Completed"@,
                                m.filter == Filter::Completed,
                                MessageV::ShowCompleted,
                            ),
                        ],
                    },
                ),
            ] + if any_complete(m.items) {
                seq![
                    NodeV::Elem(
                        ElementV {
                            tag: "button"@,
                            attrs: seq![("class"@, "clear-completed"@)],
                            events: seq![("click"@, HandlerV::Msg(MessageV::ClearCompleted))],
                            children: seq![NodeV::Text("Clear completed"@)],
                        },
                    ),
                ]
            } else {
                no_children()
            },
        },
    )
}

/// What the projection returns: always the header; the list section and
/// the footer only when items exist.
pub open spec fn render_spec(m: TodoV) -> Seq<NodeV> {
    if m.items.len() == 0 {
        seq![header_view(m.pending_item)]
    } else {
        seq![header_view(m.pending_item), main_view(m), footer_view(m)]
    }
}

/// What an event binding's message is, given the native event's payload:
/// the input's new value for the input bindings, the key name for the key
/// bindings; constant bindings ignore the payload.
pub open spec fn handler_message_spec(h: HandlerV, payload: Seq<char>) -> MessageV {
    match h {
        HandlerV::Msg(m) => m,
        HandlerV::MsgNoDefault(m) => m,
        HandlerV::PendingInput => MessageV::UpdatePending(payload),
        HandlerV::PendingKey => if payload == "Enter"@ {
            MessageV::AddTodo
        } else {
            MessageV::Noop
        },
        HandlerV::EditInput => MessageV::UpdateEdit(payload),
        HandlerV::EditKey => if payload == "Enter"@ {
            MessageV::SaveEdit
        } else if payload == "Escape"@ {
            MessageV::AbortEdit
        } else {
            MessageV::Noop
        },
    }
}

/// An owned copy of a message, equal in value.
pub fn clone_message(m: &Message) -> (r: Message)
    ensures
        r@ == m@,
{
    match m {
        Message::Noop => Message::Noop,
        Message::FocusPending => Message::FocusPending,
        Message::UpdatePending(s) => Message::UpdatePending(s.clone()),
        Message::AddTodo => Message::AddTodo,
        Message::RemoveTodo(i) => Message::RemoveTodo(*i),
        Message::ToggleTodo(i) => Message::ToggleTodo(*i),
        Message::EditTodo(i) => Message::EditTodo(*i),
        Message::FocusEdit => Message::FocusEdit,
        Message::UpdateEdit(s) => Message::UpdateEdit(s.clone()),
        Message::SaveEdit => Message::SaveEdit,
        Message::AbortEdit => Message::AbortEdit,
        Message::ClearCompleted => Message::ClearCompleted,
        Message::ToggleAll => Message::ToggleAll,
        Message::ShowAll => Message::ShowAll,
        Message::ShowActive => Message::ShowActive,
        Message::ShowCompleted => Message::ShowCompleted,
    }
}

/// Decodes one event binding against the native event's payload, yielding
/// the message the runtime loop should dispatch.
pub fn handler_message(h: &Handler, payload: &str) -> (m: Message)
    ensures
        m@ == handler_message_spec(h@, payload@),
{
    match h {
        Handler::Msg(m0) => clone_message(m0),
        Handler::MsgNoDefault(m0) => clone_message(m0),
        Handler::PendingInput => Message::UpdatePending(payload.to_owned()),
        Handler::PendingKey => {
            if str_eq(payload, "Enter") {
                Message::AddTodo
            } else {
                Message::Noop
            }
        },
        Handler::EditInput => Message::UpdateEdit(payload.to_owned()),
        Handler::EditKey => {
            if str_eq(payload, "Enter") {
                Message::SaveEdit
            } else if str_eq(payload, "Escape") {
                Message::AbortEdit
            } else {
                Message::Noop
            }
        },
    }
}

/// Whether the binding suppresses the event's default behavior (the
/// filter links do, so following them never navigates).
pub fn handler_prevents_default(h: &Handler) -> (b: bool)
    ensures
        b == (h@ is MsgNoDefault),
{
    matches!(h, Handler::MsgNoDefault(_))
}

/// A text leaf.
fn text_node(s: &str) -> (n: Node)
    ensures
        node_view(n) == NodeV::Text(s@),
{
    Node::Text(s.to_owned())
}

/// An attribute pair.
fn attr(k: &str, v: &str) -> (kv: (String, String))
    ensures
        kv.0@ == k@,
        kv.1@ == v@,
{
    (k.to_owned(), v.to_owned())
}

/// An event binding.
fn on(k: &str, h: Handler) -> (ev: (String, Handler))
    ensures
        ev.0@ == k@,
        ev.1 == h,
{
    (k.to_owned(), h)
}

/// Renders the header: title and pending-input control.
fn render_header(pending: &str) -> (n: Node)
    ensures
        node_view(n) == header_view(pending@),
{
    let mut h1_children: Vec<Node> = Vec::new();
    h1_children.push(text_node("todos"));
    let h1 = Node::Elem(
        Element {
            tag: "h1".to_owned(),
            attrs: Vec::new(),
            events: Vec::new(),
            children: h1_children,
        },
    );
    let mut input_attrs: Vec<(String, String)> = Vec::new();
    input_attrs.push(attr("class", "new-todo"));
    input_attrs.push(attr("placeholder", "What needs to be done?"));
    input_attrs.push(attr("autofocus", "true"));
    input_attrs.push(attr("value", pending));
    let mut input_events: Vec<(String, Handler)> = Vec::new();
    input_events.push(on("input", Handler::PendingInput));
    input_events.push(on("keyup", Handler::PendingKey));
    let input = Node::Elem(
        Element {
            tag: "input".to_owned(),
            attrs: input_attrs,
            events: input_events,
            children: Vec::new(),
        },
    );
    let mut hdr_attrs: Vec<(String, String)> = Vec::new();
    hdr_attrs.push(attr("class", "header"));
    let mut hdr_children: Vec<Node> = Vec::new();
    hdr_children.push(h1);
    hdr_children.push(input);
    let n = Node::Elem(
        Element {
            tag: "header".to_owned(),
            attrs: hdr_attrs,
            events: Vec::new(),
            children: hdr_children,
        },
    );
    proof {
        nodes_view_is1(h1_children@, NodeV::Text("todos"@));
        attrs_view_is0(h1->Elem_0.attrs@);
        events_view_is0(h1->Elem_0.events@);
        assert(node_view(h1) == header_view(pending@)->Elem_0.children[0]);
        attrs_view_is4(
            input_attrs@,
            ("class"@, "new-todo"@),
            ("placeholder"@, "What needs to be done?"@),
            ("autofocus"@, "true"@),
            ("value"@, pending@),
        );
        events_view_is2(
            input_events@,
            ("input"@, HandlerV::PendingInput),
            ("keyup"@, HandlerV::PendingKey),
        );
        nodes_view_is0(input->Elem_0.children@);
        assert(node_view(input) == header_view(pending@)->Elem_0.children[1]);
        attrs_view_is1(hdr_attrs@, ("class"@, "header"@));
        events_view_is0(n->Elem_0.events@);
        nodes_view_is2(
            hdr_children@,
            header_view(pending@)->Elem_0.children[0],
            header_view(pending@)->Elem_0.children[1],
        );
        assert(node_view(n) == header_view(pending@));
    }

    n
}

impl Item {
    /// Renders this item as visible row `i`: the editing form when a
    /// draft addresses the row, the normal form otherwise.
    pub fn render(&self, i: usize, pending_edit: Option<&str>) -> (n: Node)
        ensures
            node_view(n) == row_view(
                i as int,
                self@,
                match pending_edit {
                    Some(d) => Some(d@),
                    None => None,
                },
            ),
    {
        match pending_edit {
            Some(draft) => {
                let mut input_attrs: Vec<(String, String)> = Vec::new();
                input_attrs.push(attr("class", "edit"));
                input_attrs.push(attr("value", draft));
                let mut input_events: Vec<(String, Handler)> = Vec::new();
                input_events.push(on("input", Handler::EditInput));
                input_events.push(on("blur", Handler::Msg(Message::SaveEdit)));
                input_events.push(on("keyup", Handler::EditKey));
                let input = Node::Elem(
                    Element {
                        tag: "input".to_owned(),
                        attrs: input_attrs,
                        events: input_events,
                        children: Vec::new(),
                    },
                );
                let mut li_attrs: Vec<(String, String)> = Vec::new();
                li_attrs.push(attr("class", "editing"));
                let mut li_children: Vec<Node> = Vec::new();
                li_children.push(input);
                let n = Node::Elem(
                    Element {
                        tag: "li".to_owned(),
                        attrs: li_attrs,
                        events: Vec::new(),
                        children: li_children,
                    },
                );
                proof {
                    attrs_view_is2(input_attrs@, ("class"@, "edit"@), ("value"@, draft@));
                    events_view_is3(
                        input_events@,
                        ("input"@, HandlerV::EditInput),
                        ("blur"@, HandlerV::Msg(MessageV::SaveEdit)),
                        ("keyup"@, HandlerV::EditKey),
                    );
                    nodes_view_is0(input->Elem_0.children@);
                    assert(node_view(input) == row_editing_view(draft@)->Elem_0.children[0]);
                    attrs_view_is1(li_attrs@, ("class"@, "editing"@));
                    events_view_is0(n->Elem_0.events@);
                    nodes_view_is1(li_children@, row_editing_view(draft@)->Elem_0.children[0]);
                    assert(node_view(n) == row_editing_view(draft@));
                }
                n
            },
            None => {
                let mut toggle_attrs: Vec<(String, String)> = Vec::new();
                toggle_attrs.push(attr("class", "toggle"));
                toggle_attrs.push(attr("type", "checkbox"));
                toggle_attrs.push(attr("checked", if self.is_complete { "true" } else { "false" }));
                let mut toggle_events: Vec<(String, Handler)> = Vec::new();
                toggle_events.push(on("change", Handler::Msg(Message::ToggleTodo(i))));
                let toggle = Node::Elem(
                    Element {
                        tag: "input".to_owned(),
                        attrs: toggle_attrs,
                        events: toggle_events,
                        children: Vec::new(),
                    },
                );
                let mut label_events: Vec<(String, Handler)> = Vec::new();
                label_events.push(on("dblclick", Handler::Msg(Message::EditTodo(i))));
                let mut label_children: Vec<Node> = Vec::new();
                label_children.push(text_node(self.text.as_str()));
                let label = Node::Elem(
                    Element {
                        tag: "label".to_owned(),
                        attrs: Vec::new(),
                        events: label_events,
                        children: label_children,
                    },
                );
                let mut destroy_attrs: Vec<(String, String)> = Vec::new();
                destroy_attrs.push(attr("class", "destroy"));
                let mut destroy_events: Vec<(String, Handler)> = Vec::new();
                destroy_events.push(on("click", Handler::Msg(Message::RemoveTodo(i))));
                let destroy = Node::Elem(
                    Element {
                        tag: "button".to_owned(),
                        attrs: destroy_attrs,
                        events: destroy_events,
                        children: Vec::new(),
                    },
                );
                let mut div_attrs: Vec<(String, String)> = Vec::new();
                div_attrs.push(attr("class", "view"));
                let mut div_children: Vec<Node> = Vec::new();
                div_children.push(toggle);
                div_children.push(label);
                div_children.push(destroy);
                let div = Node::Elem(
                    Element {
                        tag: "div".to_owned(),
                        attrs: div_attrs,
                        events: Vec::new(),
                        children: div_children,
                    },
                );
                let mut li_attrs: Vec<(String, String)> = Vec::new();
                if self.is_complete {
                    li_attrs.push(attr("class", "completed"));
                }
                let mut li_children: Vec<Node> = Vec::new();
                li_children.push(div);
                let n = Node::Elem(
                    Element {
                        tag: "li".to_owned(),
                        attrs: li_attrs,
                        events: Vec::new(),
                        children: li_children,
                    },
                );
                proof {
                    let target = row_normal_view(i as int, self@);
                    let target_div = target->Elem_0.children[0];
                    attrs_view_is3(
                        toggle_attrs@,
                        ("class"@, "toggle"@),
                        ("type"@, "checkbox"@),
                        ("checked"@, bool_str(self@.is_complete)),
                    );
                    events_view_is1(
                        toggle_events@,
                        ("change"@, HandlerV::Msg(MessageV::ToggleTodo(i as int))),
                    );
                    nodes_view_is0(toggle->Elem_0.children@);
                    assert(node_view(toggle) == target_div->Elem_0.children[0]);
                    attrs_view_is0(label->Elem_0.attrs@);
                    events_view_is1(
                        label_events@,
                        ("dblclick"@, HandlerV::Msg(MessageV::EditTodo(i as int))),
                    );
                    nodes_view_is1(label_children@, NodeV::Text(self@.text));
                    assert(node_view(label) == target_div->Elem_0.children[1]);
                    attrs_view_is1(destroy_attrs@, ("class"@, "destroy"@));
                    events_view_is1(
                        destroy_events@,
                        ("click"@, HandlerV::Msg(MessageV::RemoveTodo(i as int))),
                    );
                    nodes_view_is0(destroy->Elem_0.children@);
                    assert(node_view(destroy) == target_div->Elem_0.children[2]);
                    attrs_view_is1(div_attrs@, ("class"@, "view"@));
                    events_view_is0(div->Elem_0.events@);
                    nodes_view_is3(
                        div_children@,
                        target_div->Elem_0.children[0],
                        target_div->Elem_0.children[1],
                        target_div->Elem_0.children[2],
                    );
                    assert(node_view(div) == target_div);
                    if self.is_complete {
                        attrs_view_is1(li_attrs@, ("class"@, "completed"@));
                    } else {
                        attrs_view_is0(li_attrs@);
                    }
                    events_view_is0(n->Elem_0.events@);
                    nodes_view_is1(li_children@, target_div);
                    assert(node_view(n) == target);
                }
                n
            },
        }
    }
}

impl Todo {
    /// Renders the visible rows: the items the filter shows, in stored
    /// order, re-indexed from zero over the filtered sequence.
    fn render_rows(&self) -> (rows: Vec<Node>)
        ensures
            nodes_view(rows@) == rows_view(self@),
    {
        let ghost m = self@;
        let mut rows: Vec<Node> = Vec::new();
        let mut idx: usize = 0;
        let mut vis: usize = 0;
        proof {
            reveal(Seq::filter);
            assert(m.items.take(0) =~= Seq::<ItemV>::empty());
            nodes_view_is0(rows@);
            assert(nodes_view(rows@) =~= row_nodes(
                m,
                m.items.take(0).filter(|it: ItemV| filter_pred(m.filter, it)),
            ));
        }
        while idx < self.items.len()
            invariant
                self@ == m,
                idx <= m.items.len(),
                rows@.len() == vis,
                vis == m.items.take(idx as int).filter(
                    |it: ItemV| filter_pred(m.filter, it),
                ).len(),
                nodes_view(rows@) == row_nodes(
                    m,
                    m.items.take(idx as int).filter(|it: ItemV| filter_pred(m.filter, it)),
                ),
            decreases self.items.len() - idx,
        {
            let ghost pred = |it: ItemV| filter_pred(m.filter, it);
            let ghost fprev = m.items.take(idx as int).filter(pred);
            proof {
                reveal(Seq::filter);
                assert(m.items.take(idx as int + 1).drop_last() =~= m.items.take(idx as int));
                assert(m.items.take(idx as int + 1).last() == m.items[idx as int]);
                assert(self.items@[idx as int]@ == m.items[idx as int]);
            }
            let it = &self.items[idx];
            let show = match self.filter {
                Filter::All => true,
                Filter::Active => !it.is_complete,
                Filter::Completed => it.is_complete,
            };
            if show {
                let mut draft: Option<&str> = None;
                if let Some(p) = &self.pending_edit {
                    if p.0 == vis {
                        draft = Some(p.1.as_str());
                    }
                }
                proof {
                    assert(edit_at(m, vis as int) == (match draft {
                        Some(d) => Some(d@),
                        None => None::<Seq<char>>,
                    }));
                }
                let row = it.render(vis, draft);
                let ghost prerows = rows@;
                rows.push(row);
                proof {
                    let fnew = m.items.take(idx as int + 1).filter(pred);
                    assert(fnew =~= fprev.push(m.items[idx as int]));
                    lemma_nodes_view(prerows);
                    lemma_nodes_view(rows@);
                    assert forall|i: int| 0 <= i < vis + 1 implies (#[trigger] nodes_view(
                        rows@,
                    )[i]) == row_nodes(m, fnew)[i] by {
                        if i < vis {
                            assert(rows@[i] == prerows[i]);
                            assert(nodes_view(prerows)[i] == row_nodes(m, fprev)[i]);
                        } else {
                            assert(rows@[i] == row);
                        }
                    }
                    assert(nodes_view(rows@) =~= row_nodes(m, fnew));
                }
                vis = vis + 1;
            } else {
                proof {
                    assert(m.items.take(idx as int + 1).filter(pred) =~= fprev);
                }
            }
            idx = idx + 1;
        }
        proof {
            assert(m.items.take(m.items.len() as int) =~= m.items);
        }
        rows
    }

    /// Renders the main section: the toggle-all control, whose checked
    /// state reflects "all items complete", and the visible item list.
    fn render_main(&self) -> (n: Node)
        ensures
            node_view(n) == main_view(self@),
    {
        let all_c = self.all_items_complete();
        let mut toggle_attrs: Vec<(String, String)> = Vec::new();
        toggle_attrs.push(attr("id", "toggle-all"));
        toggle_attrs.push(attr("class", "toggle-all"));
        toggle_attrs.push(attr("type", "checkbox"));
        toggle_attrs.push(attr("checked", if all_c { "true" } else { "false" }));
        let mut toggle_events: Vec<(String, Handler)> = Vec::new();
        toggle_events.push(on("change", Handler::Msg(Message::ToggleAll)));
        let toggle = Node::Elem(
            Element {
                tag: "input".to_owned(),
                attrs: toggle_attrs,
                events: toggle_events,
                children: Vec::new(),
            },
        );
        let mut label_attrs: Vec<(String, String)> = Vec::new();
        label_attrs.push(attr("for", "toggle-all"));
        let mut label_children: Vec<Node> = Vec::new();
        label_children.push(text_node("Mark all as complete"));
        let label = Node::Elem(
            Element {
                tag: "label".to_owned(),
                attrs: label_attrs,
                events: Vec::new(),
                children: label_children,
            },
        );
        let mut ul_attrs: Vec<(String, String)> = Vec::new();
        ul_attrs.push(attr("class", "todo-list"));
        let rows = self.render_rows();
        let ul = Node::Elem(
            Element {
                tag: "ul".to_owned(),
                attrs: ul_attrs,
                events: Vec::new(),
                children: rows,
            },
        );
        let mut sec_attrs: Vec<(String, String)> = Vec::new();
        sec_attrs.push(attr("class", "main"));
        let mut sec_children: Vec<Node> = Vec::new();
        sec_children.push(toggle);
        sec_children.push(label);
        sec_children.push(ul);
        let n = Node::Elem(
            Element {
                tag: "section".to_owned(),
                attrs: sec_attrs,
                events: Vec::new(),
                children: sec_children,
            },
        );
        proof {
            let target = main_view(self@);
            attrs_view_is4(
                toggle_attrs@,
                ("id"@, "toggle-all"@),
                ("class"@, "toggle-all"@),
                ("type"@, "checkbox"@),
                ("checked"@, bool_str(all_complete(self@.items))),
            );
            events_view_is1(toggle_events@, ("change"@, HandlerV::Msg(MessageV::ToggleAll)));
            nodes_view_is0(toggle->Elem_0.children@);
            assert(node_view(toggle) == target->Elem_0.children[0]);
            attrs_view_is1(label_attrs@, ("for"@, "toggle-all"@));
            events_view_is0(label->Elem_0.events@);
            nodes_view_is1(label_children@, NodeV::Text("Mark all as complete"@));
            assert(node_view(label) == target->Elem_0.children[1]);
            attrs_view_is1(ul_attrs@, ("class"@, "todo-list"@));
            events_view_is0(ul->Elem_0.events@);
            assert(node_view(ul) == target->Elem_0.children[2]);
            attrs_view_is1(sec_attrs@, ("class"@, "main"@));
            events_view_is0(n->Elem_0.events@);
            nodes_view_is3(
                sec_children@,
                target->Elem_0.children[0],
                target->Elem_0.children[1],
                target->Elem_0.children[2],
            );
            assert(node_view(n) == target);
        }
        n
    }

    /// Renders the footer: the item count with singular or plural
    /// phrasing, the filter links, and the clear-completed control when
    /// some item is complete.
    fn render_footer(&self) -> (n: Node)
        ensures
            node_view(n) == footer_view(self@),
    {
        let count = usize_to_string(self.items.len());
        let mut strong_children: Vec<Node> = Vec::new();
        strong_children.push(Node::Text(count));
        let strong = Node::Elem(
            Element {
                tag: "strong".to_owned(),
                attrs: Vec::new(),
                events: Vec::new(),
                children: strong_children,
            },
        );
        let mut span_attrs: Vec<(String, String)> = Vec::new();
        span_attrs.push(attr("class", "todo-count"));
        let mut span_children: Vec<Node> = Vec::new();
        span_children.push(strong);
        span_children.push(text_node(if self.items.len() == 1 { " item left" } else { " items left" }));
        let span = Node::Elem(
            Element {
                tag: "span".to_owned(),
                attrs: span_attrs,
                events: Vec::new(),
                children: span_children,
            },
        );
        let ghost target = footer_view(self@);
        let ghost target_span = target->Elem_0.children[0];
        let ghost target_ul = target->Elem_0.children[1];
        proof {
            nodes_view_is1(strong_children@, NodeV::Text(dec_str(self@.items.len() as nat)));
            attrs_view_is0(strong->Elem_0.attrs@);
            events_view_is0(strong->Elem_0.events@);
            assert(node_view(strong) == target_span->Elem_0.children[0]);
            attrs_view_is1(span_attrs@, ("class"@, "todo-count"@));
            events_view_is0(span->Elem_0.events@);
            nodes_view_is2(
                span_children@,
                target_span->Elem_0.children[0],
                target_span->Elem_0.children[1],
            );
            assert(node_view(span) == target_span);
        }
        let all_link = render_filter_link(
            "#/",
            "All",
            self.filter == Filter::All,
            Message::ShowAll,
        );
        let active_link = render_filter_link(
            "#/active",
            "Active",
            self.filter == Filter::Active,
            Message::ShowActive,
        );
        let completed_link = render_filter_link(
            "#/completed",
            "Completed",
            self.filter == Filter::Completed,
            Message::ShowCompleted,
        );
        let mut ulf_attrs: Vec<(String, String)> = Vec::new();
        ulf_attrs.push(attr("class", "filters"));
        let mut ulf_children: Vec<Node> = Vec::new();
        ulf_children.push(all_link);
        ulf_children.push(active_link);
        ulf_children.push(completed_link);
        let ulf = Node::Elem(
            Element {
                tag: "ul".to_owned(),
                attrs: ulf_attrs,
                events: Vec::new(),
                children: ulf_children,
            },
        );
        proof {
            attrs_view_is1(ulf_attrs@, ("class"@, "filters"@));
            events_view_is0(ulf->Elem_0.events@);
            nodes_view_is3(
                ulf_children@,
                target_ul->Elem_0.children[0],
                target_ul->Elem_0.children[1],
                target_ul->Elem_0.children[2],
            );
            assert(node_view(ulf) == target_ul);
        }
        let mut f_attrs: Vec<(String, String)> = Vec::new();
        f_attrs.push(attr("class", "footer"));
        let mut f_children: Vec<Node> = Vec::new();
        f_children.push(span);
        f_children.push(ulf);
        let any_c = self.any_items_complete();
        if any_c {
            let mut b_attrs: Vec<(String, String)> = Vec::new();
            b_attrs.push(attr("class", "clear-completed"));
            let mut b_events: Vec<(String, Handler)> = Vec::new();
            b_events.push(on("click", Handler::Msg(Message::ClearCompleted)));
            let mut b_children: Vec<Node> = Vec::new();
            b_children.push(text_node("Clear completed"));
            let button = Node::Elem(
                Element {
                    tag: "button".to_owned(),
                    attrs: b_attrs,
                    events: b_events,
                    children: b_children,
                },
            );
            proof {
                attrs_view_is1(b_attrs@, ("class"@, "clear-completed"@));
                events_view_is1(
                    b_events@,
                    ("click"@, HandlerV::Msg(MessageV::ClearCompleted)),
                );
                nodes_view_is1(b_children@, NodeV::Text("Clear completed"@));
                assert(node_view(button) == target->Elem_0.children[2]);
            }
            f_children.push(button);
        }
        let n = Node::Elem(
            Element {
                tag: "footer".to_owned(),
                attrs: f_attrs,
                events: Vec::new(),
                children: f_children,
            },
        );
        proof {
            attrs_view_is1(f_attrs@, ("class"@, "footer"@));
            events_view_is0(n->Elem_0.events@);
            if any_c {
                nodes_view_is3(
                    f_children@,
                    target_span,
                    target_ul,
                    target->Elem_0.children[2],
                );
            } else {
                nodes_view_is2(f_children@, target_span, target_ul);
            }
            assert(nodes_view(f_children@) =~= target->Elem_0.children);
            assert(node_view(n) == target);
        }
        n
    }

    /// Renders the model into the view tree: always the header; the list
    /// section and the footer only when items exist.
    pub fn render(&self) -> (v: Vec<Node>)
        ensures
            nodes_view(v@) == render_spec(self@),
    {
        let mut v: Vec<Node> = Vec::new();
        v.push(render_header(self.pending_item.as_str()));
        if self.items.len() > 0 {
            v.push(self.render_main());
            v.push(self.render_footer());
            proof {
                nodes_view_is3(
                    v@,
                    header_view(self@.pending_item),
                    main_view(self@),
                    footer_view(self@),
                );
            }
        } else {
            proof {
                nodes_view_is1(v@, header_view(self@.pending_item));
            }
        }
        v
    }
}

/// Renders one filter link.
fn render_filter_link(href: &str, label: &str, selected: bool, msg: Message) -> (n: Node)
    ensures
        node_view(n) == filter_link_view(href@, label@, selected, msg@),
{
    let ghost msgv = msg@;
    let mut a_attrs: Vec<(String, String)> = Vec::new();
    a_attrs.push(attr("href", href));
    a_attrs.push(attr("class", if selected { "selected" } else { "" }));
    let mut a_events: Vec<(String, Handler)> = Vec::new();
    a_events.push(on("click", Handler::MsgNoDefault(msg)));
    let mut a_children: Vec<Node> = Vec::new();
    a_children.push(text_node(label));
    let a = Node::Elem(
        Element {
            tag: "a".to_owned(),
            attrs: a_attrs,
            events: a_events,
            children: a_children,
        },
    );
    let mut li_children: Vec<Node> = Vec::new();
    li_children.push(a);
    let n = Node::Elem(
        Element {
            tag: "li".to_owned(),
            attrs: Vec::new(),
            events: Vec::new(),
            children: li_children,
        },
    );
    proof {
        let target = filter_link_view(href@, label@, selected, msgv);
        attrs_view_is2(
            a_attrs@,
            ("href"@, href@),
            ("class"@, if selected { "selected"@ } else { ""@ }),
        );
        events_view_is1(a_events@, ("click"@, HandlerV::MsgNoDefault(msgv)));
        nodes_view_is1(a_children@, NodeV::Text(label@));
        assert(node_view(a) == target->Elem_0.children[0]);
        attrs_view_is0(n->Elem_0.attrs@);
        events_view_is0(n->Elem_0.events@);
        nodes_view_is1(li_children@, target->Elem_0.children[0]);
        assert(node_view(n) == target);
    }
    n
}

} // verus!
