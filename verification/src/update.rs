//! The transition function: applies one message to the model, producing
//! the next model and any deferred commands.

use vstd::prelude::*;
use crate::model::{
    Command, CommandV, Effect, Filter, Item, ItemV, Message, MessageV, Todo, TodoV,
};
use crate::text::{trim_spec, trim_str};

verus! {

/// The item values of a sequence of items.
pub open spec fn items_view(s: Seq<Item>) -> Seq<ItemV> {
    s.map(|i: int, it: Item| it@)
}

/// The command values of a sequence of commands.
pub open spec fn commands_view(s: Seq<Command>) -> Seq<CommandV> {
    s.map(|i: int, c: Command| c@)
}

/// Every item is complete. True of an empty sequence.
pub open spec fn all_complete(items: Seq<ItemV>) -> bool {
    forall|i: int| 0 <= i < items.len() ==> items[i].is_complete
}

/// Some item is complete. False of an empty sequence.
pub open spec fn any_complete(items: Seq<ItemV>) -> bool {
    exists|i: int| 0 <= i < items.len() && items[i].is_complete
}

/// The inputs on which a transition is owed: positional messages must
/// address an existing item, and edit-mutating messages require an edit to
/// be in progress. A message outside this set means the render layer
/// produced a message inconsistent with the model - a programming error,
/// not a recoverable condition.
pub open spec fn step_ok(m: TodoV, msg: MessageV) -> bool {
    match msg {
        MessageV::RemoveTodo(i) => 0 <= i < m.items.len(),
        MessageV::ToggleTodo(i) => 0 <= i < m.items.len(),
        MessageV::EditTodo(i) => 0 <= i < m.items.len(),
        MessageV::UpdateEdit(_) => m.pending_edit is Some,
        MessageV::SaveEdit => {
            &&& m.pending_edit is Some
            &&& 0 <= m.pending_edit.unwrap().0 < m.items.len()
        },
        _ => true,
    }
}

/// The transition relation: the model that applying `msg` to `m` yields.
pub open spec fn step(m: TodoV, msg: MessageV) -> TodoV {
    match msg {
        MessageV::Noop => m,
        MessageV::FocusPending => m,
        MessageV::UpdatePending(s) => TodoV { pending_item: s, ..m },
        MessageV::AddTodo => TodoV {
            pending_item: Seq::<char>::empty(),
            items: m.items.push(ItemV { text: trim_spec(m.pending_item), is_complete: false }),
            ..m
        },
        MessageV::RemoveTodo(i) => TodoV { items: m.items.remove(i), ..m },
        MessageV::ToggleTodo(i) => TodoV {
            items: m.items.update(
                i,
                ItemV { text: m.items[i].text, is_complete: !m.items[i].is_complete },
            ),
            ..m
        },
        MessageV::EditTodo(i) => TodoV { pending_edit: Some((i, m.items[i].text)), ..m },
        MessageV::FocusEdit => m,
        MessageV::UpdateEdit(s) => TodoV {
            pending_edit: Some((m.pending_edit.unwrap().0, s)),
            ..m
        },
        MessageV::SaveEdit => {
            let (i, draft) = m.pending_edit.unwrap();
            if trim_spec(draft).len() == 0 {
                TodoV { items: m.items.remove(i), pending_edit: None, ..m }
            } else {
                TodoV {
                    items: m.items.update(
                        i,
                        ItemV { text: trim_spec(draft), is_complete: m.items[i].is_complete },
                    ),
                    pending_edit: None,
                    ..m
                }
            }
        },
        MessageV::AbortEdit => TodoV { pending_edit: None, ..m },
        MessageV::ClearCompleted => TodoV {
            items: m.items.filter(|it: ItemV| !it.is_complete),
            ..m
        },
        MessageV::ToggleAll => {
            let c = !all_complete(m.items);
            TodoV {
                items: Seq::new(
                    m.items.len(),
                    |i: int| ItemV { text: m.items[i].text, is_complete: c },
                ),
                ..m
            }
        },
        MessageV::ShowAll => TodoV { filter: Filter::All, ..m },
        MessageV::ShowActive => TodoV { filter: Filter::Active, ..m },
        MessageV::ShowCompleted => TodoV { filter: Filter::Completed, ..m },
    }
}

/// The commands a transition schedules: the two focus requests, each paired
/// with the message that triggered it. Beginning an edit chains a focus
/// request for the edit input.
pub open spec fn step_cmds(msg: MessageV) -> Seq<CommandV> {
    match msg {
        MessageV::FocusPending => seq![
            CommandV { effect: Effect::FocusPendingInput, msg: MessageV::FocusPending },
        ],
        MessageV::FocusEdit => seq![
            CommandV { effect: Effect::FocusEditInput, msg: MessageV::FocusEdit },
        ],
        MessageV::EditTodo(_) => seq![
            CommandV { effect: Effect::FocusEditInput, msg: MessageV::FocusEdit },
        ],
        _ => Seq::<CommandV>::empty(),
    }
}

/// Recursion rank of the transition: `EditTodo` chains a `FocusEdit`
/// transition and `SaveEdit` of an empty draft delegates to `RemoveTodo`,
/// each once.
pub open spec fn msg_rank(msg: MessageV) -> nat {
    match msg {
        MessageV::EditTodo(_) => 1,
        MessageV::SaveEdit => 1,
        _ => 0,
    }
}

impl Todo {
    /// Every stored item is complete (vacuously so with no items).
    pub fn all_items_complete(&self) -> (b: bool)
        ensures
            b == all_complete(self@.items),
    {
        let n = self.items.len();
        let mut all_c = true;
        let mut j: usize = 0;
        while j < n
            invariant
                n == self.items@.len(),
                j <= n,
                all_c == (forall|i: int| 0 <= i < j ==> self@.items[i].is_complete),
            decreases n - j,
        {
            proof {
                assert(self.items@[j as int]@ == self@.items[j as int]);
            }
            if !self.items[j].is_complete {
                all_c = false;
            }
            j = j + 1;
        }
        all_c
    }

    /// Some stored item is complete.
    pub fn any_items_complete(&self) -> (b: bool)
        ensures
            b == any_complete(self@.items),
    {
        let n = self.items.len();
        let mut any_c = false;
        let mut j: usize = 0;
        while j < n
            invariant
                n == self.items@.len(),
                j <= n,
                any_c == (exists|i: int| 0 <= i < j && self@.items[i].is_complete),
            decreases n - j,
        {
            proof {
                assert(self.items@[j as int]@ == self@.items[j as int]);
            }
            if self.items[j].is_complete {
                any_c = true;
            }
            j = j + 1;
        }
        any_c
    }

    /// Applies one message to the model. Total over the inputs `step_ok`
    /// admits; the new model is exactly `step` of the old one, and the
    /// scheduled commands are appended to `cmds`.
    pub fn update(&mut self, msg: Message, cmds: &mut Vec<Command>)
        requires
            step_ok(old(self)@, msg@),
        ensures
            final(self)@ == step(old(self)@, msg@),
            commands_view(final(cmds)@) == commands_view(old(cmds)@) + step_cmds(msg@),
        decreases msg_rank(msg@),
    {
        match msg {
            Message::Noop => {
                proof {
                    assert(commands_view(cmds@) =~= commands_view(cmds@) + step_cmds(msg@));
                }
            },
            Message::FocusPending => {
                cmds.push(
                    Command { effect: Effect::FocusPendingInput, msg: Message::FocusPending },
                );
                proof {
                    assert(commands_view(cmds@) =~= commands_view(old(cmds)@) + step_cmds(msg@));
                }
            },
            Message::UpdatePending(text) => {
                self.pending_item = text;
                proof {
                    assert(self@ =~= step(old(self)@, msg@));
                    assert(commands_view(cmds@) =~= commands_view(cmds@) + step_cmds(msg@));
                }
            },
            Message::AddTodo => {
                let t = trim_str(self.pending_item.as_str());
                self.items.push(Item { text: t, is_complete: false });
                self.pending_item = String::new();
                proof {
                    assert(items_view(self.items@) =~= step(old(self)@, msg@).items);
                    assert(self@ =~= step(old(self)@, msg@));
                    assert(commands_view(cmds@) =~= commands_view(cmds@) + step_cmds(msg@));
                }
            },
            Message::RemoveTodo(i) => {
                self.items.remove(i);
                proof {
                    assert(items_view(self.items@) =~= step(old(self)@, msg@).items);
                    assert(self@ =~= step(old(self)@, msg@));
                    assert(commands_view(cmds@) =~= commands_view(cmds@) + step_cmds(msg@));
                }
            },
            Message::ToggleTodo(i) => {
                let b = self.items[i].is_complete;
                self.items[i].is_complete = !b;
                proof {
                    assert(items_view(self.items@) =~= step(old(self)@, msg@).items);
                    assert(self@ =~= step(old(self)@, msg@));
                    assert(commands_view(cmds@) =~= commands_view(cmds@) + step_cmds(msg@));
                }
            },
            Message::EditTodo(i) => {
                let t = self.items[i].text.clone();
                self.pending_edit = Some((i, t));
                self.update(Message::FocusEdit, cmds);
                proof {
                    assert(self@ =~= step(old(self)@, msg@));
                }
            },
            Message::FocusEdit => {
                cmds.push(Command { effect: Effect::FocusEditInput, msg: Message::FocusEdit });
                proof {
                    assert(commands_view(cmds@) =~= commands_view(old(cmds)@) + step_cmds(msg@));
                }
            },
            Message::UpdateEdit(text) => {
                let i = match &self.pending_edit {
                    Some(p) => p.0,
                    None => {
                        proof {
                            assert(false);
                        }
                        0
                    },
                };
                self.pending_edit = Some((i, text));
                proof {
                    assert(self@ =~= step(old(self)@, msg@));
                    assert(commands_view(cmds@) =~= commands_view(cmds@) + step_cmds(msg@));
                }
            },
            Message::SaveEdit => {
                let (i, draft) = match &self.pending_edit {
                    Some(p) => (p.0, p.1.clone()),
                    None => {
                        proof {
                            assert(false);
                        }
                        (0usize, String::new())
                    },
                };
                let t = trim_str(draft.as_str());
                if t.as_str().is_empty() {
                    self.update(Message::RemoveTodo(i), cmds);
                } else {
                    self.items[i].text = t;
                }
                self.pending_edit = None;
                proof {
                    assert(items_view(self.items@) =~= step(old(self)@, msg@).items);
                    assert(self@ =~= step(old(self)@, msg@));
                    assert(commands_view(cmds@) =~= commands_view(old(cmds)@) + step_cmds(msg@));
                }
            },
            Message::AbortEdit => {
                self.pending_edit = None;
                proof {
                    assert(self@ =~= step(old(self)@, msg@));
                    assert(commands_view(cmds@) =~= commands_view(cmds@) + step_cmds(msg@));
                }
            },
            Message::ClearCompleted => {
                let ghost orig = old(self)@.items;
                let mut kept: Vec<Item> = Vec::new();
                let ghost mut done: int = 0;
                proof {
                    reveal(Seq::filter);
                    assert(items_view(self.items@) =~= orig.skip(0));
                    assert(orig.take(0) =~= Seq::<ItemV>::empty());
                }
                while self.items.len() > 0
                    invariant
                        0 <= done <= orig.len(),
                        items_view(self.items@) == orig.skip(done),
                        items_view(kept@) == orig.take(done).filter(|it: ItemV| !it.is_complete),
                        self@.pending_item == old(self)@.pending_item,
                        self@.pending_edit == old(self)@.pending_edit,
                        self@.filter == old(self)@.filter,
                    decreases self.items.len(),
                {
                    let ghost pre = self.items@;
                    let ghost prekept = kept@;
                    let it = self.items.remove(0);
                    proof {
                        reveal(Seq::filter);
                        assert(items_view(pre).len() == pre.len());
                        assert(done < orig.len());
                        assert(it@ == items_view(pre)[0]);
                        assert(it@ == orig[done]);
                        assert forall|x: int| 0 <= x < self.items@.len() implies items_view(
                            self.items@,
                        )[x] == orig.skip(done + 1)[x] by {
                            assert(self.items@[x] == pre[x + 1]);
                            assert(items_view(pre)[x + 1] == orig.skip(done)[x + 1]);
                        }
                        assert(items_view(self.items@) =~= orig.skip(done + 1));
                        assert(orig.take(done + 1).drop_last() =~= orig.take(done));
                        assert(orig.take(done + 1).last() == orig[done]);
                    }
                    if !it.is_complete {
                        kept.push(it);
                        proof {
                            assert(items_view(kept@) =~= items_view(prekept).push(it@));
                        }
                    }
                    proof {
                        reveal(Seq::filter);
                        assert(items_view(kept@) =~= orig.take(done + 1).filter(
                            |it: ItemV| !it.is_complete,
                        ));
                        done = done + 1;
                    }
                }
                self.items = kept;
                proof {
                    assert(orig.take(orig.len() as int) =~= orig);
                    assert(self@ =~= step(old(self)@, msg@));
                    assert(commands_view(cmds@) =~= commands_view(cmds@) + step_cmds(msg@));
                }
            },
            Message::ToggleAll => {
                let n = self.items.len();
                let all_c = self.all_items_complete();
                let mut k: usize = 0;
                while k < n
                    invariant
                        n == self.items@.len(),
                        k <= n,
                        all_c == all_complete(old(self)@.items),
                        forall|i: int|
                            0 <= i < k ==> items_view(self.items@)[i] == (ItemV {
                                text: old(self)@.items[i].text,
                                is_complete: !all_c,
                            }),
                        forall|i: int|
                            k <= i < n ==> items_view(self.items@)[i] == old(self)@.items[i],
                        self@.pending_item == old(self)@.pending_item,
                        self@.pending_edit == old(self)@.pending_edit,
                        self@.filter == old(self)@.filter,
                    decreases n - k,
                {
                    let ghost pre = self.items@;
                    self.items[k].is_complete = !all_c;
                    proof {
                        assert(items_view(pre)[k as int] == old(self)@.items[k as int]);
                        assert forall|i: int| 0 <= i < k + 1 implies items_view(self.items@)[i]
                            == (ItemV {
                            text: old(self)@.items[i].text,
                            is_complete: !all_c,
                        }) by {
                            assert(items_view(self.items@)[i] == self.items@[i]@);
                            if i != k as int {
                                assert(self.items@[i] == pre[i]);
                                assert(items_view(pre)[i] == pre[i]@);
                            }
                        }
                        assert forall|i: int| k + 1 <= i < n implies items_view(self.items@)[i]
                            == old(self)@.items[i] by {
                            assert(items_view(self.items@)[i] == self.items@[i]@);
                            assert(self.items@[i] == pre[i]);
                            assert(items_view(pre)[i] == pre[i]@);
                        }
                    }
                    k = k + 1;
                }
                proof {
                    assert(self@.items =~= step(old(self)@, msg@).items);
                    assert(self@ =~= step(old(self)@, msg@));
                    assert(commands_view(cmds@) =~= commands_view(cmds@) + step_cmds(msg@));
                }
            },
            Message::ShowAll => {
                self.filter = Filter::All;
                proof {
                    assert(self@ =~= step(old(self)@, msg@));
                    assert(commands_view(cmds@) =~= commands_view(cmds@) + step_cmds(msg@));
                }
            },
            Message::ShowActive => {
                self.filter = Filter::Active;
                proof {
                    assert(self@ =~= step(old(self)@, msg@));
                    assert(commands_view(cmds@) =~= commands_view(cmds@) + step_cmds(msg@));
                }
            },
            Message::ShowCompleted => {
                self.filter = Filter::Completed;
                proof {
                    assert(self@ =~= step(old(self)@, msg@));
                    assert(commands_view(cmds@) =~= commands_view(cmds@) + step_cmds(msg@));
                }
            },
        }
    }
}

} // verus!
