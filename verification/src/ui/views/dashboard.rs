use vstd::prelude::*;

use crate::ui::tasks::{TodoTaskKind, UserTodoTasks};
use crate::ui::{spec_display_text, RoomData};

verus! {

/// The upper-case form of a character, as std's Unicode tables give it.
pub uninterp spec fn uppercase_of(c: char) -> Seq<char>;

/// Upper-cases a character.
///
/// Calls `char::to_uppercase` and collects the characters it yields. Claimed: the result is
/// a function of the character alone.
#[verifier::external_body]
fn char_uppercase(c: char) -> (s: String)
    ensures
        s@ == uppercase_of(c),
{
    c.to_uppercase().collect()
}

/// The texts of a room's entry in the room list.
#[derive(Clone, Debug, PartialEq, Eq)]
pub struct RoomItemLabels {
    /// The room's name, or its ID while the name is not known.
    pub display_name: String,
    /// The room's last message, or "Loading..." while it is not known.
    pub last_msg: String,
    /// What the avatar shows without a picture: the first letter of the name, upper-cased.
    pub avatar_fallback: String,
}

/// The name shown for a room with ID `room_id` and cached data `cached`.
pub open spec fn spec_item_name(room_id: Seq<char>, cached: Option<&RoomData>) -> Seq<char> {
    match cached {
        Some(d) => match d.display_name {
            Some(n) => n@,
            None => room_id,
        },
        None => room_id,
    }
}

/// The last message line shown for a room with cached data `cached`.
pub open spec fn spec_item_last_msg(cached: Option<&RoomData>) -> Seq<char> {
    match cached {
        Some(d) => match d.last_msg {
            Some(m) => spec_display_text(m),
            None => "Loading..."@,
        },
        None => "Loading..."@,
    }
}

/// The character the avatar of a room named `name` shows, before upper-casing.
pub open spec fn spec_initial(name: Seq<char>) -> char {
    if name.len() > 0 {
        name[0]
    } else {
        '?'
    }
}

/// The texts of the room list entry of the room `room_id`, given its cached data.
pub fn room_item_labels(room_id: &str, cached: Option<&RoomData>) -> (labels: RoomItemLabels)
    ensures
        labels.display_name@ == spec_item_name(room_id@, cached),
        labels.last_msg@ == spec_item_last_msg(cached),
        labels.avatar_fallback@ == uppercase_of(
            spec_initial(spec_item_name(room_id@, cached)),
        ),
{
    let display_name = match cached {
        Some(d) => match &d.display_name {
            Some(n) => n.clone(),
            None => String::from_str(room_id),
        },
        None => String::from_str(room_id),
    };
    let last_msg = match cached {
        Some(d) => match &d.last_msg {
            Some(m) => m.display_text(),
            None => String::from_str("Loading..."),
        },
        None => String::from_str("Loading..."),
    };
    let initial = if display_name.as_str().unicode_len() > 0 {
        display_name.as_str().get_char(0)
    } else {
        '?'
    };
    let avatar_fallback = char_uppercase(initial);
    RoomItemLabels { display_name, last_msg, avatar_fallback }
}

/// State of the dashboard's to-do panel: the list, or one selected task's view.
#[derive(Clone, Copy, Debug, PartialEq, Eq, Structural)]
pub struct TodoView {
    pub selected_ix: Option<usize>,
    /// The kind of task whose view is open, if any.
    pub task_view: Option<TodoTaskKind>,
}

impl TodoView {
    pub fn new() -> (view: Self)
        ensures
            view.selected_ix is None,
            view.task_view is None,
    {
        TodoView { selected_ix: None, task_view: None }
    }

    /// Go back to the task list from a task view
    pub fn back_to_list(&mut self)
        ensures
            final(self).selected_ix is None,
            final(self).task_view is None,
    {
        self.selected_ix = None;
        self.task_view = None;
    }

    /// Select the task at `ix`; its view opens when there is such a task.
    pub fn select_task(&mut self, ix: usize, tasks: &UserTodoTasks)
        ensures
            final(self).selected_ix == Some(ix),
            final(self).task_view == (if ix < tasks@.tasks.len() {
                Some(tasks@.tasks[ix as int])
            } else {
                None::<TodoTaskKind>
            }),
    {
        self.selected_ix = Some(ix);
        self.task_view = match tasks.get(ix) {
            Some(task) => Some(task.kind),
            None => None,
        };
    }
}

} // verus!
