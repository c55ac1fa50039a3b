//! What the pages show: classes of the form controls, titles, marks and
//! the account part of the navigation bar.

use vstd::prelude::*;

use crate::auth::User;
use crate::tasks::Task;

verus! {

/// `head` followed by `tail`.
fn joined(head: &str, tail: &str) -> (s: String)
    ensures
        s@ == head@ + tail@,
{
    let mut s = String::from_str(head);
    s.append(tail);
    s
}

/// The classes of a button or a button-styled link.
pub fn button_class(class_name: &str) -> (s: String)
    ensures
        s@ == "button is-rounded "@ + class_name@,
{
    joined("button is-rounded ", class_name)
}

/// The classes of a labelled checkbox.
pub fn checkbox_label_class(class_name: &str) -> (s: String)
    ensures
        s@ == "b-checkbox checkbox "@ + class_name@,
{
    joined("b-checkbox checkbox ", class_name)
}

/// The classes of a drop-down list.
pub fn select_class(class_name: &str) -> (s: String)
    ensures
        s@ == "select "@ + class_name@,
{
    joined("select ", class_name)
}

/// The classes of a message under a form field that failed validation.
pub fn field_error_class(class_name: &str) -> (s: String)
    ensures
        s@ == "help is-danger "@ + class_name@,
{
    joined("help is-danger ", class_name)
}

/// Whether the drop-down option with value `option_value` is the selected
/// one when the list's value is `value`.
pub fn option_selected(option_value: &Option<String>, value: &str) -> (b: bool)
    ensures
        b == (option_value.deep_view() == Some(value@)),
{
    match option_value {
        Some(v) => {
            let w = String::from_str(value);
            *v == w
        },
        None => false,
    }
}

/// The title of the task form: editing where the route names a task,
/// creating otherwise.
pub fn task_form_title(id_param: &Option<String>) -> (s: String)
    ensures
        s@ == (if id_param is Some {
            "Редактировать задачу"@
        } else {
            "Создать задачу"@
        }),
{
    match id_param {
        Some(_) => String::from_str("Редактировать задачу"),
        None => String::from_str("Создать задачу"),
    }
}

/// Whether the task form's fields are disabled: while the form waits for its
/// data, and while a save is under way.
pub fn task_form_disabled(disabled: bool, pending: bool) -> (b: bool)
    ensures
        b == (disabled || pending),
{
    disabled || pending
}

/// The mark shown beside a task: done or not done.
pub fn completion_mark(task: &Task) -> (s: String)
    ensures
        s@ == (if task.completed_at is Some {
            "✅"@
        } else {
            "❌"@
        }),
{
    match &task.completed_at {
        Some(_) => String::from_str("✅"),
        None => String::from_str("❌"),
    }
}

/// The tooltip of a task's completion checkbox: the completion time, or nothing.
pub fn completion_title(task: &Task) -> (s: String)
    ensures
        s@ == match task.completed_at {
            Some(t) => t@,
            None => Seq::<char>::empty(),
        },
{
    match &task.completed_at {
        Some(t) => t.clone(),
        None => String::new(),
    }
}

/// Whether the delete button of a task is disabled: for a task not stored
/// yet, and while a deletion is under way.
pub fn delete_disabled(task: &Task, pending: bool) -> (b: bool)
    ensures
        b == (task.id is None || pending),
{
    task.id.is_none() || pending
}

/// The task shown while a task page loads.
pub fn loading_task() -> (t: Task)
    ensures
        t.id is None && t.priority is None && t.completed_at is None,
        t.title matches Some(s) && s@ == "..."@,
        t.description matches Some(s) && s@ == "..."@,
{
    Task {
        id: None,
        title: Some(String::from_str("...")),
        description: Some(String::from_str("...")),
        priority: None,
        completed_at: None,
    }
}

/// The account part of the navigation bar.
#[derive(Debug, Clone, PartialEq, Eq)]
pub enum AccountMenu {
    /// A signed-in user: a sign-out button with this label.
    SignOut { label: String },
    /// Nobody signed in: links to sign up and to sign in.
    SignUpOrIn,
}

/// The account part of the navigation bar for `user` (an empty user where
/// nobody is signed in).
pub fn account_menu(user: &User) -> (m: AccountMenu)
    ensures
        match user.username {
            Some(name) => m matches AccountMenu::SignOut { label } && label@ == "Выйти "@ + name@,
            None => m == AccountMenu::SignUpOrIn,
        },
{
    match &user.username {
        Some(name) => AccountMenu::SignOut { label: joined("Выйти ", name.as_str()) },
        None => AccountMenu::SignUpOrIn,
    }
}

} // verus!
