use todo_leptos::error::{error_report, AppError, ErrorEntry};
use todo_leptos::tasks::{apply_saved_completion, completed_checkbox_name, completed_task_id, task_id_param, Task};
use todo_leptos::ui::{
    account_menu, button_class, checkbox_label_class, completion_mark, completion_title,
    delete_disabled, field_error_class, loading_task, option_selected, select_class,
    task_form_disabled, task_form_title, AccountMenu,
};
use todo_leptos::auth::User;

#[test]
fn app_error_codes_and_texts() {
    let nf = AppError::NotFound("task 3".to_string());
    assert_eq!(nf.status_code(), 404);
    assert_eq!(nf.to_string(), "Not Found: task 3");
    assert_eq!(AppError::InternalServerError.status_code(), 500);
    assert_eq!(AppError::InternalServerError.to_string(), "Internal Server Error");
}

#[test]
fn error_report_of_no_error() {
    let r = error_report(&vec![]);
    assert_eq!(r.heading, "Error");
    assert_eq!(r.status, None);
    assert!(r.entries.is_empty());
}

#[test]
fn error_report_of_one_and_two_errors() {
    let r = error_report(&vec![AppError::InternalServerError]);
    assert_eq!(r.heading, "Error");
    assert_eq!(r.status, Some(500));
    let r = error_report(&vec![AppError::NotFound("x".to_string()), AppError::InternalServerError]);
    assert_eq!(r.heading, "Errors");
    assert_eq!(r.status, Some(404));
    assert_eq!(
        r.entries,
        vec![
            ErrorEntry { code: 404, text: "Not Found: x".to_string() },
            ErrorEntry { code: 500, text: "Internal Server Error".to_string() },
        ]
    );
}

#[test]
fn checkbox_names_round_trip() {
    for id in [0i64, 1, 42, -7, i64::MAX, i64::MIN] {
        let name = completed_checkbox_name(id);
        assert_eq!(name, format!("completed_{}", id));
        assert_eq!(completed_task_id(&name), Some(id));
    }
}

#[test]
fn checkbox_names_that_name_no_task() {
    assert_eq!(completed_task_id("completed"), None);
    assert_eq!(completed_task_id("completed_"), None);
    assert_eq!(completed_task_id("completed_x"), None);
    assert_eq!(completed_task_id("a_b_5"), None);
    assert_eq!(completed_task_id("_12"), Some(12));
    assert_eq!(completed_task_id("x_+3"), Some(3));
}

fn task(id: i64, title: &str) -> Task {
    Task { id: Some(id), title: Some(title.to_string()), ..Task::default() }
}

#[test]
fn saved_completion_updates_first_matching_task() {
    let mut tasks = vec![task(1, "a"), task(2, "b"), task(2, "c")];
    let found = apply_saved_completion(&mut tasks, 2, Some("2024-01-01".to_string()));
    assert!(found);
    assert_eq!(tasks[0], task(1, "a"));
    assert_eq!(tasks[1].completed_at.as_deref(), Some("2024-01-01"));
    assert_eq!(tasks[1].title.as_deref(), Some("b"));
    assert_eq!(tasks[2], task(2, "c"));
}

#[test]
fn saved_completion_of_unlisted_task() {
    let mut tasks = vec![task(1, "a")];
    assert!(!apply_saved_completion(&mut tasks, 9, None));
    assert_eq!(tasks, vec![task(1, "a")]);
    let mut empty: Vec<Task> = vec![];
    assert!(!apply_saved_completion(&mut empty, 1, None));
}

#[test]
fn route_task_ids() {
    assert_eq!(task_id_param(Some("15".to_string())), 15);
    assert_eq!(task_id_param(Some("abc".to_string())), 0);
    assert_eq!(task_id_param(Some(String::new())), 0);
    assert_eq!(task_id_param(None), 0);
}

#[test]
fn control_classes() {
    assert_eq!(button_class("is-primary"), "button is-rounded is-primary");
    assert_eq!(button_class(""), "button is-rounded ");
    assert_eq!(checkbox_label_class("is-medium"), "b-checkbox checkbox is-medium");
    assert_eq!(select_class("x"), "select x");
    assert_eq!(field_error_class("pl-4"), "help is-danger pl-4");
}

#[test]
fn selected_option() {
    assert!(option_selected(&Some("2".to_string()), "2"));
    assert!(!option_selected(&Some("2".to_string()), "3"));
    assert!(!option_selected(&None, ""));
}

#[test]
fn task_page_texts() {
    assert_eq!(task_form_title(&Some("1".to_string())), "Редактировать задачу");
    assert_eq!(task_form_title(&None), "Создать задачу");
    let mut t = task(1, "a");
    assert_eq!(completion_mark(&t), "❌");
    assert_eq!(completion_title(&t), "");
    t.completed_at = Some("today".to_string());
    assert_eq!(completion_mark(&t), "✅");
    assert_eq!(completion_title(&t), "today");
    assert!(!delete_disabled(&t, false));
    assert!(delete_disabled(&t, true));
    assert!(delete_disabled(&Task::default(), false));
    let l = loading_task();
    assert_eq!(l.title.as_deref(), Some("..."));
    assert_eq!(l.description.as_deref(), Some("..."));
    assert_eq!(l.id, None);
}

#[test]
fn navbar_account_menu() {
    let u = User { id: Some(1), username: Some("bob".to_string()), password: None, token: None };
    assert_eq!(account_menu(&u), AccountMenu::SignOut { label: "Выйти bob".to_string() });
    assert_eq!(account_menu(&User::default()), AccountMenu::SignUpOrIn);
}

#[test]
fn task_form_fields_disabled() {
    assert!(!task_form_disabled(false, false));
    assert!(task_form_disabled(true, false));
    assert!(task_form_disabled(false, true));
}
