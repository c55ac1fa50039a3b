# todo_leptos

The server-side logic of a small to-do web application (Leptos on actix-web),
written in Verus with its behaviour stated in contracts and proved.

- `src/text.rs`: decimal text of integers and its reading back, as `str::parse::<i64>` reads it.
- `src/json.rs`: JSON string literals (through `serde_json`) and flat JSON objects.
- `src/token.rs`: session claims, their JSON payload, and HS256 JSON Web Tokens (`jsonwebtoken`).
- `src/auth.rs`: accounts, sign-up and sign-in with `bcrypt`, the current user, sign-out.
- `src/error.rs`: application errors and the error page's report.
- `src/tasks.rs`: task completion checkboxes, the task list's update after a save, task route ids.
- `src/ui.rs`: classes, titles and marks the pages show.
- `app/`: the web server, the HTML shell and router, the form controls, and the
  request glue (environment, cookies, JSON of claims).
- `tests/`: tests of the library on concrete values.
