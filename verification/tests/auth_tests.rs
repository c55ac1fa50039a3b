use todo_leptos::auth::{
    auth_data, create_user, create_user_redirect, expired_session_cookie_value, get_current_user,
    login, login_checked, logout, BcryptFailure, session_cookie_for, token_cookie_name, AuthError, BackTo, Redirect, User,
};
use todo_leptos::token::{is_valid_token, Claims};

const SECRET: &[u8] = b"auth-secret";

fn now() -> i64 {
    std::time::SystemTime::now().duration_since(std::time::UNIX_EPOCH).unwrap().as_secs() as i64
}

fn stored_account(password: &str) -> User {
    let created = create_user(Some("dave".to_string()), Some(password.to_string()), false).unwrap();
    User { id: Some(11), ..created }
}

#[test]
fn sign_up_stores_name_and_hash() {
    let u = create_user(Some("dave".to_string()), Some("pw1".to_string()), false).unwrap();
    assert_eq!(u.id, None);
    assert_eq!(u.token, None);
    assert_eq!(u.username.as_deref(), Some("dave"));
    let hash = u.password.unwrap();
    assert_ne!(hash, "pw1");
    assert!(bcrypt::verify("pw1", &hash).unwrap());
    assert_eq!(hash.len(), 60);
    assert!(hash.starts_with("$2b$12$"));
    assert!(!bcrypt::verify("pw2", &hash).unwrap());
}

#[test]
fn sign_up_with_taken_name_is_refused() {
    let r = create_user(Some("dave".to_string()), None, true);
    assert_eq!(r, Err(AuthError::UserAlreadyExists));
    let e = r.unwrap_err();
    assert_eq!(e.message(), "Пользователь уже существует!");
    assert_eq!(e.field(), Some("name"));
    assert_eq!(e.code(), Some("UserAlreadyExist"));
}

#[test]
fn after_sign_up_go_to_sign_in() {
    let u = User { id: Some(1), username: Some("dave".to_string()), password: None, token: None };
    assert_eq!(
        create_user_redirect(&u),
        Redirect::SignIn { user_name: "dave".to_string(), back_to: BackTo::Home }
    );
}

#[test]
fn sign_in_unknown_user() {
    let r = login(None, None, SECRET, now());
    assert_eq!(r, Err(AuthError::UserNotFound));
    assert_eq!(r.unwrap_err().message(), "Не найден пользователь!");
}

#[test]
fn sign_in_wrong_password() {
    let account = stored_account("right");
    let r = login(Some("wrong".to_string()), Some(account), SECRET, now());
    assert_eq!(r, Err(AuthError::WrongCredentials));
    assert_eq!(r.unwrap_err().message(), "Неверное имя пользователя или пароль!");
}

#[test]
fn wrong_password_for_account_without_id_or_name() {
    let created = create_user(None, Some("right".to_string()), false).unwrap();
    let r = login_checked(Some("wrong".to_string()), Some(created.clone()), SECRET, now());
    assert_eq!(r, Some(Err(AuthError::WrongCredentials)));
    let r = login_checked(Some("right".to_string()), Some(created), SECRET, now());
    assert_eq!(r, None);
}

#[test]
fn checked_sign_in_of_complete_account() {
    let account = stored_account("pw");
    let r = login_checked(Some("pw".to_string()), Some(account), SECRET, now());
    assert!(matches!(r, Some(Ok(_))));
    assert_eq!(login_checked(None, None, SECRET, now()), Some(Err(AuthError::UserNotFound)));
}

#[test]
fn sign_in_with_unreadable_hash() {
    let account = User {
        id: Some(1),
        username: Some("eve".to_string()),
        password: Some("not-a-hash".to_string()),
        token: None,
    };
    let r = login(Some("x".to_string()), Some(account), SECRET, now());
    match r {
        Err(AuthError::PasswordCheck(msg)) => {
            assert_eq!(msg, "Invalid hash: the hash format is malformed; expected 60 ASCII bytes")
        }
        other => panic!("unexpected {:?}", other),
    }
}

#[test]
fn sign_up_then_sign_in() {
    let account = stored_account("secret pw");
    let hash = account.password.clone();
    let g = login(Some("secret pw".to_string()), Some(account), SECRET, now()).unwrap();
    assert_eq!(g.cookie, format!("todo-token={}; Path=/; HttpOnly; SameSite=Lax; max-age=86400;", g.token));
    assert_eq!(g.stored, User { id: None, username: None, password: None, token: Some(g.token.clone()) });
    assert_eq!(g.user, User { id: Some(11), username: Some("dave".to_string()), password: None, token: None });
    assert_ne!(g.user.password, hash);
    assert_eq!(g.redirect, Redirect::Home { notice: 1 });
    let payload = is_valid_token(&g.token, SECRET).unwrap();
    assert!(payload.contains("\"user_id\":11"));
    assert!(payload.contains("\"user_name\":\"dave\""));
}

#[test]
fn current_user_from_valid_claims() {
    let claims = Claims { exp: 10, iat: 1, user_id: 5, user_name: "fay".to_string() };
    let r = get_current_user(Some("tok".to_string()), Some(claims), true, "/x".to_string());
    assert_eq!(r.redirect, None);
    assert_eq!(
        r.user,
        Some(User { id: Some(5), username: Some("fay".to_string()), password: None, token: Some("tok".to_string()) })
    );
}

#[test]
fn nobody_signed_in() {
    let r = get_current_user(None, None, false, "/x".to_string());
    assert_eq!(r.user, None);
    assert_eq!(r.redirect, None);
    let r = get_current_user(Some("bad".to_string()), None, true, "/tasks/3".to_string());
    assert_eq!(r.user, None);
    assert_eq!(
        r.redirect,
        Some(Redirect::SignIn { user_name: String::new(), back_to: BackTo::Page("/tasks/3".to_string()) })
    );
}

#[test]
fn account_data_defaults_to_empty_user() {
    assert_eq!(auth_data(None), User::default());
    let u = User { id: Some(2), username: Some("g".to_string()), password: None, token: None };
    assert_eq!(auth_data(Some(u.clone())), u);
}

#[test]
fn sign_out_clears_token() {
    let u = User { id: Some(3), username: Some("h".to_string()), password: None, token: Some("t".to_string()) };
    let r = logout(Some(u));
    assert!(r.signed_out);
    assert_eq!(r.stored, Some(User { id: Some(3), username: None, password: None, token: None }));
    assert_eq!(r.cookie.as_deref(), Some("todo-token=; expires=Thu, 01 Jan 1970 00:00:00 UTC; path=/;"));
    assert_eq!(r.redirect, Some(Redirect::Home { notice: 2 }));
    let r = logout(None);
    assert!(!r.signed_out);
    assert_eq!(r.stored, None);
    assert_eq!(r.cookie, None);
    assert_eq!(r.redirect, None);
}

#[test]
fn cookie_texts() {
    assert_eq!(token_cookie_name(), "todo-token");
    assert_eq!(session_cookie_for("abc"), "todo-token=abc; Path=/; HttpOnly; SameSite=Lax; max-age=86400;");
    assert_eq!(expired_session_cookie_value(), "todo-token=; expires=Thu, 01 Jan 1970 00:00:00 UTC; path=/;");
}

#[test]
fn error_messages() {
    assert_eq!(AuthError::PasswordHash("boom".to_string()).message(), "Failed hash password: boom");
    assert_eq!(AuthError::PasswordCheck("c".to_string()).message(), "c");
    assert_eq!(AuthError::WrongCredentials.field(), None);
    assert_eq!(AuthError::UserNotFound.code(), None);
}

#[test]
fn bcrypt_failure_texts() {
    assert_eq!(BcryptFailure::CostNotAllowed(3).message(), "Cost needs to be between 4 and 31, got 3");
    assert_eq!(BcryptFailure::InvalidHash("bad".to_string()).message(), "Invalid hash: bad");
    assert_eq!(BcryptFailure::Rand("no entropy".to_string()).message(), "Rand error: no entropy");
    assert_eq!(BcryptFailure::Truncation(80).message(), "Expected 72 bytes or fewer; found 80 bytes");
}

#[test]
fn wrong_cost_hash_is_reported() {
    let account = User {
        id: Some(1),
        username: Some("eve".to_string()),
        password: Some("$2b$03$L6Bc/AlTQHyd9liGgGEZyOFLPHNgyxeEPfgYfBCVxJ7JIlwxyVU3u".to_string()),
        token: None,
    };
    let r = login(Some("x".to_string()), Some(account), SECRET, now());
    assert_eq!(r, Err(AuthError::PasswordCheck("Cost needs to be between 4 and 31, got 3".to_string())));
}
