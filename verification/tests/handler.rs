use todo_backend::error::AppError;
use todo_backend::todo::handler::{
    create_request, create_title, delete_reply, update_patch, update_reply, update_request,
    STATUS_CREATED, STATUS_NO_CONTENT,
};
use todo_backend::todo::model::{CreateTodo, Todo, UpdateTodo};
use todo_backend::todo::repo::Bind;

fn todo(id: i64, title: &str, completed: bool) -> Todo {
    Todo { id, title: title.to_string(), completed, created_at: 1, updated_at: 2 }
}

fn validation_text(e: AppError) -> String {
    match e {
        AppError::Validation(m) => m,
        _ => panic!("expected a validation error"),
    }
}

#[test]
fn create_trims_the_title() {
    let t = create_title(&CreateTodo { title: "  前後に空白  ".to_string() }).ok().unwrap();
    assert_eq!(t, "前後に空白");
}

#[test]
fn create_refuses_blank_titles() {
    for blank in ["", "   ", "\n\t"] {
        let e = create_request(&CreateTodo { title: blank.to_string() }).err().unwrap();
        assert_eq!(e.status_code(), 400);
        assert_eq!(validation_text(e), "title を空にはできません");
    }
}

#[test]
fn create_refuses_titles_over_the_limit_in_characters() {
    let e = create_request(&CreateTodo { title: "あ".repeat(501) }).err().unwrap();
    assert_eq!(e.status_code(), 400);
    let st = create_request(&CreateTodo { title: "あ".repeat(500) }).ok().unwrap();
    match &st.binds[..] {
        [Bind::Text(t)] => assert_eq!(t.chars().count(), 500),
        _ => panic!("expected one text value"),
    }
}

#[test]
fn create_binds_the_normalized_title() {
    let st = create_request(&CreateTodo { title: " 牛乳を買う ".to_string() }).ok().unwrap();
    assert_eq!(st.sql, "INSERT INTO todos (title) VALUES ($1) RETURNING id, title, completed, created_at, updated_at");
    match &st.binds[..] {
        [Bind::Text(t)] => assert_eq!(t, "牛乳を買う"),
        _ => panic!("expected one text value"),
    }
}

#[test]
fn update_with_no_field_is_refused() {
    let e = update_patch(&UpdateTodo { title: None, completed: None }).err().unwrap();
    assert_eq!(validation_text(e), "title か completed のどちらかを指定してください");
    assert!(update_request(7, &UpdateTodo { title: None, completed: None }).is_err());
}

#[test]
fn update_with_blank_title_is_refused_and_sends_nothing() {
    let e = update_request(7, &UpdateTodo { title: Some("   ".to_string()), completed: Some(true) })
        .err()
        .unwrap();
    assert_eq!(e.status_code(), 400);
}

#[test]
fn update_of_completion_only_keeps_the_title() {
    let st = update_request(3, &UpdateTodo { title: None, completed: Some(true) }).ok().unwrap();
    match &st.binds[..] {
        [Bind::BigInt(3), Bind::OptionalText(None), Bind::OptionalBool(Some(true))] => {}
        _ => panic!("unexpected binds"),
    }
}

#[test]
fn update_of_title_only_normalizes_it_and_keeps_completion() {
    let p = update_patch(&UpdateTodo { title: Some("  改題後  ".to_string()), completed: None })
        .ok()
        .unwrap();
    assert_eq!(p.title.as_deref(), Some("改題後"));
    assert_eq!(p.completed, None);
    let st = update_request(4, &UpdateTodo { title: Some("  改題後  ".to_string()), completed: None })
        .ok()
        .unwrap();
    match &st.binds[..] {
        [Bind::BigInt(4), Bind::OptionalText(Some(t)), Bind::OptionalBool(None)] => {
            assert_eq!(t, "改題後")
        }
        _ => panic!("unexpected binds"),
    }
}

#[test]
fn update_of_unknown_id_is_not_found() {
    let e = update_reply(None).err().unwrap();
    assert_eq!(e.status_code(), 404);
    assert!(matches!(e, AppError::NotFound));
}

#[test]
fn update_of_known_id_returns_the_item() {
    let t = update_reply(Some(todo(9, "完了にする", true))).ok().unwrap();
    assert_eq!(t.id, 9);
    assert_eq!(t.title, "完了にする");
    assert!(t.completed);
}

#[test]
fn delete_answers_no_content_then_not_found() {
    assert_eq!(delete_reply(1).ok().unwrap(), STATUS_NO_CONTENT);
    assert_eq!(STATUS_NO_CONTENT, 204);
    let e = delete_reply(0).err().unwrap();
    assert_eq!(e.status_code(), 404);
}

#[test]
fn creation_status_is_created() {
    assert_eq!(STATUS_CREATED, 201);
}

#[test]
fn update_title_follows_the_creation_rule() {
    for title in ["  ok  ", "", "\u{3000}", &"x".repeat(501), &"y".repeat(500)] {
        let created = create_title(&CreateTodo { title: title.to_string() });
        let patched = update_patch(&UpdateTodo { title: Some(title.to_string()), completed: None });
        match (created, patched) {
            (Ok(c), Ok(p)) => assert_eq!(p.title.as_deref(), Some(c.as_str())),
            (Err(a), Err(b)) => assert_eq!(validation_text(a), validation_text(b)),
            _ => panic!("creation and update disagree on {title:?}"),
        }
    }
}
