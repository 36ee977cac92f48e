use todo_backend::error::AppError;

#[test]
fn statuses_of_errors() {
    assert_eq!(AppError::Validation("m".to_string()).status_code(), 400);
    assert_eq!(AppError::NotFound.status_code(), 404);
    assert_eq!(AppError::Database("pool timed out".to_string()).status_code(), 500);
}

#[test]
fn messages_of_errors() {
    assert_eq!(AppError::Validation("m".to_string()).message(), "m");
    assert_eq!(AppError::NotFound.message(), "TODO が見つかりません");
    assert_eq!(
        AppError::Database("pool timed out".to_string()).message(),
        "データベースでエラーが発生しました"
    );
}
