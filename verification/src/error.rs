//! The errors that a request can end in, and how they are answered.

use vstd::prelude::*;

verus! {

/// Why a request failed.
pub enum AppError {
    /// The request was malformed; the text says how.
    Validation(String),
    /// No item has the requested id.
    NotFound,
    /// The database failed; the text describes the failure for the log.
    Database(String),
}

/// The result of a request.
pub type AppResult<T> = Result<T, AppError>;

/// The text sent back when no item has the requested id.
pub open spec fn not_found_message() -> Seq<char> {
    "TODO が見つかりません"@
}

/// The text sent back when the database failed.
pub open spec fn database_failure_message() -> Seq<char> {
    "データベースでエラーが発生しました"@
}

impl AppError {
    /// The HTTP status of the answer: 400, 404 or 500.
    pub fn status_code(&self) -> (code: u16)
        ensures
            code == match self {
                AppError::Validation(_) => 400u16,
                AppError::NotFound => 404u16,
                AppError::Database(_) => 500u16,
            },
    {
        match self {
            AppError::Validation(_) => 400,
            AppError::NotFound => 404,
            AppError::Database(_) => 500,
        }
    }

    /// The text of the `error` field of the answer. A database failure is
    /// not described to the client.
    pub fn message(&self) -> (m: String)
        ensures
            m@ == match self {
                AppError::Validation(text) => text@,
                AppError::NotFound => not_found_message(),
                AppError::Database(_) => database_failure_message(),
            },
    {
        match self {
            AppError::Validation(text) => text.clone(),
            AppError::NotFound => "TODO が見つかりません".to_owned(),
            AppError::Database(_) => "データベースでエラーが発生しました".to_owned(),
        }
    }
}

} // verus!
