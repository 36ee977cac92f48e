//! The decisions of the request handlers: what a request asks of the
//! database, and how the database's answer is answered.

use vstd::prelude::*;
use crate::error::AppError;
use crate::todo::model::{normalize_title, normalized_title, CreateTodo, Todo, UpdateTodo};
use crate::todo::repo::{self, Statement};

verus! {

/// The HTTP status of a successful creation.
pub const STATUS_CREATED: u16 = 201;

/// The HTTP status of a successful removal.
pub const STATUS_NO_CONTENT: u16 = 204;

/// The refusal of a change that names no field.
pub open spec fn empty_update_message() -> Seq<char> {
    "title か completed のどちらかを指定してください"@
}

/// A checked change to an item: the normalised new title and the new
/// completion, each when the request gave one.
pub struct TodoPatch {
    pub title: Option<String>,
    pub completed: Option<bool>,
}

impl TodoPatch {
    pub open spec fn title_view(&self) -> Option<Seq<char>> {
        match self.title {
            Some(t) => Some(t@),
            None => None,
        }
    }
}

/// The title to store for a creation request, or the refusal of its title.
pub fn create_title(payload: &CreateTodo) -> (res: Result<String, AppError>)
    ensures
        match normalized_title(payload.title@) {
            Ok(t) => res matches Ok(s) && s@ == t,
            Err(m) => res matches Err(AppError::Validation(e)) && e@ == m,
        },
{
    match normalize_title(payload.title.as_str()) {
        Ok(t) => Ok(t),
        Err(m) => Err(AppError::Validation(m)),
    }
}

/// The checked change that an update request asks for. A request with
/// neither field is refused, and so is one whose title is refused.
pub fn update_patch(payload: &UpdateTodo) -> (res: Result<TodoPatch, AppError>)
    ensures
        match update_patch_spec(payload) {
            Ok((title, completed)) => res matches Ok(p) && p.title_view() == title && p.completed
                == completed,
            Err(m) => res matches Err(AppError::Validation(e)) && e@ == m,
        },
{
    if payload.title.is_none() && payload.completed.is_none() {
        return Err(AppError::Validation("title か completed のどちらかを指定してください".to_owned()));
    }
    let title = match &payload.title {
        Some(raw) => match normalize_title(raw.as_str()) {
            Ok(t) => Some(t),
            Err(m) => return Err(AppError::Validation(m)),
        },
        None => None,
    };
    Ok(TodoPatch { title, completed: payload.completed })
}

/// The statement that a creation request sends, or its refusal.
pub fn create_request(payload: &CreateTodo) -> (res: Result<Statement, AppError>)
    ensures
        match normalized_title(payload.title@) {
            Ok(t) => res matches Ok(st) && st.sql_view() == repo::create_sql() && st.binds_view()
                == seq![repo::BindView::Text(t)],
            Err(m) => res matches Err(AppError::Validation(e)) && e@ == m,
        },
{
    match create_title(payload) {
        Ok(title) => Ok(repo::create(title.as_str())),
        Err(e) => Err(e),
    }
}

/// The statement that an update request for item `id` sends, or its
/// refusal; a refused request sends nothing.
pub fn update_request(id: i64, payload: &UpdateTodo) -> (res: Result<Statement, AppError>)
    ensures
        match update_patch_spec(payload) {
            Ok((title, completed)) => res matches Ok(st) && st.sql_view() == repo::update_sql()
                && st.binds_view() == seq![
                repo::BindView::BigInt(id),
                repo::BindView::OptionalText(title),
                repo::BindView::OptionalBool(completed),
            ],
            Err(m) => res matches Err(AppError::Validation(e)) && e@ == m,
        },
{
    match update_patch(payload) {
        Ok(patch) => Ok(repo::update(id, &patch)),
        Err(e) => Err(e),
    }
}

/// What an update request asks for: the new title and completion, or the
/// text of its refusal.
pub open spec fn update_patch_spec(payload: &UpdateTodo) -> Result<
    (Option<Seq<char>>, Option<bool>),
    Seq<char>,
> {
    if payload.title is None && payload.completed is None {
        Err(empty_update_message())
    } else {
        match payload.title {
            Some(t) => match normalized_title(t@) {
                Ok(n) => Ok((Some(n), payload.completed)),
                Err(m) => Err(m),
            },
            None => Ok((None, payload.completed)),
        }
    }
}

/// An update that names a title follows the rule for titles at creation:
/// it is refused with the same text when a creation with that title would
/// be, and otherwise stores the same normalised title.
pub proof fn update_title_follows_creation_rule(update: &UpdateTodo, create: &CreateTodo)
    requires
        update.title matches Some(t) && t@ == create.title@,
    ensures
        match normalized_title(create.title@) {
            Ok(title) => update_patch_spec(update) == Ok::<(Option<Seq<char>>, Option<bool>), Seq<char>>(
                (Some(title), update.completed),
            ),
            Err(m) => update_patch_spec(update) == Err::<(Option<Seq<char>>, Option<bool>), Seq<char>>(m),
        },
{
}

/// An update passes on the completion that the request gave, unchanged,
/// whether it sets it, clears it or leaves it out; and a request that gives
/// only a completion is accepted and changes no title.
pub proof fn update_passes_on_requested_completion(update: &UpdateTodo)
    ensures
        update_patch_spec(update) matches Ok(p) ==> p.1 == update.completed,
        update_patch_spec(update) matches Ok(p) ==> (p.0 is None <==> update.title is None),
        update.title is None && update.completed is Some ==> update_patch_spec(update) == Ok::<
            (Option<Seq<char>>, Option<bool>),
            Seq<char>,
        >((None, update.completed)),
{
}

/// The answer to an update, from the item that the database returned: the
/// item, or "not found" when no item had the id.
pub fn update_reply(updated: Option<Todo>) -> (res: Result<Todo, AppError>)
    ensures
        match updated {
            Some(t) => res == Ok::<Todo, AppError>(t),
            None => res matches Err(AppError::NotFound),
        },
{
    match updated {
        Some(t) => Ok(t),
        None => Err(AppError::NotFound),
    }
}

/// The answer to a removal, from the number of rows it affected: "no
/// content" when it removed the item, "not found" when there was none.
pub fn delete_reply(rows_affected: u64) -> (res: Result<u16, AppError>)
    ensures
        rows_affected > 0 ==> res == Ok::<u16, AppError>(STATUS_NO_CONTENT),
        rows_affected == 0 ==> res matches Err(AppError::NotFound),
{
    if repo::delete_succeeded(rows_affected) {
        Ok(STATUS_NO_CONTENT)
    } else {
        Err(AppError::NotFound)
    }
}

} // verus!
