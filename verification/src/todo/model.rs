//! The TODO item, the request bodies, and the rule for titles.

use vstd::prelude::*;
use crate::text::{
    all_white_space, decimal, decimal_string, is_white_space, lemma_trimmed_is_trimmed,
    trim_white_space, trimmed, trimmed_is_the_core, trimmed_removes_exactly_the_padding,
    trimmed_white_space_is_empty,
};

verus! {

/// A stored TODO item. The times are microseconds since the Unix epoch,
/// in UTC, as the database keeps them.
pub struct Todo {
    pub id: i64,
    pub title: String,
    pub completed: bool,
    pub created_at: i64,
    pub updated_at: i64,
}

/// The body of a request that creates an item.
pub struct CreateTodo {
    pub title: String,
}

/// The body of a request that changes an item; an absent field is left as
/// it is.
pub struct UpdateTodo {
    pub title: Option<String>,
    pub completed: Option<bool>,
}

/// The most characters (not bytes) that a title may have.
pub const TITLE_MAX_LEN: usize = 500;

/// The refusal of a title that is empty once trimmed.
pub open spec fn blank_title_message() -> Seq<char> {
    "title を空にはできません"@
}

/// The refusal of a title longer than `TITLE_MAX_LEN` characters.
pub open spec fn long_title_message() -> Seq<char> {
    "title は "@ + decimal(TITLE_MAX_LEN as nat) + " 文字以内にしてください"@
}

/// What normalising `raw` gives: the trimmed text, or the refusal.
pub open spec fn normalized_title(raw: Seq<char>) -> Result<Seq<char>, Seq<char>> {
    let t = trimmed(raw);
    if t.len() == 0 {
        Err(blank_title_message())
    } else if t.len() > TITLE_MAX_LEN {
        Err(long_title_message())
    } else {
        Ok(t)
    }
}

/// The view of a result whose both sides are strings.
pub open spec fn string_result_view(r: Result<String, String>) -> Result<Seq<char>, Seq<char>> {
    match r {
        Ok(s) => Ok(s@),
        Err(e) => Err(e@),
    }
}

/// Trims a title and checks it: drops leading and trailing white space,
/// refuses an empty result and one longer than `TITLE_MAX_LEN` characters.
pub fn normalize_title(raw: &str) -> (res: Result<String, String>)
    ensures
        string_result_view(res) == normalized_title(raw@),
{
    let trimmed_raw = trim_white_space(raw);
    if trimmed_raw.is_empty() {
        return Err("title を空にはできません".to_owned());
    }
    if trimmed_raw.unicode_len() > TITLE_MAX_LEN {
        let mut message = "title は ".to_owned();
        let limit = decimal_string(TITLE_MAX_LEN as u64);
        message.append(limit.as_str());
        message.append(" 文字以内にしてください");
        return Err(message);
    }
    Ok(trimmed_raw.to_owned())
}

/// A title that normalisation accepted is accepted again, unchanged: it is
/// non-empty, has no white space at either end and at most `TITLE_MAX_LEN`
/// characters.
pub proof fn normalize_title_is_idempotent(raw: Seq<char>)
    requires
        normalized_title(raw) is Ok,
    ensures
        normalized_title(normalized_title(raw)->Ok_0) == normalized_title(raw),
        0 < normalized_title(raw)->Ok_0.len() <= TITLE_MAX_LEN,
        !is_white_space(normalized_title(raw)->Ok_0[0]),
        !is_white_space(normalized_title(raw)->Ok_0.last()),
{
    lemma_trimmed_is_trimmed(raw);
}

/// A title is the text between its surrounding white space. Whatever white
/// space surrounds it, a title that starts and ends with other characters
/// is accepted unchanged when it has at most `TITLE_MAX_LEN` characters, of
/// whatever kind, and refused as too long otherwise.
pub proof fn normalize_title_keeps_the_core(before: Seq<char>, core: Seq<char>, after: Seq<char>)
    requires
        all_white_space(before),
        all_white_space(after),
        core.len() > 0,
        !is_white_space(core[0]),
        !is_white_space(core.last()),
    ensures
        core.len() <= TITLE_MAX_LEN ==> normalized_title(before + core + after) == Ok::<
            Seq<char>,
            Seq<char>,
        >(core),
        core.len() > TITLE_MAX_LEN ==> normalized_title(before + core + after) == Err::<
            Seq<char>,
            Seq<char>,
        >(long_title_message()),
{
    trimmed_removes_exactly_the_padding(before, core, after);
}

/// A title of white space alone, the empty title included, is refused as
/// blank.
pub proof fn normalize_title_refuses_blank(raw: Seq<char>)
    requires
        all_white_space(raw),
    ensures
        normalized_title(raw) == Err::<Seq<char>, Seq<char>>(blank_title_message()),
{
    trimmed_white_space_is_empty(raw);
}

/// An accepted title is a stretch of the input, with only white space cut
/// away before and after it; no character of it is changed.
pub proof fn normalize_title_only_cuts_white_space(raw: Seq<char>)
    ensures
        normalized_title(raw) matches Ok(t) ==> exists|i: int, j: int|
            0 <= i <= j <= raw.len() && #[trigger] raw.subrange(i, j) == t && all_white_space(
                raw.subrange(0, i),
            ) && all_white_space(raw.subrange(j, raw.len() as int)),
{
    trimmed_is_the_core(raw);
}

} // verus!
