//! The ownership-checked partial update: one statement observes whether the
//! article exists and whether the caller owns it, and changes the columns
//! that the request names if and only if both hold.
//!
//! A request that names no column is refused with `Invalidate` before any
//! statement is made, so that no statement ever has an empty `SET` clause.

use vstd::prelude::*;

use super::table::{ArticleTable, TableView};
use super::{conclude_mutation, resource_name, seen, Param, ParamView, Statement, StatementView};
use crate::domain::article::dto::request::edit::text_of;
use crate::global::errors::{CustomError, ErrorKind, ErrorView};
use crate::text::{signed_decimal, signed_decimal_text};

verus! {

/// The statement up to its `SET` clause. `$1` is the article's id and `$2`
/// the caller.
pub const UPDATE_HEAD: &'static str = "
WITH ArticleExists AS (
    SELECT id, writer_id
    FROM tb_article
    WHERE id = $1
),
AuthorityChecks AS (
    SELECT EXISTS (
        SELECT 1
        FROM ArticleExists
        WHERE writer_id = $2
    ) AS is_authorized
),
UpdateArticle AS (
    UPDATE tb_article SET ";

/// The statement after its `SET` clause.
pub const UPDATE_TAIL: &'static str = "
    WHERE id = $1
        AND (SELECT is_authorized FROM AuthorityChecks) = true
    RETURNING id
)
SELECT
    EXISTS (SELECT 1 FROM ArticleExists) AS is_exist,
    (SELECT is_authorized FROM AuthorityChecks) AS is_authorized,
    (SELECT COUNT(*) FROM UpdateArticle) AS update_count;
";

/// The placeholders before those of the columns: the id and the caller.
pub const FIXED_PARAMS: i32 = 2;

/// `field_name = $index`.
pub open spec fn assignment(field_name: Seq<char>, index: int) -> Seq<char> {
    field_name + " = $"@ + signed_decimal(index)
}

/// The `SET` clause for the columns that a request names: the title before
/// the content, each with the next placeholder after the fixed ones.
pub open spec fn set_clause(title: bool, content: bool) -> Seq<char> {
    if title && content {
        assignment("title"@, 3) + ", "@ + assignment("content"@, 4)
    } else if title {
        assignment("title"@, 3)
    } else if content {
        assignment("content"@, 3)
    } else {
        Seq::empty()
    }
}

/// The three `SET` clauses that a statement can have, written out.
pub proof fn lemma_set_clauses()
    ensures
        set_clause(true, true) == "title = $3, content = $4"@,
        set_clause(true, false) == "title = $3"@,
        set_clause(false, true) == "content = $3"@,
{
    reveal_strlit("title");
    reveal_strlit("content");
    reveal_strlit(" = $");
    reveal_strlit(", ");
    reveal_strlit("title = $3, content = $4");
    reveal_strlit("title = $3");
    reveal_strlit("content = $3");
    assert(signed_decimal(3) =~= seq!['3']);
    assert(signed_decimal(4) =~= seq!['4']);
    assert(set_clause(true, true) =~= "title = $3, content = $4"@);
    assert(set_clause(true, false) =~= "title = $3"@);
    assert(set_clause(false, true) =~= "content = $3"@);
}

/// The values of the placeholders, in the order of their numbers.
pub open spec fn update_params(
    user_id: i64,
    article_id: i64,
    title: Option<Seq<char>>,
    content: Option<Seq<char>>,
) -> Seq<ParamView> {
    seq![ParamView::Int(article_id), ParamView::Int(user_id)] + (match title {
        Some(text) => seq![ParamView::Text(text)],
        None => Seq::empty(),
    }) + (match content {
        Some(text) => seq![ParamView::Text(text)],
        None => Seq::empty(),
    })
}

/// Takes the next placeholder and assigns it to the column `field_name`,
/// with the separator for a further assignment behind it.
pub fn make_query(index: &mut i32, field_name: &str) -> (query: String)
    requires
        *old(index) < i32::MAX,
    ensures
        *final(index) == *old(index) + 1,
        query@ == assignment(field_name@, *final(index) as int) + ", "@,
{
    *index += 1;
    let mut query = field_name.to_owned();
    query.append(" = $");
    query.append(signed_decimal_text(*index as i64).as_str());
    query.append(", ");
    query
}

/// The statement for an update of the columns that are there.
pub open spec fn update_statement_view(
    user_id: i64,
    article_id: i64,
    title: Option<Seq<char>>,
    content: Option<Seq<char>>,
) -> StatementView {
    StatementView {
        text: UPDATE_HEAD@ + set_clause(title is Some, content is Some) + UPDATE_TAIL@,
        params: update_params(user_id, article_id, title, content),
    }
}

/// Builds the one statement of an update. The text depends only on which
/// columns are there; their values travel as parameters.
pub fn update_statement(
    user_id: i64,
    article_id: i64,
    title: Option<String>,
    content: Option<String>,
) -> (result: Result<Statement, CustomError>)
    ensures
        match result {
            Ok(statement) => (title is Some || content is Some) && statement@
                == update_statement_view(user_id, article_id, text_of(title), text_of(content)),
            Err(error) => title is None && content is None && error@ == (ErrorView {
                kind: ErrorKind::Invalidate,
                text: resource_name(),
            }),
        },
{
    if title.is_none() && content.is_none() {
        return Err(CustomError::Invalidate("Article".to_owned()));
    }
    let ghost title_text = text_of(title);
    let ghost content_text = text_of(content);
    let mut index: i32 = FIXED_PARAMS;
    let mut assignments = String::new();
    let mut params: Vec<Param> = Vec::new();
    params.push(Param::Int(article_id));
    params.push(Param::Int(user_id));
    if let Some(text) = title {
        assignments.append(make_query(&mut index, "title").as_str());
        params.push(Param::Text(text));
    }
    if let Some(text) = content {
        assignments.append(make_query(&mut index, "content").as_str());
        params.push(Param::Text(text));
    }
    proof {
        reveal_strlit(", ");
    }
    let ghost clause = set_clause(title_text is Some, content_text is Some);
    assert(assignments@ =~= clause + ", "@);
    let length = assignments.as_str().unicode_len();
    let kept = assignments.as_str().substring_char(0, length - 2);
    assert(kept@ =~= clause);
    let mut text = UPDATE_HEAD.to_owned();
    text.append(kept);
    text.append(UPDATE_TAIL);
    let statement = Statement { text, params };
    assert(statement@.params =~= update_params(user_id, article_id, title_text, content_text));
    Ok(statement)
}

/// Whether a request names a column.
pub open spec fn names_a_column(title: Option<Seq<char>>, content: Option<Seq<char>>) -> bool {
    title is Some || content is Some
}

/// What `user_id` is told who asks to update the article `article_id`.
pub open spec fn update_result(
    table: TableView,
    user_id: i64,
    article_id: i64,
    title: Option<Seq<char>>,
    content: Option<Seq<char>>,
) -> Result<(), ErrorView> {
    if names_a_column(title, content) {
        table.outcome(user_id, article_id).verdict()
    } else {
        Err(ErrorView { kind: ErrorKind::Invalidate, text: resource_name() })
    }
}

/// The table after the request. One that names no column reaches no row.
pub open spec fn update_effect(
    table: TableView,
    user_id: i64,
    article_id: i64,
    title: Option<Seq<char>>,
    content: Option<Seq<char>>,
) -> TableView {
    if names_a_column(title, content) {
        table.update(user_id, article_id, title, content)
    } else {
        table
    }
}

/// Replaces the title, the content or both of the article `article_id` if
/// `user_id` wrote it. A column that is not there stays as it is.
pub fn update_article(
    table: &mut ArticleTable,
    user_id: i64,
    article_id: i64,
    title: Option<String>,
    content: Option<String>,
) -> (result: Result<(), CustomError>)
    ensures
        old(table).wf(),
        final(table).wf(),
        seen(result) == update_result(
            old(table)@,
            user_id,
            article_id,
            text_of(title),
            text_of(content),
        ),
        final(table)@ == update_effect(
            old(table)@,
            user_id,
            article_id,
            text_of(title),
            text_of(content),
        ),
{
    proof {
        use_type_invariant(&*table);
    }
    if title.is_none() && content.is_none() {
        return Err(CustomError::Invalidate("Article".to_owned()));
    }
    conclude_mutation(Ok(table.update_owned(user_id, article_id, title, content)))
}

} // verus!
