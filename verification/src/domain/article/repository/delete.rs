//! The ownership-checked delete: one statement observes whether the article
//! exists and whether the caller owns it, and deletes it if and only if both
//! hold.

use vstd::prelude::*;

use super::table::{ArticleTable, TableView};
use super::{conclude_mutation, seen, Param, ParamView, Statement, StatementView};
use crate::global::errors::{CustomError, ErrorView};

verus! {

/// `$1` is the article's id and `$2` the caller. The row is deleted only
/// under the authority that the same statement observed.
pub const DELETE_SQL: &'static str = "
WITH ArticleExists AS (
    SELECT id, writer_id
    FROM tb_article
    WHERE id = $1
),
AuthorityChecks AS (
    SELECT EXISTS (
        SELECT 1
        FROM ArticleExists
        WHERE writer_id = $2
    ) AS is_authorized
),
DeleteArticle AS (
    DELETE FROM tb_article
    WHERE id = $1
        AND (SELECT is_authorized FROM AuthorityChecks) = true
    RETURNING id
)
SELECT
    EXISTS (SELECT 1 FROM ArticleExists) AS is_exist,
    (SELECT is_authorized FROM AuthorityChecks) AS is_authorized,
    (SELECT COUNT(*) FROM DeleteArticle) AS delete_count;
";

/// The one statement of a delete.
pub fn delete_statement(user_id: i64, article_id: i64) -> (statement: Statement)
    ensures
        statement@ == (StatementView {
            text: DELETE_SQL@,
            params: seq![ParamView::Int(article_id), ParamView::Int(user_id)],
        }),
{
    let mut params: Vec<Param> = Vec::new();
    params.push(Param::Int(article_id));
    params.push(Param::Int(user_id));
    let statement = Statement { text: DELETE_SQL.to_owned(), params };
    assert(statement@.params =~= seq![ParamView::Int(article_id), ParamView::Int(user_id)]);
    statement
}

/// What `user_id` is told who asks to delete the article `article_id`.
pub open spec fn delete_result(table: TableView, user_id: i64, article_id: i64) -> Result<
    (),
    ErrorView,
> {
    table.outcome(user_id, article_id).verdict()
}

/// Deletes the article `article_id` if `user_id` wrote it.
pub fn delete_article(table: &mut ArticleTable, user_id: i64, article_id: i64) -> (result: Result<
    (),
    CustomError,
>)
    ensures
        old(table).wf(),
        final(table).wf(),
        seen(result) == delete_result(old(table)@, user_id, article_id),
        final(table)@ == old(table)@.delete(user_id, article_id),
{
    conclude_mutation(Ok(table.delete_owned(user_id, article_id)))
}

} // verus!
