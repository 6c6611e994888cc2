use vstd::prelude::*;

use super::table::{views, ArticleTable};
use super::{conclude, Statement, StatementView};
use crate::domain::article::entity::Article;
use crate::global::errors::CustomError;

verus! {

/// Selects every row.
pub const LIST_SQL: &'static str = "SELECT * FROM tb_article";

/// The statement that reads all articles.
pub fn list_statement() -> (statement: Statement)
    ensures
        statement@ == (StatementView { text: LIST_SQL@, params: Seq::empty() }),
{
    let statement = Statement { text: LIST_SQL.to_owned(), params: Vec::new() };
    assert(statement@.params =~= Seq::empty());
    statement
}

/// Reads all articles, in the order in which they were saved.
pub fn get_list(table: &ArticleTable) -> (result: Result<Vec<Article>, CustomError>)
    ensures
        table.wf(),
        result is Ok,
        views(result->Ok_0@) == table@.rows,
{
    conclude(Ok(table.select_all()))
}

} // verus!
