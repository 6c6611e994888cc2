use vstd::prelude::*;

use super::table::{ArticleTable, TableView};
use super::{conclude_lookup, resource_name, Param, ParamView, Statement, StatementView};
use crate::domain::article::entity::{Article, ArticleView};
use crate::global::errors::{CustomError, ErrorKind, ErrorView};

verus! {

/// Selects the one row with the id `$1`.
pub const DETAIL_SQL: &'static str = "SELECT * FROM tb_article WHERE id = $1";

/// The statement that reads the article `article_id`.
pub fn detail_statement(article_id: i64) -> (statement: Statement)
    ensures
        statement@ == (StatementView {
            text: DETAIL_SQL@,
            params: seq![ParamView::Int(article_id)],
        }),
{
    let mut params: Vec<Param> = Vec::new();
    params.push(Param::Int(article_id));
    let statement = Statement { text: DETAIL_SQL.to_owned(), params };
    assert(statement@.params =~= seq![ParamView::Int(article_id)]);
    statement
}

/// What reading the article `article_id` from `table` returns.
pub open spec fn detail_result(table: TableView, article_id: i64) -> Result<
    ArticleView,
    ErrorView,
> {
    match table.find(article_id) {
        Some(article) => Ok(article),
        None => Err(ErrorView { kind: ErrorKind::NotFound, text: resource_name() }),
    }
}

/// An article read, with the article and the failure seen as contracts see
/// them.
pub open spec fn seen_article(result: Result<Article, CustomError>) -> Result<
    ArticleView,
    ErrorView,
> {
    match result {
        Ok(article) => Ok(article@),
        Err(error) => Err(error@),
    }
}

/// Reads the article `article_id`.
pub fn get_detail(table: &ArticleTable, article_id: i64) -> (result: Result<Article, CustomError>)
    ensures
        table.wf(),
        seen_article(result) == detail_result(table@, article_id),
{
    conclude_lookup(table.select(article_id))
}

} // verus!
