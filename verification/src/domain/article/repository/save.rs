use vstd::prelude::*;

use super::table::{ArticleTable, TableView, IDS_EXHAUSTED, UNKNOWN_WRITER};
use super::{conclude, seen, Param, ParamView, Statement, StatementView};
use crate::domain::article::entity::{Article, ArticleView};
use crate::global::errors::{CustomError, ErrorKind, ErrorView};

verus! {

/// Inserts one row and returns the id that the store assigned.
pub const SAVE_SQL: &'static str = "INSERT INTO tb_article (title, content, writer_id)
VALUES ($1, $2, $3)
RETURNING id;
";

/// The statement that persists `article`.
pub fn save_statement(article: &Article) -> (statement: Statement)
    ensures
        statement@ == (StatementView {
            text: SAVE_SQL@,
            params: seq![
                ParamView::Text(article@.title),
                ParamView::Text(article@.content),
                ParamView::Int(article@.writer_id),
            ],
        }),
{
    let mut params: Vec<Param> = Vec::new();
    params.push(Param::Text(article.get_title().to_owned()));
    params.push(Param::Text(article.get_content().to_owned()));
    params.push(Param::Int(article.get_writer()));
    let statement = Statement { text: SAVE_SQL.to_owned(), params };
    assert(statement@.params =~= seq![
        ParamView::Text(article@.title),
        ParamView::Text(article@.content),
        ParamView::Int(article@.writer_id),
    ]);
    statement
}

/// What saving `article` into `table` returns: the next id, or the
/// database's refusal where the writer is unknown or no id is left.
pub open spec fn save_result(table: TableView, article: ArticleView) -> Result<i64, ErrorView> {
    if table.accepts(article) {
        Ok(table.next_id as i64)
    } else if table.writers.contains(article.writer_id) {
        Err(ErrorView { kind: ErrorKind::DatabaseError, text: IDS_EXHAUSTED@ })
    } else {
        Err(ErrorView { kind: ErrorKind::DatabaseError, text: UNKNOWN_WRITER@ })
    }
}

/// The table after `article` was saved into it, or was refused.
pub open spec fn save_effect(table: TableView, article: ArticleView) -> TableView {
    if table.accepts(article) {
        table.insert(article)
    } else {
        table
    }
}

/// Persists `article` and returns its id.
pub fn save_article(table: &mut ArticleTable, article: Article) -> (result: Result<i64, CustomError>)
    ensures
        old(table).wf(),
        final(table).wf(),
        seen(result) == save_result(old(table)@, article@),
        final(table)@ == save_effect(old(table)@, article@),
{
    conclude(table.insert(article))
}

} // verus!
