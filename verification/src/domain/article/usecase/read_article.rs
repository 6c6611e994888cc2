use vstd::prelude::*;

use crate::domain::article::dto::response::read_article::{ReadArticleResponse, ReadArticleView};
use crate::domain::article::entity::{Article, ArticleView};
use crate::domain::article::repository::get_detail::{detail_result, seen_article};
use crate::domain::article::repository::table::TableView;
use crate::domain::article::repository::ArticleRepository;
use crate::global::errors::{CustomError, ErrorView};

verus! {

/// A read answered, with the article and the failure seen as contracts see
/// them.
pub open spec fn seen_read(result: Result<ReadArticleResponse, CustomError>) -> Result<
    ReadArticleView,
    ErrorView,
> {
    match result {
        Ok(response) => Ok(response@),
        Err(error) => Err(error@),
    }
}

/// What a client reads of the article `article_id` of `table`.
pub open spec fn read_result(table: TableView, article_id: i64) -> Result<
    ReadArticleView,
    ErrorView,
> {
    shown(detail_result(table, article_id))
}

/// What a client reads of an article that the repository returned.
pub open spec fn shown(answer: Result<ArticleView, ErrorView>) -> Result<
    ReadArticleView,
    ErrorView,
> {
    match answer {
        Ok(article) => Ok(article.response()),
        Err(error) => Err(error),
    }
}

/// What a read answers, given what the repository answered to the lookup:
/// the article as a client sees it, or the repository's failure as it is.
pub fn answer_read(answer: Result<Article, CustomError>) -> (result: Result<
    ReadArticleResponse,
    CustomError,
>)
    requires
        answer matches Ok(article) ==> article@.id is Some,
    ensures
        seen_read(result) == shown(seen_article(answer)),
        answer matches Err(error) ==> result == Err::<ReadArticleResponse, CustomError>(error),
{
    match answer {
        Ok(article) => Ok(article.to_response()),
        Err(error) => Err(error),
    }
}

/// Reads the article `article_id` as a client sees it.
pub fn read_article<R: ArticleRepository>(repository: &R, article_id: i64) -> (result: Result<
    ReadArticleResponse,
    CustomError,
>)
    ensures
        result matches Ok(response) ==> response@.id == article_id,
        repository.is_exact() ==> repository.table().wf() && seen_read(result) == read_result(
            repository.table(),
            article_id,
        ),
{
    answer_read(repository.get_detail(article_id))
}

} // verus!
