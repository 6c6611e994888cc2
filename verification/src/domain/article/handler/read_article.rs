use vstd::prelude::*;

use crate::domain::article::dto::response::read_article::ReadArticleResponse;
use crate::domain::article::usecase::read_article::{read_result, seen_read};
use crate::domain::article::usecase::{hand_on, ArticleUsecase};
use crate::global::errors::CustomError;

verus! {

/// Reads the article `article_id`. Every caller may read every article.
pub fn read_article<U: ArticleUsecase>(usecase: &U, article_id: i64) -> (result: Result<
    ReadArticleResponse,
    CustomError,
>)
    ensures
        result matches Ok(response) ==> response@.id == article_id,
        usecase.is_exact() ==> usecase.table().wf() && seen_read(result) == read_result(
            usecase.table(),
            article_id,
        ),
{
    hand_on(usecase.read_article(article_id))
}

} // verus!
