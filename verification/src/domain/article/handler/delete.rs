use vstd::prelude::*;

use crate::domain::article::repository::delete::delete_result;
use crate::domain::article::repository::seen;
use crate::domain::article::usecase::{hand_on, ArticleUsecase};
use crate::global::errors::CustomError;

verus! {

/// Deletes the article `article_id` for the caller `user_id`.
pub fn delete_article<U: ArticleUsecase>(usecase: &mut U, user_id: i64, article_id: i64) -> (result:
    Result<(), CustomError>)
    ensures
        old(usecase).is_exact() ==> {
            &&& final(usecase).is_exact()
            &&& old(usecase).table().wf()
            &&& final(usecase).table().wf()
            &&& seen(result) == delete_result(old(usecase).table(), user_id, article_id)
            &&& final(usecase).table() == old(usecase).table().delete(user_id, article_id)
        },
{
    hand_on(usecase.delete_article(user_id, article_id))
}

} // verus!
