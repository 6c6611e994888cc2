use vstd::prelude::*;

use crate::domain::article::repository::delete::delete_result;
use crate::domain::article::repository::{seen, ArticleRepository};
use crate::domain::article::usecase::hand_on;
use crate::global::errors::CustomError;

verus! {

/// Deletes the article `article_id` for `user_id`. What the repository
/// answers is handed on as it is.
pub fn delete_article<R: ArticleRepository>(
    repository: &mut R,
    user_id: i64,
    article_id: i64,
) -> (result: Result<(), CustomError>)
    ensures
        old(repository).is_exact() ==> {
            &&& final(repository).is_exact()
            &&& old(repository).table().wf()
            &&& final(repository).table().wf()
            &&& seen(result) == delete_result(old(repository).table(), user_id, article_id)
            &&& final(repository).table() == old(repository).table().delete(user_id, article_id)
        },
{
    hand_on(repository.delete_article(user_id, article_id))
}

} // verus!
