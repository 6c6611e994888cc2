use vstd::prelude::*;

use crate::domain::article::dto::request::edit::{sent, EditArticleRequest};
use crate::domain::article::repository::update::{update_effect, update_result};
use crate::domain::article::repository::{seen, ArticleRepository};
use crate::domain::article::usecase::hand_on;
use crate::global::errors::CustomError;

verus! {

/// Updates the article `article_id` for `user_id` with the fields that
/// `edit_req` sends. What the repository answers is handed on as it is.
pub fn update_article<R: ArticleRepository>(
    repository: &mut R,
    user_id: i64,
    article_id: i64,
    edit_req: EditArticleRequest,
) -> (result: Result<(), CustomError>)
    ensures
        old(repository).is_exact() ==> {
            &&& final(repository).is_exact()
            &&& old(repository).table().wf()
            &&& final(repository).table().wf()
            &&& seen(result) == update_result(
                old(repository).table(),
                user_id,
                article_id,
                sent(edit_req@.title),
                sent(edit_req@.content),
            )
            &&& final(repository).table() == update_effect(
                old(repository).table(),
                user_id,
                article_id,
                sent(edit_req@.title),
                sent(edit_req@.content),
            )
        },
{
    let (title, content) = edit_req.to_fields();
    hand_on(repository.update_article(user_id, article_id, title, content))
}

} // verus!
