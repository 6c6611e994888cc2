use vstd::prelude::*;

use crate::domain::article::dto::request::edit::{sent, EditArticleRequest};
use crate::domain::article::repository::update::{update_effect, update_result};
use crate::domain::article::repository::{resource_name, seen};
use crate::domain::article::usecase::{hand_on, ArticleUsecase};
use crate::global::errors::{CustomError, ErrorKind, ErrorView};

verus! {

/// Updates the article `article_id` for the caller `user_id`. A request
/// that sends neither a title nor a content is refused, and the use cases
/// never see it.
pub fn update_article<U: ArticleUsecase>(
    usecase: &mut U,
    user_id: i64,
    article_id: i64,
    edit_req: EditArticleRequest,
) -> (result: Result<(), CustomError>)
    ensures
        !edit_req@.is_valid() ==> {
            &&& seen(result) == Err::<(), ErrorView>(
                ErrorView { kind: ErrorKind::Invalidate, text: resource_name() },
            )
            &&& *final(usecase) == *old(usecase)
        },
        edit_req@.is_valid() && old(usecase).is_exact() ==> {
            &&& final(usecase).is_exact()
            &&& old(usecase).table().wf()
            &&& final(usecase).table().wf()
            &&& seen(result) == update_result(
                old(usecase).table(),
                user_id,
                article_id,
                sent(edit_req@.title),
                sent(edit_req@.content),
            )
            &&& final(usecase).table() == update_effect(
                old(usecase).table(),
                user_id,
                article_id,
                sent(edit_req@.title),
                sent(edit_req@.content),
            )
        },
{
    if !edit_req.check_fields() {
        return Err(CustomError::Invalidate("Article".to_owned()));
    }
    hand_on(usecase.update_article(user_id, article_id, edit_req))
}

} // verus!
