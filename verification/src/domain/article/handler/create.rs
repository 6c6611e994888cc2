use vstd::prelude::*;

use crate::domain::article::dto::request::create::ArticleCreateRequest;
use crate::domain::article::dto::response::create::ArticleCreateResponse;
use crate::domain::article::repository::resource_name;
use crate::domain::article::repository::save::{save_effect, save_result};
use crate::domain::article::usecase::create::seen_created;
use crate::domain::article::usecase::{hand_on, ArticleUsecase};
use crate::global::errors::{CustomError, ErrorKind, ErrorView};

verus! {

/// The status with which a created article is answered.
pub const CREATED: u16 = 201;

/// Creates an article for the caller `user_id`. A request with an empty
/// title or an empty content is refused, and the use cases never see it.
pub fn create_article<U: ArticleUsecase>(
    usecase: &mut U,
    user_id: i64,
    create_req: ArticleCreateRequest,
) -> (result: Result<ArticleCreateResponse, CustomError>)
    ensures
        !create_req@.is_valid() ==> {
            &&& seen_created(result) == Err::<i64, ErrorView>(
                ErrorView { kind: ErrorKind::Invalidate, text: resource_name() },
            )
            &&& *final(usecase) == *old(usecase)
        },
        create_req@.is_valid() && old(usecase).is_exact() ==> {
            &&& final(usecase).is_exact()
            &&& old(usecase).table().wf()
            &&& final(usecase).table().wf()
            &&& seen_created(result) == save_result(
                old(usecase).table(),
                create_req@.entity(user_id),
            )
            &&& final(usecase).table() == save_effect(
                old(usecase).table(),
                create_req@.entity(user_id),
            )
        },
{
    if !create_req.check_fields() {
        return Err(CustomError::Invalidate("Article".to_owned()));
    }
    hand_on(usecase.create_article(user_id, create_req))
}

} // verus!
