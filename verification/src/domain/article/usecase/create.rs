use vstd::prelude::*;

use crate::domain::article::dto::request::create::ArticleCreateRequest;
use crate::domain::article::dto::response::create::ArticleCreateResponse;
use crate::domain::article::repository::save::{save_effect, save_result};
use crate::domain::article::repository::{seen, ArticleRepository};
use crate::global::errors::{CustomError, ErrorView};

verus! {

/// A creation answered, with the id and the failure seen as contracts see
/// them.
pub open spec fn seen_created(result: Result<ArticleCreateResponse, CustomError>) -> Result<
    i64,
    ErrorView,
> {
    match result {
        Ok(response) => Ok(response@),
        Err(error) => Err(error@),
    }
}

/// What a creation answers, given what the repository answered to the save:
/// the id that the store assigned, or the repository's failure as it is.
pub fn answer_created(answer: Result<i64, CustomError>) -> (result: Result<
    ArticleCreateResponse,
    CustomError,
>)
    ensures
        seen_created(result) == seen(answer),
        answer matches Err(error) ==> result == Err::<ArticleCreateResponse, CustomError>(error),
{
    match answer {
        Ok(id) => Ok(ArticleCreateResponse::new(id)),
        Err(error) => Err(error),
    }
}

/// Persists the article that `user_id` creates with `create_req`, and
/// answers with its id. The writer is the caller, whatever the request says.
pub fn create_article<R: ArticleRepository>(
    repository: &mut R,
    user_id: i64,
    create_req: ArticleCreateRequest,
) -> (result: Result<ArticleCreateResponse, CustomError>)
    ensures
        old(repository).is_exact() ==> {
            &&& final(repository).is_exact()
            &&& old(repository).table().wf()
            &&& final(repository).table().wf()
            &&& seen_created(result) == save_result(
                old(repository).table(),
                create_req@.entity(user_id),
            )
            &&& final(repository).table() == save_effect(
                old(repository).table(),
                create_req@.entity(user_id),
            )
        },
{
    let article = create_req.to_entity(user_id);
    answer_created(repository.save_article(article))
}

} // verus!
