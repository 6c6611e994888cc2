//! The use cases: requests become entities, entities become responses, and
//! the caller and the id go to the repository as they came.

use vstd::prelude::*;

use self::create::seen_created;
use self::read_article::{read_result, seen_read};
use super::dto::request::create::ArticleCreateRequest;
use super::dto::request::edit::{sent, EditArticleRequest};
use super::dto::response::create::ArticleCreateResponse;
use super::dto::response::read_article::ReadArticleResponse;
use super::repository::delete::delete_result;
use super::repository::save::{save_effect, save_result};
use super::repository::table::TableView;
use super::repository::update::{update_effect, update_result};
use super::repository::{seen, ArticleRepository};
use crate::global::errors::CustomError;

pub mod create;
pub mod delete;
pub mod read_article;
pub mod update;

verus! {

/// Hands on what the layer below answered: a success as it is, a failure in
/// its kind and with its text. No layer above the repository classifies a
/// failure anew.
pub fn hand_on<T>(answer: Result<T, CustomError>) -> (result: Result<T, CustomError>)
    ensures
        result == answer,
{
    answer
}

/// What the boundary needs of the use cases. Use cases that are exact work
/// on the table `table` and answer every request as that table does.
pub trait ArticleUsecase {
    /// Whether these use cases answer exactly as the table `table` does.
    open spec fn is_exact(&self) -> bool {
        false
    }

    /// The table that exact use cases work on.
    open spec fn table(&self) -> TableView {
        TableView { rows: Seq::empty(), writers: Set::empty(), next_id: 1 }
    }

    fn create_article(&mut self, user_id: i64, create_req: ArticleCreateRequest) -> (result: Result<
        ArticleCreateResponse,
        CustomError,
    >)
        ensures
            old(self).is_exact() ==> {
                &&& final(self).is_exact()
                &&& old(self).table().wf()
                &&& final(self).table().wf()
                &&& seen_created(result) == save_result(
                    old(self).table(),
                    create_req@.entity(user_id),
                )
                &&& final(self).table() == save_effect(
                    old(self).table(),
                    create_req@.entity(user_id),
                )
            },
    ;

    /// The article that is returned has the id that was asked for.
    fn read_article(&self, article_id: i64) -> (result: Result<ReadArticleResponse, CustomError>)
        ensures
            result matches Ok(response) ==> response@.id == article_id,
            self.is_exact() ==> self.table().wf() && seen_read(result) == read_result(
                self.table(),
                article_id,
            ),
    ;

    fn update_article(
        &mut self,
        user_id: i64,
        article_id: i64,
        edit_req: EditArticleRequest,
    ) -> (result: Result<(), CustomError>)
        ensures
            old(self).is_exact() ==> {
                &&& final(self).is_exact()
                &&& old(self).table().wf()
                &&& final(self).table().wf()
                &&& seen(result) == update_result(
                    old(self).table(),
                    user_id,
                    article_id,
                    sent(edit_req@.title),
                    sent(edit_req@.content),
                )
                &&& final(self).table() == update_effect(
                    old(self).table(),
                    user_id,
                    article_id,
                    sent(edit_req@.title),
                    sent(edit_req@.content),
                )
            },
    ;

    fn delete_article(&mut self, user_id: i64, article_id: i64) -> (result: Result<
        (),
        CustomError,
    >)
        ensures
            old(self).is_exact() ==> {
                &&& final(self).is_exact()
                &&& old(self).table().wf()
                &&& final(self).table().wf()
                &&& seen(result) == delete_result(old(self).table(), user_id, article_id)
                &&& final(self).table() == old(self).table().delete(user_id, article_id)
            },
    ;
}

/// The use cases over one repository.
pub struct ArticleUsecaseImpl<R: ArticleRepository> {
    repository: R,
}

impl<R: ArticleRepository> ArticleUsecaseImpl<R> {
    pub fn new(repository: R) -> (usecase: Self)
        ensures
            usecase.is_exact() == repository.is_exact(),
            usecase.table() == repository.table(),
    {
        Self { repository }
    }

    /// The repository that the use cases work on.
    pub fn repository(&self) -> (repository: &R)
        ensures
            repository.is_exact() == self.is_exact(),
            repository.table() == self.table(),
    {
        &self.repository
    }
}

impl<R: ArticleRepository> ArticleUsecase for ArticleUsecaseImpl<R> {
    closed spec fn is_exact(&self) -> bool {
        self.repository.is_exact()
    }

    closed spec fn table(&self) -> TableView {
        self.repository.table()
    }

    fn create_article(&mut self, user_id: i64, create_req: ArticleCreateRequest) -> (result: Result<
        ArticleCreateResponse,
        CustomError,
    >) {
        create::create_article(&mut self.repository, user_id, create_req)
    }

    fn read_article(&self, article_id: i64) -> (result: Result<ReadArticleResponse, CustomError>) {
        read_article::read_article(&self.repository, article_id)
    }

    fn update_article(
        &mut self,
        user_id: i64,
        article_id: i64,
        edit_req: EditArticleRequest,
    ) -> (result: Result<(), CustomError>) {
        update::update_article(&mut self.repository, user_id, article_id, edit_req)
    }

    fn delete_article(&mut self, user_id: i64, article_id: i64) -> (result: Result<
        (),
        CustomError,
    >) {
        delete::delete_article(&mut self.repository, user_id, article_id)
    }
}

} // verus!
