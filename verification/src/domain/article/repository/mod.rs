//! The article repository: the statements it sends to the store, and how it
//! reads what the store answers.

use vstd::prelude::*;

use self::delete::delete_result;
use self::get_detail::{detail_result, seen_article};
use self::save::{save_effect, save_result};
use self::table::{views, ArticleTable, TableView};
use self::update::{update_effect, update_result};
use crate::domain::article::dto::request::edit::text_of;
use crate::domain::article::entity::{Article, ArticleView};
use crate::global::errors::{
    fault_of, lookup_failure_of, CustomError, ErrorKind, ErrorView, StoreFailure,
    StoreFailureKind,
};

pub mod delete;
pub mod get_detail;
pub mod get_list;
pub mod laws;
pub mod save;
pub mod table;
pub mod update;

verus! {

/// The name under which articles appear in failures.
pub open spec fn resource_name() -> Seq<char> {
    "Article"@
}

/// A value bound to a positional placeholder of a statement.
#[derive(Debug, PartialEq)]
pub enum Param {
    Int(i64),
    Text(String),
}

pub ghost enum ParamView {
    Int(i64),
    Text(Seq<char>),
}

impl View for Param {
    type V = ParamView;

    open spec fn view(&self) -> ParamView {
        match *self {
            Param::Int(i) => ParamView::Int(i),
            Param::Text(t) => ParamView::Text(t@),
        }
    }
}

/// One request to the store: the text of the statement and the values of its
/// placeholders, where `$k` stands for `params[k - 1]`. No value from a caller
/// is ever part of the text.
#[derive(Debug, PartialEq)]
pub struct Statement {
    pub text: String,
    pub params: Vec<Param>,
}

pub ghost struct StatementView {
    pub text: Seq<char>,
    pub params: Seq<ParamView>,
}

impl View for Statement {
    type V = StatementView;

    open spec fn view(&self) -> StatementView {
        StatementView { text: self.text@, params: self.params@.map_values(|p: Param| p@) }
    }
}

/// What is said of a row that no delete or update can have answered with.
pub const IMPOSSIBLE_OUTCOME: &'static str =
    "the store reported an outcome that no delete or update can have";

/// What one ownership-checked delete or update observed and did.
#[derive(Clone, Copy, Debug, PartialEq, Eq)]
pub struct MutationOutcome {
    is_exist: bool,
    is_authorized: bool,
    affected: i64,
}

pub ghost struct OutcomeView {
    /// A row with the given id existed when the statement looked.
    pub exists: bool,
    /// That row's writer is the caller.
    pub authorized: bool,
    /// How many rows the statement changed.
    pub affected: int,
}

impl OutcomeView {
    /// A statement changes one row or none, and changes one only where the
    /// row exists and the caller owns it.
    pub open spec fn is_consistent(self) -> bool {
        &&& self.affected == 0 || self.affected == 1
        &&& self.affected == 1 ==> self.exists && self.authorized
    }

    /// The outcome as the caller is told it. That the row is missing comes
    /// before that the caller does not own it.
    pub open spec fn verdict(self) -> Result<(), ErrorView> {
        if !self.exists {
            Err(ErrorView { kind: ErrorKind::NotFound, text: resource_name() })
        } else if !self.authorized {
            Err(ErrorView { kind: ErrorKind::Unauthorized, text: resource_name() })
        } else {
            Ok(())
        }
    }
}

/// A result with its failure seen as contracts see it.
pub open spec fn seen<T>(result: Result<T, CustomError>) -> Result<T, ErrorView> {
    match result {
        Ok(value) => Ok(value),
        Err(error) => Err(error@),
    }
}

impl View for MutationOutcome {
    type V = OutcomeView;

    closed spec fn view(&self) -> OutcomeView {
        OutcomeView {
            exists: self.is_exist,
            authorized: self.is_authorized,
            affected: self.affected as int,
        }
    }
}

impl MutationOutcome {
    /// The invariant of the outcome, which holds of every outcome there is.
    #[verifier::type_invariant]
    pub open spec fn wf(&self) -> bool {
        self@.is_consistent()
    }

    /// The outcome that a row of the store reports. A row that no delete
    /// or update can have answered with is an answer that cannot be read.
    pub fn from_row(exists: bool, authorized: bool, affected: i64) -> (reply: Result<
        Self,
        StoreFailure,
    >)
        ensures
            match reply {
                Ok(outcome) => {
                    &&& (OutcomeView { exists, authorized, affected: affected as int })
                        .is_consistent()
                    &&& outcome@ == (OutcomeView { exists, authorized, affected: affected as int })
                },
                Err(failure) => {
                    &&& !(OutcomeView { exists, authorized, affected: affected as int })
                        .is_consistent()
                    &&& failure.kind == StoreFailureKind::Unreadable
                    &&& failure.detail@ == IMPOSSIBLE_OUTCOME@
                },
            },
    {
        match Self::new(exists, authorized, affected) {
            Some(outcome) => Ok(outcome),
            None => Err(
                StoreFailure {
                    kind: StoreFailureKind::Unreadable,
                    detail: IMPOSSIBLE_OUTCOME.to_owned(),
                },
            ),
        }
    }

    /// The outcome that a row of the store reports, if the row can be one.
    pub fn new(exists: bool, authorized: bool, affected: i64) -> (outcome: Option<Self>)
        ensures
            outcome is Some <==> (OutcomeView { exists, authorized, affected: affected as int })
                .is_consistent(),
            outcome is Some ==> outcome->0.wf() && outcome->0@ == (OutcomeView {
                exists,
                authorized,
                affected: affected as int,
            }),
    {
        if (affected == 0 || affected == 1) && (affected == 0 || (exists && authorized)) {
            Some(Self { is_exist: exists, is_authorized: authorized, affected })
        } else {
            None
        }
    }

    pub fn is_exist(&self) -> (found: bool)
        ensures
            found == self@.exists,
    {
        self.is_exist
    }

    pub fn is_authorized(&self) -> (authorized: bool)
        ensures
            authorized == self@.authorized,
    {
        self.is_authorized
    }

    pub fn affected(&self) -> (affected: i64)
        ensures
            affected == self@.affected,
    {
        self.affected
    }

    /// What the caller is told.
    pub fn verdict(&self) -> (result: Result<(), CustomError>)
        ensures
            seen(result) == self@.verdict(),
    {
        if !self.is_exist {
            Err(CustomError::NotFound("Article".to_owned()))
        } else if !self.is_authorized {
            Err(CustomError::Unauthorized("Article".to_owned()))
        } else {
            Ok(())
        }
    }
}

/// Reads the answer to a statement that inserts or lists: what the store
/// returned, or its failure classified as for every statement.
pub fn conclude<T>(reply: Result<T, StoreFailure>) -> (result: Result<T, CustomError>)
    ensures
        seen(result) == match reply {
            Ok(value) => Ok(value),
            Err(failure) => Err(fault_of(failure.kind, failure.detail@)),
        },
{
    match reply {
        Ok(value) => Ok(value),
        Err(failure) => Err(CustomError::from_store(failure)),
    }
}

/// Reads the answer to a statement that looks one article up: a missing row
/// is `NotFound`.
pub fn conclude_lookup<T>(reply: Result<T, StoreFailure>) -> (result: Result<T, CustomError>)
    ensures
        seen(result) == match reply {
            Ok(value) => Ok(value),
            Err(failure) => Err(lookup_failure_of(failure.kind, failure.detail@, resource_name())),
        },
{
    match reply {
        Ok(value) => Ok(value),
        Err(failure) => Err(CustomError::from_lookup(failure, "Article")),
    }
}

/// Reads the answer to a delete or an update: the verdict of the outcome,
/// or the failure classified as for every statement. A failure never reads
/// as a verdict on the request, so it is neither `NotFound` nor
/// `Unauthorized`.
pub fn conclude_mutation(reply: Result<MutationOutcome, StoreFailure>) -> (result: Result<
    (),
    CustomError,
>)
    ensures
        seen(result) == match reply {
            Ok(outcome) => outcome@.verdict(),
            Err(failure) => Err(fault_of(failure.kind, failure.detail@)),
        },
{
    match reply {
        Ok(outcome) => outcome.verdict(),
        Err(failure) => Err(CustomError::from_store(failure)),
    }
}

/// A list read, with the articles and the failure seen as contracts see
/// them.
pub open spec fn seen_list(result: Result<Vec<Article>, CustomError>) -> Result<
    Seq<ArticleView>,
    ErrorView,
> {
    match result {
        Ok(articles) => Ok(views(articles@)),
        Err(error) => Err(error@),
    }
}

/// What the use cases need of a store of articles. `delete_article` and
/// `update_article` observe and act in one step: the caller learns whether
/// the article was missing or not theirs, and the table changes only for
/// its writer.
///
/// A repository that is exact holds the table `table` and answers every
/// request as that table does. Of any other repository the use cases know
/// only what each method promises of every answer.
pub trait ArticleRepository {
    /// Whether this repository answers exactly as the table `table` does.
    open spec fn is_exact(&self) -> bool {
        false
    }

    /// The table that an exact repository holds.
    open spec fn table(&self) -> TableView {
        TableView { rows: Seq::empty(), writers: Set::empty(), next_id: 1 }
    }

    fn save_article(&mut self, article: Article) -> (result: Result<i64, CustomError>)
        ensures
            old(self).is_exact() ==> {
                &&& final(self).is_exact()
                &&& old(self).table().wf()
                &&& final(self).table().wf()
                &&& seen(result) == save_result(old(self).table(), article@)
                &&& final(self).table() == save_effect(old(self).table(), article@)
            },
    ;

    fn get_list(&self) -> (result: Result<Vec<Article>, CustomError>)
        ensures
            self.is_exact() ==> self.table().wf() && seen_list(result) == Ok::<
                Seq<ArticleView>,
                ErrorView,
            >(self.table().rows),
    ;

    /// The article that is returned has the id that was asked for.
    fn get_detail(&self, article_id: i64) -> (result: Result<Article, CustomError>)
        ensures
            result matches Ok(article) ==> article@.id == Some(article_id),
            self.is_exact() ==> self.table().wf() && seen_article(result) == detail_result(
                self.table(),
                article_id,
            ),
    ;

    fn delete_article(&mut self, user_id: i64, article_id: i64) -> (result: Result<
        (),
        CustomError,
    >)
        ensures
            old(self).is_exact() ==> {
                &&& final(self).is_exact()
                &&& old(self).table().wf()
                &&& final(self).table().wf()
                &&& seen(result) == delete_result(old(self).table(), user_id, article_id)
                &&& final(self).table() == old(self).table().delete(user_id, article_id)
            },
    ;

    fn update_article(
        &mut self,
        user_id: i64,
        article_id: i64,
        title: Option<String>,
        content: Option<String>,
    ) -> (result: Result<(), CustomError>)
        ensures
            old(self).is_exact() ==> {
                &&& final(self).is_exact()
                &&& old(self).table().wf()
                &&& final(self).table().wf()
                &&& seen(result) == update_result(
                    old(self).table(),
                    user_id,
                    article_id,
                    text_of(title),
                    text_of(content),
                )
                &&& final(self).table() == update_effect(
                    old(self).table(),
                    user_id,
                    article_id,
                    text_of(title),
                    text_of(content),
                )
            },
    ;
}

/// The table in memory is an exact repository: it is its own table.
impl ArticleRepository for ArticleTable {
    open spec fn is_exact(&self) -> bool {
        true
    }

    open spec fn table(&self) -> TableView {
        self@
    }

    fn save_article(&mut self, article: Article) -> (result: Result<i64, CustomError>) {
        save::save_article(self, article)
    }

    fn get_list(&self) -> (result: Result<Vec<Article>, CustomError>) {
        get_list::get_list(self)
    }

    fn get_detail(&self, article_id: i64) -> (result: Result<Article, CustomError>) {
        get_detail::get_detail(self, article_id)
    }

    fn delete_article(&mut self, user_id: i64, article_id: i64) -> (result: Result<
        (),
        CustomError,
    >) {
        delete::delete_article(self, user_id, article_id)
    }

    fn update_article(
        &mut self,
        user_id: i64,
        article_id: i64,
        title: Option<String>,
        content: Option<String>,
    ) -> (result: Result<(), CustomError>) {
        update::update_article(self, user_id, article_id, title, content)
    }
}

} // verus!
