use vstd::prelude::*;

use super::dto::response::read_article::{ReadArticleResponse, ReadArticleView};

verus! {

/// One article. Its id is unassigned until the store has persisted it; its
/// writer is fixed when it is made and no method changes it.
#[derive(Debug, PartialEq)]
pub struct Article {
    id: Option<i64>,
    title: String,
    content: String,
    writer_id: i64,
}

pub ghost struct ArticleView {
    pub id: Option<i64>,
    pub title: Seq<char>,
    pub content: Seq<char>,
    pub writer_id: i64,
}

impl ArticleView {
    /// This article as a client reads it. Meaningful once the id is assigned.
    pub open spec fn response(self) -> ReadArticleView
        recommends
            self.id is Some,
    {
        ReadArticleView {
            id: self.id->0,
            title: self.title,
            content: self.content,
            writer_id: self.writer_id,
        }
    }
}

impl View for Article {
    type V = ArticleView;

    closed spec fn view(&self) -> ArticleView {
        ArticleView {
            id: self.id,
            title: self.title@,
            content: self.content@,
            writer_id: self.writer_id,
        }
    }
}

impl Clone for Article {
    fn clone(&self) -> (copy: Self)
        ensures
            copy@ == self@,
    {
        Article {
            id: self.id,
            title: self.title.clone(),
            content: self.content.clone(),
            writer_id: self.writer_id,
        }
    }
}

impl Article {
    /// An article that no store has seen yet.
    pub fn new(title: String, content: String, writer_id: i64) -> (article: Self)
        ensures
            article@ == (ArticleView { id: None, title: title@, content: content@, writer_id }),
    {
        Self { id: None, title, content, writer_id }
    }

    /// The same article under the id `id`.
    pub fn id(self, id: i64) -> (article: Self)
        ensures
            article@ == (ArticleView { id: Some(id), ..self@ }),
    {
        let mut article = self;
        article.id = Some(id);
        article
    }

    pub fn get_id(&self) -> (id: Option<i64>)
        ensures
            id == self@.id,
    {
        self.id
    }

    pub fn get_title(&self) -> (title: &str)
        ensures
            title@ == self@.title,
    {
        self.title.as_str()
    }

    pub fn get_content(&self) -> (content: &str)
        ensures
            content@ == self@.content,
    {
        self.content.as_str()
    }

    pub fn get_writer(&self) -> (writer_id: i64)
        ensures
            writer_id == self@.writer_id,
    {
        self.writer_id
    }

    pub fn to_response(&self) -> (response: ReadArticleResponse)
        requires
            self@.id is Some,
        ensures
            response@ == self@.response(),
    {
        ReadArticleResponse::new(
            self.id.unwrap(),
            self.title.clone(),
            self.content.clone(),
            self.writer_id,
        )
    }
}

} // verus!
