use vstd::prelude::*;

use crate::domain::article::entity::{Article, ArticleView};

verus! {

/// What a client sends to create an article. The writer is never part of it.
#[derive(Debug, PartialEq)]
pub struct ArticleCreateRequest {
    title: String,
    content: String,
}

pub ghost struct ArticleCreateView {
    pub title: Seq<char>,
    pub content: Seq<char>,
}

impl ArticleCreateView {
    /// Both fields are there: an article has a title and a content.
    pub open spec fn is_valid(self) -> bool {
        self.title.len() > 0 && self.content.len() > 0
    }

    /// The article that `user_id` creates with this request.
    pub open spec fn entity(self, user_id: i64) -> ArticleView {
        ArticleView { id: None, title: self.title, content: self.content, writer_id: user_id }
    }
}

impl View for ArticleCreateRequest {
    type V = ArticleCreateView;

    closed spec fn view(&self) -> ArticleCreateView {
        ArticleCreateView { title: self.title@, content: self.content@ }
    }
}

impl Clone for ArticleCreateRequest {
    fn clone(&self) -> (copy: Self)
        ensures
            copy@ == self@,
    {
        ArticleCreateRequest { title: self.title.clone(), content: self.content.clone() }
    }
}

impl ArticleCreateRequest {
    pub fn new(title: String, content: String) -> (request: Self)
        ensures
            request@ == (ArticleCreateView { title: title@, content: content@ }),
    {
        Self { title, content }
    }

    pub fn get_title(&self) -> (title: &str)
        ensures
            title@ == self@.title,
    {
        self.title.as_str()
    }

    pub fn get_content(&self) -> (content: &str)
        ensures
            content@ == self@.content,
    {
        self.content.as_str()
    }

    /// Whether neither the title nor the content is empty.
    pub fn check_fields(&self) -> (valid: bool)
        ensures
            valid == self@.is_valid(),
    {
        !self.title.as_str().is_empty() && !self.content.as_str().is_empty()
    }

    /// The article to persist. Its writer is the authenticated caller.
    pub fn to_entity(&self, user_id: i64) -> (article: Article)
        ensures
            article@ == self@.entity(user_id),
    {
        Article::new(self.title.clone(), self.content.clone(), user_id)
    }
}

} // verus!
