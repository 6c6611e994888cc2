use vstd::prelude::*;

verus! {

/// An article as a client reads it.
#[derive(Debug, PartialEq)]
pub struct ReadArticleResponse {
    id: i64,
    title: String,
    content: String,
    writer_id: i64,
}

pub ghost struct ReadArticleView {
    pub id: i64,
    pub title: Seq<char>,
    pub content: Seq<char>,
    pub writer_id: i64,
}

impl View for ReadArticleResponse {
    type V = ReadArticleView;

    closed spec fn view(&self) -> ReadArticleView {
        ReadArticleView {
            id: self.id,
            title: self.title@,
            content: self.content@,
            writer_id: self.writer_id,
        }
    }
}

impl ReadArticleResponse {
    pub fn new(id: i64, title: String, content: String, writer_id: i64) -> (response: Self)
        ensures
            response@ == (ReadArticleView { id, title: title@, content: content@, writer_id }),
    {
        Self { id, title, content, writer_id }
    }

    pub fn get_id(&self) -> (id: i64)
        ensures
            id == self@.id,
    {
        self.id
    }

    pub fn get_title(&self) -> (title: &str)
        ensures
            title@ == self@.title,
    {
        self.title.as_str()
    }

    pub fn get_content(&self) -> (content: &str)
        ensures
            content@ == self@.content,
    {
        self.content.as_str()
    }

    pub fn get_writer(&self) -> (writer_id: i64)
        ensures
            writer_id == self@.writer_id,
    {
        self.writer_id
    }
}

} // verus!
