use vstd::prelude::*;

verus! {

/// What a client sends to change an article: a new title, a new content, or
/// both. A field that is left out stays as it is.
#[derive(Debug, PartialEq)]
pub struct EditArticleRequest {
    title: Option<String>,
    content: Option<String>,
}

pub ghost struct EditArticleView {
    pub title: Option<Seq<char>>,
    pub content: Option<Seq<char>>,
}

/// A field counts as sent when it is there and not empty.
pub open spec fn is_sent(field: Option<Seq<char>>) -> bool {
    field is Some && field->0.len() > 0
}

/// The field as the repository gets it: an empty text is no text.
pub open spec fn sent(field: Option<Seq<char>>) -> Option<Seq<char>> {
    if is_sent(field) {
        field
    } else {
        None
    }
}

/// The view of an optional text.
pub open spec fn text_of(field: Option<String>) -> Option<Seq<char>> {
    match field {
        Some(text) => Some(text@),
        None => None,
    }
}

impl EditArticleView {
    /// At least one field is sent.
    pub open spec fn is_valid(self) -> bool {
        is_sent(self.title) || is_sent(self.content)
    }
}

impl View for EditArticleRequest {
    type V = EditArticleView;

    closed spec fn view(&self) -> EditArticleView {
        EditArticleView { title: text_of(self.title), content: text_of(self.content) }
    }
}

fn clone_field(field: &Option<String>) -> (copy: Option<String>)
    ensures
        text_of(copy) == text_of(*field),
{
    match field {
        Some(text) => Some(text.clone()),
        None => None,
    }
}

fn sent_field(field: &Option<String>) -> (copy: Option<String>)
    ensures
        text_of(copy) == sent(text_of(*field)),
{
    match field {
        Some(text) => if text.as_str().is_empty() {
            None
        } else {
            Some(text.clone())
        },
        None => None,
    }
}

impl Clone for EditArticleRequest {
    fn clone(&self) -> (copy: Self)
        ensures
            copy@ == self@,
    {
        EditArticleRequest { title: clone_field(&self.title), content: clone_field(&self.content) }
    }
}

impl EditArticleRequest {
    pub fn new(title: Option<String>, content: Option<String>) -> (request: Self)
        ensures
            request@ == (EditArticleView { title: text_of(title), content: text_of(content) }),
    {
        Self { title, content }
    }

    /// The title as it was sent.
    pub fn get_title(&self) -> (title: &Option<String>)
        ensures
            text_of(*title) == self@.title,
    {
        &self.title
    }

    /// The content as it was sent.
    pub fn get_content(&self) -> (content: &Option<String>)
        ensures
            text_of(*content) == self@.content,
    {
        &self.content
    }

    /// Whether the request changes anything: at least one field is there and
    /// not empty.
    pub fn check_fields(&self) -> (valid: bool)
        ensures
            valid == self@.is_valid(),
    {
        let v1 = match &self.title {
            Some(text) => !text.as_str().is_empty(),
            None => false,
        };
        let v2 = match &self.content {
            Some(text) => !text.as_str().is_empty(),
            None => false,
        };
        v1 || v2
    }

    /// The new title and the new content for the repository. An empty text
    /// is handed on as absent, so that it never overwrites a column.
    pub fn to_fields(&self) -> (fields: (Option<String>, Option<String>))
        ensures
            text_of(fields.0) == sent(self@.title),
            text_of(fields.1) == sent(self@.content),
    {
        (sent_field(&self.title), sent_field(&self.content))
    }
}

} // verus!
