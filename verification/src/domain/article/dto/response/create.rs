use vstd::prelude::*;

verus! {

/// What a client is told of a created article: the id that the store gave it.
#[derive(Debug, PartialEq)]
pub struct ArticleCreateResponse {
    id: i64,
}

impl View for ArticleCreateResponse {
    type V = i64;

    closed spec fn view(&self) -> i64 {
        self.id
    }
}

impl ArticleCreateResponse {
    pub fn new(id: i64) -> (response: Self)
        ensures
            response@ == id,
    {
        Self { id }
    }

    pub fn get_id(&self) -> (id: i64)
        ensures
            id == self@,
    {
        self.id
    }
}

} // verus!
