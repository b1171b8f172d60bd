//! Questions as the service stores and lists them.
use vstd::prelude::*;

verus! {

#[derive(Debug, Clone, Copy, PartialEq, Eq, Structural, Hash)]
pub struct QuestionId(pub i32);

#[derive(Debug, Clone, PartialEq, Eq)]
pub struct Question {
    pub id: QuestionId,
    pub title: String,
    pub content: String,
    pub tags: Option<Vec<String>>,
}

impl Question {
    pub fn new(id: QuestionId, title: String, content: String, tags: Option<Vec<String>>) -> (r:
        Self)
        ensures
            r.id == id,
            r.title == title,
            r.content == content,
            r.tags == tags,
    {
        Question { id, title, content, tags }
    }
}

} // verus!
