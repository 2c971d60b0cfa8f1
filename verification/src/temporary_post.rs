//! Posts whose contents go away after a while.

use vstd::prelude::*;

use crate::post::Post;
use crate::utils::StringArray;

verus! {

/// The contents of a post that go away.
#[derive(Debug, Clone, Default, PartialEq, Eq)]
pub struct TemporaryPost {
    pub id: String,
    pub type_: String,
    pub expire_at: i64,
    pub message: String,
    pub file_ids: Option<StringArray>,
}

/// What can be wrong with a temporary post.
#[derive(Debug, Clone, Copy, PartialEq, Eq)]
pub enum TemporaryPostError {
    MissingId,
}

impl TemporaryPostError {
    /// The error in words.
    pub fn to_text(&self) -> (r: String)
        ensures
            r@ == "id is required"@,
    {
        "id is required".to_owned()
    }
}

impl TemporaryPost {
    /// Whether the temporary post has an id.
    pub fn is_valid(&self) -> (r: Result<(), TemporaryPostError>)
        ensures
            r is Ok <==> self.id@.len() > 0,
    {
        if self.id.as_str().is_empty() {
            return Err(TemporaryPostError::MissingId);
        }
        Ok(())
    }

    /// Whether this has the contents of a post.
    pub open spec fn is_of(&self, post: Post, expire_at: int) -> bool {
        &&& self.id == post.id
        &&& self.type_ == post.post_type
        &&& self.expire_at == expire_at
        &&& self.message == post.message
        &&& self.file_ids == post.file_ids
    }
}

/// Moves the contents of a post into a temporary post. The post itself stays, with no message and
/// no files.
pub fn create_temporary_post(post: &mut Post, expire_at: i64) -> (t: TemporaryPost)
    ensures
        t.is_of(*old(post), expire_at as int),
        *final(post) == (Post {
            message: final(post).message,
            file_ids: final(post).file_ids,
            ..*old(post)
        }),
        final(post).message@.len() == 0,
        final(post).file_ids is Some,
        final(post).file_ids->0@.len() == 0,
{
    let message: String = post.message.clone();
    let file_ids: Option<StringArray> = post.file_ids.take();
    post.message = String::new();
    post.file_ids = Some(Vec::new());
    TemporaryPost {
        id: post.id.clone(),
        type_: post.post_type.clone(),
        expire_at,
        message,
        file_ids,
    }
}

/// A temporary post has the contents of its post: the message, the files and the type.
pub proof fn temporary_posts_have_the_contents(t: TemporaryPost, post: Post, expire_at: int)
    requires
        t.is_of(post, expire_at),
    ensures
        t.id == post.id && t.message == post.message && t.file_ids == post.file_ids && t.type_
            == post.post_type,
        t.expire_at == expire_at,
{
}

} // verus!
