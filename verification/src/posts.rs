//! Posts: the post entity with its constructors, the rules the post service
//! applies without touching storage — content validation for new posts and
//! replies, and the ownership rule for deleting a post — and the response
//! shapes posts are presented in. The storage calls stand with the caller.

use vstd::prelude::*;

use crate::error::AppError;
use crate::users::rfc3339_of;

verus! {

/// What `str::trim` returns: the string with leading and trailing
/// whitespace removed, a function of its characters alone.
pub uninterp spec fn trimmed_of(s: Seq<char>) -> Seq<char>;

/// Relies on str::trim: the result depends on the characters alone.
#[verifier::external_body]
pub(crate) fn trim_str<'a>(s: &'a str) -> (r: &'a str)
    ensures
        r@ == trimmed_of(s@),
{
    s.trim()
}

/// The validation failure of post content, if any, judged on the trimmed
/// content: it must not be empty, and must not exceed 280 bytes.
pub open spec fn post_content_error(content: Seq<char>) -> Option<Seq<char>> {
    if trimmed_of(content).len() == 0 {
        Some("Content cannot be empty"@)
    } else if vstd::utf8::encode_utf8(trimmed_of(content)).len() > 280 {
        Some("Content cannot exceed 280 characters"@)
    } else {
        None
    }
}

/// Validate the content of a new post or reply; on success the trimmed
/// content, as it is to be stored, is returned.
pub fn validate_post_content<'a>(content: &'a str) -> (r: Result<&'a str, AppError>)
    ensures
        (match r {
            Ok(t) => post_content_error(content@) is None && t@ == trimmed_of(content@),
            Err(e) => e matches AppError::Validation(m) && post_content_error(content@) == Some(
                m@,
            ),
        }),
{
    let trimmed = trim_str(content);
    if trimmed.is_empty() {
        Err(AppError::Validation(String::from_str("Content cannot be empty")))
    } else if trimmed.as_bytes().len() > 280 {
        Err(AppError::Validation(String::from_str("Content cannot exceed 280 characters")))
    } else {
        Ok(trimmed)
    }
}

/// Whether the requester may delete a post: only its author may.
pub fn can_delete(post_author: &String, requester: &String) -> (r: Result<(), AppError>)
    ensures
        (if post_author@ == requester@ {
            r is Ok
        } else {
            r matches Err(AppError::Forbidden(m)) && m@ == "You cannot delete this post"@
        }),
{
    if *post_author == *requester {
        Ok(())
    } else {
        Err(AppError::Forbidden(String::from_str("You cannot delete this post")))
    }
}

/// Relies on uuid::Uuid::new_v4 and its Display form: a fresh random v4
/// uuid, rendered hyphenated, is always 36 characters. Nothing more can be
/// said of a random value.
#[verifier::external_body]
fn new_uuid_string() -> (r: String)
    ensures
        r@.len() == 36,
{
    uuid::Uuid::new_v4().to_string()
}

/// A post. Timestamps are seconds since the epoch; ids are the uuids posts
/// are stored under, in hyphenated form.
#[derive(Debug)]
pub struct Post {
    pub id: String,
    pub author_uid: String,
    pub content: String,
    pub likes_count: i64,
    pub replies_count: i64,
    pub reposts_count: i64,
    pub created_at: i64,
    pub updated_at: i64,
    pub parent_id: Option<String>,
}

/// The mathematical value of a `Post`.
pub struct PostView {
    pub id: Seq<char>,
    pub author_uid: Seq<char>,
    pub content: Seq<char>,
    pub likes_count: int,
    pub replies_count: int,
    pub reposts_count: int,
    pub created_at: int,
    pub updated_at: int,
    pub parent_id: Option<Seq<char>>,
}

impl View for Post {
    type V = PostView;

    open spec fn view(&self) -> PostView {
        PostView {
            id: self.id@,
            author_uid: self.author_uid@,
            content: self.content@,
            likes_count: self.likes_count as int,
            replies_count: self.replies_count as int,
            reposts_count: self.reposts_count as int,
            created_at: self.created_at as int,
            updated_at: self.updated_at as int,
            parent_id: match self.parent_id {
                Some(p) => Some(p@),
                None => None,
            },
        }
    }
}

impl DeepView for Post {
    type V = PostView;

    open spec fn deep_view(&self) -> PostView {
        self.view()
    }
}

/// Whether a post is as `Post::new` creates it at `now`: a fresh id of
/// uuid length, the given author and content, all counters at zero, both
/// timestamps now, and the given parent.
pub open spec fn fresh_post(
    p: PostView,
    author_uid: Seq<char>,
    content: Seq<char>,
    now: int,
    parent_id: Option<Seq<char>>,
) -> bool {
    &&& p.id.len() == 36
    &&& p.author_uid == author_uid
    &&& p.content == content
    &&& p.likes_count == 0
    &&& p.replies_count == 0
    &&& p.reposts_count == 0
    &&& p.created_at == now
    &&& p.updated_at == now
    &&& p.parent_id == parent_id
}

impl Post {
    /// A fresh top-level post, created at `now` under a random id.
    pub fn new(author_uid: String, content: String, now: i64) -> (p: Post)
        ensures
            fresh_post(p@, author_uid@, content@, now as int, None),
    {
        Post {
            id: new_uuid_string(),
            author_uid,
            content,
            likes_count: 0,
            replies_count: 0,
            reposts_count: 0,
            created_at: now,
            updated_at: now,
            parent_id: None,
        }
    }

    /// A fresh reply to the post with the given id, created at `now`.
    pub fn reply(author_uid: String, content: String, parent_id: String, now: i64) -> (p: Post)
        ensures
            fresh_post(p@, author_uid@, content@, now as int, Some(parent_id@)),
    {
        let mut post = Post::new(author_uid, content, now);
        post.parent_id = Some(parent_id);
        post
    }
}

/// Assemble a new top-level post from a caller's content: the content is
/// validated and trimmed, and on success the post is created at `now`.
/// The storage call comes after, with the caller.
pub fn make_post(author_uid: String, content: &str, now: i64) -> (r: Result<Post, AppError>)
    ensures
        (match r {
            Ok(p) => post_content_error(content@) is None && fresh_post(
                p@,
                author_uid@,
                trimmed_of(content@),
                now as int,
                None,
            ),
            Err(e) => e matches AppError::Validation(m) && post_content_error(content@) == Some(
                m@,
            ),
        }),
{
    let trimmed = validate_post_content(content)?;
    Ok(Post::new(author_uid, trimmed.to_owned(), now))
}

/// Assemble a new reply from a caller's content, once the caller has seen
/// that the parent post exists: the content is validated and trimmed, and
/// on success the reply is created at `now`.
pub fn make_reply(author_uid: String, content: &str, parent_id: String, now: i64) -> (r: Result<
    Post,
    AppError,
>)
    ensures
        (match r {
            Ok(p) => post_content_error(content@) is None && fresh_post(
                p@,
                author_uid@,
                trimmed_of(content@),
                now as int,
                Some(parent_id@),
            ),
            Err(e) => e matches AppError::Validation(m) && post_content_error(content@) == Some(
                m@,
            ),
        }),
{
    let trimmed = validate_post_content(content)?;
    Ok(Post::reply(author_uid, trimmed.to_owned(), parent_id, now))
}

/// The post as presented to API callers; the creation time is rendered as
/// an RFC 3339 string.
pub struct PostResponse {
    pub id: String,
    pub author_uid: String,
    pub content: String,
    pub likes_count: i64,
    pub replies_count: i64,
    pub reposts_count: i64,
    pub parent_id: Option<String>,
    pub created_at: String,
}

/// The mathematical value of a `PostResponse`.
pub struct PostResponseView {
    pub id: Seq<char>,
    pub author_uid: Seq<char>,
    pub content: Seq<char>,
    pub likes_count: int,
    pub replies_count: int,
    pub reposts_count: int,
    pub parent_id: Option<Seq<char>>,
    pub created_at: Seq<char>,
}

impl View for PostResponse {
    type V = PostResponseView;

    open spec fn view(&self) -> PostResponseView {
        PostResponseView {
            id: self.id@,
            author_uid: self.author_uid@,
            content: self.content@,
            likes_count: self.likes_count as int,
            replies_count: self.replies_count as int,
            reposts_count: self.reposts_count as int,
            parent_id: match self.parent_id {
                Some(p) => Some(p@),
                None => None,
            },
            created_at: self.created_at@,
        }
    }
}

impl DeepView for PostResponse {
    type V = PostResponseView;

    open spec fn deep_view(&self) -> PostResponseView {
        self.view()
    }
}

/// How a post is presented: every field as stored, the creation time
/// rendered.
pub open spec fn presented_post(p: PostView) -> PostResponseView {
    PostResponseView {
        id: p.id,
        author_uid: p.author_uid,
        content: p.content,
        likes_count: p.likes_count,
        replies_count: p.replies_count,
        reposts_count: p.reposts_count,
        parent_id: p.parent_id,
        created_at: rfc3339_of(p.created_at),
    }
}

impl PostResponse {
    /// Present one post.
    pub fn from_post(post: Post) -> (r: PostResponse)
        ensures
            r@ == presented_post(post@),
    {
        let created_at = crate::users::format_rfc3339(post.created_at);
        PostResponse {
            id: post.id,
            author_uid: post.author_uid,
            content: post.content,
            likes_count: post.likes_count,
            replies_count: post.replies_count,
            reposts_count: post.reposts_count,
            parent_id: post.parent_id,
            created_at,
        }
    }
}

/// A page of posts, presented, together with its size.
pub struct PostsListResponse {
    pub posts: Vec<PostResponse>,
    pub count: usize,
}

impl PostsListResponse {
    /// Present a page of posts, in order.
    pub fn from_posts(posts: Vec<Post>) -> (r: PostsListResponse)
        ensures
            r.count == posts@.len(),
            r.posts.deep_view().len() == posts@.len(),
            forall|i: int|
                0 <= i < posts@.len() ==> r.posts.deep_view()[i] == presented_post(
                    posts.deep_view()[i],
                ),
    {
        let ghost all = posts.deep_view();
        let count = posts.len();
        let mut presented: Vec<PostResponse> = Vec::new();
        let mut remaining = posts;
        let mut taken: usize = 0;
        assert(presented.deep_view() =~= Seq::<PostResponseView>::empty());
        assert(remaining.deep_view() =~= all.skip(0));
        while remaining.len() > 0
            invariant
                count == all.len(),
                taken + remaining.len() == count,
                taken == presented.deep_view().len(),
                remaining.deep_view() =~= all.skip(taken as int),
                forall|i: int|
                    0 <= i < taken ==> presented.deep_view()[i] == presented_post(all[i]),
            decreases remaining.len(),
        {
            let ghost prev = presented.deep_view();
            let ghost old_rem = remaining.deep_view();
            let post = remaining.remove(0);
            assert(post.deep_view() == old_rem[0]);
            assert(old_rem[0] == all[taken as int]);
            presented.push(PostResponse::from_post(post));
            assert(presented.deep_view() =~= prev.push(presented_post(all[taken as int])));
            assert(remaining.deep_view() =~= old_rem.drop_first());
            assert(old_rem.drop_first() =~= all.skip(taken + 1));
            taken = taken + 1;
        }
        PostsListResponse { posts: presented, count }
    }
}

} // verus!
