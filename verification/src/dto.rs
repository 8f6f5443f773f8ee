//! Request and response data types: the registration and post-creation
//! request bodies with their validation rules, pagination parameters, the
//! user response shape, and the uniform API response envelope.

use vstd::prelude::*;

use crate::error::AppError;
use crate::users::{rfc3339_of, User};

verus! {

/// A character a username may consist of: ASCII letters, digits and the
/// underscore.
pub open spec fn is_username_char(c: char) -> bool {
    ('a' <= c && c <= 'z') || ('A' <= c && c <= 'Z') || ('0' <= c && c <= '9') || c == '_'
}

/// Whether every character of the username is acceptable.
pub fn validate_username(username: &str) -> (b: bool)
    ensures
        b == (forall|i: int| 0 <= i < username@.len() ==> is_username_char(username@[i])),
{
    let n = username.unicode_len();
    for i in 0..n
        invariant
            n == username@.len(),
            forall|j: int| 0 <= j < i ==> is_username_char(username@[j]),
    {
        let c = username.get_char(i);
        if !(('a' <= c && c <= 'z') || ('A' <= c && c <= 'Z') || ('0' <= c && c <= '9') || c
            == '_') {
            return false;
        }
    }
    true
}

/// The request body for registering a profile.
pub struct RegisterRequest {
    pub username: String,
    pub display_name: String,
    pub bio: Option<String>,
}

/// The first validation failure of a registration request, if any: the
/// username must be 3 to 30 characters of letters, digits and underscores,
/// the display name 1 to 100 characters, the bio at most 500.
pub open spec fn register_request_error(
    username: Seq<char>,
    display_name: Seq<char>,
    bio: Option<Seq<char>>,
) -> Option<Seq<char>> {
    if !(3 <= username.len() <= 30) {
        Some("Username must be between 3 and 30 characters"@)
    } else if !(forall|i: int| 0 <= i < username.len() ==> is_username_char(username[i])) {
        Some("Username may only contain letters, digits and underscores"@)
    } else if !(1 <= display_name.len() <= 100) {
        Some("Display name must be between 1 and 100 characters"@)
    } else if bio matches Some(b) && b.len() > 500 {
        Some("Bio may not exceed 500 characters"@)
    } else {
        None
    }
}

impl RegisterRequest {
    /// The request's bio as a mathematical value.
    pub open spec fn spec_bio(&self) -> Option<Seq<char>> {
        match self.bio {
            Some(b) => Some(b@),
            None => None,
        }
    }

    /// Validate the request body; the error names the first rule violated.
    pub fn validate(&self) -> (r: Result<(), AppError>)
        ensures
            (match r {
                Ok(_) => register_request_error(
                    self.username@,
                    self.display_name@,
                    self.spec_bio(),
                ) is None,
                Err(e) => e matches AppError::Validation(m) && register_request_error(
                    self.username@,
                    self.display_name@,
                    self.spec_bio(),
                ) == Some(m@),
            }),
    {
        let ulen = self.username.as_str().unicode_len();
        if !(3 <= ulen && ulen <= 30) {
            return Err(
                AppError::Validation(
                    String::from_str("Username must be between 3 and 30 characters"),
                ),
            );
        }
        if !validate_username(self.username.as_str()) {
            return Err(
                AppError::Validation(
                    String::from_str("Username may only contain letters, digits and underscores"),
                ),
            );
        }
        let dlen = self.display_name.as_str().unicode_len();
        if !(1 <= dlen && dlen <= 100) {
            return Err(
                AppError::Validation(
                    String::from_str("Display name must be between 1 and 100 characters"),
                ),
            );
        }
        if let Some(b) = &self.bio {
            if b.as_str().unicode_len() > 500 {
                return Err(
                    AppError::Validation(String::from_str("Bio may not exceed 500 characters")),
                );
            }
        }
        Ok(())
    }
}

/// The request body for creating a post or a reply.
pub struct CreatePostRequest {
    pub content: String,
}

/// The validation failure of a post-creation request, if any: the content
/// must be 1 to 280 characters.
pub open spec fn create_post_request_error(content: Seq<char>) -> Option<Seq<char>> {
    if !(1 <= content.len() <= 280) {
        Some("Content must be between 1 and 280 characters"@)
    } else {
        None
    }
}

impl CreatePostRequest {
    /// Validate the request body.
    pub fn validate(&self) -> (r: Result<(), AppError>)
        ensures
            (match r {
                Ok(_) => create_post_request_error(self.content@) is None,
                Err(e) => e matches AppError::Validation(m) && create_post_request_error(
                    self.content@,
                ) == Some(m@),
            }),
    {
        let clen = self.content.as_str().unicode_len();
        if !(1 <= clen && clen <= 280) {
            return Err(
                AppError::Validation(
                    String::from_str("Content must be between 1 and 280 characters"),
                ),
            );
        }
        Ok(())
    }
}

/// Pagination parameters of list endpoints.
pub struct PaginationQuery {
    pub limit: i64,
    pub offset: i64,
}

/// The page size used when a request names none.
pub fn default_limit() -> (l: i64)
    ensures
        l == 20,
{
    20
}

impl PaginationQuery {
    /// The requested page size, forced into the served range of 1 to 50.
    pub fn clamped_limit(&self) -> (l: i64)
        ensures
            l == if self.limit < 1 {
                1int
            } else if self.limit > 50 {
                50int
            } else {
                self.limit as int
            },
    {
        if self.limit < 1 {
            1
        } else if self.limit > 50 {
            50
        } else {
            self.limit
        }
    }

    /// The requested offset, forced to be non-negative.
    pub fn clamped_offset(&self) -> (o: i64)
        ensures
            o == if self.offset < 0 {
                0int
            } else {
                self.offset as int
            },
    {
        if self.offset < 0 {
            0
        } else {
            self.offset
        }
    }
}

/// The user profile as presented to API callers; the creation time is
/// rendered as an RFC 3339 string.
pub struct UserResponse {
    pub uid: String,
    pub email: String,
    pub username: String,
    pub display_name: String,
    pub bio: Option<String>,
    pub avatar_url: Option<String>,
    pub followers_count: u64,
    pub following_count: u64,
    pub posts_count: u64,
    pub is_verified: bool,
    pub is_private: bool,
    pub created_at: String,
}

impl UserResponse {
    /// Present a user, field for field, with the creation time rendered.
    pub fn from_user(user: User) -> (r: UserResponse)
        ensures
            r.uid@ == user@.uid,
            r.email@ == user@.email,
            r.username@ == user@.username,
            r.display_name@ == user@.display_name,
            (match r.bio {
                Some(b) => user@.bio == Some(b@),
                None => user@.bio is None,
            }),
            (match r.avatar_url {
                Some(a) => user@.avatar_url == Some(a@),
                None => user@.avatar_url is None,
            }),
            r.followers_count == user.followers_count,
            r.following_count == user.following_count,
            r.posts_count == user.posts_count,
            r.is_verified == user.is_verified,
            r.is_private == user.is_private,
            r.created_at@ == rfc3339_of(user@.created_at),
    {
        let created_at = crate::users::format_rfc3339(user.created_at);
        UserResponse {
            uid: user.uid,
            email: user.email,
            username: user.username,
            display_name: user.display_name,
            bio: user.bio,
            avatar_url: user.avatar_url,
            followers_count: user.followers_count,
            following_count: user.following_count,
            posts_count: user.posts_count,
            is_verified: user.is_verified,
            is_private: user.is_private,
            created_at,
        }
    }
}

/// The uniform envelope of successful API responses.
pub struct ApiResponse<T> {
    pub success: bool,
    pub data: Option<T>,
    pub message: Option<String>,
}

impl<T> ApiResponse<T> {
    /// A successful response carrying data and no message.
    pub fn success(data: T) -> (r: Self)
        ensures
            r.success,
            r.data matches Some(d) && d == data,
            r.message is None,
    {
        ApiResponse { success: true, data: Some(data), message: None }
    }

    /// A successful response carrying data and a message.
    pub fn with_message(data: T, message: &str) -> (r: Self)
        ensures
            r.success,
            r.data matches Some(d) && d == data,
            r.message matches Some(m) && m@ == message@,
    {
        ApiResponse { success: true, data: Some(data), message: Some(message.to_owned()) }
    }
}

} // verus!
