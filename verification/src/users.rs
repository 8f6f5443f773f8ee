//! User accounts: the user entity, an in-memory user store serving lookups
//! by uid and by username (case-insensitively), and the account operations
//! built on it — registration and profile updates.
//!
//! The store keeps two tables, mirroring each other: the users themselves,
//! and a username index mapping each lowercased username to the owning uid.
//! Well-formedness (`wf`) asks that uids and index keys are unique; every
//! operation preserves it.

use vstd::prelude::*;
use vstd::pervasive::VecAdditionalExecFns;

use crate::error::AppError;

verus! {

/// What `str::to_lowercase` returns: the lowercase rendering of a string,
/// a function of its characters alone.
pub uninterp spec fn lower_of(s: Seq<char>) -> Seq<char>;

/// Relies on str::to_lowercase: the result depends on the characters alone.
#[verifier::external_body]
fn lowercase(s: &str) -> (r: String)
    ensures
        r@ == lower_of(s@),
{
    s.to_lowercase()
}

/// What rendering a timestamp (seconds since the epoch) as an RFC 3339
/// string yields; a function of the value alone. A timestamp out of the
/// representable range renders as the empty string.
pub uninterp spec fn rfc3339_of(secs: int) -> Seq<char>;

/// Relies on chrono::DateTime::from_timestamp and chrono::DateTime::to_rfc3339:
/// the rendering of a timestamp depends on its value alone.
#[verifier::external_body]
pub(crate) fn format_rfc3339(secs: i64) -> (r: String)
    ensures
        r@ == rfc3339_of(secs as int),
{
    match chrono::DateTime::from_timestamp(secs, 0) {
        Some(dt) => dt.to_rfc3339(),
        None => String::new(),
    }
}

/// A user profile. Timestamps are seconds since the epoch.
#[derive(Debug)]
pub struct User {
    pub uid: String,
    pub email: String,
    pub username: String,
    pub display_name: String,
    pub bio: Option<String>,
    pub avatar_url: Option<String>,
    pub followers_count: u64,
    pub following_count: u64,
    pub posts_count: u64,
    pub is_verified: bool,
    pub is_private: bool,
    pub created_at: i64,
    pub updated_at: i64,
}

/// The mathematical value of a `User`.
pub struct UserView {
    pub uid: Seq<char>,
    pub email: Seq<char>,
    pub username: Seq<char>,
    pub display_name: Seq<char>,
    pub bio: Option<Seq<char>>,
    pub avatar_url: Option<Seq<char>>,
    pub followers_count: int,
    pub following_count: int,
    pub posts_count: int,
    pub is_verified: bool,
    pub is_private: bool,
    pub created_at: int,
    pub updated_at: int,
}

impl View for User {
    type V = UserView;

    open spec fn view(&self) -> UserView {
        UserView {
            uid: self.uid@,
            email: self.email@,
            username: self.username@,
            display_name: self.display_name@,
            bio: match self.bio {
                Some(b) => Some(b@),
                None => None,
            },
            avatar_url: match self.avatar_url {
                Some(a) => Some(a@),
                None => None,
            },
            followers_count: self.followers_count as int,
            following_count: self.following_count as int,
            posts_count: self.posts_count as int,
            is_verified: self.is_verified,
            is_private: self.is_private,
            created_at: self.created_at as int,
            updated_at: self.updated_at as int,
        }
    }
}

impl DeepView for User {
    type V = UserView;

    open spec fn deep_view(&self) -> UserView {
        self.view()
    }
}

/// The profile a fresh registration starts from: no bio, no avatar, all
/// counters at zero, unverified, public, created and updated now.
pub open spec fn new_user_view(
    uid: Seq<char>,
    email: Seq<char>,
    username: Seq<char>,
    display_name: Seq<char>,
    now: int,
) -> UserView {
    UserView {
        uid,
        email,
        username,
        display_name,
        bio: None,
        avatar_url: None,
        followers_count: 0,
        following_count: 0,
        posts_count: 0,
        is_verified: false,
        is_private: false,
        created_at: now,
        updated_at: now,
    }
}

/// Copy an optional string, value for value.
fn clone_opt_string(o: &Option<String>) -> (r: Option<String>)
    ensures
        (match o {
            Some(s) => r matches Some(t) && t@ == s@,
            None => r is None,
        }),
{
    match o {
        Some(s) => Some(s.clone()),
        None => None,
    }
}

impl User {
    /// The profile a fresh registration starts from, created at `now`.
    pub fn new(
        uid: String,
        email: String,
        username: String,
        display_name: String,
        now: i64,
    ) -> (u: User)
        ensures
            u@ == new_user_view(uid@, email@, username@, display_name@, now as int),
    {
        User {
            uid,
            email,
            username,
            display_name,
            bio: None,
            avatar_url: None,
            followers_count: 0,
            following_count: 0,
            posts_count: 0,
            is_verified: false,
            is_private: false,
            created_at: now,
            updated_at: now,
        }
    }

    /// A copy of this user, field for field.
    pub fn duplicate(&self) -> (u: User)
        ensures
            u@ == self@,
    {
        User {
            uid: self.uid.clone(),
            email: self.email.clone(),
            username: self.username.clone(),
            display_name: self.display_name.clone(),
            bio: clone_opt_string(&self.bio),
            avatar_url: clone_opt_string(&self.avatar_url),
            followers_count: self.followers_count,
            following_count: self.following_count,
            posts_count: self.posts_count,
            is_verified: self.is_verified,
            is_private: self.is_private,
            created_at: self.created_at,
            updated_at: self.updated_at,
        }
    }
}

/// The first user in `users` whose uid is `uid`, if any.
pub open spec fn find_uid(users: Seq<UserView>, uid: Seq<char>) -> Option<UserView>
    decreases users.len(),
{
    if users.len() == 0 {
        None
    } else if users.first().uid == uid {
        Some(users.first())
    } else {
        find_uid(users.drop_first(), uid)
    }
}

/// The uid that the first index entry with key `key` maps to, if any.
pub open spec fn find_name(names: Seq<(Seq<char>, Seq<char>)>, key: Seq<char>) -> Option<Seq<char>>
    decreases names.len(),
{
    if names.len() == 0 {
        None
    } else if names.first().0 == key {
        Some(names.first().1)
    } else {
        find_name(names.drop_first(), key)
    }
}

/// An in-memory user store: the development-time stand-in for a persistent
/// user repository. Lookups by uid scan the user table; lookups by username
/// go through the lowercased username index.
pub struct InMemoryUserRepository {
    users: Vec<User>,
    usernames: Vec<(String, String)>,
}

impl InMemoryUserRepository {
    /// The stored users, in insertion order.
    pub closed spec fn spec_users(&self) -> Seq<UserView> {
        self.users.deep_view()
    }

    /// The username index: (lowercased username, uid) pairs, in insertion
    /// order.
    pub closed spec fn spec_names(&self) -> Seq<(Seq<char>, Seq<char>)> {
        self.usernames.deep_view()
    }

    /// Well-formedness: no uid is stored twice, and no username-index key
    /// is stored twice.
    pub open spec fn wf(&self) -> bool {
        &&& forall|i: int, j: int|
            0 <= i < j < self.spec_users().len() ==> self.spec_users()[i].uid
                != self.spec_users()[j].uid
        &&& forall|i: int, j: int|
            0 <= i < j < self.spec_names().len() ==> self.spec_names()[i].0
                != self.spec_names()[j].0
    }

    /// What a username lookup yields: the user owning the uid that the
    /// lowercased username maps to, if both are present.
    pub open spec fn spec_find_by_username(&self, username: Seq<char>) -> Option<UserView> {
        match find_name(self.spec_names(), lower_of(username)) {
            None => None,
            Some(uid) => find_uid(self.spec_users(), uid),
        }
    }

    /// An empty store.
    pub fn new() -> (s: Self)
        ensures
            s.spec_users() == Seq::<UserView>::empty(),
            s.spec_names() == Seq::<(Seq<char>, Seq<char>)>::empty(),
            s.wf(),
    {
        let s = InMemoryUserRepository { users: Vec::new(), usernames: Vec::new() };
        assert(s.spec_users() =~= Seq::<UserView>::empty());
        assert(s.spec_names() =~= Seq::<(Seq<char>, Seq<char>)>::empty());
        s
    }

    /// Find a user by uid.
    pub fn find_by_uid(&self, uid: &str) -> (r: Option<User>)
        ensures
            (match r {
                Some(u) => find_uid(self.spec_users(), uid@) == Some(u@),
                None => find_uid(self.spec_users(), uid@) is None,
            }),
    {
        let uid_owned: String = uid.to_owned();
        let n = self.users.len();
        assert(self.spec_users().skip(0) =~= self.spec_users());
        for i in 0..n
            invariant
                n == self.users.len(),
                uid_owned@ == uid@,
                find_uid(self.spec_users().skip(i as int), uid@) == find_uid(
                    self.spec_users(),
                    uid@,
                ),
        {
            let ghost rest = self.spec_users().skip(i as int);
            assert(rest.first() == self.spec_users()[i as int]);
            assert(rest.drop_first() =~= self.spec_users().skip(i + 1));
            if self.users[i].uid == uid_owned {
                return Some(self.users[i].duplicate());
            }
        }
        assert(self.spec_users().skip(n as int) =~= Seq::<UserView>::empty());
        None
    }

    /// Find the uid the username index maps this (already lowercased) key
    /// to.
    fn index_lookup(&self, key: &String) -> (r: Option<String>)
        ensures
            (match r {
                Some(uid) => find_name(self.spec_names(), key@) == Some(uid@),
                None => find_name(self.spec_names(), key@) is None,
            }),
    {
        let n = self.usernames.len();
        assert(self.spec_names().skip(0) =~= self.spec_names());
        for i in 0..n
            invariant
                n == self.usernames.len(),
                find_name(self.spec_names().skip(i as int), key@) == find_name(
                    self.spec_names(),
                    key@,
                ),
        {
            let ghost rest = self.spec_names().skip(i as int);
            assert(rest.first() == self.spec_names()[i as int]);
            assert(rest.drop_first() =~= self.spec_names().skip(i + 1));
            if self.usernames[i].0 == *key {
                return Some(self.usernames[i].1.clone());
            }
        }
        assert(self.spec_names().skip(n as int) =~= Seq::<(Seq<char>, Seq<char>)>::empty());
        None
    }

    /// Whether the username, compared case-insensitively, is already taken.
    pub fn is_username_taken(&self, username: &str) -> (b: bool)
        ensures
            b == (find_name(self.spec_names(), lower_of(username@)) is Some),
    {
        let key = lowercase(username);
        self.index_lookup(&key).is_some()
    }

    /// Find a user by username, compared case-insensitively.
    pub fn find_by_username(&self, username: &str) -> (r: Option<User>)
        ensures
            (match r {
                Some(u) => self.spec_find_by_username(username@) == Some(u@),
                None => self.spec_find_by_username(username@) is None,
            }),
    {
        let key = lowercase(username);
        match self.index_lookup(&key) {
            None => None,
            Some(uid) => self.find_by_uid(uid.as_str()),
        }
    }

    /// Insert a new user. Fails with a conflict if the uid is already
    /// present, or — failing that — if the lowercased username is already
    /// taken; otherwise the user and its username-index entry are appended.
    pub fn create(&mut self, user: User) -> (r: Result<User, AppError>)
        requires
            old(self).wf(),
        ensures
            final(self).wf(),
            (if find_uid(old(self).spec_users(), user@.uid) is Some {
                &&& r matches Err(AppError::Conflict(m)) && m@ == "A user with this id already exists"@
                &&& final(self).spec_users() == old(self).spec_users()
                &&& final(self).spec_names() == old(self).spec_names()
            } else if find_name(old(self).spec_names(), lower_of(user@.username)) is Some {
                &&& r matches Err(AppError::Conflict(m)) && m@ == "This username is already taken"@
                &&& final(self).spec_users() == old(self).spec_users()
                &&& final(self).spec_names() == old(self).spec_names()
            } else {
                &&& r matches Ok(u) && u@ == user@
                &&& final(self).spec_users() == old(self).spec_users().push(user@)
                &&& final(self).spec_names() == old(self).spec_names().push(
                    (lower_of(user@.username), user@.uid),
                )
            }),
    {
        if self.find_by_uid(user.uid.as_str()).is_some() {
            return Err(AppError::Conflict(String::from_str("A user with this id already exists")));
        }
        let key = lowercase(user.username.as_str());
        if self.index_lookup(&key).is_some() {
            return Err(AppError::Conflict(String::from_str("This username is already taken")));
        }
        let result = user.duplicate();
        let uid_copy = user.uid.clone();
        let ghost prev_users = self.spec_users();
        let ghost prev_names = self.spec_names();
        self.users.push(user);
        self.usernames.push((key, uid_copy));
        assert(self.spec_users() =~= prev_users.push(result@));
        assert(self.spec_names() =~= prev_names.push((lower_of(result@.username), result@.uid)));
        proof {
            lemma_find_uid_absent(prev_users, result@.uid);
            lemma_find_name_absent(prev_names, lower_of(result@.username));
        }
        Ok(result)
    }


    /// Replace the stored user that has this user's uid. The username index
    /// is not touched. Fails if no user with the uid is stored.
    pub fn update(&mut self, user: &User) -> (r: Result<User, AppError>)
        requires
            old(self).wf(),
        ensures
            final(self).wf(),
            (match find_uid(old(self).spec_users(), user@.uid) {
                None => {
                    &&& r matches Err(AppError::NotFound(m)) && m@ == "User not found"@
                    &&& final(self).spec_users() == old(self).spec_users()
                    &&& final(self).spec_names() == old(self).spec_names()
                },
                Some(_) => {
                    &&& r matches Ok(u) && u@ == user@
                    &&& final(self).spec_users().len() == old(self).spec_users().len()
                    &&& forall|j: int|
                        0 <= j < old(self).spec_users().len() ==> final(self).spec_users()[j]
                            == (if old(self).spec_users()[j].uid == user@.uid {
                            user@
                        } else {
                            old(self).spec_users()[j]
                        })
                    &&& final(self).spec_names() == old(self).spec_names()
                },
            }),
    {
        let ghost orig = self.spec_users();
        let n = self.users.len();
        assert(self.spec_users().skip(0) =~= self.spec_users());
        for i in 0..n
            invariant
                n == self.users.len(),
                self.spec_users() == orig,
                old(self).wf(),
                orig == old(self).spec_users(),
                self.spec_names() == old(self).spec_names(),
                find_uid(orig.skip(i as int), user@.uid) == find_uid(orig, user@.uid),
                forall|j: int| 0 <= j < i ==> orig[j].uid != user@.uid,
        {
            let ghost rest = orig.skip(i as int);
            assert(rest.first() == orig[i as int]);
            assert(rest.drop_first() =~= orig.skip(i + 1));
            if self.users[i].uid == user.uid {
                self.users.set(i, user.duplicate());
                assert(self.spec_users() =~= orig.update(i as int, user@));
                return Ok(user.duplicate());
            }
        }
        assert(orig.skip(n as int) =~= Seq::<UserView>::empty());
        Err(AppError::NotFound(String::from_str("User not found")))
    }

    /// Remove the user with this uid, and its username-index entry, if the
    /// uid is stored; removing an absent uid is not an error.
    pub fn delete(&mut self, uid: &str) -> (r: Result<(), AppError>)
        requires
            old(self).wf(),
        ensures
            final(self).wf(),
            r is Ok,
            (match find_uid(old(self).spec_users(), uid@) {
                None => final(self).spec_users() == old(self).spec_users()
                    && final(self).spec_names() == old(self).spec_names(),
                Some(u) => {
                    &&& exists|i: int|
                        0 <= i < old(self).spec_users().len() && old(self).spec_users()[i] == u
                            && final(self).spec_users() == #[trigger] old(self).spec_users().remove(
                            i,
                        )
                    &&& (match find_name(old(self).spec_names(), lower_of(u.username)) {
                        None => final(self).spec_names() == old(self).spec_names(),
                        Some(_) => exists|j: int|
                            0 <= j < old(self).spec_names().len() && old(self).spec_names()[j].0
                                == lower_of(u.username) && final(self).spec_names()
                                == #[trigger] old(self).spec_names().remove(j),
                    })
                },
            }),
    {
        let uid_owned: String = uid.to_owned();
        let i = match self.position_of_uid(&uid_owned) {
            None => {
                return Ok(());
            },
            Some(i) => i,
        };
        let user = self.users.remove(i);
        assert(self.spec_users() =~= old(self).spec_users().remove(i as int));
        proof {
            lemma_remove_preserves_uid_unique(old(self).spec_users(), i as int);
        }
        let key = lowercase(user.username.as_str());
        match self.position_of_name(&key) {
            None => Ok(()),
            Some(j) => {
                self.usernames.remove(j);
                assert(self.spec_names() =~= old(self).spec_names().remove(j as int));
                proof {
                    lemma_remove_preserves_name_unique(old(self).spec_names(), j as int);
                }
                Ok(())
            },
        }
    }

    /// The position of the first user with this uid, if any.
    fn position_of_uid(&self, uid: &String) -> (r: Option<usize>)
        ensures
            (match r {
                Some(i) => 0 <= i < self.spec_users().len() && self.spec_users()[i as int].uid
                    == uid@ && find_uid(self.spec_users(), uid@) == Some(
                    self.spec_users()[i as int],
                ),
                None => find_uid(self.spec_users(), uid@) is None,
            }),
    {
        let n = self.users.len();
        assert(self.spec_users().skip(0) =~= self.spec_users());
        for i in 0..n
            invariant
                n == self.users.len(),
                find_uid(self.spec_users().skip(i as int), uid@) == find_uid(
                    self.spec_users(),
                    uid@,
                ),
        {
            let ghost rest = self.spec_users().skip(i as int);
            assert(rest.first() == self.spec_users()[i as int]);
            assert(rest.drop_first() =~= self.spec_users().skip(i + 1));
            if self.users[i].uid == *uid {
                return Some(i);
            }
        }
        assert(self.spec_users().skip(n as int) =~= Seq::<UserView>::empty());
        None
    }

    /// The position of the first username-index entry with this key, if
    /// any.
    fn position_of_name(&self, key: &String) -> (r: Option<usize>)
        ensures
            (match r {
                Some(j) => 0 <= j < self.spec_names().len() && self.spec_names()[j as int].0
                    == key@ && find_name(self.spec_names(), key@) is Some,
                None => find_name(self.spec_names(), key@) is None,
            }),
    {
        let m = self.usernames.len();
        assert(self.spec_names().skip(0) =~= self.spec_names());
        for j in 0..m
            invariant
                m == self.usernames.len(),
                find_name(self.spec_names().skip(j as int), key@) == find_name(
                    self.spec_names(),
                    key@,
                ),
        {
            let ghost rest = self.spec_names().skip(j as int);
            assert(rest.first() == self.spec_names()[j as int]);
            assert(rest.drop_first() =~= self.spec_names().skip(j + 1));
            if self.usernames[j].0 == *key {
                return Some(j);
            }
        }
        assert(self.spec_names().skip(m as int) =~= Seq::<(Seq<char>, Seq<char>)>::empty());
        None
    }
}

/// A profile after an update: display name and bio overridden where given,
/// the update timestamp set to now, everything else kept.
pub open spec fn apply_profile(
    u: UserView,
    display_name: Option<Seq<char>>,
    bio: Option<Seq<char>>,
    now: int,
) -> UserView {
    UserView {
        display_name: match display_name {
            Some(d) => d,
            None => u.display_name,
        },
        bio: match bio {
            Some(b) => Some(b),
            None => u.bio,
        },
        updated_at: now,
        ..u
    }
}

/// The account operations, built on the user store: registration of a
/// verified caller's profile, lookups, and profile updates.
pub struct UserService {
    pub store: InMemoryUserRepository,
}

impl UserService {
    pub fn new(store: InMemoryUserRepository) -> (s: Self)
        ensures
            s.store == store,
    {
        UserService { store }
    }

    /// Register a profile for the verified caller. The username must be
    /// free (case-insensitively) and the caller must not already have a
    /// profile; the fresh profile carries the request's bio, if any.
    pub fn register(
        &mut self,
        uid: String,
        email: String,
        username: String,
        display_name: String,
        bio: Option<String>,
        now: i64,
    ) -> (r: Result<User, AppError>)
        requires
            old(self).store.wf(),
        ensures
            final(self).store.wf(),
            (if find_name(old(self).store.spec_names(), lower_of(username@)) is Some {
                &&& r matches Err(AppError::Conflict(m)) && m@ == "This username is already taken"@
                &&& final(self).store.spec_users() == old(self).store.spec_users()
                &&& final(self).store.spec_names() == old(self).store.spec_names()
            } else if find_uid(old(self).store.spec_users(), uid@) is Some {
                &&& r matches Err(AppError::Conflict(m)) && m@
                    == "A profile already exists for this user"@
                &&& final(self).store.spec_users() == old(self).store.spec_users()
                &&& final(self).store.spec_names() == old(self).store.spec_names()
            } else {
                &&& r matches Ok(u) && u@ == (UserView {
                    bio: match bio {
                        Some(b) => Some(b@),
                        None => None,
                    },
                    ..new_user_view(uid@, email@, username@, display_name@, now as int)
                })
                &&& final(self).store.spec_users() == old(self).store.spec_users().push(
                    (UserView {
                        bio: match bio {
                            Some(b) => Some(b@),
                            None => None,
                        },
                        ..new_user_view(uid@, email@, username@, display_name@, now as int)
                    }),
                )
                &&& final(self).store.spec_names() == old(self).store.spec_names().push(
                    (lower_of(username@), uid@),
                )
            }),
    {
        if self.store.is_username_taken(username.as_str()) {
            return Err(AppError::Conflict(String::from_str("This username is already taken")));
        }
        if self.store.find_by_uid(uid.as_str()).is_some() {
            return Err(
                AppError::Conflict(String::from_str("A profile already exists for this user")),
            );
        }
        let mut user = User::new(uid, email, username, display_name, now);
        user.bio = bio;
        self.store.create(user)
    }

    /// Find the caller's profile.
    pub fn get_by_uid(&self, uid: &str) -> (r: Result<Option<User>, AppError>)
        ensures
            (match r {
                Ok(Some(u)) => find_uid(self.store.spec_users(), uid@) == Some(u@),
                Ok(None) => find_uid(self.store.spec_users(), uid@) is None,
                Err(_) => false,
            }),
    {
        Ok(self.store.find_by_uid(uid))
    }

    /// Find a profile by username, compared case-insensitively.
    pub fn get_by_username(&self, username: &str) -> (r: Result<Option<User>, AppError>)
        ensures
            (match r {
                Ok(Some(u)) => self.store.spec_find_by_username(username@) == Some(u@),
                Ok(None) => self.store.spec_find_by_username(username@) is None,
                Err(_) => false,
            }),
    {
        Ok(self.store.find_by_username(username))
    }

    /// Update the caller's display name and bio, where given, and stamp the
    /// update time. Fails if the caller has no profile.
    pub fn update_profile(
        &mut self,
        uid: &str,
        display_name: Option<String>,
        bio: Option<String>,
        now: i64,
    ) -> (r: Result<User, AppError>)
        requires
            old(self).store.wf(),
        ensures
            final(self).store.wf(),
            final(self).store.spec_names() == old(self).store.spec_names(),
            (match find_uid(old(self).store.spec_users(), uid@) {
                None => {
                    &&& r matches Err(AppError::NotFound(m)) && m@ == "User not found"@
                    &&& final(self).store.spec_users() == old(self).store.spec_users()
                },
                Some(u) => {
                    &&& r matches Ok(v) && v@ == apply_profile(
                        u,
                        match display_name {
                            Some(d) => Some(d@),
                            None => None,
                        },
                        match bio {
                            Some(b) => Some(b@),
                            None => None,
                        },
                        now as int,
                    )
                    &&& final(self).store.spec_users().len() == old(self).store.spec_users().len()
                    &&& forall|j: int|
                        0 <= j < old(self).store.spec_users().len()
                            ==> final(self).store.spec_users()[j] == (if old(
                            self,
                        ).store.spec_users()[j].uid == uid@ {
                            apply_profile(
                                u,
                                match display_name {
                                    Some(d) => Some(d@),
                                    None => None,
                                },
                                match bio {
                                    Some(b) => Some(b@),
                                    None => None,
                                },
                                now as int,
                            )
                        } else {
                            old(self).store.spec_users()[j]
                        })
                },
            }),
    {
        let ghost dn_v: Option<Seq<char>> = match &display_name {
            Some(d) => Some(d@),
            None => None,
        };
        let ghost bio_v: Option<Seq<char>> = match &bio {
            Some(b) => Some(b@),
            None => None,
        };
        let mut user = match self.store.find_by_uid(uid) {
            None => {
                return Err(AppError::NotFound(String::from_str("User not found")));
            },
            Some(u) => u,
        };
        let ghost u0 = user@;
        proof {
            lemma_find_uid_found(old(self).store.spec_users(), uid@);
        }
        if let Some(name) = display_name {
            user.display_name = name;
        }
        if let Some(b) = bio {
            user.bio = Some(b);
        }
        user.updated_at = now;
        assert(user@ == apply_profile(u0, dn_v, bio_v, now as int));
        self.store.update(&user)
    }
}

impl Default for InMemoryUserRepository {
    /// An empty store.
    fn default() -> (s: Self)
        ensures
            s.spec_users() == Seq::<UserView>::empty(),
            s.spec_names() == Seq::<(Seq<char>, Seq<char>)>::empty(),
            s.wf(),
    {
        InMemoryUserRepository::new()
    }
}

/// A found user carries the uid it was found under.
proof fn lemma_find_uid_found(users: Seq<UserView>, uid: Seq<char>)
    requires
        find_uid(users, uid) is Some,
    ensures
        find_uid(users, uid)->0.uid == uid,
    decreases users.len(),
{
    if users.len() > 0 && users.first().uid != uid {
        lemma_find_uid_found(users.drop_first(), uid);
    }
}

/// An absent uid is absent at every index.
proof fn lemma_find_uid_absent(users: Seq<UserView>, uid: Seq<char>)
    requires
        find_uid(users, uid) is None,
    ensures
        forall|i: int| 0 <= i < users.len() ==> users[i].uid != uid,
    decreases users.len(),
{
    if users.len() > 0 {
        lemma_find_uid_absent(users.drop_first(), uid);
        assert forall|i: int| 0 <= i < users.len() implies users[i].uid != uid by {
            if i > 0 {
                assert(users.drop_first()[i - 1] == users[i]);
            }
        }
    }
}

/// An absent index key is absent at every index.
proof fn lemma_find_name_absent(names: Seq<(Seq<char>, Seq<char>)>, key: Seq<char>)
    requires
        find_name(names, key) is None,
    ensures
        forall|i: int| 0 <= i < names.len() ==> names[i].0 != key,
    decreases names.len(),
{
    if names.len() > 0 {
        lemma_find_name_absent(names.drop_first(), key);
        assert forall|i: int| 0 <= i < names.len() implies names[i].0 != key by {
            if i > 0 {
                assert(names.drop_first()[i - 1] == names[i]);
            }
        }
    }
}

/// Removing an element keeps the remaining uids pairwise distinct.
proof fn lemma_remove_preserves_uid_unique(users: Seq<UserView>, at: int)
    requires
        0 <= at < users.len(),
        forall|i: int, j: int| 0 <= i < j < users.len() ==> users[i].uid != users[j].uid,
    ensures
        forall|i: int, j: int|
            0 <= i < j < users.remove(at).len() ==> users.remove(at)[i].uid != users.remove(
                at,
            )[j].uid,
{
    assert forall|i: int, j: int|
        0 <= i < j < users.remove(at).len() implies users.remove(at)[i].uid != users.remove(
        at,
    )[j].uid by {
        let oi: int = if i < at {
            i
        } else {
            i + 1
        };
        let oj: int = if j < at {
            j
        } else {
            j + 1
        };
        assert(users.remove(at)[i] == users[oi]);
        assert(users.remove(at)[j] == users[oj]);
    }
}

/// Removing an entry keeps the remaining index keys pairwise distinct.
proof fn lemma_remove_preserves_name_unique(names: Seq<(Seq<char>, Seq<char>)>, at: int)
    requires
        0 <= at < names.len(),
        forall|i: int, j: int| 0 <= i < j < names.len() ==> names[i].0 != names[j].0,
    ensures
        forall|i: int, j: int|
            0 <= i < j < names.remove(at).len() ==> names.remove(at)[i].0 != names.remove(
                at,
            )[j].0,
{
    assert forall|i: int, j: int|
        0 <= i < j < names.remove(at).len() implies names.remove(at)[i].0 != names.remove(
        at,
    )[j].0 by {
        let oi: int = if i < at {
            i
        } else {
            i + 1
        };
        let oj: int = if j < at {
            j
        } else {
            j + 1
        };
        assert(names.remove(at)[i] == names[oi]);
        assert(names.remove(at)[j] == names[oj]);
    }
}

} // verus!
