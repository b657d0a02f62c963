//! The example schema the accompanying program works with: users, their
//! profiles, and their posts, with one relation of each shape. Each entity
//! carries its column enumeration, its `Entity` description, and the
//! accessors its declared relations resolve to.

use crate::collection::Collection;
use crate::column::Column;
use crate::entity::Entity;
use crate::expr::Expr;
use crate::reference::Reference;
use crate::relation::{inversed_filter, owning_reference};
use crate::value::Value;
use vstd::prelude::*;

verus! {

/// The columns of the `users` table.
#[derive(Debug, Clone, Copy, PartialEq, Eq, Structural)]
pub enum UserColumn {
    Id,
    Username,
}

impl Column for UserColumn {
    open spec fn name_spec(&self) -> Seq<char> {
        match self {
            UserColumn::Id => "id"@,
            UserColumn::Username => "username"@,
        }
    }

    fn to_col_name(&self) -> (r: &str) {
        match self {
            UserColumn::Id => "id",
            UserColumn::Username => "username",
        }
    }
}

/// A user row. A profile declares it as its owner, and posts point back at
/// it through their foreign key.
pub struct User {
    pub id: i64,
    pub username: String,
}

impl Entity for User {
    type C = UserColumn;

    open spec fn table_name_spec() -> Seq<char> {
        "users"@
    }

    open spec fn columns_spec() -> Seq<UserColumn> {
        seq![UserColumn::Id, UserColumn::Username]
    }

    open spec fn primary_key_spec() -> UserColumn {
        UserColumn::Id
    }

    fn table_name() -> (r: &'static str) {
        "users"
    }

    fn columns() -> (r: Vec<UserColumn>) {
        let mut v = Vec::new();
        v.push(UserColumn::Id);
        v.push(UserColumn::Username);
        proof {
            assert(v@ =~= Self::columns_spec());
        }
        v
    }

    fn primary_key() -> (r: UserColumn) {
        UserColumn::Id
    }
}

impl User {
    /// The key value relation helpers compare foreign keys against.
    pub fn primary_key_value(&self) -> (r: i64)
        ensures
            r == self.id,
    {
        self.id
    }

    /// The inverse side of the profile relation: this user's profile, the
    /// one row whose `user_id` equals this user's key.
    pub fn profile(&self) -> (r: Reference<UserProfile>)
        ensures
            r.filter matches Expr::Equal(c, v) && c == UserProfileColumn::UserId && v
                == Value::Integer(self.id),
    {
        Reference::new(UserProfile::user_inversed_filter(self))
    }

    /// The inverse side of the posts relation: this user's posts, the rows
    /// whose `user_id` equals this user's key.
    pub fn posts(&self) -> (r: Collection<Post>)
        ensures
            r.filter matches Expr::Equal(c, v) && c == PostColumn::UserId && v == Value::Integer(
                self.id,
            ),
    {
        Collection::new(Post::user_inversed_filter(self))
    }
}

/// The columns of the `user_profiles` table.
#[derive(Debug, Clone, Copy, PartialEq, Eq, Structural)]
pub enum UserProfileColumn {
    UserId,
    Bio,
}

impl Column for UserProfileColumn {
    open spec fn name_spec(&self) -> Seq<char> {
        match self {
            UserProfileColumn::UserId => "user_id"@,
            UserProfileColumn::Bio => "bio"@,
        }
    }

    fn to_col_name(&self) -> (r: &str) {
        match self {
            UserProfileColumn::UserId => "user_id",
            UserProfileColumn::Bio => "bio",
        }
    }
}

/// A profile row: the owning side of its relation to the user, holding the
/// user's key as both its primary key and its foreign key.
pub struct UserProfile {
    pub user_id: i64,
    pub bio: String,
}

impl Entity for UserProfile {
    type C = UserProfileColumn;

    open spec fn table_name_spec() -> Seq<char> {
        "user_profiles"@
    }

    open spec fn columns_spec() -> Seq<UserProfileColumn> {
        seq![UserProfileColumn::UserId, UserProfileColumn::Bio]
    }

    open spec fn primary_key_spec() -> UserProfileColumn {
        UserProfileColumn::UserId
    }

    fn table_name() -> (r: &'static str) {
        "user_profiles"
    }

    fn columns() -> (r: Vec<UserProfileColumn>) {
        let mut v = Vec::new();
        v.push(UserProfileColumn::UserId);
        v.push(UserProfileColumn::Bio);
        proof {
            assert(v@ =~= Self::columns_spec());
        }
        v
    }

    fn primary_key() -> (r: UserProfileColumn) {
        UserProfileColumn::UserId
    }
}

impl UserProfile {
    /// The key value relation helpers compare foreign keys against.
    pub fn primary_key_value(&self) -> (r: i64)
        ensures
            r == self.user_id,
    {
        self.user_id
    }

    /// The owning side of the user relation: the user this profile's
    /// foreign key points at.
    pub fn user(&self) -> (r: Reference<User>)
        ensures
            r.filter matches Expr::Equal(c, v) && c == UserColumn::Id && v == Value::Integer(
                self.user_id,
            ),
    {
        owning_reference::<User>(User::primary_key(), Value::Integer(self.user_id))
    }

    /// The filter this owning side builds on the inverse side's behalf: the
    /// profile rows whose foreign key equals the given user's key.
    pub fn user_inversed_filter(entity: &User) -> (r: Expr<UserProfileColumn>)
        ensures
            r matches Expr::Equal(c, v) && c == UserProfileColumn::UserId && v == Value::Integer(
                entity.id,
            ),
    {
        inversed_filter(UserProfileColumn::UserId, Value::Integer(entity.primary_key_value()))
    }
}

/// The columns of the `posts` table.
#[derive(Debug, Clone, Copy, PartialEq, Eq, Structural)]
pub enum PostColumn {
    Id,
    Content,
    UserId,
    Title,
}

impl Column for PostColumn {
    open spec fn name_spec(&self) -> Seq<char> {
        match self {
            PostColumn::Id => "id"@,
            PostColumn::Content => "content"@,
            PostColumn::UserId => "user_id"@,
            PostColumn::Title => "title"@,
        }
    }

    fn to_col_name(&self) -> (r: &str) {
        match self {
            PostColumn::Id => "id",
            PostColumn::Content => "content",
            PostColumn::UserId => "user_id",
            PostColumn::Title => "title",
        }
    }
}

/// A post row: the owning side of its relation to the user, holding the
/// author's key in `user_id`.
pub struct Post {
    pub id: i64,
    pub content: String,
    pub user_id: i64,
    pub title: String,
}

impl Entity for Post {
    type C = PostColumn;

    open spec fn table_name_spec() -> Seq<char> {
        "posts"@
    }

    open spec fn columns_spec() -> Seq<PostColumn> {
        seq![PostColumn::Id, PostColumn::Content, PostColumn::UserId, PostColumn::Title]
    }

    open spec fn primary_key_spec() -> PostColumn {
        PostColumn::Id
    }

    fn table_name() -> (r: &'static str) {
        "posts"
    }

    fn columns() -> (r: Vec<PostColumn>) {
        let mut v = Vec::new();
        v.push(PostColumn::Id);
        v.push(PostColumn::Content);
        v.push(PostColumn::UserId);
        v.push(PostColumn::Title);
        proof {
            assert(v@ =~= Self::columns_spec());
        }
        v
    }

    fn primary_key() -> (r: PostColumn) {
        PostColumn::Id
    }
}

impl Post {
    /// The key value relation helpers compare foreign keys against.
    pub fn primary_key_value(&self) -> (r: i64)
        ensures
            r == self.id,
    {
        self.id
    }

    /// The owning side of the user relation: the author this post's foreign
    /// key points at.
    pub fn user(&self) -> (r: Reference<User>)
        ensures
            r.filter matches Expr::Equal(c, v) && c == UserColumn::Id && v == Value::Integer(
                self.user_id,
            ),
    {
        owning_reference::<User>(User::primary_key(), Value::Integer(self.user_id))
    }

    /// The filter this owning side builds on the inverse side's behalf: the
    /// post rows whose foreign key equals the given user's key.
    pub fn user_inversed_filter(entity: &User) -> (r: Expr<PostColumn>)
        ensures
            r matches Expr::Equal(c, v) && c == PostColumn::UserId && v == Value::Integer(
                entity.id,
            ),
    {
        inversed_filter(PostColumn::UserId, Value::Integer(entity.primary_key_value()))
    }
}

} // verus!
