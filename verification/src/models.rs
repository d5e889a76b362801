//! Entity records and their insertable projections.
//!
//! A full record is what the store returns: its identity, and for two of the
//! entities its creation time, are assigned by the store and only carried
//! here. An insertable shape holds the fields a client may write, and nothing
//! else.

use chrono::NaiveDateTime;
use uuid::Uuid;
use vstd::prelude::*;

verus! {

/// `uuid::Uuid`, declared so that records can carry one. Nothing in this crate
/// looks inside: an organization's identity is assigned by the store.
#[verifier::external_type_specification]
#[verifier::external_body]
pub struct ExUuid(uuid::Uuid);

/// `chrono::NaiveDateTime`, declared so that records can carry one. Nothing in
/// this crate looks inside: creation times are assigned by the store.
#[verifier::external_type_specification]
#[verifier::external_body]
pub struct ExNaiveDateTime(chrono::NaiveDateTime);

/// The fields of an organization that a client may write.
pub struct OrganizationFields {
    pub name: Seq<char>,
}

/// The fields of a post that a client may write.
pub struct PostFields {
    pub title: Seq<char>,
    pub body: Seq<char>,
}

/// The fields of a user that a client may write.
pub struct UserFields {
    pub name: Seq<char>,
}

/// An organization as the store returns it.
#[derive(Debug, PartialEq)]
pub struct Organization {
    pub id: Uuid,
    pub name: String,
    pub created_at: NaiveDateTime,
}

/// An organization as a value of the model: its name by its characters.
pub struct OrganizationView {
    pub id: Uuid,
    pub name: Seq<char>,
    pub created_at: NaiveDateTime,
}

impl OrganizationView {
    /// The part of the record that came from the client.
    pub open spec fn fields(self) -> OrganizationFields {
        OrganizationFields { name: self.name }
    }
}

impl View for Organization {
    type V = OrganizationView;

    open spec fn view(&self) -> OrganizationView {
        OrganizationView { id: self.id, name: self.name@, created_at: self.created_at }
    }
}

/// What is handed to the store to create an organization.
#[derive(Debug, PartialEq)]
pub struct NewOrganization<'a> {
    pub name: &'a str,
}

impl<'a> View for NewOrganization<'a> {
    type V = OrganizationFields;

    open spec fn view(&self) -> OrganizationFields {
        OrganizationFields { name: self.name@ }
    }
}

/// A post as the store returns it. Whether it is published is decided by the
/// store: no client-writable field sets it.
#[derive(Debug, PartialEq)]
pub struct Post {
    pub id: i32,
    pub title: String,
    pub body: String,
    pub published: bool,
}

/// A post as a value of the model: its title and body by their characters.
pub struct PostView {
    pub id: i32,
    pub title: Seq<char>,
    pub body: Seq<char>,
    pub published: bool,
}

impl PostView {
    /// The part of the record that came from the client.
    pub open spec fn fields(self) -> PostFields {
        PostFields { title: self.title, body: self.body }
    }
}

impl View for Post {
    type V = PostView;

    open spec fn view(&self) -> PostView {
        PostView { id: self.id, title: self.title@, body: self.body@, published: self.published }
    }
}

/// What is handed to the store to create a post.
#[derive(Debug, PartialEq)]
pub struct NewPost<'a> {
    pub title: &'a str,
    pub body: &'a str,
}

impl<'a> View for NewPost<'a> {
    type V = PostFields;

    open spec fn view(&self) -> PostFields {
        PostFields { title: self.title@, body: self.body@ }
    }
}

/// A user as the store returns it.
#[derive(Debug, PartialEq)]
pub struct User {
    pub id: i32,
    pub name: String,
    pub created_at: NaiveDateTime,
}

/// A user as a value of the model: its name by its characters.
pub struct UserView {
    pub id: i32,
    pub name: Seq<char>,
    pub created_at: NaiveDateTime,
}

impl UserView {
    /// The part of the record that came from the client.
    pub open spec fn fields(self) -> UserFields {
        UserFields { name: self.name }
    }
}

impl View for User {
    type V = UserView;

    open spec fn view(&self) -> UserView {
        UserView { id: self.id, name: self.name@, created_at: self.created_at }
    }
}

/// What is handed to the store to create a user.
#[derive(Debug, PartialEq)]
pub struct NewUser<'a> {
    pub name: &'a str,
}

impl<'a> View for NewUser<'a> {
    type V = UserFields;

    open spec fn view(&self) -> UserFields {
        UserFields { name: self.name@ }
    }
}

} // verus!
