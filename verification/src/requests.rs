//! Create payloads, as they stand once the body of a request has been read.

use crate::models::{
    NewOrganization, NewPost, NewUser, OrganizationFields, PostFields, UserFields,
};
use crate::routes::Entity;
use vstd::prelude::*;

verus! {

/// The payload that creates an organization.
#[derive(Debug, PartialEq)]
pub struct OrganizationRequest {
    pub name: String,
}

impl View for OrganizationRequest {
    type V = OrganizationFields;

    open spec fn view(&self) -> OrganizationFields {
        OrganizationFields { name: self.name@ }
    }
}

impl OrganizationRequest {
    /// The insertable shape of this payload: the same name, borrowed.
    pub fn insertable(&self) -> (new: NewOrganization<'_>)
        ensures
            new@ == self@,
    {
        NewOrganization { name: self.name.as_str() }
    }
}

/// The payload that creates a post.
#[derive(Debug, PartialEq)]
pub struct PostRequest {
    pub title: String,
    pub body: String,
}

impl View for PostRequest {
    type V = PostFields;

    open spec fn view(&self) -> PostFields {
        PostFields { title: self.title@, body: self.body@ }
    }
}

impl PostRequest {
    /// The insertable shape of this payload: the same title and body, borrowed.
    pub fn insertable(&self) -> (new: NewPost<'_>)
        ensures
            new@ == self@,
    {
        NewPost { title: self.title.as_str(), body: self.body.as_str() }
    }
}

/// The payload that creates a user.
#[derive(Debug, PartialEq)]
pub struct UserRequest {
    pub name: String,
}

impl View for UserRequest {
    type V = UserFields;

    open spec fn view(&self) -> UserFields {
        UserFields { name: self.name@ }
    }
}

impl UserRequest {
    /// The insertable shape of this payload: the same name, borrowed.
    pub fn insertable(&self) -> (new: NewUser<'_>)
        ensures
            new@ == self@,
    {
        NewUser { name: self.name.as_str() }
    }
}

/// A payload that deserialized into the shape of one of the entities.
#[derive(Debug, PartialEq)]
pub enum Draft {
    Organization(OrganizationRequest),
    Post(PostRequest),
    User(UserRequest),
}

/// A payload as a value of the model: the fields that it supplies.
pub enum DraftView {
    Organization(OrganizationFields),
    Post(PostFields),
    User(UserFields),
}

impl DraftView {
    /// The entity whose shape the payload has.
    pub open spec fn entity(self) -> Entity {
        match self {
            DraftView::Organization(_) => Entity::Organization,
            DraftView::Post(_) => Entity::Post,
            DraftView::User(_) => Entity::User,
        }
    }
}

impl View for Draft {
    type V = DraftView;

    open spec fn view(&self) -> DraftView {
        match self {
            Draft::Organization(request) => DraftView::Organization(request@),
            Draft::Post(request) => DraftView::Post(request@),
            Draft::User(request) => DraftView::User(request@),
        }
    }
}

impl Draft {
    /// The entity whose shape the payload has.
    pub fn entity(&self) -> (entity: Entity)
        ensures
            entity == self@.entity(),
    {
        match self {
            Draft::Organization(_) => Entity::Organization,
            Draft::Post(_) => Entity::Post,
            Draft::User(_) => Entity::User,
        }
    }
}

} // verus!
