//! The route table: which method and path reach which operation.

use crate::text::same_text;
use vstd::prelude::*;

verus! {

/// The three kinds of record the service keeps.
#[derive(Debug, Clone, Copy, PartialEq, Eq, Structural)]
pub enum Entity {
    Organization,
    Post,
    User,
}

/// The request methods the service answers.
#[derive(Debug, Clone, Copy, PartialEq, Eq, Structural)]
pub enum Method {
    Get,
    Post,
}

/// What a request asks for.
#[derive(Debug, Clone, Copy, PartialEq, Eq, Structural)]
pub enum Operation {
    /// The liveness probe.
    Liveness,
    /// The first records of one entity.
    List(Entity),
    /// One new record of one entity.
    Create(Entity),
}

impl Entity {
    /// The path under which the entity is served, as characters.
    pub open spec fn spec_path(self) -> Seq<char> {
        match self {
            Entity::Organization => "/organizations"@,
            Entity::Post => "/posts"@,
            Entity::User => "/users"@,
        }
    }

    /// The path under which the entity is served.
    pub fn path(self) -> (path: &'static str)
        ensures
            path@ == self.spec_path(),
    {
        match self {
            Entity::Organization => "/organizations",
            Entity::Post => "/posts",
            Entity::User => "/users",
        }
    }
}

impl Operation {
    /// The method by which the operation is reached.
    pub open spec fn spec_method(self) -> Method {
        match self {
            Operation::Liveness => Method::Get,
            Operation::List(_) => Method::Get,
            Operation::Create(_) => Method::Post,
        }
    }

    /// The path at which the operation is reached, as characters.
    pub open spec fn spec_path(self) -> Seq<char> {
        match self {
            Operation::Liveness => "/"@,
            Operation::List(entity) => entity.spec_path(),
            Operation::Create(entity) => entity.spec_path(),
        }
    }

    /// The method by which the operation is reached.
    pub fn method(self) -> (method: Method)
        ensures
            method == self.spec_method(),
    {
        match self {
            Operation::Liveness => Method::Get,
            Operation::List(_) => Method::Get,
            Operation::Create(_) => Method::Post,
        }
    }

    /// The path at which the operation is reached.
    pub fn path(self) -> (path: &'static str)
        ensures
            path@ == self.spec_path(),
    {
        match self {
            Operation::Liveness => "/",
            Operation::List(entity) => entity.path(),
            Operation::Create(entity) => entity.path(),
        }
    }
}

/// Whether `operation` is the one served for `method` at `path`.
pub open spec fn serves(operation: Operation, method: Method, path: Seq<char>) -> bool {
    operation.spec_method() == method && operation.spec_path() == path
}

/// The entity served at `path`, if there is one.
pub fn entity_at(path: &str) -> (found: Option<Entity>)
    ensures
        match found {
            Some(entity) => entity.spec_path() == path@,
            None => forall|entity: Entity| entity.spec_path() != path@,
        },
{
    if same_text(path, "/organizations") {
        Some(Entity::Organization)
    } else if same_text(path, "/posts") {
        Some(Entity::Post)
    } else if same_text(path, "/users") {
        Some(Entity::User)
    } else {
        assert forall|entity: Entity| entity.spec_path() != path@ by {
            match entity {
                Entity::Organization => {},
                Entity::Post => {},
                Entity::User => {},
            }
        }
        None
    }
}

/// The operation served for `method` at `path`: `Some` exactly when the table
/// has such a route, and then that route's operation.
pub fn route(method: Method, path: &str) -> (found: Option<Operation>)
    ensures
        match found {
            Some(operation) => serves(operation, method, path@),
            None => forall|operation: Operation| !serves(operation, method, path@),
        },
{
    if same_text(path, "/") {
        proof {
            lemma_paths_differ();
        }
        match method {
            Method::Get => Some(Operation::Liveness),
            Method::Post => {
                assert forall|operation: Operation| !serves(operation, method, path@) by {
                    match operation {
                        Operation::Liveness => {},
                        Operation::List(_) => {},
                        Operation::Create(_) => {},
                    }
                }
                None
            },
        }
    } else {
        match entity_at(path) {
            Some(entity) => match method {
                Method::Get => Some(Operation::List(entity)),
                Method::Post => Some(Operation::Create(entity)),
            },
            None => {
                assert forall|operation: Operation| !serves(operation, method, path@) by {
                    match operation {
                        Operation::Liveness => {},
                        Operation::List(_) => {},
                        Operation::Create(_) => {},
                    }
                }
                None
            },
        }
    }
}

/// No two entities share a path, and none is served at the root.
pub proof fn lemma_paths_differ()
    ensures
        forall|a: Entity, b: Entity| a.spec_path() == b.spec_path() ==> a == b,
        forall|a: Entity| a.spec_path() != "/"@,
{
    reveal_strlit("/");
    reveal_strlit("/organizations");
    reveal_strlit("/posts");
    reveal_strlit("/users");
    assert forall|a: Entity, b: Entity| a.spec_path() == b.spec_path() implies a == b by {
        assert(a.spec_path().len() == b.spec_path().len());
        assert(a.spec_path()[1] == b.spec_path()[1]);
    }
    assert forall|a: Entity| a.spec_path() != "/"@ by {
        assert(a.spec_path().len() != "/"@.len());
    }
}

/// Two operations that are reached by the same method at the same path are
/// one: the table holds no route twice.
pub proof fn law_route_is_unique(a: Operation, b: Operation)
    requires
        a.spec_method() == b.spec_method(),
        a.spec_path() == b.spec_path(),
    ensures
        a == b,
{
    lemma_paths_differ();
}

} // verus!
