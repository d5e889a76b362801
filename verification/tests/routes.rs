use entity_service::routes::{entity_at, route, Entity, Method, Operation};
use entity_service::text::same_text;

fn all_operations() -> Vec<Operation> {
    vec![
        Operation::Liveness,
        Operation::List(Entity::Organization),
        Operation::Create(Entity::Organization),
        Operation::List(Entity::Post),
        Operation::Create(Entity::Post),
        Operation::List(Entity::User),
        Operation::Create(Entity::User),
    ]
}

#[test]
fn liveness_is_served_at_the_root() {
    assert_eq!(Operation::Liveness.method(), Method::Get);
    assert_eq!(Operation::Liveness.path(), "/");
    assert_eq!(route(Method::Get, "/"), Some(Operation::Liveness));
}

#[test]
fn nothing_is_posted_to_the_root() {
    assert_eq!(route(Method::Post, "/"), None);
}

#[test]
fn entities_have_their_paths() {
    assert_eq!(Entity::Organization.path(), "/organizations");
    assert_eq!(Entity::Post.path(), "/posts");
    assert_eq!(Entity::User.path(), "/users");
}

#[test]
fn lists_are_read_with_get() {
    assert_eq!(route(Method::Get, "/organizations"), Some(Operation::List(Entity::Organization)));
    assert_eq!(route(Method::Get, "/posts"), Some(Operation::List(Entity::Post)));
    assert_eq!(route(Method::Get, "/users"), Some(Operation::List(Entity::User)));
}

#[test]
fn creates_are_sent_with_post() {
    assert_eq!(
        route(Method::Post, "/organizations"),
        Some(Operation::Create(Entity::Organization))
    );
    assert_eq!(route(Method::Post, "/posts"), Some(Operation::Create(Entity::Post)));
    assert_eq!(route(Method::Post, "/users"), Some(Operation::Create(Entity::User)));
}

#[test]
fn every_operation_is_found_under_its_own_route() {
    for operation in all_operations() {
        assert_eq!(route(operation.method(), operation.path()), Some(operation));
    }
}

#[test]
fn no_two_operations_share_a_route() {
    let operations = all_operations();
    for a in operations.iter() {
        for b in operations.iter() {
            if a != b {
                assert!(a.method() != b.method() || a.path() != b.path());
            }
        }
    }
}

#[test]
fn operations_of_one_entity_share_its_path() {
    for entity in [Entity::Organization, Entity::Post, Entity::User] {
        assert_eq!(Operation::List(entity).path(), entity.path());
        assert_eq!(Operation::Create(entity).path(), entity.path());
        assert_eq!(Operation::List(entity).method(), Method::Get);
        assert_eq!(Operation::Create(entity).method(), Method::Post);
    }
}

#[test]
fn unknown_paths_reach_nothing() {
    for path in ["", "/user", "/users/", "/users/1", "users", "/Users", "/postss", "//", "/organisations"] {
        assert_eq!(route(Method::Get, path), None);
        assert_eq!(route(Method::Post, path), None);
        assert_eq!(entity_at(path), None);
    }
}

#[test]
fn the_root_is_no_entity() {
    assert_eq!(entity_at("/"), None);
    assert_eq!(entity_at("/posts"), Some(Entity::Post));
    assert_eq!(entity_at("/users"), Some(Entity::User));
    assert_eq!(entity_at("/organizations"), Some(Entity::Organization));
}

#[test]
fn text_is_compared_by_content() {
    assert!(same_text("", ""));
    assert!(same_text("/users", "/users"));
    assert!(!same_text("/users", "/posts"));
    assert!(!same_text("/users", "/user"));
    assert!(!same_text("/user", "/users"));
    assert!(!same_text("a", ""));
    assert!(same_text("gr\u{fc}\u{df}e", "gr\u{fc}\u{df}e"));
    assert!(!same_text("gr\u{fc}\u{df}e", "gr\u{fc}sse"));
    assert!(!same_text("\u{e9}", "e\u{301}"));
}
