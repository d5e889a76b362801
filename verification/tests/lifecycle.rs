use chrono::{NaiveDate, NaiveDateTime};
use entity_service::errors::ApiError;
use entity_service::lifecycle::{begin, step, Action, Event, Request, Response, State, Transition};
use entity_service::models::{Organization, Post, User};
use entity_service::pool::LeaseFailure;
use entity_service::requests::{Draft, OrganizationRequest, PostRequest, UserRequest};
use entity_service::routes::{route, Entity, Method, Operation};
use entity_service::store::{Record, Rows, Statement};
use uuid::Uuid;

fn moment() -> NaiveDateTime {
    NaiveDate::from_ymd_opt(2024, 5, 17).unwrap().and_hms_opt(8, 30, 0).unwrap()
}

fn users(count: i32) -> Vec<User> {
    (1..=count).map(|id| User { id, name: format!("user {}", id), created_at: moment() }).collect()
}

fn posts(count: i32) -> Vec<Post> {
    (1..=count)
        .map(|id| Post {
            id,
            title: format!("title {}", id),
            body: format!("body {}", id),
            published: false,
        })
        .collect()
}

fn organizations(count: u128) -> Vec<Organization> {
    (1..=count)
        .map(|id| Organization {
            id: Uuid::from_u128(id),
            name: format!("organization {}", id),
            created_at: moment(),
        })
        .collect()
}

fn ada() -> Draft {
    Draft::User(UserRequest { name: String::from("Ada") })
}

fn acme() -> Draft {
    Draft::Organization(OrganizationRequest { name: String::from("Acme") })
}

fn first_post() -> Draft {
    Draft::Post(PostRequest { title: String::from("Hello"), body: String::from("First post") })
}

fn finished(response: Response) -> Transition {
    Transition { next: State::Finished, action: Action::Respond(response) }
}

/// A store that keeps users in memory and assigns their identities, for the
/// runs below.
struct Users {
    rows: Vec<(i32, String)>,
}

impl Users {
    fn insert(&mut self, name: &str) -> User {
        let id: i32 = self.rows.len() as i32 + 1;
        self.rows.push((id, name.to_string()));
        User { id, name: name.to_string(), created_at: moment() }
    }

    fn select(&self, limit: usize) -> Vec<User> {
        self.rows
            .iter()
            .take(limit)
            .map(|(id, name)| User { id: *id, name: name.clone(), created_at: moment() })
            .collect()
    }
}

/// Runs one request on users to its answer, with a pool that always leases.
fn serve(store: &mut Users, request: Request) -> Response {
    let mut transition: Transition = begin(request);
    let mut actions: usize = 1;
    loop {
        let event = match transition.action {
            Action::Respond(response) => {
                assert_eq!(transition.next, State::Finished);
                assert!(actions <= 3);
                return response;
            }
            Action::Checkout => Event::Leased,
            Action::Execute(Statement::Select { table, limit }) => {
                assert_eq!(table, Entity::User);
                Event::Selected(Rows::Users(store.select(limit)))
            }
            Action::Execute(Statement::Insert(Draft::User(request))) => {
                let new_user = request.insertable();
                Event::Inserted(Record::User(store.insert(new_user.name)))
            }
            Action::Execute(_) => panic!("only users are stored here"),
        };
        transition = step(transition.next, event).expect("the event answers the action");
        actions += 1;
    }
}

#[test]
fn the_liveness_probe_is_answered_at_once() {
    let transition = begin(Request { operation: Operation::Liveness, payload: None });
    assert_eq!(transition, finished(Response::Greeting));
}

#[test]
fn the_liveness_probe_ignores_a_payload() {
    let transition = begin(Request { operation: Operation::Liveness, payload: Some(ada()) });
    assert_eq!(transition, finished(Response::Greeting));
}

#[test]
fn the_greeting_reads_hello_world() {
    assert_eq!(Response::Greeting.status(), 200);
    assert_eq!(Response::Greeting.text(), Some("Hello world!"));
}

#[test]
fn the_acknowledgement_reads_ok() {
    assert_eq!(Response::Acknowledged.status(), 200);
    assert_eq!(Response::Acknowledged.text(), Some("ok"));
}

#[test]
fn a_listing_has_no_fixed_text() {
    let listing = Response::Listing(Rows::Users(users(2)));
    assert_eq!(listing.status(), 200);
    assert_eq!(listing.text(), None);
}

#[test]
fn a_failure_is_answered_with_its_status() {
    assert_eq!(Response::Failure(ApiError::BadRequest).status(), 400);
    assert_eq!(Response::Failure(ApiError::PoolExhausted).status(), 503);
    assert_eq!(Response::Failure(ApiError::ConnectionInvalid).status(), 503);
    assert_eq!(Response::Failure(ApiError::QueryFailed).status(), 500);
    assert_eq!(Response::Failure(ApiError::InsertFailed).status(), 500);
    assert_eq!(Response::Failure(ApiError::InsertFailed).text(), None);
}

#[test]
fn a_list_asks_for_a_connection_first() {
    for entity in [Entity::Organization, Entity::Post, Entity::User] {
        let transition = begin(Request { operation: Operation::List(entity), payload: None });
        assert_eq!(transition.action, Action::Checkout);
        assert_eq!(
            transition.next,
            State::AwaitingConnection(Statement::Select { table: entity, limit: 10 })
        );
    }
}

#[test]
fn a_list_ignores_a_payload() {
    let transition =
        begin(Request { operation: Operation::List(Entity::Post), payload: Some(ada()) });
    assert_eq!(transition.action, Action::Checkout);
    assert_eq!(
        transition.next,
        State::AwaitingConnection(Statement::Select { table: Entity::Post, limit: 10 })
    );
}

#[test]
fn a_list_selects_once_it_has_a_connection() {
    let state = State::AwaitingConnection(Statement::Select { table: Entity::Post, limit: 10 });
    let transition = step(state, Event::Leased).unwrap();
    assert_eq!(
        transition.action,
        Action::Execute(Statement::Select { table: Entity::Post, limit: 10 })
    );
    assert_eq!(transition.next, State::AwaitingRows(Entity::Post));
}

#[test]
fn a_list_answers_with_the_rows_of_the_store() {
    let transition = step(State::AwaitingRows(Entity::Post), Event::Selected(Rows::Posts(posts(3))));
    assert_eq!(transition, Some(finished(Response::Listing(Rows::Posts(posts(3))))));
}

#[test]
fn a_list_of_an_empty_table_is_empty() {
    let transition =
        step(State::AwaitingRows(Entity::User), Event::Selected(Rows::Users(Vec::new())));
    assert_eq!(transition, Some(finished(Response::Listing(Rows::Users(Vec::new())))));
}

#[test]
fn a_list_never_returns_more_than_ten_records() {
    for count in [0, 1, 9, 10, 11, 25, 1000] {
        let transition = step(
            State::AwaitingRows(Entity::User),
            Event::Selected(Rows::Users(users(count))),
        )
        .unwrap();
        match transition.action {
            Action::Respond(Response::Listing(rows)) => {
                assert!(rows.len() <= 10);
                assert_eq!(rows, Rows::Users(users(count.min(10))));
            }
            other => panic!("a list answers with a listing, not with {:?}", other),
        }
    }
}

#[test]
fn a_list_of_organizations_is_cut_to_the_first_ten() {
    let transition = step(
        State::AwaitingRows(Entity::Organization),
        Event::Selected(Rows::Organizations(organizations(12))),
    );
    assert_eq!(
        transition,
        Some(finished(Response::Listing(Rows::Organizations(organizations(10)))))
    );
}

#[test]
fn a_failed_select_fails_the_list() {
    let transition = step(State::AwaitingRows(Entity::Organization), Event::StatementFailed);
    assert_eq!(transition, Some(finished(Response::Failure(ApiError::QueryFailed))));
}

#[test]
fn a_create_asks_for_a_connection_first() {
    let transition =
        begin(Request { operation: Operation::Create(Entity::User), payload: Some(ada()) });
    assert_eq!(transition.action, Action::Checkout);
    assert_eq!(transition.next, State::AwaitingConnection(Statement::Insert(ada())));
}

#[test]
fn a_create_inserts_its_payload_once_it_has_a_connection() {
    let state = State::AwaitingConnection(Statement::Insert(first_post()));
    let transition = step(state, Event::Leased).unwrap();
    assert_eq!(transition.action, Action::Execute(Statement::Insert(first_post())));
    assert_eq!(transition.next, State::AwaitingRecord(Entity::Post));
}

#[test]
fn a_create_is_acknowledged_when_the_record_comes_back() {
    let record = Record::Organization(organizations(1).pop().unwrap());
    let transition = step(State::AwaitingRecord(Entity::Organization), Event::Inserted(record));
    assert_eq!(transition, Some(finished(Response::Acknowledged)));
}

#[test]
fn a_failed_insert_fails_the_create() {
    let transition = step(State::AwaitingRecord(Entity::User), Event::StatementFailed);
    assert_eq!(transition, Some(finished(Response::Failure(ApiError::InsertFailed))));
}

#[test]
fn a_create_without_a_payload_is_a_bad_request() {
    for entity in [Entity::Organization, Entity::Post, Entity::User] {
        let transition = begin(Request { operation: Operation::Create(entity), payload: None });
        assert_eq!(transition, finished(Response::Failure(ApiError::BadRequest)));
    }
}

#[test]
fn a_create_with_the_shape_of_another_entity_is_a_bad_request() {
    let transition =
        begin(Request { operation: Operation::Create(Entity::User), payload: Some(first_post()) });
    assert_eq!(transition, finished(Response::Failure(ApiError::BadRequest)));
    let transition =
        begin(Request { operation: Operation::Create(Entity::Post), payload: Some(acme()) });
    assert_eq!(transition, finished(Response::Failure(ApiError::BadRequest)));
    let transition = begin(Request {
        operation: Operation::Create(Entity::Organization),
        payload: Some(ada()),
    });
    assert_eq!(transition, finished(Response::Failure(ApiError::BadRequest)));
}

#[test]
fn a_bad_request_never_reaches_the_store() {
    let mut store = Users { rows: Vec::new() };
    let response =
        serve(&mut store, Request { operation: Operation::Create(Entity::User), payload: None });
    assert_eq!(response, Response::Failure(ApiError::BadRequest));
    assert_eq!(response.status(), 400);
    assert!(store.rows.is_empty());
}

#[test]
fn an_exhausted_pool_fails_the_request() {
    let state = State::AwaitingConnection(Statement::Insert(ada()));
    let transition = step(state, Event::LeaseFailed(LeaseFailure::Exhausted));
    assert_eq!(transition, Some(finished(Response::Failure(ApiError::PoolExhausted))));
}

#[test]
fn an_invalid_connection_fails_the_request() {
    let state = State::AwaitingConnection(Statement::Select { table: Entity::User, limit: 10 });
    let transition = step(state, Event::LeaseFailed(LeaseFailure::Invalid));
    assert_eq!(transition, Some(finished(Response::Failure(ApiError::ConnectionInvalid))));
}

#[test]
fn a_finished_request_takes_no_event() {
    assert_eq!(step(State::Finished, Event::Leased), None);
    assert_eq!(step(State::Finished, Event::LeaseFailed(LeaseFailure::Invalid)), None);
    assert_eq!(step(State::Finished, Event::StatementFailed), None);
    assert_eq!(step(State::Finished, Event::Selected(Rows::Users(users(1)))), None);
    assert_eq!(
        step(State::Finished, Event::Inserted(Record::User(users(1).pop().unwrap()))),
        None
    );
}

#[test]
fn rows_of_another_entity_are_not_taken() {
    assert_eq!(step(State::AwaitingRows(Entity::User), Event::Selected(Rows::Posts(posts(1)))), None);
    assert_eq!(
        step(State::AwaitingRows(Entity::Post), Event::Selected(Rows::Organizations(Vec::new()))),
        None
    );
}

#[test]
fn a_record_of_another_entity_is_not_taken() {
    let record = Record::Post(posts(1).pop().unwrap());
    assert_eq!(step(State::AwaitingRecord(Entity::User), Event::Inserted(record)), None);
}

#[test]
fn an_event_that_is_not_awaited_is_not_taken() {
    let waiting = || State::AwaitingConnection(Statement::Select { table: Entity::User, limit: 10 });
    assert_eq!(step(waiting(), Event::StatementFailed), None);
    assert_eq!(step(waiting(), Event::Selected(Rows::Users(users(1)))), None);
    assert_eq!(step(waiting(), Event::Inserted(Record::User(users(1).pop().unwrap()))), None);
    assert_eq!(step(State::AwaitingRows(Entity::User), Event::Leased), None);
    assert_eq!(
        step(State::AwaitingRows(Entity::User), Event::LeaseFailed(LeaseFailure::Exhausted)),
        None
    );
    assert_eq!(
        step(State::AwaitingRows(Entity::User), Event::Inserted(Record::User(users(1).pop().unwrap()))),
        None
    );
    assert_eq!(step(State::AwaitingRecord(Entity::User), Event::Leased), None);
    assert_eq!(
        step(State::AwaitingRecord(Entity::User), Event::Selected(Rows::Users(users(1)))),
        None
    );
}

#[test]
fn a_created_user_is_listed_afterwards() {
    let mut store = Users { rows: Vec::new() };
    let create = route(Method::Post, "/users").unwrap();
    let response = serve(&mut store, Request { operation: create, payload: Some(ada()) });
    assert_eq!(response, Response::Acknowledged);
    assert_eq!(response.status(), 200);
    assert_eq!(response.text(), Some("ok"));

    let list = route(Method::Get, "/users").unwrap();
    let response = serve(&mut store, Request { operation: list, payload: None });
    assert_eq!(response.status(), 200);
    match response {
        Response::Listing(Rows::Users(listed)) => {
            let found: Vec<&User> = listed.iter().filter(|user| user.name == "Ada").collect();
            assert_eq!(found.len(), 1);
            assert_eq!(found[0].id, 1);
            assert_eq!(found[0].created_at, moment());
        }
        other => panic!("a list of users answers with users, not with {:?}", other),
    }
}

#[test]
fn each_create_is_stored_once_with_its_own_identity() {
    let mut store = Users { rows: Vec::new() };
    for name in ["Ada", "Grace", "Ada"] {
        let payload = Some(Draft::User(UserRequest { name: String::from(name) }));
        let response =
            serve(&mut store, Request { operation: Operation::Create(Entity::User), payload });
        assert_eq!(response, Response::Acknowledged);
    }
    assert_eq!(
        store.rows,
        vec![(1, String::from("Ada")), (2, String::from("Grace")), (3, String::from("Ada"))]
    );
}

#[test]
fn a_full_table_is_listed_ten_at_a_time() {
    let mut store = Users { rows: Vec::new() };
    for number in 0..15 {
        let payload = Some(Draft::User(UserRequest { name: format!("user {}", number) }));
        serve(&mut store, Request { operation: Operation::Create(Entity::User), payload });
    }
    let response =
        serve(&mut store, Request { operation: Operation::List(Entity::User), payload: None });
    match response {
        Response::Listing(rows) => assert_eq!(rows.len(), 10),
        other => panic!("a list answers with a listing, not with {:?}", other),
    }
}
