//! What is asked of the store, and what comes back from it.
//!
//! A statement is a description: the server around this crate turns it into
//! one round trip to the database and reports the outcome.

use crate::models::{Organization, OrganizationView, Post, PostView, User, UserView};
use crate::requests::{Draft, DraftView};
use crate::routes::Entity;
use vstd::prelude::*;

verus! {

/// The most records that a list operation returns.
pub const LIST_LIMIT: usize = 10;

/// One statement against one table.
#[derive(Debug, PartialEq)]
pub enum Statement {
    /// Read all columns of the first `limit` rows of `table`, in the order in
    /// which the store yields them.
    Select { table: Entity, limit: usize },
    /// Insert one row that supplies the client-writable fields of the draft,
    /// and return the full row as stored.
    Insert(Draft),
}

/// A statement as a value of the model.
pub enum StatementView {
    Select { table: Entity, limit: usize },
    Insert(DraftView),
}

impl StatementView {
    /// The entity whose table the statement touches.
    pub open spec fn table(self) -> Entity {
        match self {
            StatementView::Select { table, limit } => table,
            StatementView::Insert(draft) => draft.entity(),
        }
    }
}

impl View for Statement {
    type V = StatementView;

    open spec fn view(&self) -> StatementView {
        match self {
            Statement::Select { table, limit } => StatementView::Select {
                table: *table,
                limit: *limit,
            },
            Statement::Insert(draft) => StatementView::Insert(draft@),
        }
    }
}

/// The rows that a select returned, in the order of the store.
#[derive(Debug, PartialEq)]
pub enum Rows {
    Organizations(Vec<Organization>),
    Posts(Vec<Post>),
    Users(Vec<User>),
}

/// Rows as a value of the model: each record by its view.
pub enum RowsView {
    Organizations(Seq<OrganizationView>),
    Posts(Seq<PostView>),
    Users(Seq<UserView>),
}

impl RowsView {
    /// The entity whose records these are.
    pub open spec fn entity(self) -> Entity {
        match self {
            RowsView::Organizations(_) => Entity::Organization,
            RowsView::Posts(_) => Entity::Post,
            RowsView::Users(_) => Entity::User,
        }
    }

    /// How many records there are.
    pub open spec fn len(self) -> nat {
        match self {
            RowsView::Organizations(rows) => rows.len(),
            RowsView::Posts(rows) => rows.len(),
            RowsView::Users(rows) => rows.len(),
        }
    }

    /// The record at position `at`, counted from zero.
    pub open spec fn get(self, at: int) -> RecordView
        recommends
            0 <= at < self.len(),
    {
        match self {
            RowsView::Organizations(rows) => RecordView::Organization(rows[at]),
            RowsView::Posts(rows) => RecordView::Post(rows[at]),
            RowsView::Users(rows) => RecordView::User(rows[at]),
        }
    }

    /// The first `limit` records, or all of them where there are fewer.
    pub open spec fn first(self, limit: nat) -> RowsView {
        match self {
            RowsView::Organizations(rows) => RowsView::Organizations(leading(rows, limit)),
            RowsView::Posts(rows) => RowsView::Posts(leading(rows, limit)),
            RowsView::Users(rows) => RowsView::Users(leading(rows, limit)),
        }
    }
}

/// The first `limit` items of `items`, or all of them where there are fewer.
pub open spec fn leading<T>(items: Seq<T>, limit: nat) -> Seq<T> {
    if limit < items.len() {
        items.take(limit as int)
    } else {
        items
    }
}

/// The records of `rows`, each by its view.
pub open spec fn organization_views(rows: Seq<Organization>) -> Seq<OrganizationView> {
    Seq::new(rows.len(), |i: int| rows[i]@)
}

/// The records of `rows`, each by its view.
pub open spec fn post_views(rows: Seq<Post>) -> Seq<PostView> {
    Seq::new(rows.len(), |i: int| rows[i]@)
}

/// The records of `rows`, each by its view.
pub open spec fn user_views(rows: Seq<User>) -> Seq<UserView> {
    Seq::new(rows.len(), |i: int| rows[i]@)
}

impl View for Rows {
    type V = RowsView;

    open spec fn view(&self) -> RowsView {
        match self {
            Rows::Organizations(rows) => RowsView::Organizations(organization_views(rows@)),
            Rows::Posts(rows) => RowsView::Posts(post_views(rows@)),
            Rows::Users(rows) => RowsView::Users(user_views(rows@)),
        }
    }
}

impl Rows {
    /// The entity whose records these are.
    pub fn entity(&self) -> (entity: Entity)
        ensures
            entity == self@.entity(),
    {
        match self {
            Rows::Organizations(_) => Entity::Organization,
            Rows::Posts(_) => Entity::Post,
            Rows::Users(_) => Entity::User,
        }
    }

    /// How many records there are.
    pub fn len(&self) -> (len: usize)
        ensures
            len == self@.len(),
    {
        match self {
            Rows::Organizations(rows) => rows.len(),
            Rows::Posts(rows) => rows.len(),
            Rows::Users(rows) => rows.len(),
        }
    }

    /// Keeps the first `limit` records, in their order, and drops the rest.
    pub fn first(self, limit: usize) -> (kept: Rows)
        ensures
            kept@ == self@.first(limit as nat),
    {
        match self {
            Rows::Organizations(rows) => {
                let mut rows = rows;
                let ghost before = rows@;
                rows.truncate(limit);
                assert(organization_views(rows@) =~= leading(
                    organization_views(before),
                    limit as nat,
                ));
                Rows::Organizations(rows)
            },
            Rows::Posts(rows) => {
                let mut rows = rows;
                let ghost before = rows@;
                rows.truncate(limit);
                assert(post_views(rows@) =~= leading(post_views(before), limit as nat));
                Rows::Posts(rows)
            },
            Rows::Users(rows) => {
                let mut rows = rows;
                let ghost before = rows@;
                rows.truncate(limit);
                assert(user_views(rows@) =~= leading(user_views(before), limit as nat));
                Rows::Users(rows)
            },
        }
    }
}

/// The full row that an insert returned.
#[derive(Debug, PartialEq)]
pub enum Record {
    Organization(Organization),
    Post(Post),
    User(User),
}

/// A returned row as a value of the model.
pub enum RecordView {
    Organization(OrganizationView),
    Post(PostView),
    User(UserView),
}

impl RecordView {
    /// The entity whose record this is.
    pub open spec fn entity(self) -> Entity {
        match self {
            RecordView::Organization(_) => Entity::Organization,
            RecordView::Post(_) => Entity::Post,
            RecordView::User(_) => Entity::User,
        }
    }

    /// The part of the record that came from the client, as the payload that
    /// would have supplied it.
    pub open spec fn fields(self) -> DraftView {
        match self {
            RecordView::Organization(record) => DraftView::Organization(record.fields()),
            RecordView::Post(record) => DraftView::Post(record.fields()),
            RecordView::User(record) => DraftView::User(record.fields()),
        }
    }
}

impl View for Record {
    type V = RecordView;

    open spec fn view(&self) -> RecordView {
        match self {
            Record::Organization(record) => RecordView::Organization(record@),
            Record::Post(record) => RecordView::Post(record@),
            Record::User(record) => RecordView::User(record@),
        }
    }
}

impl Record {
    /// The entity whose record this is.
    pub fn entity(&self) -> (entity: Entity)
        ensures
            entity == self@.entity(),
    {
        match self {
            Record::Organization(_) => Entity::Organization,
            Record::Post(_) => Entity::Post,
            Record::User(_) => Entity::User,
        }
    }
}

/// However many records the store yields, at most `limit` of them are kept,
/// and those are the first ones, unchanged and in their order.
pub proof fn law_first_is_a_bounded_prefix(rows: RowsView, limit: nat)
    ensures
        rows.first(limit).len() <= limit,
        rows.first(limit).len() <= rows.len(),
        rows.first(limit).entity() == rows.entity(),
        rows.len() <= limit ==> rows.first(limit) == rows,
        forall|at: int|
            0 <= at < rows.first(limit).len() ==> #[trigger] rows.first(limit).get(at)
                == rows.get(at),
{
}

} // verus!
