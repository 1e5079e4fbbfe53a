//! The relational store as the resolvers take it to be: four tables, each in
//! the order of its ids, and what each request does to them.
//!
//! Nothing here runs. It is the model against which the resolvers'
//! guarantees are stated: a store that answers as `Tables::run` says gives
//! the interface the behaviour proved in `guarantees`.

use vstd::prelude::*;
use crate::models::clients::ClientView;
use crate::models::users::{AuthorizationView, UserView};
use crate::models::worksites::WorksiteView;
use crate::store::{page_of, StoreFault, StoreRequestView};

verus! {

/// Whether the keys of the rows are positive and ascend strictly.
pub open spec fn keys_ascend<T>(rows: Seq<T>, key: spec_fn(T) -> int) -> bool {
    &&& forall|i: int| 0 <= i < rows.len() ==> key(#[trigger] rows[i]) >= 1
    &&& forall|i: int, j: int|
        0 <= i < j < rows.len() ==> key(#[trigger] rows[i]) < key(#[trigger] rows[j])
}

/// Whether a row has the key `id`.
pub open spec fn has_key<T>(rows: Seq<T>, key: spec_fn(T) -> int, id: int) -> bool {
    exists|i: int| 0 <= i < rows.len() && key(#[trigger] rows[i]) == id
}

/// The position of a row with the key `id`, where there is one.
pub open spec fn position_of<T>(rows: Seq<T>, key: spec_fn(T) -> int, id: int) -> int {
    choose|i: int| 0 <= i < rows.len() && key(#[trigger] rows[i]) == id
}

/// The key that the next inserted row gets: one more than the last, and 1
/// in an empty table.
pub open spec fn next_key<T>(rows: Seq<T>, key: spec_fn(T) -> int) -> int {
    if rows.len() == 0 {
        1
    } else {
        key(rows.last()) + 1
    }
}

/// The row with the key `id`, or that there is none.
pub open spec fn found<T>(rows: Seq<T>, key: spec_fn(T) -> int, id: int) -> Result<T, StoreFault> {
    if has_key(rows, key, id) {
        Ok(rows[position_of(rows, key, id)])
    } else {
        Err(StoreFault::NotFound)
    }
}

pub open spec fn authorization_key() -> spec_fn(AuthorizationView) -> int {
    |row: AuthorizationView| row.id
}

pub open spec fn user_key() -> spec_fn(UserView) -> int {
    |row: UserView| row.id
}

pub open spec fn client_key() -> spec_fn(ClientView) -> int {
    |row: ClientView| row.id
}

pub open spec fn worksite_key() -> spec_fn(WorksiteView) -> int {
    |row: WorksiteView| row.id
}

/// Whether the user at position `at` has the name and none before it has.
pub open spec fn is_first_named(users: Seq<UserView>, name: Seq<char>, at: int) -> bool {
    &&& 0 <= at < users.len()
    &&& users[at].name == name
    &&& forall|j: int| 0 <= j < at ==> (#[trigger] users[j]).name != name
}

/// The four tables.
pub struct Tables {
    pub authorizations: Seq<AuthorizationView>,
    pub users: Seq<UserView>,
    pub clients: Seq<ClientView>,
    pub worksites: Seq<WorksiteView>,
}

/// What the store hands back where it carried a request out.
pub enum Answer {
    User(UserView),
    Authorizations(Seq<AuthorizationView>),
    Client(ClientView),
    Clients(Seq<ClientView>),
    Worksite(WorksiteView),
}

/// The tables after a request, and the store's answer to it.
pub struct Outcome {
    pub tables: Tables,
    pub answer: Result<Answer, StoreFault>,
}

impl Tables {
    /// No row at all.
    pub open spec fn empty() -> Tables {
        Tables {
            authorizations: Seq::empty(),
            users: Seq::empty(),
            clients: Seq::empty(),
            worksites: Seq::empty(),
        }
    }

    /// What holds of the tables at all times: in each the ids are positive
    /// and ascend, every user refers to an authorization level that exists,
    /// and every worksite to a client that exists.
    pub open spec fn wf(self) -> bool {
        &&& keys_ascend(self.authorizations, authorization_key())
        &&& keys_ascend(self.users, user_key())
        &&& keys_ascend(self.clients, client_key())
        &&& keys_ascend(self.worksites, worksite_key())
        &&& forall|i: int|
            0 <= i < self.users.len() ==> has_key(
                self.authorizations,
                authorization_key(),
                (#[trigger] self.users[i]).authorization_id,
            )
        &&& forall|i: int|
            0 <= i < self.worksites.len() ==> has_key(
                self.clients,
                client_key(),
                (#[trigger] self.worksites[i]).client_id,
            )
    }

    /// The first user with the given name, or that there is none.
    pub open spec fn user_named(self, name: Seq<char>) -> Result<UserView, StoreFault> {
        if exists|i: int| is_first_named(self.users, name, i) {
            Ok(self.users[choose|i: int| is_first_named(self.users, name, i)])
        } else {
            Err(StoreFault::NotFound)
        }
    }

    /// What a request does: the answer, and the tables as they are
    /// afterwards. A row is inserted at the end under the next id, and only
    /// where the row it refers to exists; an address update replaces the
    /// address of one client and nothing else; a listing with a negative
    /// offset or limit is refused; everything else only reads.
    pub open spec fn run(self, request: StoreRequestView) -> Outcome {
        match request {
            StoreRequestView::FindUser { id } => Outcome {
                tables: self,
                answer: match found(self.users, user_key(), id) {
                    Ok(user) => Ok(Answer::User(user)),
                    Err(fault) => Err(fault),
                },
            },
            StoreRequestView::FindUserByName { name } => Outcome {
                tables: self,
                answer: match self.user_named(name) {
                    Ok(user) => Ok(Answer::User(user)),
                    Err(fault) => Err(fault),
                },
            },
            StoreRequestView::ListAuthorizations { limit } => Outcome {
                tables: self,
                answer: if limit < 0 {
                    Err(StoreFault::Other)
                } else {
                    Ok(Answer::Authorizations(page_of(self.authorizations, 0, limit)))
                },
            },
            StoreRequestView::FindAuthorizations { id, limit } => Outcome {
                tables: self,
                answer: if limit < 0 {
                    Err(StoreFault::Other)
                } else {
                    Ok(
                        Answer::Authorizations(
                            page_of(
                                self.authorizations.filter(|row: AuthorizationView| row.id == id),
                                0,
                                limit,
                            ),
                        ),
                    )
                },
            },
            StoreRequestView::InsertUser { user } => {
                if has_key(self.authorizations, authorization_key(), user.authorization_id) {
                    let row = user.stored(next_key(self.users, user_key()));
                    Outcome {
                        tables: Tables { users: self.users.push(row), ..self },
                        answer: Ok(Answer::User(row)),
                    }
                } else {
                    Outcome { tables: self, answer: Err(StoreFault::ForeignKeyViolation) }
                }
            },
            StoreRequestView::FindClient { id } => Outcome {
                tables: self,
                answer: match found(self.clients, client_key(), id) {
                    Ok(client) => Ok(Answer::Client(client)),
                    Err(fault) => Err(fault),
                },
            },
            StoreRequestView::ListClients { offset, limit } => Outcome {
                tables: self,
                answer: if offset < 0 || limit < 0 {
                    Err(StoreFault::Other)
                } else {
                    Ok(Answer::Clients(page_of(self.clients, offset, limit)))
                },
            },
            StoreRequestView::InsertClient { client } => {
                let row = client.stored(next_key(self.clients, client_key()));
                Outcome {
                    tables: Tables { clients: self.clients.push(row), ..self },
                    answer: Ok(Answer::Client(row)),
                }
            },
            StoreRequestView::UpdateClientAddress { id, address } => {
                if has_key(self.clients, client_key(), id) {
                    let at = position_of(self.clients, client_key(), id);
                    let row = self.clients[at].readdressed(address);
                    Outcome {
                        tables: Tables { clients: self.clients.update(at, row), ..self },
                        answer: Ok(Answer::Client(row)),
                    }
                } else {
                    Outcome { tables: self, answer: Err(StoreFault::NotFound) }
                }
            },
            StoreRequestView::FindWorksite { id } => Outcome {
                tables: self,
                answer: match found(self.worksites, worksite_key(), id) {
                    Ok(worksite) => Ok(Answer::Worksite(worksite)),
                    Err(fault) => Err(fault),
                },
            },
            StoreRequestView::InsertWorksite { worksite } => {
                if has_key(self.clients, client_key(), worksite.client_id) {
                    let row = worksite.stored(next_key(self.worksites, worksite_key()));
                    Outcome {
                        tables: Tables { worksites: self.worksites.push(row), ..self },
                        answer: Ok(Answer::Worksite(row)),
                    }
                } else {
                    Outcome { tables: self, answer: Err(StoreFault::ForeignKeyViolation) }
                }
            },
        }
    }
}

/// A row pushed under the next key keeps the keys ascending, and is the row
/// found under that key.
pub proof fn lemma_push_next_key<T>(rows: Seq<T>, key: spec_fn(T) -> int, row: T)
    requires
        keys_ascend(rows, key),
        key(row) == next_key(rows, key),
    ensures
        keys_ascend(rows.push(row), key),
        found(rows.push(row), key, key(row)) == Ok::<T, StoreFault>(row),
        forall|id: int| has_key(rows, key, id) ==> has_key(rows.push(row), key, id),
{
    let longer = rows.push(row);
    assert forall|i: int, j: int| 0 <= i < j < longer.len() implies key(#[trigger] longer[i]) < key(
        #[trigger] longer[j],
    ) by {
        if j == rows.len() {
            assert(longer[i] == rows[i]);
            assert(key(rows[i]) <= key(rows[rows.len() - 1]));
        } else {
            assert(longer[i] == rows[i] && longer[j] == rows[j]);
        }
    }
    assert forall|i: int| 0 <= i < longer.len() implies key(#[trigger] longer[i]) >= 1 by {
        if i < rows.len() {
            assert(longer[i] == rows[i]);
        } else if rows.len() > 0 {
            assert(key(rows[rows.len() - 1]) >= 1);
        }
    }
    let last = rows.len() as int;
    assert(longer[last] == row);
    assert(has_key(longer, key, key(row)));
    let at = position_of(longer, key, key(row));
    if at != last {
        assert(key(longer[at]) < key(longer[last]));
    }
    assert forall|id: int| has_key(rows, key, id) implies has_key(longer, key, id) by {
        let i = position_of(rows, key, id);
        assert(longer[i] == rows[i]);
    }
}

/// Where the keys ascend, the row found under the key of a row is that row.
pub proof fn lemma_found_is_the_row<T>(rows: Seq<T>, key: spec_fn(T) -> int, at: int)
    requires
        keys_ascend(rows, key),
        0 <= at < rows.len(),
    ensures
        has_key(rows, key, key(rows[at])),
        position_of(rows, key, key(rows[at])) == at,
        found(rows, key, key(rows[at])) == Ok::<T, StoreFault>(rows[at]),
{
    assert(has_key(rows, key, key(rows[at])));
    let other = position_of(rows, key, key(rows[at]));
    if other < at {
        assert(key(rows[other]) < key(rows[at]));
    } else if at < other {
        assert(key(rows[at]) < key(rows[other]));
    }
}

/// Whatever the request, tables that are well formed stay so.
pub proof fn lemma_run_keeps_tables_well_formed(tables: Tables, request: StoreRequestView)
    requires
        tables.wf(),
    ensures
        tables.run(request).tables.wf(),
{
    let after = tables.run(request).tables;
    match request {
        StoreRequestView::InsertUser { user } => {
            if has_key(tables.authorizations, authorization_key(), user.authorization_id) {
                let row = user.stored(next_key(tables.users, user_key()));
                lemma_push_next_key(tables.users, user_key(), row);
                assert forall|i: int| 0 <= i < after.users.len() implies has_key(
                    after.authorizations,
                    authorization_key(),
                    (#[trigger] after.users[i]).authorization_id,
                ) by {
                    if i < tables.users.len() {
                        assert(after.users[i] == tables.users[i]);
                    }
                }
            }
        },
        StoreRequestView::InsertClient { client } => {
            let row = client.stored(next_key(tables.clients, client_key()));
            lemma_push_next_key(tables.clients, client_key(), row);
            assert forall|i: int| 0 <= i < after.worksites.len() implies has_key(
                after.clients,
                client_key(),
                (#[trigger] after.worksites[i]).client_id,
            ) by {
                assert(has_key(tables.clients, client_key(), tables.worksites[i].client_id));
            }
        },
        StoreRequestView::UpdateClientAddress { id, address } => {
            if has_key(tables.clients, client_key(), id) {
                let at = position_of(tables.clients, client_key(), id);
                assert forall|i: int| 0 <= i < after.clients.len() implies client_key()(
                    #[trigger] after.clients[i],
                ) == client_key()(tables.clients[i]) by {}
                assert forall|i: int| 0 <= i < after.worksites.len() implies has_key(
                    after.clients,
                    client_key(),
                    (#[trigger] after.worksites[i]).client_id,
                ) by {
                    let wanted = tables.worksites[i].client_id;
                    assert(has_key(tables.clients, client_key(), wanted));
                    let k = position_of(tables.clients, client_key(), wanted);
                    assert(client_key()(after.clients[k]) == wanted);
                }
            }
        },
        StoreRequestView::InsertWorksite { worksite } => {
            if has_key(tables.clients, client_key(), worksite.client_id) {
                let row = worksite.stored(next_key(tables.worksites, worksite_key()));
                lemma_push_next_key(tables.worksites, worksite_key(), row);
                assert forall|i: int| 0 <= i < after.worksites.len() implies has_key(
                    after.clients,
                    client_key(),
                    (#[trigger] after.worksites[i]).client_id,
                ) by {
                    if i < tables.worksites.len() {
                        assert(after.worksites[i] == tables.worksites[i]);
                    }
                }
            }
        },
        _ => {},
    }
}

/// Whether no user in the tables has the name.
pub open spec fn name_is_free(tables: Tables, name: Seq<char>) -> bool {
    forall|i: int| 0 <= i < tables.users.len() ==> (#[trigger] tables.users[i]).name != name
}

/// Among users of whom one has the name, one is the first to have it.
proof fn lemma_first_named_exists(users: Seq<UserView>, name: Seq<char>, at: int)
    requires
        0 <= at < users.len(),
        users[at].name == name,
    ensures
        exists|i: int| is_first_named(users, name, i),
    decreases at,
{
    if exists|k: int| 0 <= k < at && (#[trigger] users[k]).name == name {
        let k = choose|k: int| 0 <= k < at && (#[trigger] users[k]).name == name;
        lemma_first_named_exists(users, name, k);
    } else {
        assert(is_first_named(users, name, at));
    }
}

/// A name finds a user exactly where some user has it, and the user found
/// has the name.
pub proof fn lemma_name_finds_who_has_it(tables: Tables, name: Seq<char>)
    ensures
        match tables.user_named(name) {
            Ok(user) => user.name == name && !name_is_free(tables, name),
            Err(fault) => fault == StoreFault::NotFound && name_is_free(tables, name),
        },
{
    if exists|i: int| is_first_named(tables.users, name, i) {
        let at = choose|i: int| is_first_named(tables.users, name, i);
        assert(tables.users[at].name == name);
    } else {
        assert forall|i: int| 0 <= i < tables.users.len() implies (#[trigger] tables.users[i]).name
            != name by {
            if tables.users[i].name == name {
                lemma_first_named_exists(tables.users, name, i);
            }
        }
    }
}

/// The user found under a name is the one at the first position that has
/// it.
pub proof fn lemma_named_is_the_first(tables: Tables, name: Seq<char>, at: int)
    requires
        is_first_named(tables.users, name, at),
    ensures
        tables.user_named(name) == Ok::<UserView, StoreFault>(tables.users[at]),
{
    let chosen = choose|i: int| is_first_named(tables.users, name, i);
    if chosen < at {
        assert(tables.users[chosen].name != name);
    } else if at < chosen {
        assert(tables.users[at].name != name);
    }
}

/// Where a user is added at the end: a name that was free now finds the new
/// user, and every other name finds whom it found before.
pub proof fn lemma_names_after_insertion(tables: Tables, row: UserView, name: Seq<char>)
    ensures
        ({
            let after = Tables { users: tables.users.push(row), ..tables };
            &&& row.name == name && name_is_free(tables, name) ==> after.user_named(name) == Ok::<
                UserView,
                StoreFault,
            >(row)
            &&& row.name != name ==> after.user_named(name) == tables.user_named(name)
        }),
{
    let before = tables.users;
    let after = Tables { users: before.push(row), ..tables };
    let last = before.len() as int;
    assert forall|i: int| 0 <= i < last implies #[trigger] after.users[i] == before[i] by {}
    if row.name == name && name_is_free(tables, name) {
        assert(is_first_named(after.users, name, last)) by {
            assert forall|j: int| 0 <= j < last implies (#[trigger] after.users[j]).name
                != name by {
                assert(after.users[j] == tables.users[j]);
            }
        }
        lemma_named_is_the_first(after, name, last);
    } else if row.name != name {
        if exists|i: int| is_first_named(before, name, i) {
            let at = choose|i: int| is_first_named(before, name, i);
            lemma_named_is_the_first(tables, name, at);
            assert(is_first_named(after.users, name, at)) by {
                assert(after.users[at] == before[at]);
                assert forall|j: int| 0 <= j < at implies (#[trigger] after.users[j]).name
                    != name by {
                    assert(after.users[j] == before[j]);
                }
            }
            lemma_named_is_the_first(after, name, at);
        } else {
            assert forall|i: int| !is_first_named(after.users, name, i) by {
                if is_first_named(after.users, name, i) {
                    assert(i < last);
                    assert(after.users[i] == before[i]);
                    assert(is_first_named(before, name, i)) by {
                        assert forall|j: int| 0 <= j < i implies (#[trigger] before[j]).name
                            != name by {
                            assert(after.users[j] == before[j]);
                        }
                    }
                }
            }
        }
    }
}

} // verus!
