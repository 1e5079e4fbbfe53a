//! What the interface guarantees when the resolvers of this crate work on a
//! store that answers as `Tables::run` says.

use vstd::prelude::*;
use crate::credentials::{
    argon2id_header, hashed_under, is_credential_for, lemma_salts_tell_credentials_apart,
    password_fits, salted, verification, CredentialFormatError,
};
use crate::errors::{fault_error, ResolverError};
use crate::graphql::{Mutation, Query};
use crate::models::clients::{
    AddressView, ClientInputView, ClientMutation, ClientQuery, ClientView, PAGE_SIZE,
};
use crate::models::users::{User, UserInputView, UserMutation, UserQuery, UserView};
use crate::models::worksites::CreateNewWorksiteView;
use crate::store::{page_of, Checkout, StoreFault, StoreRequestView};
use crate::tables::{
    client_key, has_key, lemma_found_is_the_row, lemma_name_finds_who_has_it,
    lemma_names_after_insertion, lemma_push_next_key, name_is_free, next_key, position_of,
    user_key, worksite_key, Answer, Tables,
};
use crate::timestamp::Timestamp;

verus! {

/// A user that has been created is fetched under its id exactly as it was
/// stored: with the credential that the hasher made, which the hasher
/// accepts for the password, and which is not the password. Creation asks
/// nothing of the store only where the hash repeats the password.
pub proof fn lemma_created_user_holds_credential_not_password(
    tables: Tables,
    input: UserInputView,
    encoded: Seq<char>,
)
    requires
        tables.wf(),
        is_credential_for(input.password, encoded),
    ensures
        match UserMutation::creation(Checkout::Acquired, input, Ok(encoded)) {
            Err(error) => encoded == input.password && error == ResolverError::Internal,
            Ok(create) => tables.run(create).answer matches Ok(Answer::User(user)) ==> {
                &&& UserQuery::fetching(Checkout::Acquired, user.id) matches Ok(fetch)
                &&& tables.run(create).tables.run(fetch).answer == Ok::<Answer, StoreFault>(
                    Answer::User(user),
                )
                &&& user.name == input.name
                &&& user.authorization_id == input.authorization_id
                &&& is_credential_for(input.password, user.password)
                &&& user.password != input.password
            },
        },
{
    if encoded != input.password {
        let create = UserMutation::creation(Checkout::Acquired, input, Ok(encoded))->Ok_0;
        if tables.run(create).answer is Ok {
            let row = create->user.stored(next_key(tables.users, user_key()));
            lemma_push_next_key(tables.users, user_key(), row);
        }
    }
}

/// Whether authentication with the password lets in every record that holds
/// what `user` holds, as itself.
pub open spec fn lets_in(password: Seq<char>, user: UserView) -> bool {
    forall|row: User|
        #[trigger] row@ == user ==> UserMutation::authentication(password, Ok(row)) == Ok::<
            User,
            ResolverError,
        >(row)
}

/// Whether authentication with the password turns away every record that
/// holds what `user` holds, with the failure that tells nothing.
pub open spec fn turns_away(password: Seq<char>, user: UserView) -> bool {
    forall|row: User|
        #[trigger] row@ == user ==> UserMutation::authentication(password, Ok(row)) == Err::<
            User,
            ResolverError,
        >(ResolverError::InvalidCredentials)
}

/// A user created under a name that was free is found under that name and
/// let in with the password given at creation; with any password that the
/// hasher does not accept for the stored credential the same user is turned
/// away, and so is whoever gives a name that nobody has.
pub proof fn lemma_created_user_authenticates(
    tables: Tables,
    input: UserInputView,
    encoded: Seq<char>,
    other: Seq<char>,
    stranger: Seq<char>,
)
    requires
        tables.wf(),
        is_credential_for(input.password, encoded),
        name_is_free(tables, input.name),
    ensures
        match UserMutation::creation(Checkout::Acquired, input, Ok(encoded)) {
            Err(error) => encoded == input.password && error == ResolverError::Internal,
            Ok(create) => tables.run(create).answer matches Ok(Answer::User(user)) ==> {
                let after = tables.run(create).tables;
                &&& UserMutation::seeking(Checkout::Acquired, input.name) matches Ok(find)
                &&& after.run(find).answer == Ok::<Answer, StoreFault>(Answer::User(user))
                &&& lets_in(input.password, user)
                &&& verification(other, user.password) != Ok::<bool, CredentialFormatError>(
                    true,
                ) ==> turns_away(other, user)
                &&& name_is_free(after, stranger) ==> {
                    &&& UserMutation::seeking(Checkout::Acquired, stranger) matches Ok(seek)
                    &&& after.run(seek).answer matches Err(fault)
                    &&& UserMutation::authentication(other, Err(fault)) == Err::<
                        User,
                        ResolverError,
                    >(ResolverError::InvalidCredentials)
                }
            },
        },
{
    if encoded != input.password {
        let create = UserMutation::creation(Checkout::Acquired, input, Ok(encoded))->Ok_0;
        if tables.run(create).answer is Ok {
            let row = create->user.stored(next_key(tables.users, user_key()));
            lemma_names_after_insertion(tables, row, input.name);
            let after = tables.run(create).tables;
            if name_is_free(after, stranger) {
                lemma_name_finds_who_has_it(after, stranger);
            }
        }
    }
}

/// Two users created one after the other with one password, under two names
/// that were free, are both let in with it, each found under their own name
/// and each as themselves.
pub proof fn lemma_users_with_one_password_both_authenticate(
    tables: Tables,
    first: UserInputView,
    second: UserInputView,
    first_encoded: Seq<char>,
    second_encoded: Seq<char>,
)
    requires
        tables.wf(),
        first.password == second.password,
        first.name != second.name,
        name_is_free(tables, first.name),
        name_is_free(tables, second.name),
        is_credential_for(first.password, first_encoded),
        is_credential_for(second.password, second_encoded),
        first_encoded != first.password,
        second_encoded != second.password,
    ensures
        ({
            &&& UserMutation::creation(Checkout::Acquired, first, Ok(first_encoded)) matches Ok(
                create_first,
            )
            &&& UserMutation::creation(Checkout::Acquired, second, Ok(second_encoded)) matches Ok(
                create_second,
            )
            &&& tables.run(create_first).answer matches Ok(Answer::User(one)) ==> {
                let between = tables.run(create_first).tables;
                between.run(create_second).answer matches Ok(Answer::User(two)) ==> {
                    let after = between.run(create_second).tables;
                    &&& one.id != two.id
                    &&& UserMutation::seeking(Checkout::Acquired, first.name) matches Ok(find_one)
                    &&& UserMutation::seeking(Checkout::Acquired, second.name) matches Ok(
                        find_two,
                    )
                    &&& after.run(find_one).answer == Ok::<Answer, StoreFault>(Answer::User(one))
                    &&& after.run(find_two).answer == Ok::<Answer, StoreFault>(Answer::User(two))
                    &&& lets_in(first.password, one)
                    &&& lets_in(second.password, two)
                }
            }
        }),
{
    let create_first = UserMutation::creation(Checkout::Acquired, first, Ok(first_encoded))->Ok_0;
    let create_second = UserMutation::creation(
        Checkout::Acquired,
        second,
        Ok(second_encoded),
    )->Ok_0;
    if tables.run(create_first).answer is Ok {
        let one = create_first->user.stored(next_key(tables.users, user_key()));
        let between = tables.run(create_first).tables;
        lemma_names_after_insertion(tables, one, first.name);
        assert(name_is_free(between, second.name)) by {
            assert forall|i: int| 0 <= i < between.users.len() implies (
            #[trigger] between.users[i]).name != second.name by {
                if i < tables.users.len() {
                    assert(between.users[i] == tables.users[i]);
                }
            }
        }
        if between.run(create_second).answer is Ok {
            let two = create_second->user.stored(next_key(between.users, user_key()));
            lemma_names_after_insertion(between, two, second.name);
            lemma_names_after_insertion(between, two, first.name);
        }
    }
}

/// Two users created with one password under two salts that differ are
/// handed to the store with two credentials that differ, neither of them
/// the password; and where the password fits and lacks the Argon2id header,
/// both are handed to the store.
pub proof fn lemma_one_password_two_salts_two_credentials(
    first: UserInputView,
    second: UserInputView,
    first_salt: Seq<char>,
    second_salt: Seq<char>,
)
    requires
        first.password == second.password,
        first_salt != second_salt,
        hashed_under(first.password, first_salt, salted(first.password, first_salt)),
        hashed_under(second.password, second_salt, salted(second.password, second_salt)),
    ensures
        ({
            let one = UserMutation::creation(
                Checkout::Acquired,
                first,
                salted(first.password, first_salt),
            );
            let two = UserMutation::creation(
                Checkout::Acquired,
                second,
                salted(second.password, second_salt),
            );
            &&& password_fits(first.password) && !argon2id_header().is_prefix_of(first.password)
                ==> one is Ok && two is Ok
            &&& one matches Ok(StoreRequestView::InsertUser { user: a }) ==> (two matches Ok(
                StoreRequestView::InsertUser { user: b },
            ) ==> a.password != b.password && a.password != first.password && b.password
                != second.password)
        }),
{
    if salted(first.password, first_salt) is Ok && salted(second.password, second_salt) is Ok {
        lemma_salts_tell_credentials_apart(
            salted(first.password, first_salt)->Ok_0,
            salted(second.password, second_salt)->Ok_0,
            first_salt,
            second_salt,
        );
    }
}

/// A client created without a list of interlocutors is fetched without one:
/// creation succeeds, and the list is absent in the stored record, not
/// empty.
pub proof fn lemma_absent_interlocutors_stay_absent(
    tables: Tables,
    input: ClientInputView,
    now: Timestamp,
)
    requires
        tables.wf(),
        input.address.is_some(),
        input.interlocutors.is_none(),
    ensures
        ({
            &&& ClientMutation::creation(Checkout::Acquired, input, now) matches Ok(create)
            &&& tables.run(create).answer matches Ok(Answer::Client(client))
            &&& ClientQuery::fetching(Checkout::Acquired, client.id) matches Ok(fetch)
            &&& tables.run(create).tables.run(fetch).answer == Ok::<Answer, StoreFault>(
                Answer::Client(client),
            )
            &&& client.interlocutors.is_none()
        }),
{
    let create = ClientMutation::creation(Checkout::Acquired, input, now)->Ok_0;
    let row = create->client.stored(next_key(tables.clients, client_key()));
    lemma_push_next_key(tables.clients, client_key(), row);
}

/// A client that has been created carries the moment of creation as both of
/// its timestamps, and name, address and interlocutors as they were given.
pub proof fn lemma_created_client_is_as_given(
    tables: Tables,
    input: ClientInputView,
    now: Timestamp,
)
    requires
        tables.wf(),
        input.address.is_some(),
    ensures
        ({
            &&& ClientMutation::creation(Checkout::Acquired, input, now) matches Ok(create)
            &&& tables.run(create).answer matches Ok(Answer::Client(client))
            &&& client.name == input.name
            &&& Some(client.address) == input.address
            &&& client.interlocutors == input.interlocutors
            &&& client.created_at == now
            &&& client.edited_at == now
        }),
{
}

/// Whether `new` is `old` but for the address: the given one where the
/// client is the one addressed, the old one where it is not.
pub open spec fn only_address_differs(
    old: ClientView,
    new: ClientView,
    client_id: int,
    address: AddressView,
) -> bool {
    &&& new.id == old.id
    &&& new.name == old.name
    &&& new.interlocutors == old.interlocutors
    &&& new.created_at == old.created_at
    &&& new.edited_at == old.edited_at
    &&& new.address == if old.id == client_id {
        address
    } else {
        old.address
    }
}

/// An address update changes the address of the one client and nothing
/// else: the client keeps id, name, interlocutors and both timestamps, every
/// other client is as it was, and so are the other tables. For an id that no
/// client has, the update is answered with a failure and changes nothing.
pub proof fn lemma_address_update_changes_only_the_address(
    tables: Tables,
    client_id: int,
    address: AddressView,
)
    requires
        tables.wf(),
    ensures
        ({
            let before = tables.clients;
            let after = tables.run(
                ClientMutation::readdressing(Checkout::Acquired, client_id, address)->Ok_0,
            );
            &&& ClientMutation::readdressing(Checkout::Acquired, client_id, address) is Ok
            &&& after.tables.clients.len() == before.len()
            &&& after.tables.authorizations == tables.authorizations
            &&& after.tables.users == tables.users
            &&& after.tables.worksites == tables.worksites
            &&& forall|i: int|
                0 <= i < before.len() ==> only_address_differs(
                    before[i],
                    #[trigger] after.tables.clients[i],
                    client_id,
                    address,
                )
            &&& match after.answer {
                Ok(answer) => {
                    &&& has_key(before, client_key(), client_id)
                    &&& answer == Answer::Client(
                        after.tables.clients[position_of(before, client_key(), client_id)],
                    )
                },
                Err(fault) => {
                    &&& !has_key(before, client_key(), client_id)
                    &&& fault_error(fault) == ResolverError::NotFound
                },
            }
        }),
{
    let before = tables.clients;
    let after = tables.run(
        ClientMutation::readdressing(Checkout::Acquired, client_id, address)->Ok_0,
    );
    if has_key(before, client_key(), client_id) {
        let at = position_of(before, client_key(), client_id);
        let row = before[at].readdressed(address);
        assert(after.tables.clients == before.update(at, row));
        assert forall|i: int| 0 <= i < before.len() implies only_address_differs(
            before[i],
            #[trigger] after.tables.clients[i],
            client_id,
            address,
        ) by {
            if i != at && before[i].id == client_id {
                lemma_found_is_the_row(before, client_key(), i);
            }
        }
    } else {
        assert(after.tables.clients == before);
        assert forall|i: int| 0 <= i < before.len() implies only_address_differs(
            before[i],
            #[trigger] after.tables.clients[i],
            client_id,
            address,
        ) by {
            if before[i].id == client_id {
                assert(client_key()(before[i]) == client_id);
            }
        }
    }
}

/// Creating a worksite for a client that does not exist fails as a
/// constraint violation and stores nothing; for a client that exists it
/// stores the worksite, which is then fetched under its id. (Without a
/// survey document nothing reaches the store: that is a missing field.)
pub proof fn lemma_worksite_needs_its_client(
    tables: Tables,
    input: CreateNewWorksiteView,
    now: Timestamp,
)
    requires
        tables.wf(),
    ensures
        match Mutation::creation(Checkout::Acquired, input, now) {
            Err(error) => {
                &&& input.worksite.is_none()
                &&& error == ResolverError::MissingField { field: "worksite" }
            },
            Ok(create) => match tables.run(create).answer {
                Err(fault) => {
                    &&& !has_key(tables.clients, client_key(), input.client_id)
                    &&& fault_error(fault) == ResolverError::ConstraintViolation
                    &&& tables.run(create).tables == tables
                },
                Ok(answer) => {
                    &&& has_key(tables.clients, client_key(), input.client_id)
                    &&& answer matches Answer::Worksite(worksite)
                    &&& worksite.client_id == input.client_id
                    &&& Some(worksite.worksite) == input.worksite
                    &&& worksite.created_at == now
                    &&& worksite.edited_at == now
                    &&& worksite.deleted_at.is_none()
                    &&& Query::fetching(Checkout::Acquired, worksite.id) matches Ok(fetch)
                    &&& tables.run(create).tables.run(fetch).answer == Ok::<Answer, StoreFault>(
                        Answer::Worksite(worksite),
                    )
                },
            },
        },
{
    if input.worksite.is_some() {
        let create = Mutation::creation(Checkout::Acquired, input, now)->Ok_0;
        if tables.run(create).answer is Ok {
            let row = create->worksite.stored(next_key(tables.worksites, worksite_key()));
            lemma_push_next_key(tables.worksites, worksite_key(), row);
        }
    }
}

/// A page of the client listing holds at most `PAGE_SIZE` clients, the page
/// that starts `PAGE_SIZE` further on holds the clients that follow them,
/// and no client is on both: every id on the later page is above every id
/// on the earlier one.
pub proof fn lemma_client_pages_follow_without_overlap(tables: Tables, offset: int)
    requires
        tables.wf(),
        0 <= offset,
    ensures
        ({
            &&& ClientQuery::listing(Checkout::Acquired, offset) matches Ok(first)
            &&& ClientQuery::listing(Checkout::Acquired, offset + PAGE_SIZE) matches Ok(second)
            &&& tables.run(first).answer matches Ok(Answer::Clients(page))
            &&& tables.run(second).answer matches Ok(Answer::Clients(next))
            &&& page.len() <= PAGE_SIZE
            &&& next.len() <= PAGE_SIZE
            &&& page + next == page_of(tables.clients, offset, 2 * PAGE_SIZE)
            &&& next.len() > 0 ==> page.len() == PAGE_SIZE
            &&& forall|i: int, j: int|
                0 <= i < page.len() && 0 <= j < next.len() ==> (#[trigger] page[i]).id < (
                #[trigger] next[j]).id
        }),
{
    let page = page_of(tables.clients, offset, PAGE_SIZE as int);
    let next = page_of(tables.clients, offset + PAGE_SIZE, PAGE_SIZE as int);
    assert(page + next =~= page_of(tables.clients, offset, 2 * PAGE_SIZE));
    assert forall|i: int, j: int| 0 <= i < page.len() && 0 <= j < next.len() implies (
    #[trigger] page[i]).id < (#[trigger] next[j]).id by {
        let low = tables.clients[offset + i];
        let high = tables.clients[offset + PAGE_SIZE + j];
        assert(client_key()(low) < client_key()(high));
    }
}

} // verus!
