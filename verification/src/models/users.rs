//! Users and their authorization levels: the records and the resolvers that
//! fetch, create and authenticate users.

use vstd::prelude::*;
use crate::credentials::{
    argon2id_header, encoded_text, hash, hashed_under, is_credential_for, led_by, password_fits,
    salted, verification, verify, CredentialFormatError, HashingFailed,
};
use crate::errors::{fault_error, ResolverError};
use crate::store::{planned, Checkout, StoreFault, StoreRequest, StoreRequestView};

verus! {

/// A user of the application as the store holds it. `password` is the
/// encoded hash of the password, never the password.
#[derive(Clone, Debug, PartialEq, Eq)]
pub struct User {
    pub id: i32,
    pub authorization_id: i32,
    pub name: String,
    pub password: String,
}

/// What a user record holds.
pub struct UserView {
    pub id: int,
    pub authorization_id: int,
    pub name: Seq<char>,
    pub password: Seq<char>,
}

impl View for User {
    type V = UserView;

    open spec fn view(&self) -> UserView {
        UserView {
            id: self.id as int,
            authorization_id: self.authorization_id as int,
            name: self.name@,
            password: self.password@,
        }
    }
}

/// An authorization level. Reference data: it is read, never written.
#[derive(Clone, Debug, PartialEq, Eq)]
pub struct Authorization {
    pub id: i32,
    pub level: String,
}

/// What an authorization level holds.
pub struct AuthorizationView {
    pub id: int,
    pub level: Seq<char>,
}

impl View for Authorization {
    type V = AuthorizationView;

    open spec fn view(&self) -> AuthorizationView {
        AuthorizationView { id: self.id as int, level: self.level@ }
    }
}

/// A user that is about to be stored: everything but the id, the password
/// already hashed.
#[derive(Clone, Debug, PartialEq, Eq)]
pub struct NewUser {
    pub authorization_id: i32,
    pub name: String,
    pub password: String,
}

/// What a user that is about to be stored holds.
pub struct NewUserView {
    pub authorization_id: int,
    pub name: Seq<char>,
    pub password: Seq<char>,
}

impl View for NewUser {
    type V = NewUserView;

    open spec fn view(&self) -> NewUserView {
        NewUserView {
            authorization_id: self.authorization_id as int,
            name: self.name@,
            password: self.password@,
        }
    }
}

impl NewUserView {
    /// The record that the store holds once it has inserted this row under
    /// the id `id`.
    pub open spec fn stored(self, id: int) -> UserView {
        UserView {
            id,
            authorization_id: self.authorization_id,
            name: self.name,
            password: self.password,
        }
    }
}

/// Name and password as the interface receives them to authenticate a user.
#[derive(Clone, Debug, PartialEq, Eq)]
pub struct Authenticate {
    pub name: String,
    pub password: String,
}

/// What the interface receives to create a user; `password` is the password
/// itself.
#[derive(Clone, Debug, PartialEq, Eq)]
pub struct UserInput {
    pub authorization_id: i32,
    pub name: String,
    pub password: String,
}

/// What a user input holds.
pub struct UserInputView {
    pub authorization_id: int,
    pub name: Seq<char>,
    pub password: Seq<char>,
}

impl View for UserInput {
    type V = UserInputView;

    open spec fn view(&self) -> UserInputView {
        UserInputView {
            authorization_id: self.authorization_id as int,
            name: self.name@,
            password: self.password@,
        }
    }
}

/// The most authorization levels that a listing gives.
pub const AUTHORIZATION_LIMIT: i64 = 3;

impl User {
    pub fn id(&self) -> (id: i32)
        ensures
            id == self.id,
    {
        self.id
    }

    pub fn authorization_id(&self) -> (id: i32)
        ensures
            id == self.authorization_id,
    {
        self.authorization_id
    }

    pub fn name(&self) -> (name: &str)
        ensures
            name@ == self.name@,
    {
        self.name.as_str()
    }

    pub fn password(&self) -> (password: &str)
        ensures
            password@ == self.password@,
    {
        self.password.as_str()
    }

    /// What `authorization` decides.
    pub open spec fn authorizing(self, checkout: Checkout) -> Result<
        StoreRequestView,
        ResolverError,
    > {
        match checkout {
            Checkout::TimedOut => Err(ResolverError::PoolExhausted),
            Checkout::Acquired => Ok(
                StoreRequestView::FindAuthorizations {
                    id: self.authorization_id as int,
                    limit: AUTHORIZATION_LIMIT as int,
                },
            ),
        }
    }

    /// The authorization levels of this user: asks the store for those with
    /// the user's authorization id, unless no connection could be had.
    pub fn authorization(&self, checkout: Checkout) -> (out: Result<StoreRequest, ResolverError>)
        ensures
            planned(out) == self.authorizing(checkout),
    {
        match checkout {
            Checkout::TimedOut => Err(ResolverError::PoolExhausted),
            Checkout::Acquired => Ok(
                StoreRequest::FindAuthorizations {
                    id: self.authorization_id,
                    limit: AUTHORIZATION_LIMIT,
                },
            ),
        }
    }
}

/// The resolvers that read users.
pub struct UserQuery;

impl UserQuery {
    /// What `fetch` decides.
    pub open spec fn fetching(checkout: Checkout, user_id: int) -> Result<
        StoreRequestView,
        ResolverError,
    > {
        match checkout {
            Checkout::TimedOut => Err(ResolverError::PoolExhausted),
            Checkout::Acquired => Ok(StoreRequestView::FindUser { id: user_id }),
        }
    }

    /// Fetch a user: asks the store for the user with this id, unless no
    /// connection could be had.
    pub fn fetch(&self, checkout: Checkout, user_id: i32) -> (out: Result<
        StoreRequest,
        ResolverError,
    >)
        ensures
            planned(out) == Self::fetching(checkout, user_id as int),
    {
        match checkout {
            Checkout::TimedOut => Err(ResolverError::PoolExhausted),
            Checkout::Acquired => Ok(StoreRequest::FindUser { id: user_id }),
        }
    }

    /// What `authorization` decides.
    pub open spec fn authorizing(checkout: Checkout) -> Result<StoreRequestView, ResolverError> {
        match checkout {
            Checkout::TimedOut => Err(ResolverError::PoolExhausted),
            Checkout::Acquired => Ok(
                StoreRequestView::ListAuthorizations { limit: AUTHORIZATION_LIMIT as int },
            ),
        }
    }

    /// Get the authorization levels: asks the store for the first
    /// `AUTHORIZATION_LIMIT` of them, unless no connection could be had.
    pub fn authorization(checkout: Checkout) -> (out: Result<StoreRequest, ResolverError>)
        ensures
            planned(out) == Self::authorizing(checkout),
    {
        match checkout {
            Checkout::TimedOut => Err(ResolverError::PoolExhausted),
            Checkout::Acquired => Ok(
                StoreRequest::ListAuthorizations { limit: AUTHORIZATION_LIMIT },
            ),
        }
    }
}

/// The resolvers that create and authenticate users.
pub struct UserMutation;

impl UserMutation {
    /// What creating a user decides once the password has been through the
    /// hasher: the pool comes first; a hashing failure is reported as an
    /// internal one, and so is a hash that repeats the password, which is
    /// never stored; else the row takes authorization and name as given and
    /// the encoded hash in place of the password.
    pub open spec fn creation(
        checkout: Checkout,
        input: UserInputView,
        hashed: Result<Seq<char>, HashingFailed>,
    ) -> Result<StoreRequestView, ResolverError> {
        match checkout {
            Checkout::TimedOut => Err(ResolverError::PoolExhausted),
            Checkout::Acquired => match hashed {
                Err(_) => Err(ResolverError::Internal),
                Ok(password) => if password == input.password {
                    Err(ResolverError::Internal)
                } else {
                    Ok(
                        StoreRequestView::InsertUser {
                            user: NewUserView {
                                authorization_id: input.authorization_id,
                                name: input.name,
                                password,
                            },
                        },
                    )
                },
            },
        }
    }

    /// Creates a user from the input and the outcome of hashing its
    /// password.
    pub fn create_with(
        checkout: Checkout,
        input: UserInput,
        hashed: Result<String, HashingFailed>,
    ) -> (out: Result<StoreRequest, ResolverError>)
        ensures
            planned(out) == Self::creation(checkout, input@, encoded_text(hashed)),
    {
        match checkout {
            Checkout::TimedOut => Err(ResolverError::PoolExhausted),
            Checkout::Acquired => match hashed {
                Err(_) => Err(ResolverError::Internal),
                Ok(password) => if password == input.password {
                    Err(ResolverError::Internal)
                } else {
                    Ok(
                        StoreRequest::InsertUser {
                            user: NewUser {
                                authorization_id: input.authorization_id,
                                name: input.name,
                                password,
                            },
                        },
                    )
                },
            },
        }
    }

    /// Create a new user: hashes the password under a fresh salt and asks
    /// the store to insert the user with the encoded hash. Without a
    /// connection nothing is hashed and the pool's failure is reported. With
    /// one, the answer is what `creation` decides for the outcome of hashing
    /// the password under the salt drawn: the request to insert the user for
    /// every password within Argon2's length limit, unless the hash repeats
    /// the password, which no password does that lacks the Argon2id header.
    /// The row that is handed to the store holds a credential that begins
    /// with the header, the salt and a `$`, that `verify` accepts for the
    /// password given, and that is never the password itself.
    pub fn create(checkout: Checkout, input: UserInput) -> (out: Result<
        StoreRequest,
        ResolverError,
    >)
        ensures
            checkout == Checkout::TimedOut ==> out == Err::<StoreRequest, ResolverError>(
                ResolverError::PoolExhausted,
            ),
            checkout == Checkout::Acquired ==> exists|salt: Seq<char>|
                {
                    &&& #[trigger] hashed_under(
                        input@.password,
                        salt,
                        salted(input@.password, salt),
                    )
                    &&& planned(out) == Self::creation(
                        checkout,
                        input@,
                        salted(input@.password, salt),
                    )
                    &&& out matches Ok(StoreRequest::InsertUser { user }) ==> led_by(
                        user.password@,
                        salt,
                    )
                },
            checkout == Checkout::Acquired && password_fits(input@.password)
                && !argon2id_header().is_prefix_of(input@.password) ==> out.is_ok(),
            checkout == Checkout::Acquired && !password_fits(input@.password) ==> out == Err::<
                StoreRequest,
                ResolverError,
            >(ResolverError::Internal),
            out matches Ok(request) ==> {
                &&& request@ matches StoreRequestView::InsertUser { user }
                &&& user.authorization_id == input@.authorization_id
                &&& user.name == input@.name
                &&& is_credential_for(input@.password, user.password)
                &&& user.password != input@.password
            },
    {
        match checkout {
            Checkout::TimedOut => Err(ResolverError::PoolExhausted),
            Checkout::Acquired => {
                let hashed = hash(input.password.as_str());
                let ghost salt = choose|salt: Seq<char>| #[trigger]
                    hashed_under(input@.password, salt, encoded_text(hashed));
                let out = Self::create_with(checkout, input, hashed);
                assert(hashed_under(input@.password, salt, salted(input@.password, salt)));
                out
            },
        }
    }

    /// What `authenticate_user` decides.
    pub open spec fn seeking(checkout: Checkout, name: Seq<char>) -> Result<
        StoreRequestView,
        ResolverError,
    > {
        match checkout {
            Checkout::TimedOut => Err(ResolverError::PoolExhausted),
            Checkout::Acquired => Ok(StoreRequestView::FindUserByName { name }),
        }
    }

    /// Authenticate a user, first half: asks the store for the user with the
    /// given name, unless no connection could be had.
    pub fn authenticate_user(checkout: Checkout, input: &Authenticate) -> (out: Result<
        StoreRequest,
        ResolverError,
    >)
        ensures
            planned(out) == Self::seeking(checkout, input.name@),
    {
        match checkout {
            Checkout::TimedOut => Err(ResolverError::PoolExhausted),
            Checkout::Acquired => Ok(StoreRequest::FindUserByName { name: input.name.clone() }),
        }
    }

    /// Whom the interface lets in, given the user found and the outcome of
    /// checking the password: the user where the password was accepted, and
    /// the same failure whether it was rejected or the stored credential
    /// could not be read.
    pub open spec fn granting(user: User, verdict: Result<bool, CredentialFormatError>) -> Result<
        User,
        ResolverError,
    > {
        match verdict {
            Ok(true) => Ok(user),
            _ => Err(ResolverError::InvalidCredentials),
        }
    }

    /// Decides on the user found from the outcome of checking the password.
    pub fn grant(user: User, verdict: Result<bool, CredentialFormatError>) -> (out: Result<
        User,
        ResolverError,
    >)
        ensures
            out == Self::granting(user, verdict),
    {
        match verdict {
            Ok(true) => Ok(user),
            _ => Err(ResolverError::InvalidCredentials),
        }
    }

    /// What authentication answers, given the password and what the store
    /// found for the name: a name that nobody has fails as a wrong password
    /// does; any other store failure is reported as everywhere.
    pub open spec fn authentication(password: Seq<char>, found: Result<User, StoreFault>) -> Result<
        User,
        ResolverError,
    > {
        match found {
            Ok(user) => Self::granting(user, verification(password, user.password@)),
            Err(StoreFault::NotFound) => Err(ResolverError::InvalidCredentials),
            Err(fault) => Err(fault_error(fault)),
        }
    }

    /// Authenticate a user, second half: checks the password against the
    /// credential of the user that the store found.
    pub fn authenticated(input: &Authenticate, found: Result<User, StoreFault>) -> (out: Result<
        User,
        ResolverError,
    >)
        ensures
            out == Self::authentication(input.password@, found),
    {
        match found {
            Ok(user) => {
                let verdict = verify(input.password.as_str(), user.password.as_str());
                Self::grant(user, verdict)
            },
            Err(StoreFault::NotFound) => Err(ResolverError::InvalidCredentials),
            Err(fault) => Err(ResolverError::from_fault(fault)),
        }
    }
}

} // verus!
