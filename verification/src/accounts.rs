//! Accounts: roles, and what the account mutations report when storage
//! refuses a change.

use vstd::prelude::*;
use vstd::string::*;

verus! {

/// What a user may do.
#[derive(Clone, Copy, Debug, PartialEq, Eq, Structural)]
pub enum Role {
    SUPERUSER,
    STAFF,
    PREMIUM,
    BASIC,
}

impl Role {
    /// The role that a new user gets: the one asked for, or `BASIC`.
    pub fn or_basic(asked: Option<Role>) -> (role: Role)
        ensures
            role == match asked {
                Some(r) => r,
                None => Role::BASIC,
            },
    {
        match asked {
            Some(r) => r,
            None => Role::BASIC,
        }
    }

    /// The name of the role as storage writes it.
    pub open spec fn name_text(self) -> Seq<char> {
        match self {
            Role::SUPERUSER => "superuser"@,
            Role::STAFF => "staff"@,
            Role::PREMIUM => "premium"@,
            Role::BASIC => "basic"@,
        }
    }

    /// The name of the role as storage writes it.
    pub fn name(&self) -> (s: &'static str)
        ensures
            s@ == self.name_text(),
    {
        match self {
            Role::SUPERUSER => "superuser",
            Role::STAFF => "staff",
            Role::PREMIUM => "premium",
            Role::BASIC => "basic",
        }
    }
}

/// The error of the `pwhash` crate, carried through unread.
#[verifier::external_type_specification]
#[verifier::external_body]
pub struct ExHashError(pwhash::error::Error);

/// A password could not be hashed.
#[derive(Clone, Copy, Debug, PartialEq, Eq, Structural)]
pub struct HashFailed;

/// `pwhash::bcrypt::hash`. The salt is drawn at random, so nothing is said of
/// the hash that comes back, nor of when the call fails.
#[verifier::external_body]
fn bcrypt_hash(password: &str) -> (r: Result<String, pwhash::error::Error>) {
    pwhash::bcrypt::hash(password)
}

/// The hash under which `password` is stored. Each call salts anew.
pub fn hash_password(password: &str) -> (r: Result<String, HashFailed>) {
    match bcrypt_hash(password) {
        Ok(hash) => Ok(hash),
        Err(_) => Err(HashFailed),
    }
}

/// What is asked when a user is created.
#[derive(Clone, Debug)]
pub struct CreateUserInput {
    pub email: String,
    pub username: String,
    pub password: String,
    pub role: Option<Role>,
    pub organization_id: Option<u128>,
}

/// The row that is written for a new user: the password is held as its hash
/// only.
#[derive(Clone, Debug, PartialEq, Eq)]
pub struct NewUser {
    pub email: String,
    pub username: String,
    pub password_hash: String,
    pub role: Role,
    pub organization_id: Option<u128>,
}

impl NewUser {
    /// Whether `self` is the row for `input`, whatever the hash: email, name
    /// and organization as given, and the role asked for or `BASIC`.
    pub open spec fn is_row_of(self, input: CreateUserInput) -> bool {
        &&& self.email@ == input.email@
        &&& self.username@ == input.username@
        &&& self.role == match input.role {
            Some(r) => r,
            None => Role::BASIC,
        }
        &&& self.organization_id == input.organization_id
    }

    /// The row for `input`, given the outcome of hashing its password.
    pub fn with_hash(input: &CreateUserInput, hashed: Result<String, HashFailed>) -> (r: Result<
        NewUser,
        HashFailed,
    >)
        ensures
            match hashed {
                Ok(hash) => r is Ok && r->Ok_0.is_row_of(*input) && r->Ok_0.password_hash == hash,
                Err(e) => r == Err::<NewUser, HashFailed>(e),
            },
    {
        match hashed {
            Ok(hash) => Ok(
                NewUser {
                    email: input.email.clone(),
                    username: input.username.clone(),
                    password_hash: hash,
                    role: Role::or_basic(input.role),
                    organization_id: input.organization_id,
                },
            ),
            Err(e) => Err(e),
        }
    }

    /// The row for `input`, with its password hashed.
    pub fn prepare(input: &CreateUserInput) -> (r: Result<NewUser, HashFailed>)
        ensures
            r is Ok ==> r->Ok_0.is_row_of(*input),
    {
        let hashed = hash_password(input.password.as_str());
        Self::with_hash(input, hashed)
    }
}

/// How a write to storage failed, as far as the mutations tell failures
/// apart.
#[derive(Clone, Debug, PartialEq, Eq)]
pub enum StorageFailure {
    /// No row matched.
    RowNotFound,
    /// The named constraint was violated.
    Constraint(String),
    /// Anything else.
    Other,
}

/// What an account mutation reports.
#[derive(Clone, Copy, Debug, PartialEq, Eq, Structural)]
pub enum AccountError {
    UserNotFound,
    UsernameTaken,
    UserExistsError,
    /// Storage failed in a way that says nothing about the account.
    Storage,
}

/// The constraint that keeps usernames unique.
pub open spec fn username_constraint() -> Seq<char> {
    "populist_user_username_key"@
}

/// The constraint that keeps email addresses unique.
pub open spec fn email_constraint() -> Seq<char> {
    "populist_user_email_key"@
}

/// What a failed write means where one constraint has a meaning of its own.
pub open spec fn failure_meaning(
    failure: StorageFailure,
    constraint: Seq<char>,
    taken: AccountError,
) -> AccountError {
    match failure {
        StorageFailure::RowNotFound => AccountError::UserNotFound,
        StorageFailure::Constraint(c) => if c@ == constraint {
            taken
        } else {
            AccountError::Storage
        },
        StorageFailure::Other => AccountError::Storage,
    }
}

/// What a failed write means where no constraint has a meaning of its own.
pub open spec fn plain_failure_meaning(failure: StorageFailure) -> AccountError {
    match failure {
        StorageFailure::RowNotFound => AccountError::UserNotFound,
        _ => AccountError::Storage,
    }
}

fn classify(failure: &StorageFailure, constraint: &str, taken: AccountError) -> (e: AccountError)
    ensures
        e == failure_meaning(*failure, constraint@, taken),
{
    match failure {
        StorageFailure::RowNotFound => AccountError::UserNotFound,
        StorageFailure::Constraint(c) => {
            let named = String::from_str(constraint);
            if *c == named {
                taken
            } else {
                AccountError::Storage
            }
        },
        StorageFailure::Other => AccountError::Storage,
    }
}

/// The mutations of the signed-in user's account, as far as they decide
/// anything once storage has answered.
#[derive(Default)]
pub struct UserMutation;

impl UserMutation {
    /// The outcome of changing the username: the new name, or why not. A
    /// violation of the username constraint means the name is taken.
    pub fn update_username(written: Result<String, StorageFailure>) -> (r: Result<
        String,
        AccountError,
    >)
        ensures
            match written {
                Ok(name) => r == Ok::<String, AccountError>(name),
                Err(f) => r == Err::<String, AccountError>(
                    failure_meaning(f, username_constraint(), AccountError::UsernameTaken),
                ),
            },
    {
        match written {
            Ok(name) => Ok(name),
            Err(f) => Err(classify(&f, "populist_user_username_key", AccountError::UsernameTaken)),
        }
    }

    /// The outcome of changing the email address: the new address, or why
    /// not. A violation of the email constraint means another user has it.
    pub fn update_email(written: Result<String, StorageFailure>) -> (r: Result<
        String,
        AccountError,
    >)
        ensures
            match written {
                Ok(email) => r == Ok::<String, AccountError>(email),
                Err(f) => r == Err::<String, AccountError>(
                    failure_meaning(f, email_constraint(), AccountError::UserExistsError),
                ),
            },
    {
        match written {
            Ok(email) => Ok(email),
            Err(f) => Err(classify(&f, "populist_user_email_key", AccountError::UserExistsError)),
        }
    }

    /// The outcome of changing first and last name: the names as written, or
    /// why not.
    pub fn update_first_and_last_name(
        written: Result<(Option<String>, Option<String>), StorageFailure>,
    ) -> (r: Result<(Option<String>, Option<String>), AccountError>)
        ensures
            match written {
                Ok(names) => r == Ok::<(Option<String>, Option<String>), AccountError>(names),
                Err(f) => r == Err::<(Option<String>, Option<String>), AccountError>(
                    plain_failure_meaning(f),
                ),
            },
    {
        match written {
            Ok(names) => Ok(names),
            Err(StorageFailure::RowNotFound) => Err(AccountError::UserNotFound),
            Err(_) => Err(AccountError::Storage),
        }
    }
}

} // verus!
