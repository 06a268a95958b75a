use crate::actor::database::{Command, Outcome, Query, Reply, Step};
use crate::error::{Key, Model, PointercrateError};
use crate::middleware::auth::Authorization;
use crate::model::user::{password_objection, validate_password, PatchMe, Registration, User};
use crate::patch::PatchField;
use vstd::prelude::*;

verus! {

/// Asks for the account with the given id. Fails with `ModelNotFound` where the
/// store holds none.
#[derive(Debug)]
pub struct UserById(pub i32);

/// Asks for the account of the given name. Fails with `ModelNotFound` where the
/// store holds none.
#[derive(Debug)]
pub struct UserByName(pub String);

/// Has the account with the given id deleted. Fails with `ModelNotFound` where
/// the store holds none.
#[derive(Debug)]
pub struct DeleteUserById(pub i32);

/// Opens an account.
///
/// Fails with `InvalidUsername` where the name is shorter than 3 bytes or has
/// white space at one of its ends, else with `InvalidPassword` where the password
/// is shorter than 10 bytes, else with `NameTaken` where the store holds an account
/// of that name.
#[derive(Debug)]
pub struct Register(pub Registration);

/// Finds the account that an access token was given out for. Whatever goes wrong
/// on the way, the command fails with `Unauthorized`.
#[derive(Debug)]
pub struct TokenAuth(pub Authorization);

/// Finds the account that a name and a password belong to. Whatever goes wrong on
/// the way, the command fails with `Unauthorized`.
#[derive(Debug)]
pub struct BasicAuth(pub Authorization);

/// Makes the access tokens worthless that were given out for the account that the
/// name and the password belong to.
///
/// The account is found as `BasicAuth` finds it, and is then given its own
/// password anew, as `PatchCurrentUser` does it. The password gets a fresh hash
/// by that, and the tokens were signed with a key made from the old one.
#[derive(Debug)]
pub struct Invalidate(pub Authorization);

/// Changes an account on behalf of the account itself.
#[derive(Debug)]
pub struct PatchCurrentUser(pub User, pub PatchMe);

impl Command for UserById {
    type Output = User;

    /// The id that was asked for.
    type State = i32;

    type Query = Query;

    type Reply = Reply;

    open spec fn first_step(self) -> Step<i32, Query, User> {
        Step::Ask { state: self.0, query: Query::FindUserById(self.0) }
    }

    open spec fn next_step(state: i32, reply: Reply) -> Step<i32, Query, User> {
        match reply {
            Reply::User(Outcome::Value(user)) => Step::Done(Ok(user)),
            Reply::User(Outcome::NotFound) => Step::Done(
                Err(
                    PointercrateError::ModelNotFound {
                        kind: Model::User,
                        key: Key::Id(state),
                    },
                ),
            ),
            Reply::User(outcome) => Step::Done(Err(outcome.spec_failure())),
            _ => Step::Done(Err(PointercrateError::InvalidState)),
        }
    }

    open spec fn budget(state: Self::State) -> nat {
        0
    }

    proof fn lemma_budget(state: Self::State, reply: Self::Reply) {
    }

    fn start(self) -> (step: Step<i32, Query, User>) {
        Step::Ask { state: self.0, query: Query::FindUserById(self.0) }
    }

    fn resume(state: i32, reply: Reply) -> (step: Step<i32, Query, User>) {
        match reply {
            Reply::User(Outcome::Value(user)) => Step::Done(Ok(user)),
            Reply::User(Outcome::NotFound) => Step::Done(
                Err(
                    PointercrateError::ModelNotFound {
                        kind: Model::User,
                        key: Key::Id(state),
                    },
                ),
            ),
            Reply::User(outcome) => Step::Done(Err(outcome.failure())),
            _ => Step::Done(Err(PointercrateError::InvalidState)),
        }
    }
}

impl Command for UserByName {
    type Output = User;

    /// The name that was asked for.
    type State = String;

    type Query = Query;

    type Reply = Reply;

    open spec fn first_step(self) -> Step<String, Query, User> {
        Step::Ask { state: self.0, query: Query::FindUserByName(self.0) }
    }

    open spec fn next_step(state: String, reply: Reply) -> Step<String, Query, User> {
        match reply {
            Reply::User(Outcome::Value(user)) => Step::Done(Ok(user)),
            Reply::User(Outcome::NotFound) => Step::Done(
                Err(
                    PointercrateError::ModelNotFound {
                        kind: Model::User,
                        key: Key::Name(state),
                    },
                ),
            ),
            Reply::User(outcome) => Step::Done(Err(outcome.spec_failure())),
            _ => Step::Done(Err(PointercrateError::InvalidState)),
        }
    }

    open spec fn budget(state: Self::State) -> nat {
        0
    }

    proof fn lemma_budget(state: Self::State, reply: Self::Reply) {
    }

    fn start(self) -> (step: Step<String, Query, User>) {
        let name = self.0.clone();
        Step::Ask { state: self.0, query: Query::FindUserByName(name) }
    }

    fn resume(state: String, reply: Reply) -> (step: Step<String, Query, User>) {
        match reply {
            Reply::User(Outcome::Value(user)) => Step::Done(Ok(user)),
            Reply::User(Outcome::NotFound) => Step::Done(
                Err(
                    PointercrateError::ModelNotFound {
                        kind: Model::User,
                        key: Key::Name(state),
                    },
                ),
            ),
            Reply::User(outcome) => Step::Done(Err(outcome.failure())),
            _ => Step::Done(Err(PointercrateError::InvalidState)),
        }
    }
}

impl Command for DeleteUserById {
    type Output = ();

    /// The id of the account that is to go.
    type State = i32;

    type Query = Query;

    type Reply = Reply;

    open spec fn first_step(self) -> Step<i32, Query, ()> {
        Step::Ask { state: self.0, query: Query::DeleteUser(self.0) }
    }

    open spec fn next_step(state: i32, reply: Reply) -> Step<i32, Query, ()> {
        match reply {
            Reply::Written(Outcome::Value(_)) => Step::Done(Ok(())),
            Reply::Written(Outcome::NotFound) => Step::Done(
                Err(
                    PointercrateError::ModelNotFound {
                        kind: Model::User,
                        key: Key::Id(state),
                    },
                ),
            ),
            Reply::Written(outcome) => Step::Done(Err(outcome.spec_failure())),
            _ => Step::Done(Err(PointercrateError::InvalidState)),
        }
    }

    open spec fn budget(state: Self::State) -> nat {
        0
    }

    proof fn lemma_budget(state: Self::State, reply: Self::Reply) {
    }

    fn start(self) -> (step: Step<i32, Query, ()>) {
        Step::Ask { state: self.0, query: Query::DeleteUser(self.0) }
    }

    fn resume(state: i32, reply: Reply) -> (step: Step<i32, Query, ()>) {
        match reply {
            Reply::Written(Outcome::Value(_)) => Step::Done(Ok(())),
            Reply::Written(Outcome::NotFound) => Step::Done(
                Err(
                    PointercrateError::ModelNotFound {
                        kind: Model::User,
                        key: Key::Id(state),
                    },
                ),
            ),
            Reply::Written(outcome) => Step::Done(Err(outcome.failure())),
            _ => Step::Done(Err(PointercrateError::InvalidState)),
        }
    }
}

/// How far `Register` has come.
#[derive(Debug, PartialEq, Eq)]
pub enum Registering {
    /// The store is asked whether the name is in use.
    Checking(Registration),
    /// The name is free, and the account is being made.
    Creating,
}

impl Command for Register {
    type Output = User;

    type State = Registering;

    type Query = Query;

    type Reply = Reply;

    open spec fn first_step(self) -> Step<Registering, Query, User> {
        match self.0.objection() {
            Some(error) => Step::Done(Err(error)),
            None => Step::Ask {
                state: Registering::Checking(self.0),
                query: Query::FindUserByName(self.0.name),
            },
        }
    }

    open spec fn next_step(state: Registering, reply: Reply) -> Step<Registering, Query, User> {
        match state {
            Registering::Checking(registration) => match reply {
                Reply::User(Outcome::Value(_)) => Step::Done(Err(PointercrateError::NameTaken)),
                Reply::User(Outcome::NotFound) => Step::Ask {
                    state: Registering::Creating,
                    query: Query::InsertUser(registration),
                },
                Reply::User(outcome) => Step::Done(Err(outcome.spec_failure())),
                _ => Step::Done(Err(PointercrateError::InvalidState)),
            },
            Registering::Creating => match reply {
                Reply::User(Outcome::Value(user)) => Step::Done(Ok(user)),
                Reply::User(outcome) => Step::Done(Err(outcome.spec_failure())),
                _ => Step::Done(Err(PointercrateError::InvalidState)),
            },
        }
    }

    open spec fn budget(state: Self::State) -> nat {
        match state {
            Registering::Checking(_) => 1,
            Registering::Creating => 0,
        }
    }

    proof fn lemma_budget(state: Self::State, reply: Self::Reply) {
    }

    fn start(self) -> (step: Step<Registering, Query, User>) {
        match self.0.validate() {
            Err(error) => Step::Done(Err(error)),
            Ok(()) => {
                let name = self.0.name.clone();
                Step::Ask {
                    state: Registering::Checking(self.0),
                    query: Query::FindUserByName(name),
                }
            },
        }
    }

    fn resume(state: Registering, reply: Reply) -> (step: Step<Registering, Query, User>) {
        match state {
            Registering::Checking(registration) => match reply {
                Reply::User(Outcome::Value(_)) => Step::Done(Err(PointercrateError::NameTaken)),
                Reply::User(Outcome::NotFound) => Step::Ask {
                    state: Registering::Creating,
                    query: Query::InsertUser(registration),
                },
                Reply::User(outcome) => Step::Done(Err(outcome.failure())),
                _ => Step::Done(Err(PointercrateError::InvalidState)),
            },
            Registering::Creating => match reply {
                Reply::User(Outcome::Value(user)) => Step::Done(Ok(user)),
                Reply::User(outcome) => Step::Done(Err(outcome.failure())),
                _ => Step::Done(Err(PointercrateError::InvalidState)),
            },
        }
    }
}

/// How far `TokenAuth` has come.
#[derive(Debug, PartialEq, Eq)]
pub enum TokenChecking {
    /// The token is being read for the id that it names.
    Decoding(String),
    /// The account that the token names is being found.
    Finding { token: String, id: i32 },
    /// The token is being held against the key of the account.
    Verifying(User),
}

impl TokenAuth {
    /// How the command goes on from a step of the search for the account.
    pub open spec fn found(step: Step<i32, Query, User>, token: String) -> Step<
        TokenChecking,
        Query,
        User,
    > {
        match step {
            Step::Ask { state, query } => Step::Ask {
                state: TokenChecking::Finding { token, id: state },
                query,
            },
            Step::Done(Ok(user)) => Step::Ask {
                state: TokenChecking::Verifying(user),
                query: Query::VerifyToken { user, token },
            },
            Step::Done(Err(_)) => Step::Done(Err(PointercrateError::Unauthorized)),
        }
    }
}

fn token_user_found(step: Step<i32, Query, User>, token: String) -> (next: Step<
    TokenChecking,
    Query,
    User,
>)
    ensures
        next == TokenAuth::found(step, token),
{
    match step {
        Step::Ask { state, query } => Step::Ask {
            state: TokenChecking::Finding { token, id: state },
            query,
        },
        Step::Done(Ok(user)) => {
            let query = Query::VerifyToken { user: user.clone(), token };
            Step::Ask { state: TokenChecking::Verifying(user), query }
        },
        Step::Done(Err(_)) => Step::Done(Err(PointercrateError::Unauthorized)),
    }
}

impl Command for TokenAuth {
    type Output = User;

    type State = TokenChecking;

    type Query = Query;

    type Reply = Reply;

    open spec fn first_step(self) -> Step<TokenChecking, Query, User> {
        match self.0 {
            Authorization::Token(token) => Step::Ask {
                state: TokenChecking::Decoding(token),
                query: Query::DecodeClaims(token),
            },
            _ => Step::Done(Err(PointercrateError::Unauthorized)),
        }
    }

    open spec fn next_step(state: TokenChecking, reply: Reply) -> Step<
        TokenChecking,
        Query,
        User,
    > {
        match state {
            TokenChecking::Decoding(token) => match reply {
                Reply::Claims(Some(id)) => Self::found(UserById(id).first_step(), token),
                _ => Step::Done(Err(PointercrateError::Unauthorized)),
            },
            TokenChecking::Finding { token, id } => Self::found(
                UserById::next_step(id, reply),
                token,
            ),
            TokenChecking::Verifying(user) => match reply {
                Reply::Verified(true) => Step::Done(Ok(user)),
                _ => Step::Done(Err(PointercrateError::Unauthorized)),
            },
        }
    }

    open spec fn budget(state: Self::State) -> nat {
        match state {
            TokenChecking::Decoding(_) => 2,
            TokenChecking::Finding { .. } => 1,
            TokenChecking::Verifying(_) => 0,
        }
    }

    proof fn lemma_budget(state: Self::State, reply: Self::Reply) {
    }

    fn start(self) -> (step: Step<TokenChecking, Query, User>) {
        match self.0 {
            Authorization::Token(token) => {
                let query = Query::DecodeClaims(token.clone());
                Step::Ask { state: TokenChecking::Decoding(token), query }
            },
            _ => Step::Done(Err(PointercrateError::Unauthorized)),
        }
    }

    fn resume(state: TokenChecking, reply: Reply) -> (step: Step<TokenChecking, Query, User>) {
        match state {
            TokenChecking::Decoding(token) => match reply {
                Reply::Claims(Some(id)) => token_user_found(UserById(id).start(), token),
                _ => Step::Done(Err(PointercrateError::Unauthorized)),
            },
            TokenChecking::Finding { token, id } => token_user_found(
                UserById::resume(id, reply),
                token,
            ),
            TokenChecking::Verifying(user) => match reply {
                Reply::Verified(true) => Step::Done(Ok(user)),
                _ => Step::Done(Err(PointercrateError::Unauthorized)),
            },
        }
    }
}

/// How far `BasicAuth` has come.
#[derive(Debug, PartialEq, Eq)]
pub enum PasswordChecking {
    /// The account of the name is being found.
    Finding { password: String, name: String },
    /// The password is being held against the account.
    Verifying(User),
}

impl BasicAuth {
    /// How the command goes on from a step of the search for the account.
    pub open spec fn found(step: Step<String, Query, User>, password: String) -> Step<
        PasswordChecking,
        Query,
        User,
    > {
        match step {
            Step::Ask { state, query } => Step::Ask {
                state: PasswordChecking::Finding { password, name: state },
                query,
            },
            Step::Done(Ok(user)) => Step::Ask {
                state: PasswordChecking::Verifying(user),
                query: Query::VerifyPassword { user, password },
            },
            Step::Done(Err(_)) => Step::Done(Err(PointercrateError::Unauthorized)),
        }
    }
}

fn password_user_found(step: Step<String, Query, User>, password: String) -> (next: Step<
    PasswordChecking,
    Query,
    User,
>)
    ensures
        next == BasicAuth::found(step, password),
{
    match step {
        Step::Ask { state, query } => Step::Ask {
            state: PasswordChecking::Finding { password, name: state },
            query,
        },
        Step::Done(Ok(user)) => {
            let query = Query::VerifyPassword { user: user.clone(), password };
            Step::Ask { state: PasswordChecking::Verifying(user), query }
        },
        Step::Done(Err(_)) => Step::Done(Err(PointercrateError::Unauthorized)),
    }
}

impl Command for BasicAuth {
    type Output = User;

    type State = PasswordChecking;

    type Query = Query;

    type Reply = Reply;

    open spec fn first_step(self) -> Step<PasswordChecking, Query, User> {
        match self.0 {
            Authorization::Basic(name, password) => Self::found(
                UserByName(name).first_step(),
                password,
            ),
            _ => Step::Done(Err(PointercrateError::Unauthorized)),
        }
    }

    open spec fn next_step(state: PasswordChecking, reply: Reply) -> Step<
        PasswordChecking,
        Query,
        User,
    > {
        match state {
            PasswordChecking::Finding { password, name } => Self::found(
                UserByName::next_step(name, reply),
                password,
            ),
            PasswordChecking::Verifying(user) => match reply {
                Reply::Verified(true) => Step::Done(Ok(user)),
                _ => Step::Done(Err(PointercrateError::Unauthorized)),
            },
        }
    }

    open spec fn budget(state: Self::State) -> nat {
        match state {
            PasswordChecking::Finding { .. } => 1,
            PasswordChecking::Verifying(_) => 0,
        }
    }

    proof fn lemma_budget(state: Self::State, reply: Self::Reply) {
    }

    fn start(self) -> (step: Step<PasswordChecking, Query, User>) {
        match self.0 {
            Authorization::Basic(name, password) => password_user_found(
                UserByName(name).start(),
                password,
            ),
            _ => Step::Done(Err(PointercrateError::Unauthorized)),
        }
    }

    fn resume(state: PasswordChecking, reply: Reply) -> (step: Step<
        PasswordChecking,
        Query,
        User,
    >) {
        match state {
            PasswordChecking::Finding { password, name } => password_user_found(
                UserByName::resume(name, reply),
                password,
            ),
            PasswordChecking::Verifying(user) => match reply {
                Reply::Verified(true) => Step::Done(Ok(user)),
                _ => Step::Done(Err(PointercrateError::Unauthorized)),
            },
        }
    }
}

/// How far `PatchCurrentUser` has come.
#[derive(Debug, PartialEq, Eq)]
pub enum PatchingMe {
    /// The new password is being hashed; the rest of the patch waits.
    Hashing { user: User, display_name: PatchField<String>, youtube_channel: PatchField<String> },
    /// The account has been changed in memory and is being written to the store.
    Storing(User),
}

impl PatchCurrentUser {
    /// The account once the patch has been applied to it. `hash` is the hash of the
    /// new password, where the patch holds one.
    pub open spec fn applied(
        user: User,
        hash: Option<String>,
        display_name: PatchField<String>,
        youtube_channel: PatchField<String>,
    ) -> User {
        User {
            password_hash: match hash {
                Some(hash) => hash,
                None => user.password_hash,
            },
            display_name: display_name.spec_onto(user.display_name),
            youtube_channel: youtube_channel.spec_onto(user.youtube_channel),
            ..user
        }
    }

    /// The query that has the account written to the store as `user` says.
    pub open spec fn storing(user: User) -> Step<PatchingMe, Query, User> {
        Step::Ask { state: PatchingMe::Storing(user), query: Query::UpdateUser(user) }
    }
}

fn store_patched(
    user: User,
    hash: Option<String>,
    display_name: PatchField<String>,
    youtube_channel: PatchField<String>,
) -> (step: Step<PatchingMe, Query, User>)
    ensures
        step == PatchCurrentUser::storing(
            PatchCurrentUser::applied(user, hash, display_name, youtube_channel),
        ),
{
    let patched = User {
        id: user.id,
        name: user.name,
        display_name: display_name.onto(user.display_name),
        youtube_channel: youtube_channel.onto(user.youtube_channel),
        permissions: user.permissions,
        password_hash: match hash {
            Some(hash) => hash,
            None => user.password_hash,
        },
    };
    let query = Query::UpdateUser(patched.clone());
    Step::Ask { state: PatchingMe::Storing(patched), query }
}

impl Command for PatchCurrentUser {
    type Output = User;

    type State = PatchingMe;

    type Query = Query;

    type Reply = Reply;

    open spec fn first_step(self) -> Step<PatchingMe, Query, User> {
        match self.1.password {
            PatchField::Value(password) => match password_objection(password@) {
                Some(error) => Step::Done(Err(error)),
                None => Step::Ask {
                    state: PatchingMe::Hashing {
                        user: self.0,
                        display_name: self.1.display_name,
                        youtube_channel: self.1.youtube_channel,
                    },
                    query: Query::HashPassword(password),
                },
            },
            PatchField::Null => Step::Done(Err(PointercrateError::InvalidPassword)),
            PatchField::Absent => Self::storing(
                Self::applied(self.0, None, self.1.display_name, self.1.youtube_channel),
            ),
        }
    }

    open spec fn next_step(state: PatchingMe, reply: Reply) -> Step<PatchingMe, Query, User> {
        match state {
            PatchingMe::Hashing { user, display_name, youtube_channel } => match reply {
                Reply::Hashed(hash) => Self::storing(
                    Self::applied(user, Some(hash), display_name, youtube_channel),
                ),
                _ => Step::Done(Err(PointercrateError::InvalidState)),
            },
            PatchingMe::Storing(user) => match reply {
                Reply::Written(Outcome::Value(_)) => Step::Done(Ok(user)),
                Reply::Written(outcome) => Step::Done(Err(outcome.spec_failure())),
                _ => Step::Done(Err(PointercrateError::InvalidState)),
            },
        }
    }

    open spec fn budget(state: Self::State) -> nat {
        match state {
            PatchingMe::Hashing { .. } => 1,
            PatchingMe::Storing(_) => 0,
        }
    }

    proof fn lemma_budget(state: Self::State, reply: Self::Reply) {
    }

    fn start(self) -> (step: Step<PatchingMe, Query, User>) {
        match self.1.password {
            PatchField::Value(password) => match validate_password(&password) {
                Err(error) => Step::Done(Err(error)),
                Ok(()) => Step::Ask {
                    state: PatchingMe::Hashing {
                        user: self.0,
                        display_name: self.1.display_name,
                        youtube_channel: self.1.youtube_channel,
                    },
                    query: Query::HashPassword(password),
                },
            },
            PatchField::Null => Step::Done(Err(PointercrateError::InvalidPassword)),
            PatchField::Absent => store_patched(
                self.0,
                None,
                self.1.display_name,
                self.1.youtube_channel,
            ),
        }
    }

    fn resume(state: PatchingMe, reply: Reply) -> (step: Step<PatchingMe, Query, User>) {
        match state {
            PatchingMe::Hashing { user, display_name, youtube_channel } => match reply {
                Reply::Hashed(hash) => store_patched(
                    user,
                    Some(hash),
                    display_name,
                    youtube_channel,
                ),
                _ => Step::Done(Err(PointercrateError::InvalidState)),
            },
            PatchingMe::Storing(user) => match reply {
                Reply::Written(Outcome::Value(_)) => Step::Done(Ok(user)),
                Reply::Written(outcome) => Step::Done(Err(outcome.failure())),
                _ => Step::Done(Err(PointercrateError::InvalidState)),
            },
        }
    }
}

/// How far `Invalidate` has come.
#[derive(Debug, PartialEq, Eq)]
pub enum Invalidating {
    /// The account is being found by its name and password.
    Authenticating { password: String, check: PasswordChecking },
    /// The account is being given its password anew.
    Renewing(PatchingMe),
}

impl Invalidate {
    /// How the command goes on from a step of the change of the account.
    pub open spec fn renewed(step: Step<PatchingMe, Query, User>) -> Step<Invalidating, Query, ()> {
        match step {
            Step::Ask { state, query } => Step::Ask { state: Invalidating::Renewing(state), query },
            Step::Done(Ok(_)) => Step::Done(Ok(())),
            Step::Done(Err(error)) => Step::Done(Err(error)),
        }
    }

    /// How the command goes on from a step of the search for the account.
    pub open spec fn authenticated(step: Step<PasswordChecking, Query, User>, password: String) -> Step<
        Invalidating,
        Query,
        (),
    > {
        match step {
            Step::Ask { state, query } => Step::Ask {
                state: Invalidating::Authenticating { password, check: state },
                query,
            },
            Step::Done(Ok(user)) => Self::renewed(
                PatchCurrentUser(
                    user,
                    PatchMe {
                        password: PatchField::Value(password),
                        display_name: PatchField::Absent,
                        youtube_channel: PatchField::Absent,
                    },
                ).first_step(),
            ),
            Step::Done(Err(error)) => Step::Done(Err(error)),
        }
    }
}

fn go_on_renewed(step: Step<PatchingMe, Query, User>) -> (next: Step<Invalidating, Query, ()>)
    ensures
        next == Invalidate::renewed(step),
{
    match step {
        Step::Ask { state, query } => Step::Ask { state: Invalidating::Renewing(state), query },
        Step::Done(Ok(_)) => Step::Done(Ok(())),
        Step::Done(Err(error)) => Step::Done(Err(error)),
    }
}

fn go_on_authenticated(step: Step<PasswordChecking, Query, User>, password: String) -> (next: Step<
    Invalidating,
    Query,
    (),
>)
    ensures
        next == Invalidate::authenticated(step, password),
{
    match step {
        Step::Ask { state, query } => Step::Ask {
            state: Invalidating::Authenticating { password, check: state },
            query,
        },
        Step::Done(Ok(user)) => go_on_renewed(
            PatchCurrentUser(
                user,
                PatchMe {
                    password: PatchField::Value(password),
                    display_name: PatchField::Absent,
                    youtube_channel: PatchField::Absent,
                },
            ).start(),
        ),
        Step::Done(Err(error)) => Step::Done(Err(error)),
    }
}

impl Command for Invalidate {
    type Output = ();

    type State = Invalidating;

    type Query = Query;

    type Reply = Reply;

    open spec fn first_step(self) -> Step<Invalidating, Query, ()> {
        match self.0 {
            Authorization::Basic(name, password) => Self::authenticated(
                BasicAuth(self.0).first_step(),
                password,
            ),
            _ => Step::Done(Err(PointercrateError::Unauthorized)),
        }
    }

    open spec fn next_step(state: Invalidating, reply: Reply) -> Step<Invalidating, Query, ()> {
        match state {
            Invalidating::Authenticating { password, check } => Self::authenticated(
                BasicAuth::next_step(check, reply),
                password,
            ),
            Invalidating::Renewing(patching) => Self::renewed(
                PatchCurrentUser::next_step(patching, reply),
            ),
        }
    }

    open spec fn budget(state: Self::State) -> nat {
        match state {
            Invalidating::Authenticating { check, .. } => BasicAuth::budget(check) + 2,
            Invalidating::Renewing(patching) => PatchCurrentUser::budget(patching),
        }
    }

    proof fn lemma_budget(state: Self::State, reply: Self::Reply) {
        match state {
            Invalidating::Authenticating { password, check } => {
                BasicAuth::lemma_budget(check, reply);
            },
            Invalidating::Renewing(patching) => {
                PatchCurrentUser::lemma_budget(patching, reply);
            },
        }
    }

    fn start(self) -> (step: Step<Invalidating, Query, ()>) {
        match self.0 {
            Authorization::Basic(name, password) => {
                let again = password.clone();
                go_on_authenticated(BasicAuth(Authorization::Basic(name, password)).start(), again)
            },
            _ => Step::Done(Err(PointercrateError::Unauthorized)),
        }
    }

    fn resume(state: Invalidating, reply: Reply) -> (step: Step<Invalidating, Query, ()>) {
        match state {
            Invalidating::Authenticating { password, check } => go_on_authenticated(
                BasicAuth::resume(check, reply),
                password,
            ),
            Invalidating::Renewing(patching) => go_on_renewed(
                PatchCurrentUser::resume(patching, reply),
            ),
        }
    }
}

/// An account is made only for a registration that has stood up, and only once the
/// store has said that it holds no account of the name.
pub proof fn lemma_account_made_last(command: Register, state: Registering, reply: Reply)
    ensures
        command.first_step() matches Step::Ask { query, .. } ==> command.0.objection() is None
            && query == Query::FindUserByName(command.0.name),
        Register::next_step(state, reply) matches Step::Ask { query, .. } ==> state matches Registering::Checking(
            registration,
        ) && reply == Reply::User(Outcome::NotFound) && query == Query::InsertUser(registration),
{
}

/// Whatever goes wrong while credentials are checked, the command fails with
/// `Unauthorized`, and it gives an account only when it was told that the
/// credentials hold for this account.
pub proof fn lemma_credentials_hold_or_unauthorized(
    token: TokenAuth,
    checking: TokenChecking,
    basic: BasicAuth,
    comparing: PasswordChecking,
    reply: Reply,
)
    ensures
        token.first_step() matches Step::Done(result) ==> result == Err::<User, PointercrateError>(
            PointercrateError::Unauthorized,
        ),
        basic.first_step() matches Step::Done(result) ==> result == Err::<User, PointercrateError>(
            PointercrateError::Unauthorized,
        ),
        TokenAuth::next_step(checking, reply) matches Step::Done(Err(error)) ==> error
            == PointercrateError::Unauthorized,
        BasicAuth::next_step(comparing, reply) matches Step::Done(Err(error)) ==> error
            == PointercrateError::Unauthorized,
        TokenAuth::next_step(checking, reply) matches Step::Done(Ok(user)) ==> checking
            == TokenChecking::Verifying(user) && reply == Reply::Verified(true),
        BasicAuth::next_step(comparing, reply) matches Step::Done(Ok(user)) ==> comparing
            == PasswordChecking::Verifying(user) && reply == Reply::Verified(true),
{
}

/// The tokens of an account are made worthless by a fresh hash of the password
/// that the account has: what is written to the store in the end is the account
/// as it was found, but for the hash, which is the one that was handed back for
/// the password that the request came with.
pub proof fn lemma_invalidation_renews_the_hash(user: User, password: String, hash: String)
    requires
        password_objection(password@) is None,
    ensures
        Invalidate::next_step(
            Invalidating::Authenticating { password, check: PasswordChecking::Verifying(user) },
            Reply::Verified(true),
        ) == (Step::<Invalidating, Query, ()>::Ask {
            state: Invalidating::Renewing(
                PatchingMe::Hashing {
                    user,
                    display_name: PatchField::Absent,
                    youtube_channel: PatchField::Absent,
                },
            ),
            query: Query::HashPassword(password),
        }),
        Invalidate::next_step(
            Invalidating::Renewing(
                PatchingMe::Hashing {
                    user,
                    display_name: PatchField::Absent,
                    youtube_channel: PatchField::Absent,
                },
            ),
            Reply::Hashed(hash),
        ) == (Step::<Invalidating, Query, ()>::Ask {
            state: Invalidating::Renewing(PatchingMe::Storing(User { password_hash: hash, ..user })),
            query: Query::UpdateUser(User { password_hash: hash, ..user }),
        }),
{
}

} // verus!
