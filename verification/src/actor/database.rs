//! The commands that are run against the store, and how each of them is run.
//!
//! A command never touches the store itself. It is run as a dialogue: the command
//! says what it needs to know or to have done (a [`Query`]), whoever drives it
//! sees to that and hands back what came of it (a [`Reply`]), and the command
//! decides how to go on. Everything that a command decides is decided here; the
//! driver only carries queries out, each of them on one connection and to its end
//! before the next.

pub mod account;
pub mod lookup;
pub mod paginate;
pub mod patching;
pub mod submission;

pub use account::{
    BasicAuth, DeleteUserById, Invalidate, PatchCurrentUser, Register, TokenAuth, UserById,
    UserByName,
};

pub use paginate::Paginate;
pub use patching::{patch_in, ApplyPatch, Patch};
pub use lookup::{DeleteRecordById, DemonByName, PlayerByName, RecordById, SubmitterByIp};
pub use submission::{ProcessSubmission, ResolveSubmissionData};

use crate::error::PointercrateError;
use crate::model::demon::patch::Shift;
use crate::model::demon::Demon;
use crate::model::player::Player;
use crate::model::record::Record;
use crate::model::submitter::Submitter;
use crate::model::user::{Registration, User};
use ipnetwork::IpNetwork;
use vstd::prelude::*;

verus! {

/// What came of one access to the store.
#[derive(Debug, PartialEq, Eq)]
pub enum Outcome<T> {
    /// The store did what was asked; this is what it found or made.
    Value(T),
    /// The store holds nothing that fits.
    NotFound,
    /// The store failed.
    Failed,
    /// No connection to the store could be had.
    Unavailable,
}

impl<T> Outcome<T> {
    /// The error that stands for an access that did not go through. `NotFound` is
    /// for the command to judge: where it has no meaning of its own for the access,
    /// it counts as a failure of the store.
    pub open spec fn spec_failure(&self) -> PointercrateError {
        match self {
            Outcome::Unavailable => PointercrateError::ConnectionUnavailable,
            _ => PointercrateError::DatabaseError,
        }
    }

    #[verifier::when_used_as_spec(spec_failure)]
    pub fn failure(&self) -> (error: PointercrateError)
        ensures
            error == self.spec_failure(),
    {
        match self {
            Outcome::Unavailable => PointercrateError::ConnectionUnavailable,
            _ => PointercrateError::DatabaseError,
        }
    }
}

/// What a command asks of the store, or of one of the services beside it.
#[derive(Debug, PartialEq, Eq)]
pub enum Query {
    /// The submitter with this address. Answered by `Reply::Submitter`.
    FindSubmitter(IpNetwork),
    /// A new submitter with this address. Answered by `Reply::Submitter`.
    InsertSubmitter(IpNetwork),
    /// The player of this name. Answered by `Reply::Player`.
    FindPlayer(String),
    /// A new player of this name. Answered by `Reply::Player`.
    InsertPlayer(String),
    /// The demon of this name. Answered by `Reply::Demon`.
    FindDemon(String),
    /// The record with this id. Answered by `Reply::Record`.
    FindRecord(i32),
    /// A record of this player on this demon: the one with this video where a video
    /// is given, else any. Answered by `Reply::Record`.
    FindExistingRecord { player: i32, demon: String, video: Option<String> },
    /// A new record, not yet reviewed. Answered by `Reply::Inserted`, with the id
    /// that the record was given.
    InsertRecord { progress: i16, video: Option<String>, player: i32, submitter: i32, demon: String },
    /// The record with this id is to go. Answered by `Reply::Written`.
    DeleteRecord(i32),
    /// The account with this id. Answered by `Reply::User`.
    FindUserById(i32),
    /// The account of this name. Answered by `Reply::User`.
    FindUserByName(String),
    /// A new account. Answered by `Reply::User`.
    InsertUser(Registration),
    /// The account with this id is to go. Answered by `Reply::Written`.
    DeleteUser(i32),
    /// The account with the id of this one is to be as this one says. Answered by
    /// `Reply::Written`.
    UpdateUser(User),
    /// How many demons stand on the list. Answered by `Reply::Count`.
    CountDemons,
    /// The demon that was called `name` is to be as `updated` says. Where the demon
    /// moves, `shift` says which demons make room first, and how. All of it happens
    /// or none, and nobody sees it half done. Answered by `Reply::Written`.
    UpdateDemon { name: String, updated: Demon, shift: Option<Shift> },
    /// Whether this is an address of a video that is accepted, and in which form
    /// it is kept. Answered by `Reply::Video`.
    ValidateVideo(String),
    /// The id that this access token names, read without checking who signed the
    /// token. Answered by `Reply::Claims`.
    DecodeClaims(String),
    /// Whether this access token was signed for this account, with the key that
    /// the account has now. Answered by `Reply::Verified`.
    VerifyToken { user: User, token: String },
    /// Whether this is the password of this account. Answered by `Reply::Verified`.
    VerifyPassword { user: User, password: String },
    /// A fresh hash of this password. Answered by `Reply::Hashed`.
    HashPassword(String),
}

/// What came back for a query.
#[derive(Debug, PartialEq, Eq)]
pub enum Reply {
    Submitter(Outcome<Submitter>),
    Player(Outcome<Player>),
    Demon(Outcome<Demon>),
    Record(Outcome<Record>),
    User(Outcome<User>),
    /// The id of what was inserted.
    Inserted(Outcome<i32>),
    Written(Outcome<()>),
    Count(Outcome<i16>),
    /// The form in which the video is kept, or why it is not accepted.
    Video(Result<String, PointercrateError>),
    /// The id that the token names; nothing where the token cannot be read.
    Claims(Option<i32>),
    Verified(bool),
    Hashed(String),
}

impl Reply {
    /// Whether the reply says that no connection to the store could be had.
    pub open spec fn unavailable(self) -> bool {
        match self {
            Reply::Submitter(Outcome::Unavailable) => true,
            Reply::Player(Outcome::Unavailable) => true,
            Reply::Demon(Outcome::Unavailable) => true,
            Reply::Record(Outcome::Unavailable) => true,
            Reply::User(Outcome::Unavailable) => true,
            Reply::Inserted(Outcome::Unavailable) => true,
            Reply::Written(Outcome::Unavailable) => true,
            Reply::Count(Outcome::Unavailable) => true,
            _ => false,
        }
    }
}

/// Whether a command that stands at `step` has given up for want of a connection:
/// it has ended, and with `ConnectionUnavailable`, unless it was not waiting
/// for the store at all, which ends it with `InvalidState`.
pub open spec fn given_up<S, Q, T>(step: Step<S, Q, T>) -> bool {
    step matches Step::Done(Err(error)) && (error == PointercrateError::ConnectionUnavailable
        || error == PointercrateError::InvalidState)
}

/// Where a command stands after it was started or was handed a reply.
#[derive(Debug, PartialEq, Eq)]
pub enum Step<S, Q, T> {
    /// The command needs `query` answered, and goes on from `state` with the reply.
    Ask { state: S, query: Q },
    /// The command has come to its end.
    Done(Result<T, PointercrateError>),
}

/// A unit of work that is run against the store to its end, and gives a value of
/// type `Output` or an error.
pub trait Command: Sized {
    /// What the command gives when it succeeds.
    type Output;

    /// What the command keeps between a query and its reply.
    type State;

    /// What the command asks.
    type Query;

    /// What the command is answered.
    type Reply;

    /// What the command does first.
    spec fn first_step(self) -> Step<Self::State, Self::Query, Self::Output>;

    /// What the command does when it is handed `reply` in `state`. A reply that
    /// does not answer the query that was asked ends the command with an error:
    /// with `InvalidState`, or with `Unauthorized` where the command is there to
    /// check credentials.
    spec fn next_step(state: Self::State, reply: Self::Reply) -> Step<
        Self::State,
        Self::Query,
        Self::Output,
    >;

    /// How many queries the command asks at most after the one that is open in
    /// `state`.
    spec fn budget(state: Self::State) -> nat;

    /// Every reply brings the command nearer to its end.
    proof fn lemma_budget(state: Self::State, reply: Self::Reply)
        ensures
            Self::next_step(state, reply) matches Step::Ask { state: next, .. } ==> Self::budget(
                next,
            ) < Self::budget(state),
    ;

    fn start(self) -> (step: Step<Self::State, Self::Query, Self::Output>)
        ensures
            step == self.first_step(),
    ;

    fn resume(state: Self::State, reply: Self::Reply) -> (step: Step<
        Self::State,
        Self::Query,
        Self::Output,
    >)
        ensures
            step == Self::next_step(state, reply),
    ;
}

/// The queries that a command asks, in their order, when it stands at `step` and
/// its queries are answered by `replies` one after the other. The query that is
/// still open when the replies run out is the last of them.
pub open spec fn asked<C: Command>(
    step: Step<C::State, C::Query, C::Output>,
    replies: Seq<C::Reply>,
) -> Seq<C::Query>
    decreases replies.len(),
{
    match step {
        Step::Done(_) => Seq::empty(),
        Step::Ask { state, query } => if replies.len() == 0 {
            seq![query]
        } else {
            seq![query] + asked::<C>(C::next_step(state, replies[0]), replies.drop_first())
        },
    }
}

/// Where a command stands when it was at `step` and has been handed `replies`
/// one after the other. Replies that come after its end change nothing.
pub open spec fn after<C: Command>(
    step: Step<C::State, C::Query, C::Output>,
    replies: Seq<C::Reply>,
) -> Step<C::State, C::Query, C::Output>
    decreases replies.len(),
{
    match step {
        Step::Done(_) => step,
        Step::Ask { state, query } => if replies.len() == 0 {
            step
        } else {
            after::<C>(C::next_step(state, replies[0]), replies.drop_first())
        },
    }
}

/// How many queries a command that stands at `step` asks at most from there on.
pub open spec fn queries_left<C: Command>(step: Step<C::State, C::Query, C::Output>) -> nat {
    match step {
        Step::Ask { state, .. } => C::budget(state) + 1,
        Step::Done(_) => 0,
    }
}

/// Handing a command one reply more takes it one step on from where it stood, if
/// it had not ended yet.
pub proof fn lemma_one_more_reply<C: Command>(
    step: Step<C::State, C::Query, C::Output>,
    replies: Seq<C::Reply>,
    reply: C::Reply,
)
    ensures
        after::<C>(step, replies.push(reply)) == match after::<C>(step, replies) {
            Step::Ask { state, .. } => C::next_step(state, reply),
            Step::Done(result) => Step::Done(result),
        },
    decreases replies.len(),
{
    match step {
        Step::Done(_) => {},
        Step::Ask { state, query } => {
            if replies.len() == 0 {
                assert(replies.push(reply).drop_first() =~= Seq::<C::Reply>::empty());
                let next = C::next_step(state, reply);
                assert(after::<C>(next, Seq::<C::Reply>::empty()) == next);
            } else {
                assert(replies.push(reply).drop_first() =~= replies.drop_first().push(reply));
                lemma_one_more_reply::<C>(
                    C::next_step(state, replies[0]),
                    replies.drop_first(),
                    reply,
                );
            }
        },
    }
}

/// Every command comes to its end: once it has been handed as many replies as it
/// had queries left, it has ended, and it has asked no more queries than that.
pub proof fn lemma_command_ends<C: Command>(
    step: Step<C::State, C::Query, C::Output>,
    replies: Seq<C::Reply>,
)
    ensures
        replies.len() >= queries_left::<C>(step) ==> after::<C>(step, replies) is Done,
        asked::<C>(step, replies).len() <= queries_left::<C>(step),
    decreases replies.len(),
{
    match step {
        Step::Done(_) => {},
        Step::Ask { state, query } => {
            if replies.len() > 0 {
                C::lemma_budget(state, replies[0]);
                lemma_command_ends::<C>(C::next_step(state, replies[0]), replies.drop_first());
            }
        },
    }
}

/// Whatever answers the queries of the commands of type `C`: the store, and the
/// services beside it. A query is answered with the state at hand in which the
/// command waits for the reply.
pub trait Store<C: Command> {
    fn answer(&self, state: &C::State, query: &C::Query) -> C::Reply;
}

/// Runs `command` to its end against `store`: each query that the command asks is
/// put to the store, and the reply is handed to the command, until the command
/// has come to its result.
///
/// The command is not handed on to anyone while it runs, and neither are the
/// commands that it is made of. The result is the one that the command comes to
/// on the replies that it was given.
pub fn run<C: Command, S: Store<C>>(command: C, store: &S) -> (result: Result<
    C::Output,
    PointercrateError,
>)
    ensures
        exists|replies: Seq<C::Reply>|
            #[trigger] after::<C>(command.first_step(), replies) == Step::<
                C::State,
                C::Query,
                C::Output,
            >::Done(result),
{
    let ghost first = command.first_step();
    let ghost mut replies: Seq<C::Reply> = Seq::empty();
    let mut step = command.start();
    loop
        invariant
            after::<C>(first, replies) == step,
            first == command.first_step(),
        decreases queries_left::<C>(step),
    {
        match step {
            Step::Done(result) => {
                return result;
            },
            Step::Ask { state, query } => {
                let reply = store.answer(&state, &query);
                proof {
                    lemma_one_more_reply::<C>(first, replies, reply);
                    C::lemma_budget(state, reply);
                    replies = replies.push(reply);
                }
                step = C::resume(state, reply);
            },
        }
    }
}

} // verus!
