use crate::actor::database::{Command, Outcome, Query, Reply, Step};
use crate::error::{Key, Model, PointercrateError};
use crate::model::demon::Demon;
use crate::model::player::Player;
use crate::model::record::Record;
use crate::model::submitter::Submitter;
use ipnetwork::IpNetwork;
use vstd::prelude::*;

verus! {

/// Asks for the submitter with the given address. An address that the store has
/// not seen yet gets a submitter of its own.
#[derive(Debug)]
pub struct SubmitterByIp(pub IpNetwork);

/// Asks for the player of the given name. A name that the store has not seen yet
/// gets a player of its own.
#[derive(Debug)]
pub struct PlayerByName(pub String);

/// Asks for the demon of the given name. Fails with `ModelNotFound` where the list
/// holds none.
#[derive(Debug)]
pub struct DemonByName(pub String);

/// Asks for the record with the given id. Fails with `ModelNotFound` where the
/// store holds none.
#[derive(Debug)]
pub struct RecordById(pub i32);

/// Has the record with the given id deleted. Fails with `ModelNotFound` where the
/// store holds none.
#[derive(Debug)]
pub struct DeleteRecordById(pub i32);

/// How far a command has come that finds a thing or else makes it.
#[derive(Debug, PartialEq, Eq)]
pub enum FindOrCreate<K> {
    /// The thing with this key has been asked for.
    Finding(K),
    /// The store held none, and a new one has been asked for.
    Creating,
}

impl Command for SubmitterByIp {
    type Output = Submitter;

    type State = FindOrCreate<IpNetwork>;

    type Query = Query;

    type Reply = Reply;

    open spec fn first_step(self) -> Step<FindOrCreate<IpNetwork>, Query, Submitter> {
        Step::Ask { state: FindOrCreate::Finding(self.0), query: Query::FindSubmitter(self.0) }
    }

    open spec fn next_step(state: FindOrCreate<IpNetwork>, reply: Reply) -> Step<
        FindOrCreate<IpNetwork>,
        Query,
        Submitter,
    > {
        match reply {
            Reply::Submitter(Outcome::Value(submitter)) => Step::Done(Ok(submitter)),
            Reply::Submitter(Outcome::NotFound) => match state {
                FindOrCreate::Finding(ip) => Step::Ask {
                    state: FindOrCreate::Creating,
                    query: Query::InsertSubmitter(ip),
                },
                FindOrCreate::Creating => Step::Done(Err(PointercrateError::DatabaseError)),
            },
            Reply::Submitter(outcome) => Step::Done(Err(outcome.spec_failure())),
            _ => Step::Done(Err(PointercrateError::InvalidState)),
        }
    }

    open spec fn budget(state: Self::State) -> nat {
        match state {
            FindOrCreate::Finding(_) => 1,
            FindOrCreate::Creating => 0,
        }
    }

    proof fn lemma_budget(state: Self::State, reply: Self::Reply) {
    }

    fn start(self) -> (step: Step<FindOrCreate<IpNetwork>, Query, Submitter>) {
        Step::Ask { state: FindOrCreate::Finding(self.0), query: Query::FindSubmitter(self.0) }
    }

    fn resume(state: FindOrCreate<IpNetwork>, reply: Reply) -> (step: Step<
        FindOrCreate<IpNetwork>,
        Query,
        Submitter,
    >) {
        match reply {
            Reply::Submitter(Outcome::Value(submitter)) => Step::Done(Ok(submitter)),
            Reply::Submitter(Outcome::NotFound) => match state {
                FindOrCreate::Finding(ip) => Step::Ask {
                    state: FindOrCreate::Creating,
                    query: Query::InsertSubmitter(ip),
                },
                FindOrCreate::Creating => Step::Done(Err(PointercrateError::DatabaseError)),
            },
            Reply::Submitter(outcome) => Step::Done(Err(outcome.failure())),
            _ => Step::Done(Err(PointercrateError::InvalidState)),
        }
    }
}

impl Command for PlayerByName {
    type Output = Player;

    type State = FindOrCreate<String>;

    type Query = Query;

    type Reply = Reply;

    open spec fn first_step(self) -> Step<FindOrCreate<String>, Query, Player> {
        Step::Ask { state: FindOrCreate::Finding(self.0), query: Query::FindPlayer(self.0) }
    }

    open spec fn next_step(state: FindOrCreate<String>, reply: Reply) -> Step<
        FindOrCreate<String>,
        Query,
        Player,
    > {
        match reply {
            Reply::Player(Outcome::Value(player)) => Step::Done(Ok(player)),
            Reply::Player(Outcome::NotFound) => match state {
                FindOrCreate::Finding(name) => Step::Ask {
                    state: FindOrCreate::Creating,
                    query: Query::InsertPlayer(name),
                },
                FindOrCreate::Creating => Step::Done(Err(PointercrateError::DatabaseError)),
            },
            Reply::Player(outcome) => Step::Done(Err(outcome.spec_failure())),
            _ => Step::Done(Err(PointercrateError::InvalidState)),
        }
    }

    open spec fn budget(state: Self::State) -> nat {
        match state {
            FindOrCreate::Finding(_) => 1,
            FindOrCreate::Creating => 0,
        }
    }

    proof fn lemma_budget(state: Self::State, reply: Self::Reply) {
    }

    fn start(self) -> (step: Step<FindOrCreate<String>, Query, Player>) {
        let name = self.0.clone();
        Step::Ask { state: FindOrCreate::Finding(self.0), query: Query::FindPlayer(name) }
    }

    fn resume(state: FindOrCreate<String>, reply: Reply) -> (step: Step<
        FindOrCreate<String>,
        Query,
        Player,
    >) {
        match reply {
            Reply::Player(Outcome::Value(player)) => Step::Done(Ok(player)),
            Reply::Player(Outcome::NotFound) => match state {
                FindOrCreate::Finding(name) => Step::Ask {
                    state: FindOrCreate::Creating,
                    query: Query::InsertPlayer(name),
                },
                FindOrCreate::Creating => Step::Done(Err(PointercrateError::DatabaseError)),
            },
            Reply::Player(outcome) => Step::Done(Err(outcome.failure())),
            _ => Step::Done(Err(PointercrateError::InvalidState)),
        }
    }
}

impl Command for DemonByName {
    type Output = Demon;

    /// The name that was asked for.
    type State = String;

    type Query = Query;

    type Reply = Reply;

    open spec fn first_step(self) -> Step<String, Query, Demon> {
        Step::Ask { state: self.0, query: Query::FindDemon(self.0) }
    }

    open spec fn next_step(state: String, reply: Reply) -> Step<String, Query, Demon> {
        match reply {
            Reply::Demon(Outcome::Value(demon)) => Step::Done(Ok(demon)),
            Reply::Demon(Outcome::NotFound) => Step::Done(
                Err(
                    PointercrateError::ModelNotFound {
                        kind: Model::Demon,
                        key: Key::Name(state),
                    },
                ),
            ),
            Reply::Demon(outcome) => Step::Done(Err(outcome.spec_failure())),
            _ => Step::Done(Err(PointercrateError::InvalidState)),
        }
    }

    open spec fn budget(state: Self::State) -> nat {
        0
    }

    proof fn lemma_budget(state: Self::State, reply: Self::Reply) {
    }

    fn start(self) -> (step: Step<String, Query, Demon>) {
        let name = self.0.clone();
        Step::Ask { state: self.0, query: Query::FindDemon(name) }
    }

    fn resume(state: String, reply: Reply) -> (step: Step<String, Query, Demon>) {
        match reply {
            Reply::Demon(Outcome::Value(demon)) => Step::Done(Ok(demon)),
            Reply::Demon(Outcome::NotFound) => Step::Done(
                Err(
                    PointercrateError::ModelNotFound {
                        kind: Model::Demon,
                        key: Key::Name(state),
                    },
                ),
            ),
            Reply::Demon(outcome) => Step::Done(Err(outcome.failure())),
            _ => Step::Done(Err(PointercrateError::InvalidState)),
        }
    }
}

impl Command for RecordById {
    type Output = Record;

    /// The id that was asked for.
    type State = i32;

    type Query = Query;

    type Reply = Reply;

    open spec fn first_step(self) -> Step<i32, Query, Record> {
        Step::Ask { state: self.0, query: Query::FindRecord(self.0) }
    }

    open spec fn next_step(state: i32, reply: Reply) -> Step<i32, Query, Record> {
        match reply {
            Reply::Record(Outcome::Value(record)) => Step::Done(Ok(record)),
            Reply::Record(Outcome::NotFound) => Step::Done(
                Err(
                    PointercrateError::ModelNotFound {
                        kind: Model::Record,
                        key: Key::Id(state),
                    },
                ),
            ),
            Reply::Record(outcome) => Step::Done(Err(outcome.spec_failure())),
            _ => Step::Done(Err(PointercrateError::InvalidState)),
        }
    }

    open spec fn budget(state: Self::State) -> nat {
        0
    }

    proof fn lemma_budget(state: Self::State, reply: Self::Reply) {
    }

    fn start(self) -> (step: Step<i32, Query, Record>) {
        Step::Ask { state: self.0, query: Query::FindRecord(self.0) }
    }

    fn resume(state: i32, reply: Reply) -> (step: Step<i32, Query, Record>) {
        match reply {
            Reply::Record(Outcome::Value(record)) => Step::Done(Ok(record)),
            Reply::Record(Outcome::NotFound) => Step::Done(
                Err(
                    PointercrateError::ModelNotFound {
                        kind: Model::Record,
                        key: Key::Id(state),
                    },
                ),
            ),
            Reply::Record(outcome) => Step::Done(Err(outcome.failure())),
            _ => Step::Done(Err(PointercrateError::InvalidState)),
        }
    }
}

impl Command for DeleteRecordById {
    type Output = ();

    /// The id of the record that is to go.
    type State = i32;

    type Query = Query;

    type Reply = Reply;

    open spec fn first_step(self) -> Step<i32, Query, ()> {
        Step::Ask { state: self.0, query: Query::DeleteRecord(self.0) }
    }

    open spec fn next_step(state: i32, reply: Reply) -> Step<i32, Query, ()> {
        match reply {
            Reply::Written(Outcome::Value(_)) => Step::Done(Ok(())),
            Reply::Written(Outcome::NotFound) => Step::Done(
                Err(
                    PointercrateError::ModelNotFound {
                        kind: Model::Record,
                        key: Key::Id(state),
                    },
                ),
            ),
            Reply::Written(outcome) => Step::Done(Err(outcome.spec_failure())),
            _ => Step::Done(Err(PointercrateError::InvalidState)),
        }
    }

    open spec fn budget(state: Self::State) -> nat {
        0
    }

    proof fn lemma_budget(state: Self::State, reply: Self::Reply) {
    }

    fn start(self) -> (step: Step<i32, Query, ()>) {
        Step::Ask { state: self.0, query: Query::DeleteRecord(self.0) }
    }

    fn resume(state: i32, reply: Reply) -> (step: Step<i32, Query, ()>) {
        match reply {
            Reply::Written(Outcome::Value(_)) => Step::Done(Ok(())),
            Reply::Written(Outcome::NotFound) => Step::Done(
                Err(
                    PointercrateError::ModelNotFound {
                        kind: Model::Record,
                        key: Key::Id(state),
                    },
                ),
            ),
            Reply::Written(outcome) => Step::Done(Err(outcome.failure())),
            _ => Step::Done(Err(PointercrateError::InvalidState)),
        }
    }
}

/// A player or a submitter is made only once the store has said that it holds none
/// for the key, and is then made for this very key.
pub proof fn lemma_made_only_when_missing(
    players: FindOrCreate<String>,
    submitters: FindOrCreate<IpNetwork>,
    reply: Reply,
)
    ensures
        PlayerByName::next_step(players, reply) matches Step::Ask { query, .. } ==> players matches FindOrCreate::Finding(
            name,
        ) && reply == Reply::Player(Outcome::NotFound) && query == Query::InsertPlayer(name),
        SubmitterByIp::next_step(submitters, reply) matches Step::Ask { query, .. }
            ==> submitters matches FindOrCreate::Finding(ip) && reply == Reply::Submitter(
            Outcome::NotFound,
        ) && query == Query::InsertSubmitter(ip),
{
}

} // verus!
