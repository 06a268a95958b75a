use ipnetwork::IpNetwork;
use pointercrate::actor::database::lookup::FindOrCreate;
use pointercrate::actor::database::{
    Command, DeleteRecordById, DemonByName, Outcome, PlayerByName, Query, RecordById, Reply,
    ResolveSubmissionData, Step, SubmitterByIp,
};
use pointercrate::error::{Key, Model, PointercrateError};
use pointercrate::model::demon::{Demon, EmbeddedDemon};
use pointercrate::model::player::Player;
use pointercrate::model::record::{Record, RecordStatus};
use pointercrate::model::submitter::Submitter;

fn ip() -> IpNetwork {
    "10.0.0.1/32".parse().unwrap()
}

fn player(id: i32, name: &str) -> Player {
    Player { id, name: name.to_string(), banned: false }
}

fn demon(name: &str) -> Demon {
    Demon {
        name: name.to_string(),
        position: 3,
        requirement: 40,
        video: None,
        verifier: player(1, "a"),
        publisher: player(2, "b"),
    }
}

fn record(id: i32) -> Record {
    Record {
        id,
        progress: 100,
        video: None,
        status: RecordStatus::Approved,
        player: player(1, "a"),
        submitter: 4,
        demon: EmbeddedDemon { name: "Sonic Wave".to_string(), position: 3 },
    }
}

#[test]
fn known_submitter_is_found() {
    let step = SubmitterByIp(ip()).start();
    assert_eq!(
        step,
        Step::Ask { state: FindOrCreate::Finding(ip()), query: Query::FindSubmitter(ip()) }
    );
    let found = Submitter { id: 5, ip: ip(), banned: true };
    assert_eq!(
        SubmitterByIp::resume(
            FindOrCreate::Finding(ip()),
            Reply::Submitter(Outcome::Value(Submitter { id: 5, ip: ip(), banned: true })),
        ),
        Step::Done(Ok(found))
    );
}

#[test]
fn unknown_submitter_is_made() {
    assert_eq!(
        SubmitterByIp::resume(FindOrCreate::Finding(ip()), Reply::Submitter(Outcome::NotFound)),
        Step::Ask { state: FindOrCreate::Creating, query: Query::InsertSubmitter(ip()) }
    );
    assert_eq!(
        SubmitterByIp::resume(
            FindOrCreate::Creating,
            Reply::Submitter(Outcome::Value(Submitter { id: 6, ip: ip(), banned: false })),
        ),
        Step::Done(Ok(Submitter { id: 6, ip: ip(), banned: false }))
    );
    assert_eq!(
        SubmitterByIp::resume(FindOrCreate::Creating, Reply::Submitter(Outcome::NotFound)),
        Step::Done(Err(PointercrateError::DatabaseError))
    );
    assert_eq!(
        SubmitterByIp::resume(FindOrCreate::Creating, Reply::Submitter(Outcome::Failed)),
        Step::Done(Err(PointercrateError::DatabaseError))
    );
    assert_eq!(
        SubmitterByIp::resume(FindOrCreate::Finding(ip()), Reply::Submitter(Outcome::Unavailable)),
        Step::Done(Err(PointercrateError::ConnectionUnavailable))
    );
    assert_eq!(
        SubmitterByIp::resume(FindOrCreate::Finding(ip()), Reply::Player(Outcome::NotFound)),
        Step::Done(Err(PointercrateError::InvalidState))
    );
}

#[test]
fn player_is_found_or_made() {
    assert_eq!(
        PlayerByName("Riot".to_string()).start(),
        Step::Ask {
            state: FindOrCreate::Finding("Riot".to_string()),
            query: Query::FindPlayer("Riot".to_string()),
        }
    );
    assert_eq!(
        PlayerByName::resume(
            FindOrCreate::Finding("Riot".to_string()),
            Reply::Player(Outcome::Value(player(8, "Riot"))),
        ),
        Step::Done(Ok(player(8, "Riot")))
    );
    assert_eq!(
        PlayerByName::resume(FindOrCreate::Finding("Riot".to_string()), Reply::Player(Outcome::NotFound)),
        Step::Ask { state: FindOrCreate::Creating, query: Query::InsertPlayer("Riot".to_string()) }
    );
    assert_eq!(
        PlayerByName::resume(FindOrCreate::Creating, Reply::Player(Outcome::Value(player(9, "Riot")))),
        Step::Done(Ok(player(9, "Riot")))
    );
    assert_eq!(
        PlayerByName::resume(FindOrCreate::Finding("Riot".to_string()), Reply::Player(Outcome::Failed)),
        Step::Done(Err(PointercrateError::DatabaseError))
    );
}

#[test]
fn demon_is_found_or_missing() {
    assert_eq!(
        DemonByName("Sonic Wave".to_string()).start(),
        Step::Ask { state: "Sonic Wave".to_string(), query: Query::FindDemon("Sonic Wave".to_string()) }
    );
    assert_eq!(
        DemonByName::resume("Sonic Wave".to_string(), Reply::Demon(Outcome::Value(demon("Sonic Wave")))),
        Step::Done(Ok(demon("Sonic Wave")))
    );
    assert_eq!(
        DemonByName::resume("Sonic Wave".to_string(), Reply::Demon(Outcome::NotFound)),
        Step::Done(Err(PointercrateError::ModelNotFound {
            kind: Model::Demon,
            key: Key::Name("Sonic Wave".to_string()),
        }))
    );
    assert_eq!(
        DemonByName::resume("Sonic Wave".to_string(), Reply::Demon(Outcome::Unavailable)),
        Step::Done(Err(PointercrateError::ConnectionUnavailable))
    );
}

#[test]
fn record_is_found_or_missing() {
    assert_eq!(RecordById(4).start(), Step::Ask { state: 4, query: Query::FindRecord(4) });
    assert_eq!(
        RecordById::resume(4, Reply::Record(Outcome::Value(record(4)))),
        Step::Done(Ok(record(4)))
    );
    assert_eq!(
        RecordById::resume(4, Reply::Record(Outcome::NotFound)),
        Step::Done(Err(PointercrateError::ModelNotFound {
            kind: Model::Record,
            key: Key::Id(4),
        }))
    );
    assert_eq!(
        RecordById::resume(4, Reply::Record(Outcome::Failed)),
        Step::Done(Err(PointercrateError::DatabaseError))
    );
}

#[test]
fn record_is_deleted_or_missing() {
    assert_eq!(DeleteRecordById(4).start(), Step::Ask { state: 4, query: Query::DeleteRecord(4) });
    assert_eq!(DeleteRecordById::resume(4, Reply::Written(Outcome::Value(()))), Step::Done(Ok(())));
    assert_eq!(
        DeleteRecordById::resume(4, Reply::Written(Outcome::NotFound)),
        Step::Done(Err(PointercrateError::ModelNotFound {
            kind: Model::Record,
            key: Key::Id(4),
        }))
    );
    assert_eq!(
        DeleteRecordById::resume(4, Reply::Written(Outcome::Unavailable)),
        Step::Done(Err(PointercrateError::ConnectionUnavailable))
    );
    assert_eq!(
        DeleteRecordById::resume(4, Reply::Record(Outcome::NotFound)),
        Step::Done(Err(PointercrateError::InvalidState))
    );
}

#[test]
fn names_are_resolved_player_first() {
    let step = ResolveSubmissionData("Riot".to_string(), "Sonic Wave".to_string()).start();
    let state = match step {
        Step::Ask { state, query } => {
            assert_eq!(query, Query::FindPlayer("Riot".to_string()));
            state
        },
        Step::Done(_) => panic!("nothing was asked"),
    };
    let state = match ResolveSubmissionData::resume(state, Reply::Player(Outcome::Value(player(8, "Riot")))) {
        Step::Ask { state, query } => {
            assert_eq!(query, Query::FindDemon("Sonic Wave".to_string()));
            state
        },
        Step::Done(_) => panic!("the demon was not asked for"),
    };
    assert_eq!(
        ResolveSubmissionData::resume(state, Reply::Demon(Outcome::Value(demon("Sonic Wave")))),
        Step::Done(Ok((player(8, "Riot"), demon("Sonic Wave"))))
    );
}

#[test]
fn failure_of_failure_kinds() {
    assert_eq!(Outcome::<i32>::Unavailable.failure(), PointercrateError::ConnectionUnavailable);
    assert_eq!(Outcome::<i32>::Failed.failure(), PointercrateError::DatabaseError);
    assert_eq!(Outcome::<i32>::NotFound.failure(), PointercrateError::DatabaseError);
}
