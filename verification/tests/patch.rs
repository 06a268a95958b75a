use ipnetwork::IpNetwork;
use pointercrate::actor::database::patching::{authorized, Persist};
use pointercrate::actor::database::{
    patch_in, ApplyPatch, Command, Outcome, Patch, Query, Reply, Step, Store,
};
use pointercrate::context::RequestData;
use pointercrate::error::PointercrateError;
use pointercrate::middleware::auth::Me;
use pointercrate::middleware::cond::{etag, Canonical, IfMatch};
use pointercrate::model::demon::patch::{
    list_moderation_permissions, shift, ApplyDemonPatch, PatchDemon, PatchingDemon, Shift,
};
use pointercrate::model::demon::{Demon, DemonWithCreatorsAndRecords};
use pointercrate::model::player::{PatchPlayer, Player};
use pointercrate::model::user::User;
use pointercrate::patch::{Patch as PatchTrait, PatchField, Patchable};
use pointercrate::permissions::{Permission, PermissionsSet};
use std::cell::RefCell;
use std::collections::VecDeque;

fn ip() -> IpNetwork {
    "10.1.1.1/32".parse().unwrap()
}

fn user(permissions: PermissionsSet) -> User {
    User {
        id: 1,
        name: "stadust".to_string(),
        display_name: None,
        youtube_channel: None,
        permissions,
        password_hash: "hash".to_string(),
    }
}

fn player(id: i32, name: &str) -> Player {
    Player { id, name: name.to_string(), banned: false }
}

fn demon() -> Demon {
    Demon {
        name: "Bloodbath".to_string(),
        position: 10,
        requirement: 30,
        video: Some("https://www.youtube.com/watch?v=old".to_string()),
        verifier: player(1, "Riot"),
        publisher: player(2, "Weoweoteo"),
    }
}

fn empty_patch() -> PatchDemon {
    PatchDemon {
        name: None,
        position: None,
        video: PatchField::Absent,
        requirement: None,
        verifier: None,
        publisher: None,
    }
}

fn moderator() -> RequestData {
    RequestData::new(ip()).with_user(Me(user(PermissionsSet::one(Permission::ListModerator))))
}

struct Script {
    replies: RefCell<VecDeque<Reply>>,
    asked: RefCell<Vec<String>>,
}

impl Script {
    fn new(replies: Vec<Reply>) -> Script {
        Script { replies: RefCell::new(replies.into_iter().collect()), asked: RefCell::new(Vec::new()) }
    }
}

impl<C: Command<Query = Query, Reply = Reply>> Store<C> for Script {
    fn answer(&self, _state: &C::State, query: &Query) -> Reply {
        self.asked.borrow_mut().push(format!("{:?}", query));
        self.replies.borrow_mut().pop_front().unwrap()
    }
}

#[test]
fn field_of_a_patch_is_left_emptied_or_set() {
    assert_eq!(PatchField::<i32>::Absent.onto(Some(1)), Some(1));
    assert_eq!(PatchField::<i32>::Absent.onto(None), None);
    assert_eq!(PatchField::<i32>::Null.onto(Some(1)), None);
    assert_eq!(PatchField::Value(2).onto(Some(1)), Some(2));
    assert_eq!(PatchField::Value(2).onto(None), Some(2));
}

#[test]
fn ban_takes_a_list_role() {
    assert_eq!(
        PatchPlayer { banned: Some(true) }.required_permissions(),
        PermissionsSet::one(Permission::ListModerator).with(Permission::ListAdministrator)
    );
    assert_eq!(PatchPlayer { banned: None }.required_permissions(), PermissionsSet::new());
    let helper = user(PermissionsSet::one(Permission::ListHelper));
    assert!(!authorized(&helper, &PatchPlayer { banned: Some(true) }.required_permissions()));
    assert!(authorized(&helper, &PermissionsSet::new()));
    let administrator = user(PermissionsSet::one(Permission::ListAdministrator));
    assert!(authorized(&administrator, &PatchPlayer { banned: Some(true) }.required_permissions()));
}

#[test]
fn patch_of_a_player_sets_the_ban() {
    let mut target = player(5, "cheater");
    assert_eq!(target.apply_patch(PatchPlayer { banned: Some(true) }), Ok(()));
    assert!(target.banned);
    assert_eq!(target.apply_patch(PatchPlayer { banned: None }), Ok(()));
    assert!(target.banned);
    assert_eq!(target.apply_patch(PatchPlayer { banned: Some(false) }), Ok(()));
    assert!(!target.banned);
}

#[test]
fn patch_without_permission_asks_nothing() {
    let helper = user(PermissionsSet::one(Permission::ListHelper).with(Permission::Moderator));
    let step = Patch(helper, player(5, "cheater"), PatchPlayer { banned: Some(true) }).start();
    assert_eq!(
        step,
        Step::Done(Err(PointercrateError::MissingPermissions {
            required: PermissionsSet::one(Permission::ListModerator).with(Permission::ListAdministrator),
        }))
    );
}

#[test]
fn patch_with_permission_is_applied_and_then_written() {
    let moderator = user(PermissionsSet::one(Permission::ListModerator));
    let step = Patch(moderator, player(5, "cheater"), PatchPlayer { banned: Some(true) }).start();
    let banned = Player { id: 5, name: "cheater".to_string(), banned: true };
    assert_eq!(step, Step::Ask { state: banned.clone(), query: Persist });
    assert_eq!(
        Patch::<Player, PatchPlayer>::resume(banned.clone(), Outcome::Value(())),
        Step::Done(Ok(banned.clone()))
    );
    assert_eq!(
        Patch::<Player, PatchPlayer>::resume(banned.clone(), Outcome::Failed),
        Step::Done(Err(PointercrateError::DatabaseError))
    );
    assert_eq!(
        Patch::<Player, PatchPlayer>::resume(banned.clone(), Outcome::NotFound),
        Step::Done(Err(PointercrateError::DatabaseError))
    );
    assert_eq!(
        Patch::<Player, PatchPlayer>::resume(banned, Outcome::Unavailable),
        Step::Done(Err(PointercrateError::ConnectionUnavailable))
    );
}

#[test]
fn patch_that_needs_nothing_is_open_to_every_account() {
    let nobody = user(PermissionsSet::new());
    let step = Patch(nobody, player(5, "cheater"), PatchPlayer { banned: None }).start();
    assert_eq!(step, Step::Ask { state: player(5, "cheater"), query: Persist });
}

#[test]
fn demon_takes_a_list_role_to_patch() {
    assert_eq!(
        list_moderation_permissions(),
        PermissionsSet::one(Permission::ListModerator).with(Permission::ListAdministrator)
    );
    let store = Script::new(vec![]);
    let anonymous = RequestData::new(ip()).with_if_match(Some(IfMatch(vec![etag(&demon())])));
    assert_eq!(
        demon().patch(empty_patch(), anonymous.ctx(&store)),
        Err(PointercrateError::Unauthorized)
    );
    let helper = RequestData::new(ip())
        .with_user(Me(user(PermissionsSet::one(Permission::ListHelper))))
        .with_if_match(Some(IfMatch(vec![etag(&demon())])));
    assert_eq!(
        demon().patch(empty_patch(), helper.ctx(&store)),
        Err(PointercrateError::MissingPermissions { required: list_moderation_permissions() })
    );
    assert!(store.asked.borrow().is_empty());
}

#[test]
fn demon_must_be_as_the_caller_saw_it() {
    let store = Script::new(vec![]);
    let stale = moderator().with_if_match(Some(IfMatch(vec![etag(&demon()) ^ 1])));
    assert_eq!(
        demon().patch(empty_patch(), stale.ctx(&store)),
        Err(PointercrateError::PreconditionFailed)
    );
    let unconditional = moderator();
    assert_eq!(
        demon().patch(empty_patch(), unconditional.ctx(&store)),
        Err(PointercrateError::InvalidState)
    );
    // the capabilities are looked at before the condition
    let anonymous = RequestData::new(ip());
    assert_eq!(
        demon().patch(empty_patch(), anonymous.ctx(&store)),
        Err(PointercrateError::Unauthorized)
    );
    assert!(store.asked.borrow().is_empty());
}

#[test]
fn empty_patch_of_a_demon_writes_it_as_it_is() {
    let store = Script::new(vec![Reply::Written(Outcome::Value(()))]);
    let data = moderator().with_if_match(Some(IfMatch(vec![etag(&demon())])));
    assert_eq!(demon().patch(empty_patch(), data.ctx(&store)), Ok(demon()));
    assert_eq!(
        *store.asked.borrow(),
        vec![format!(
            "{:?}",
            Query::UpdateDemon { name: "Bloodbath".to_string(), updated: demon(), shift: None }
        )]
    );
}

#[test]
fn system_patches_without_role_or_condition() {
    let store = Script::new(vec![Reply::Written(Outcome::Value(()))]);
    let data = RequestData::Internal;
    let patch = PatchDemon { requirement: Some(45), ..empty_patch() };
    let mut expected = demon();
    expected.requirement = 45;
    assert_eq!(demon().patch(patch, data.ctx(&store)), Ok(expected));
}

#[test]
fn full_patch_of_a_demon_checks_then_applies_then_writes() {
    let store = Script::new(vec![
        Reply::Demon(Outcome::NotFound),
        Reply::Count(Outcome::Value(150)),
        Reply::Video(Ok("https://www.youtube.com/watch?v=new".to_string())),
        Reply::Player(Outcome::Value(player(7, "Knobbelboy"))),
        Reply::Player(Outcome::NotFound),
        Reply::Player(Outcome::Value(player(8, "Someone"))),
        Reply::Written(Outcome::Value(())),
    ]);
    let data = moderator().with_if_match(Some(IfMatch(vec![etag(&demon())])));
    let patch = PatchDemon {
        name: Some("Bloodlust".to_string()),
        position: Some(1),
        video: PatchField::Value("https://youtu.be/new".to_string()),
        requirement: Some(50),
        verifier: Some("Knobbelboy".to_string()),
        publisher: Some("Someone".to_string()),
    };
    let expected = Demon {
        name: "Bloodlust".to_string(),
        position: 1,
        requirement: 50,
        video: Some("https://www.youtube.com/watch?v=new".to_string()),
        verifier: player(7, "Knobbelboy"),
        publisher: player(8, "Someone"),
    };
    assert_eq!(demon().patch(patch, data.ctx(&store)), Ok(expected.clone()));
    assert_eq!(
        *store.asked.borrow(),
        vec![
            format!("{:?}", Query::FindDemon("Bloodlust".to_string())),
            format!("{:?}", Query::CountDemons),
            format!("{:?}", Query::ValidateVideo("https://youtu.be/new".to_string())),
            format!("{:?}", Query::FindPlayer("Knobbelboy".to_string())),
            format!("{:?}", Query::FindPlayer("Someone".to_string())),
            format!("{:?}", Query::InsertPlayer("Someone".to_string())),
            format!(
                "{:?}",
                Query::UpdateDemon {
                    name: "Bloodbath".to_string(),
                    updated: expected,
                    shift: Some(Shift { first: 1, last: 9, by: 1 }),
                }
            ),
        ]
    );
}

#[test]
fn name_of_a_demon_must_be_free() {
    let step = ApplyDemonPatch(demon(), PatchDemon { name: Some("Sonic Wave".to_string()), ..empty_patch() })
        .start();
    let state = match step {
        Step::Ask { state, query } => {
            assert_eq!(query, Query::FindDemon("Sonic Wave".to_string()));
            state
        },
        Step::Done(_) => panic!("the name was not looked up"),
    };
    let mut other = demon();
    other.name = "Sonic Wave".to_string();
    other.position = 4;
    assert_eq!(
        ApplyDemonPatch::resume(state, Reply::Demon(Outcome::Value(other))),
        Step::Done(Err(PointercrateError::DemonExists { position: 4 }))
    );
}

#[test]
fn position_of_a_demon_must_be_on_the_list() {
    for (position, length, fine) in [
        (0i16, 5i16, false),
        (-1, 5, false),
        (6, 5, false),
        (1, 5, true),
        (5, 5, true),
        (1, 0, false),
        (10, 20, true),
        (20, 20, true),
    ] {
        let step =
            ApplyDemonPatch(demon(), PatchDemon { position: Some(position), ..empty_patch() }).start();
        let state = match step {
            Step::Ask { state, query } => {
                assert_eq!(query, Query::CountDemons);
                state
            },
            Step::Done(_) => panic!("the length of the list was not asked for"),
        };
        let step = ApplyDemonPatch::resume(state, Reply::Count(Outcome::Value(length)));
        if fine {
            let mut moved = demon();
            moved.position = position;
            assert_eq!(
                step,
                Step::Ask {
                    state: PatchingDemon::Storing(moved.clone()),
                    query: Query::UpdateDemon {
                        name: "Bloodbath".to_string(),
                        updated: moved,
                        shift: shift(10, position),
                    },
                }
            );
        } else {
            assert_eq!(step, Step::Done(Err(PointercrateError::InvalidPosition { maximal: length })));
        }
    }
}

#[test]
fn video_of_a_demon_is_validated_or_removed() {
    let step = ApplyDemonPatch(
        demon(),
        PatchDemon { video: PatchField::Value("ftp://somewhere".to_string()), ..empty_patch() },
    )
    .start();
    let state = match step {
        Step::Ask { state, query } => {
            assert_eq!(query, Query::ValidateVideo("ftp://somewhere".to_string()));
            state
        },
        Step::Done(_) => panic!("the video was not validated"),
    };
    assert_eq!(
        ApplyDemonPatch::resume(state, Reply::Video(Err(PointercrateError::InvalidUrlScheme))),
        Step::Done(Err(PointercrateError::InvalidUrlScheme))
    );

    let step = ApplyDemonPatch(demon(), PatchDemon { video: PatchField::Null, ..empty_patch() }).start();
    let mut bare = demon();
    bare.video = None;
    assert_eq!(
        step,
        Step::Ask {
            state: PatchingDemon::Storing(bare.clone()),
            query: Query::UpdateDemon { name: "Bloodbath".to_string(), updated: bare, shift: None },
        }
    );
}

#[test]
fn failed_patch_of_a_demon_never_writes_it() {
    let store = Script::new(vec![
        Reply::Demon(Outcome::NotFound),
        Reply::Count(Outcome::Value(150)),
        Reply::Video(Ok("https://www.youtube.com/watch?v=new".to_string())),
        Reply::Player(Outcome::Failed),
    ]);
    let data = RequestData::Internal;
    let patch = PatchDemon {
        name: Some("Bloodlust".to_string()),
        position: Some(1),
        video: PatchField::Value("https://youtu.be/new".to_string()),
        requirement: Some(50),
        verifier: Some("Knobbelboy".to_string()),
        publisher: Some("Someone".to_string()),
    };
    assert_eq!(demon().patch(patch, data.ctx(&store)), Err(PointercrateError::DatabaseError));
    assert!(store.asked.borrow().iter().all(|query| !query.starts_with("UpdateDemon")));

    let store = Script::new(vec![Reply::Written(Outcome::Unavailable)]);
    assert_eq!(
        demon().patch(empty_patch(), data.ctx(&store)),
        Err(PointercrateError::ConnectionUnavailable)
    );
}

#[test]
fn demon_is_patched_among_its_creators_and_records() {
    let listed = DemonWithCreatorsAndRecords {
        demon: demon(),
        creators: vec![player(1, "Riot"), player(9, "Manix")],
        records: vec![],
    };
    let store = Script::new(vec![Reply::Written(Outcome::Value(()))]);
    let data = moderator().with_if_match(Some(IfMatch(vec![etag(&demon())])));
    let patch = PatchDemon { requirement: Some(60), ..empty_patch() };
    let mut changed = demon();
    changed.requirement = 60;
    assert_eq!(
        listed.patch(patch, data.ctx(&store)),
        Ok(DemonWithCreatorsAndRecords {
            demon: changed,
            creators: vec![player(1, "Riot"), player(9, "Manix")],
            records: vec![],
        })
    );

    let listed = DemonWithCreatorsAndRecords { demon: demon(), creators: vec![], records: vec![] };
    let anonymous = RequestData::new(ip());
    assert_eq!(
        listed.patch(empty_patch(), anonymous.ctx(&store)),
        Err(PointercrateError::Unauthorized)
    );
}

struct Disk {
    outcomes: RefCell<VecDeque<Outcome<()>>>,
    written: RefCell<Vec<Player>>,
}

impl Disk {
    fn new(outcomes: Vec<Outcome<()>>) -> Disk {
        Disk { outcomes: RefCell::new(outcomes.into_iter().collect()), written: RefCell::new(Vec::new()) }
    }
}

impl Store<ApplyPatch<Player, PatchPlayer>> for Disk {
    fn answer(&self, state: &Player, _query: &Persist) -> Outcome<()> {
        self.written.borrow_mut().push(state.clone());
        self.outcomes.borrow_mut().pop_front().unwrap()
    }
}

#[test]
fn player_is_written_down_field_by_field() {
    assert_eq!(
        Player { id: 1, name: "ab".to_string(), banned: true }.canonical_bytes(),
        vec![0x80, 0, 0, 1, 0, 0, 0, 0, 0, 0, 0, 2, b'a', b'b', 1]
    );
    assert_eq!(
        Player { id: -2, name: String::new(), banned: false }.canonical_bytes(),
        vec![0x7f, 0xff, 0xff, 0xfe, 0, 0, 0, 0, 0, 0, 0, 0, 0]
    );
}

#[test]
fn patch_in_a_request_is_checked_applied_and_written() {
    let disk = Disk::new(vec![Outcome::Value(())]);
    let target = player(5, "cheater");
    let data = moderator().with_if_match(Some(IfMatch(vec![etag(&target)])));
    let banned = Player { id: 5, name: "cheater".to_string(), banned: true };
    assert_eq!(
        patch_in(target, PatchPlayer { banned: Some(true) }, data.ctx(&disk)),
        Ok(banned.clone())
    );
    assert_eq!(*disk.written.borrow(), vec![banned]);
}

#[test]
fn patch_in_a_request_that_is_turned_down_writes_nothing() {
    let disk = Disk::new(vec![]);
    let token = etag(&player(5, "cheater"));

    let anonymous = RequestData::new(ip()).with_if_match(Some(IfMatch(vec![token])));
    assert_eq!(
        patch_in(player(5, "cheater"), PatchPlayer { banned: Some(true) }, anonymous.ctx(&disk)),
        Err(PointercrateError::Unauthorized)
    );

    let helper = RequestData::new(ip())
        .with_user(Me(user(PermissionsSet::one(Permission::ListHelper))))
        .with_if_match(Some(IfMatch(vec![token])));
    assert_eq!(
        patch_in(player(5, "cheater"), PatchPlayer { banned: Some(true) }, helper.ctx(&disk)),
        Err(PointercrateError::MissingPermissions { required: list_moderation_permissions() })
    );

    let stale = moderator().with_if_match(Some(IfMatch(vec![token])));
    let mut changed = player(5, "cheater");
    changed.banned = true;
    assert_eq!(
        patch_in(changed, PatchPlayer { banned: Some(false) }, stale.ctx(&disk)),
        Err(PointercrateError::PreconditionFailed)
    );

    let unconditional = moderator();
    assert_eq!(
        patch_in(player(5, "cheater"), PatchPlayer { banned: Some(true) }, unconditional.ctx(&disk)),
        Err(PointercrateError::InvalidState)
    );
    assert!(disk.written.borrow().is_empty());
}

#[test]
fn patch_in_a_request_fails_with_the_store() {
    let disk = Disk::new(vec![Outcome::Unavailable, Outcome::Failed]);
    let data = RequestData::Internal;
    assert_eq!(
        patch_in(player(5, "cheater"), PatchPlayer { banned: Some(true) }, data.ctx(&disk)),
        Err(PointercrateError::ConnectionUnavailable)
    );
    assert_eq!(
        patch_in(player(5, "cheater"), PatchPlayer { banned: Some(true) }, data.ctx(&disk)),
        Err(PointercrateError::DatabaseError)
    );
}

#[test]
fn patch_that_needs_nothing_still_takes_the_token() {
    let disk = Disk::new(vec![Outcome::Value(())]);
    let anonymous = RequestData::new(ip());
    assert_eq!(
        patch_in(player(5, "cheater"), PatchPlayer { banned: None }, anonymous.ctx(&disk)),
        Err(PointercrateError::InvalidState)
    );
    let anonymous =
        RequestData::new(ip()).with_if_match(Some(IfMatch(vec![etag(&player(5, "cheater"))])));
    assert_eq!(
        patch_in(player(5, "cheater"), PatchPlayer { banned: None }, anonymous.ctx(&disk)),
        Ok(player(5, "cheater"))
    );
}

#[test]
fn others_make_room_for_a_demon_that_moves() {
    assert_eq!(shift(10, 3), Some(Shift { first: 3, last: 9, by: 1 }));
    assert_eq!(shift(3, 10), Some(Shift { first: 4, last: 10, by: -1 }));
    assert_eq!(shift(10, 9), Some(Shift { first: 9, last: 9, by: 1 }));
    assert_eq!(shift(9, 10), Some(Shift { first: 10, last: 10, by: -1 }));
    assert_eq!(shift(7, 7), None);
    assert_eq!(shift(i16::MAX, i16::MIN), Some(Shift { first: i16::MIN, last: i16::MAX - 1, by: 1 }));
    assert_eq!(shift(i16::MIN, i16::MAX), Some(Shift { first: i16::MIN + 1, last: i16::MAX, by: -1 }));
}

#[test]
fn list_stays_a_list_when_a_demon_moves() {
    // a list of six demons, each known by the position at which it stood
    for from in 1i16..=6 {
        for to in 1i16..=6 {
            let room = shift(from, to);
            let mut list = vec![0i16; 6];
            for position in 1i16..=6 {
                let place = if position == from {
                    to
                } else {
                    match room {
                        Some(Shift { first, last, by }) if first <= position && position <= last => {
                            position + by
                        },
                        _ => position,
                    }
                };
                assert!((1..=6).contains(&place));
                assert_eq!(list[(place - 1) as usize], 0);
                list[(place - 1) as usize] = position;
            }
            assert!(list.iter().all(|demon| *demon != 0));
            assert_eq!(list[(to - 1) as usize], from);
        }
    }
}
