use ipnetwork::IpNetwork;
use pointercrate::context::{RequestContext, RequestData};
use pointercrate::error::PointercrateError;
use pointercrate::middleware::auth::Me;
use pointercrate::middleware::cond::{etag, Canonical, IfMatch};
use pointercrate::model::demon::Demon;
use pointercrate::model::player::Player;
use pointercrate::model::user::User;
use pointercrate::permissions::{Permission, PermissionsSet};

fn ip() -> IpNetwork {
    "192.168.0.1/32".parse().unwrap()
}

fn user(permissions: PermissionsSet) -> User {
    User {
        id: 1,
        name: "stadust".to_string(),
        display_name: None,
        youtube_channel: None,
        permissions,
        password_hash: "hash".to_string(),
    }
}

fn sample_demon() -> Demon {
    Demon {
        name: "Ab".to_string(),
        position: 1,
        requirement: -1,
        video: Some("v".to_string()),
        verifier: Player { id: 2, name: "verifier".to_string(), banned: false },
        publisher: Player { id: -1, name: "publisher".to_string(), banned: false },
    }
}

fn list_roles() -> PermissionsSet {
    PermissionsSet::one(Permission::ListModerator).with(Permission::ListAdministrator)
}

#[test]
fn new_request_has_an_address_and_nothing_else() {
    match RequestData::new(ip()) {
        RequestData::External { ip: address, user, if_match } => {
            assert_eq!(address, ip());
            assert!(user.is_none());
            assert!(if_match.is_none());
        },
        RequestData::Internal => panic!("a new request comes from outside"),
    }
}

#[test]
fn user_and_condition_are_set_on_requests_from_outside() {
    let data = RequestData::new(ip())
        .with_user(Me(user(list_roles())))
        .with_if_match(Some(IfMatch(vec![1, 2, 3])));
    match data {
        RequestData::External { ip: address, user: Some(me), if_match: Some(condition) } => {
            assert_eq!(address, ip());
            assert_eq!(me.0.id, 1);
            assert_eq!(condition, IfMatch(vec![1, 2, 3]));
        },
        _ => panic!("the user or the condition got lost"),
    }
    let data = RequestData::new(ip()).with_if_match(Some(IfMatch(vec![1]))).with_if_match(None);
    assert!(matches!(data, RequestData::External { user: None, if_match: None, .. }));
}

#[test]
fn request_of_the_system_stays_as_it_is() {
    let data = RequestData::Internal.with_user(Me(user(list_roles())));
    assert!(matches!(data, RequestData::Internal));
    let data = RequestData::Internal.with_if_match(Some(IfMatch(vec![1])));
    assert!(matches!(data, RequestData::Internal));
}

#[test]
fn context_borrows_what_the_request_holds() {
    let connection = 17u8;
    let data = RequestData::new(ip()).with_user(Me(user(list_roles())));
    let context = data.ctx(&connection);
    assert_eq!(*context.connection(), 17);
    match context {
        RequestContext::External { ip: address, user: Some(me), if_match: None, connection } => {
            assert_eq!(address, ip());
            assert_eq!(me.0.name, "stadust");
            assert_eq!(*connection, 17);
        },
        _ => panic!("the context does not hold what the request held"),
    }
    let internal = RequestData::Internal;
    let context = internal.ctx(&connection);
    assert!(matches!(context, RequestContext::Internal(17)));
    assert_eq!(*context.connection(), 17);
}

#[test]
fn nothing_required_is_open_to_all() {
    let connection = ();
    let anonymous = RequestData::new(ip());
    assert_eq!(anonymous.ctx(&connection).check_permissions(PermissionsSet::new()), Ok(()));
    let powerless = RequestData::new(ip()).with_user(Me(user(PermissionsSet::new())));
    assert_eq!(powerless.ctx(&connection).check_permissions(PermissionsSet::new()), Ok(()));
}

#[test]
fn anonymous_request_is_unauthorized() {
    let connection = ();
    let anonymous = RequestData::new(ip());
    assert_eq!(
        anonymous.ctx(&connection).check_permissions(list_roles()),
        Err(PointercrateError::Unauthorized)
    );
}

#[test]
fn account_without_any_required_capability_is_turned_down() {
    let connection = ();
    let helper = RequestData::new(ip()).with_user(Me(user(
        PermissionsSet::one(Permission::ListHelper).with(Permission::Moderator),
    )));
    assert_eq!(
        helper.ctx(&connection).check_permissions(list_roles()),
        Err(PointercrateError::MissingPermissions { required: list_roles() })
    );
}

#[test]
fn one_required_capability_is_enough() {
    let connection = ();
    let administrator =
        RequestData::new(ip()).with_user(Me(user(PermissionsSet::one(Permission::ListAdministrator))));
    assert_eq!(administrator.ctx(&connection).check_permissions(list_roles()), Ok(()));
}

#[test]
fn system_may_do_anything() {
    let connection = ();
    let internal = RequestData::Internal;
    assert_eq!(internal.ctx(&connection).check_permissions(list_roles()), Ok(()));
    assert!(internal.ctx(&connection).is_list_mod());
    assert_eq!(internal.ctx(&connection).check_if_match(&sample_demon()), Ok(()));
}

#[test]
fn list_moderators_are_those_who_hold_that_capability() {
    let connection = ();
    let moderator =
        RequestData::new(ip()).with_user(Me(user(PermissionsSet::one(Permission::ListModerator))));
    assert!(moderator.ctx(&connection).is_list_mod());
    let helper = RequestData::new(ip()).with_user(Me(user(
        PermissionsSet::one(Permission::ListHelper).with(Permission::Moderator),
    )));
    assert!(!helper.ctx(&connection).is_list_mod());
    let anonymous = RequestData::new(ip());
    assert!(!anonymous.ctx(&connection).is_list_mod());
}

#[test]
fn token_of_the_current_state_passes() {
    let connection = ();
    let demon = sample_demon();
    let token = etag(&demon);
    let data = RequestData::new(ip()).with_if_match(Some(IfMatch(vec![token])));
    assert_eq!(data.ctx(&connection).check_if_match(&demon), Ok(()));
    let data = RequestData::new(ip()).with_if_match(Some(IfMatch(vec![token ^ 1, token, 5])));
    assert_eq!(data.ctx(&connection).check_if_match(&demon), Ok(()));
}

#[test]
fn token_of_another_state_fails() {
    let connection = ();
    let demon = sample_demon();
    let token = etag(&demon);
    let data = RequestData::new(ip()).with_if_match(Some(IfMatch(vec![token])));
    let mut moved = sample_demon();
    moved.position = 2;
    assert_ne!(etag(&moved), token);
    assert_eq!(
        data.ctx(&connection).check_if_match(&moved),
        Err(PointercrateError::PreconditionFailed)
    );
    let data = RequestData::new(ip()).with_if_match(Some(IfMatch(vec![])));
    assert_eq!(
        data.ctx(&connection).check_if_match(&demon),
        Err(PointercrateError::PreconditionFailed)
    );
}

#[test]
fn check_without_condition_is_a_mistake() {
    let connection = ();
    let data = RequestData::new(ip()).with_user(Me(user(list_roles())));
    assert_eq!(
        data.ctx(&connection).check_if_match(&sample_demon()),
        Err(PointercrateError::InvalidState)
    );
}

#[test]
fn condition_is_met_by_its_own_tokens_only() {
    let condition = IfMatch(vec![3, 1, 4]);
    assert!(condition.met(3));
    assert!(condition.met(4));
    assert!(!condition.met(2));
    assert!(!IfMatch(vec![]).met(0));
}

#[test]
fn demon_is_written_down_field_by_field() {
    let bytes = sample_demon().canonical_bytes();
    let expected: Vec<u8> = vec![
        0, 0, 0, 0, 0, 0, 0, 2, b'A', b'b', // the name behind its length
        0x80, 0x01, // position 1
        0x7f, 0xff, // requirement -1
        1, 0, 0, 0, 0, 0, 0, 0, 1, b'v', // the video is there
        0x80, 0x00, 0x00, 0x02, // verifier 2
        0x7f, 0xff, 0xff, 0xff, // publisher -1
    ];
    assert_eq!(bytes, expected);

    let mut bare = sample_demon();
    bare.video = None;
    bare.name = "é".to_string();
    let bytes = bare.canonical_bytes();
    assert_eq!(&bytes[..10], &[0, 0, 0, 0, 0, 0, 0, 2, 0xc3, 0xa9]);
    assert_eq!(bytes[14], 0);
    assert_eq!(bytes.len(), 23);
}

#[test]
fn token_depends_on_every_field_that_counts() {
    let token = etag(&sample_demon());
    assert_eq!(etag(&sample_demon()), token);
    let mut changed = sample_demon();
    changed.name = "Ac".to_string();
    assert_ne!(etag(&changed), token);
    let mut changed = sample_demon();
    changed.requirement = 0;
    assert_ne!(etag(&changed), token);
    let mut changed = sample_demon();
    changed.video = None;
    assert_ne!(etag(&changed), token);
    let mut changed = sample_demon();
    changed.verifier.id = 3;
    assert_ne!(etag(&changed), token);
    let mut changed = sample_demon();
    changed.publisher.id = 3;
    assert_ne!(etag(&changed), token);
    // the name of a player is not part of the state of the demon
    let mut same = sample_demon();
    same.verifier.name = "someone".to_string();
    assert_eq!(etag(&same), token);
}
