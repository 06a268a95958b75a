use crate::actor::database::lookup::{FindOrCreate, PlayerByName};
use crate::actor::database::{
    after, given_up, run, Command, Outcome, Query, Reply, Step, Store,
};
use crate::context::RequestContext;
use crate::error::PointercrateError;
use crate::middleware::cond::{token_of, Canonical};
use crate::model::demon::{Demon, DemonWithCreatorsAndRecords};
use crate::model::player::Player;
use crate::patch::PatchField;
use crate::permissions::{Permission, PermissionsSet};
use vstd::prelude::*;

verus! {

/// A partial update of a demon. A field that is not there stays as it is.
#[derive(Debug, PartialEq, Eq)]
pub struct PatchDemon {
    pub name: Option<String>,
    pub position: Option<i16>,
    pub video: PatchField<String>,
    pub requirement: Option<i16>,
    /// The name of the player who verified the demon.
    pub verifier: Option<String>,
    /// The name of the player who published the demon.
    pub publisher: Option<String>,
}

/// Has a patch applied to a demon on behalf of someone who has been let through
/// already: each field of the patch is checked, in the order name, position,
/// video: the name must be free, the position on the list, the video accepted.
/// Name, video and requirement are then set in memory; the verifier and the
/// publisher are found by their names, or made. At last the demon is written to
/// the store, and moved if the patch says so, in one piece. The first thing that
/// fails ends the command with its error.
#[derive(Debug)]
pub struct ApplyDemonPatch(pub Demon, pub PatchDemon);

/// What is left to do of a patch once its fields have been checked.
#[derive(Debug, PartialEq, Eq)]
pub struct Pending {
    /// The name under which the store knows the demon.
    pub name: String,
    /// Where the demon is to move.
    pub position: Option<i16>,
    /// The name of the new publisher.
    pub publisher: Option<String>,
}

/// How far the patch of a demon has come.
#[derive(Debug, PartialEq, Eq)]
pub enum PatchingDemon {
    /// The store is asked whether the new name is in use.
    CheckingName { demon: Demon, patch: PatchDemon },
    /// The store is asked how long the list is.
    CheckingPosition { demon: Demon, patch: PatchDemon },
    /// The new video is being validated.
    CheckingVideo { demon: Demon, patch: PatchDemon },
    /// The new verifier is being found or made.
    ResolvingVerifier { demon: Demon, pending: Pending, lookup: FindOrCreate<String> },
    /// The new publisher is being found or made.
    ResolvingPublisher { demon: Demon, pending: Pending, lookup: FindOrCreate<String> },
    /// The demon has been changed in memory and is being written to the store.
    Storing(Demon),
}

/// The capabilities of which it takes one to patch a demon: to moderate the list,
/// or to administer it.
pub open spec fn list_moderation() -> PermissionsSet {
    PermissionsSet::of(
        Set::<Permission>::empty().insert(Permission::ListModerator).insert(
            Permission::ListAdministrator,
        ),
    )
}

pub fn list_moderation_permissions() -> (required: PermissionsSet)
    ensures
        required == list_moderation(),
{
    let required = PermissionsSet::one(Permission::ListModerator).with(
        Permission::ListAdministrator,
    );
    proof {
        use_type_invariant(&required);
        required.lemma_canonical();
    }
    required
}

/// The demons that make room when one of them moves: those that stand at the
/// positions from `first` to `last` move by `by`.
#[derive(Clone, Copy, Debug, PartialEq, Eq, Structural)]
pub struct Shift {
    pub first: i16,
    pub last: i16,
    pub by: i16,
}

impl Shift {
    /// Where the shift leaves a demon that stands at `position`.
    pub open spec fn apply(self, position: int) -> int {
        if self.first <= position <= self.last {
            position + self.by
        } else {
            position
        }
    }
}

/// Where a demon stands that stood at `position`, once the demon at `from` has
/// moved to `to`: the demon that moves stands at `to`, and the demons between the
/// two positions have moved up by one to fill the gap, or down by one to make
/// room.
pub open spec fn place_after(position: int, from: int, to: int) -> int {
    if position == from {
        to
    } else if to <= position < from {
        position + 1
    } else if from < position <= to {
        position - 1
    } else {
        position
    }
}

/// The demons that make room when the demon at `from` moves to `to`.
pub open spec fn spec_shift(from: i16, to: i16) -> Option<Shift> {
    if to < from {
        Some(Shift { first: to, last: (from - 1) as i16, by: 1 })
    } else if to > from {
        Some(Shift { first: (from + 1) as i16, last: to, by: -1i16 })
    } else {
        None
    }
}

#[verifier::when_used_as_spec(spec_shift)]
pub fn shift(from: i16, to: i16) -> (shift: Option<Shift>)
    ensures
        shift == spec_shift(from, to),
{
    if to < from {
        Some(Shift { first: to, last: from - 1, by: 1 })
    } else if to > from {
        Some(Shift { first: from + 1, last: to, by: -1 })
    } else {
        None
    }
}

/// The shift is what a move does to the demons that do not move themselves.
pub proof fn lemma_shift_makes_room(from: i16, to: i16, position: int)
    requires
        position != from,
    ensures
        place_after(position, from as int, to as int) == match spec_shift(from, to) {
            Some(shift) => shift.apply(position),
            None => position,
        },
{
}

/// A move keeps the list a list: on a list of `length` demons, every demon stands
/// on the list afterwards, and no two of them at the same position.
pub proof fn lemma_move_keeps_the_list(from: int, to: int, length: int, p: int, q: int)
    requires
        1 <= from <= length,
        1 <= to <= length,
        1 <= p <= length,
        1 <= q <= length,
    ensures
        1 <= place_after(p, from, to) <= length,
        place_after(p, from, to) == place_after(q, from, to) ==> p == q,
{
}

/// Whether a demon can stand at `position` on a list of `length` demons.
pub open spec fn on_list(position: i16, length: i16) -> bool {
    1 <= position <= length
}

impl PatchingDemon {
    /// The query that has the demon written to the store as `demon` says, and moved
    /// where the patch wants it, with the others making room.
    pub open spec fn storing(demon: Demon, pending: Pending) -> Step<PatchingDemon, Query, Demon> {
        let moved = Demon {
            position: match pending.position {
                Some(position) => position,
                None => demon.position,
            },
            ..demon
        };
        Step::Ask {
            state: PatchingDemon::Storing(moved),
            query: Query::UpdateDemon {
                name: pending.name,
                updated: moved,
                shift: match pending.position {
                    Some(position) => spec_shift(demon.position, position),
                    None => None,
                },
            },
        }
    }

    /// How the patch goes on from a step of the search for the publisher.
    pub open spec fn publisher_step(
        step: Step<FindOrCreate<String>, Query, Player>,
        demon: Demon,
        pending: Pending,
    ) -> Step<PatchingDemon, Query, Demon> {
        match step {
            Step::Ask { state, query } => Step::Ask {
                state: PatchingDemon::ResolvingPublisher { demon, pending, lookup: state },
                query,
            },
            Step::Done(Ok(player)) => Self::storing(Demon { publisher: player, ..demon }, pending),
            Step::Done(Err(error)) => Step::Done(Err(error)),
        }
    }

    /// How the patch goes on once the verifier is settled.
    pub open spec fn verified(demon: Demon, pending: Pending) -> Step<PatchingDemon, Query, Demon> {
        match pending.publisher {
            Some(name) => Self::publisher_step(PlayerByName(name).first_step(), demon, pending),
            None => Self::storing(demon, pending),
        }
    }

    /// How the patch goes on from a step of the search for the verifier.
    pub open spec fn verifier_step(
        step: Step<FindOrCreate<String>, Query, Player>,
        demon: Demon,
        pending: Pending,
    ) -> Step<PatchingDemon, Query, Demon> {
        match step {
            Step::Ask { state, query } => Step::Ask {
                state: PatchingDemon::ResolvingVerifier { demon, pending, lookup: state },
                query,
            },
            Step::Done(Ok(player)) => Self::verified(Demon { verifier: player, ..demon }, pending),
            Step::Done(Err(error)) => Step::Done(Err(error)),
        }
    }

    /// The demon with the name, the video and the requirement that the patch gives
    /// it.
    pub open spec fn applied(demon: Demon, patch: PatchDemon) -> Demon {
        Demon {
            name: match patch.name {
                Some(name) => name,
                None => demon.name,
            },
            video: patch.video.spec_onto(demon.video),
            requirement: match patch.requirement {
                Some(requirement) => requirement,
                None => demon.requirement,
            },
            ..demon
        }
    }

    /// How the patch goes on once the name, the position and the video have stood
    /// up: they are set in memory, and the players are resolved.
    pub open spec fn validated(demon: Demon, patch: PatchDemon) -> Step<
        PatchingDemon,
        Query,
        Demon,
    > {
        let pending = Pending {
            name: demon.name,
            position: patch.position,
            publisher: patch.publisher,
        };
        match patch.verifier {
            Some(name) => Self::verifier_step(
                PlayerByName(name).first_step(),
                Self::applied(demon, patch),
                pending,
            ),
            None => Self::verified(Self::applied(demon, patch), pending),
        }
    }

    /// How the patch goes on once the name and the position have stood up.
    pub open spec fn positioned(demon: Demon, patch: PatchDemon) -> Step<
        PatchingDemon,
        Query,
        Demon,
    > {
        match patch.video {
            PatchField::Value(raw) => Step::Ask {
                state: PatchingDemon::CheckingVideo { demon, patch },
                query: Query::ValidateVideo(raw),
            },
            _ => Self::validated(demon, patch),
        }
    }

    /// How the patch goes on once the name has stood up.
    pub open spec fn named(demon: Demon, patch: PatchDemon) -> Step<PatchingDemon, Query, Demon> {
        match patch.position {
            Some(_) => Step::Ask {
                state: PatchingDemon::CheckingPosition { demon, patch },
                query: Query::CountDemons,
            },
            None => Self::positioned(demon, patch),
        }
    }

    /// How the patch goes on once the one who asks has been let through.
    pub open spec fn admitted(demon: Demon, patch: PatchDemon) -> Step<
        PatchingDemon,
        Query,
        Demon,
    > {
        match patch.name {
            Some(name) => Step::Ask {
                state: PatchingDemon::CheckingName { demon, patch },
                query: Query::FindDemon(name),
            },
            None => Self::named(demon, patch),
        }
    }

}

impl Command for ApplyDemonPatch {
    type Output = Demon;

    type State = PatchingDemon;

    type Query = Query;

    type Reply = Reply;

    open spec fn first_step(self) -> Step<PatchingDemon, Query, Demon> {
        PatchingDemon::admitted(self.0, self.1)
    }

    open spec fn next_step(state: PatchingDemon, reply: Reply) -> Step<PatchingDemon, Query, Demon> {
        match state {
            PatchingDemon::CheckingName { demon, patch } => match reply {
                Reply::Demon(Outcome::Value(other)) => Step::Done(
                    Err(PointercrateError::DemonExists { position: other.position }),
                ),
                Reply::Demon(Outcome::NotFound) => PatchingDemon::named(demon, patch),
                Reply::Demon(outcome) => Step::Done(Err(outcome.spec_failure())),
                _ => Step::Done(Err(PointercrateError::InvalidState)),
            },
            PatchingDemon::CheckingPosition { demon, patch } => match reply {
                Reply::Count(Outcome::Value(length)) => if patch.position matches Some(position)
                    && !on_list(position, length) {
                    Step::Done(Err(PointercrateError::InvalidPosition { maximal: length }))
                } else {
                    PatchingDemon::positioned(demon, patch)
                },
                Reply::Count(outcome) => Step::Done(Err(outcome.spec_failure())),
                _ => Step::Done(Err(PointercrateError::InvalidState)),
            },
            PatchingDemon::CheckingVideo { demon, patch } => match reply {
                Reply::Video(Ok(video)) => PatchingDemon::validated(
                    demon,
                    PatchDemon { video: PatchField::Value(video), ..patch },
                ),
                Reply::Video(Err(error)) => Step::Done(Err(error)),
                _ => Step::Done(Err(PointercrateError::InvalidState)),
            },
            PatchingDemon::ResolvingVerifier { demon, pending, lookup } => PatchingDemon::verifier_step(
                PlayerByName::next_step(lookup, reply),
                demon,
                pending,
            ),
            PatchingDemon::ResolvingPublisher { demon, pending, lookup } => PatchingDemon::publisher_step(
                PlayerByName::next_step(lookup, reply),
                demon,
                pending,
            ),
            PatchingDemon::Storing(demon) => match reply {
                Reply::Written(Outcome::Value(_)) => Step::Done(Ok(demon)),
                Reply::Written(outcome) => Step::Done(Err(outcome.spec_failure())),
                _ => Step::Done(Err(PointercrateError::InvalidState)),
            },
        }
    }

    open spec fn budget(state: PatchingDemon) -> nat {
        match state {
            PatchingDemon::CheckingName { .. } => 7,
            PatchingDemon::CheckingPosition { .. } => 6,
            PatchingDemon::CheckingVideo { .. } => 5,
            PatchingDemon::ResolvingVerifier { lookup, .. } => PlayerByName::budget(lookup) + 3,
            PatchingDemon::ResolvingPublisher { lookup, .. } => PlayerByName::budget(lookup) + 1,
            PatchingDemon::Storing(_) => 0,
        }
    }

    proof fn lemma_budget(state: PatchingDemon, reply: Reply) {
        match state {
            PatchingDemon::ResolvingVerifier { demon, pending, lookup } => {
                PlayerByName::lemma_budget(lookup, reply);
            },
            PatchingDemon::ResolvingPublisher { demon, pending, lookup } => {
                PlayerByName::lemma_budget(lookup, reply);
            },
            _ => {},
        }
    }

    fn start(self) -> (step: Step<PatchingDemon, Query, Demon>) {
        go_on_admitted(self.0, self.1)
    }

    fn resume(state: PatchingDemon, reply: Reply) -> (step: Step<PatchingDemon, Query, Demon>) {
        match state {
            PatchingDemon::CheckingName { demon, patch } => match reply {
                Reply::Demon(Outcome::Value(other)) => Step::Done(
                    Err(PointercrateError::DemonExists { position: other.position }),
                ),
                Reply::Demon(Outcome::NotFound) => go_on_named(demon, patch),
                Reply::Demon(outcome) => Step::Done(Err(outcome.failure())),
                _ => Step::Done(Err(PointercrateError::InvalidState)),
            },
            PatchingDemon::CheckingPosition { demon, patch } => match reply {
                Reply::Count(Outcome::Value(length)) => {
                    match patch.position {
                        Some(position) => {
                            if position < 1 || position > length {
                                return Step::Done(
                                    Err(PointercrateError::InvalidPosition { maximal: length }),
                                );
                            }
                        },
                        None => {},
                    }
                    go_on_positioned(demon, patch)
                },
                Reply::Count(outcome) => Step::Done(Err(outcome.failure())),
                _ => Step::Done(Err(PointercrateError::InvalidState)),
            },
            PatchingDemon::CheckingVideo { demon, patch } => match reply {
                Reply::Video(Ok(video)) => go_on_validated(
                    demon,
                    PatchDemon {
                        name: patch.name,
                        position: patch.position,
                        video: PatchField::Value(video),
                        requirement: patch.requirement,
                        verifier: patch.verifier,
                        publisher: patch.publisher,
                    },
                ),
                Reply::Video(Err(error)) => Step::Done(Err(error)),
                _ => Step::Done(Err(PointercrateError::InvalidState)),
            },
            PatchingDemon::ResolvingVerifier { demon, pending, lookup } => go_on_verifier(
                PlayerByName::resume(lookup, reply),
                demon,
                pending,
            ),
            PatchingDemon::ResolvingPublisher { demon, pending, lookup } => go_on_publisher(
                PlayerByName::resume(lookup, reply),
                demon,
                pending,
            ),
            PatchingDemon::Storing(demon) => match reply {
                Reply::Written(Outcome::Value(_)) => Step::Done(Ok(demon)),
                Reply::Written(outcome) => Step::Done(Err(outcome.failure())),
                _ => Step::Done(Err(PointercrateError::InvalidState)),
            },
        }
    }
}

fn go_on_storing(demon: Demon, pending: Pending) -> (step: Step<PatchingDemon, Query, Demon>)
    ensures
        step == PatchingDemon::storing(demon, pending),
{
    let room = match pending.position {
        Some(position) => shift(demon.position, position),
        None => None,
    };
    let moved = Demon {
        name: demon.name,
        position: match pending.position {
            Some(position) => position,
            None => demon.position,
        },
        requirement: demon.requirement,
        video: demon.video,
        verifier: demon.verifier,
        publisher: demon.publisher,
    };
    let query = Query::UpdateDemon { name: pending.name, updated: moved.clone(), shift: room };
    Step::Ask { state: PatchingDemon::Storing(moved), query }
}

fn go_on_publisher(
    step: Step<FindOrCreate<String>, Query, Player>,
    demon: Demon,
    pending: Pending,
) -> (next: Step<PatchingDemon, Query, Demon>)
    ensures
        next == PatchingDemon::publisher_step(step, demon, pending),
{
    match step {
        Step::Ask { state, query } => Step::Ask {
            state: PatchingDemon::ResolvingPublisher { demon, pending, lookup: state },
            query,
        },
        Step::Done(Ok(player)) => go_on_storing(
            Demon {
                name: demon.name,
                position: demon.position,
                requirement: demon.requirement,
                video: demon.video,
                verifier: demon.verifier,
                publisher: player,
            },
            pending,
        ),
        Step::Done(Err(error)) => Step::Done(Err(error)),
    }
}

fn go_on_verified(demon: Demon, pending: Pending) -> (step: Step<PatchingDemon, Query, Demon>)
    ensures
        step == PatchingDemon::verified(demon, pending),
{
    match &pending.publisher {
        Some(name) => {
            let first = PlayerByName(name.clone()).start();
            go_on_publisher(first, demon, pending)
        },
        None => go_on_storing(demon, pending),
    }
}

fn go_on_verifier(
    step: Step<FindOrCreate<String>, Query, Player>,
    demon: Demon,
    pending: Pending,
) -> (next: Step<PatchingDemon, Query, Demon>)
    ensures
        next == PatchingDemon::verifier_step(step, demon, pending),
{
    match step {
        Step::Ask { state, query } => Step::Ask {
            state: PatchingDemon::ResolvingVerifier { demon, pending, lookup: state },
            query,
        },
        Step::Done(Ok(player)) => go_on_verified(
            Demon {
                name: demon.name,
                position: demon.position,
                requirement: demon.requirement,
                video: demon.video,
                verifier: player,
                publisher: demon.publisher,
            },
            pending,
        ),
        Step::Done(Err(error)) => Step::Done(Err(error)),
    }
}

fn go_on_validated(demon: Demon, patch: PatchDemon) -> (step: Step<PatchingDemon, Query, Demon>)
    ensures
        step == PatchingDemon::validated(demon, patch),
{
    let pending = Pending {
        name: demon.name.clone(),
        position: patch.position,
        publisher: patch.publisher,
    };
    let applied = Demon {
        name: match patch.name {
            Some(name) => name,
            None => demon.name,
        },
        position: demon.position,
        requirement: match patch.requirement {
            Some(requirement) => requirement,
            None => demon.requirement,
        },
        video: patch.video.onto(demon.video),
        verifier: demon.verifier,
        publisher: demon.publisher,
    };
    match patch.verifier {
        Some(name) => go_on_verifier(PlayerByName(name).start(), applied, pending),
        None => go_on_verified(applied, pending),
    }
}

fn go_on_positioned(demon: Demon, patch: PatchDemon) -> (step: Step<PatchingDemon, Query, Demon>)
    ensures
        step == PatchingDemon::positioned(demon, patch),
{
    match &patch.video {
        PatchField::Value(raw) => {
            let query = Query::ValidateVideo(raw.clone());
            Step::Ask { state: PatchingDemon::CheckingVideo { demon, patch }, query }
        },
        _ => go_on_validated(demon, patch),
    }
}

fn go_on_named(demon: Demon, patch: PatchDemon) -> (step: Step<PatchingDemon, Query, Demon>)
    ensures
        step == PatchingDemon::named(demon, patch),
{
    match patch.position {
        Some(_) => Step::Ask {
            state: PatchingDemon::CheckingPosition { demon, patch },
            query: Query::CountDemons,
        },
        None => go_on_positioned(demon, patch),
    }
}

fn go_on_admitted(demon: Demon, patch: PatchDemon) -> (step: Step<PatchingDemon, Query, Demon>)
    ensures
        step == PatchingDemon::admitted(demon, patch),
{
    match &patch.name {
        Some(name) => {
            let query = Query::FindDemon(name.clone());
            Step::Ask { state: PatchingDemon::CheckingName { demon, patch }, query }
        },
        None => go_on_named(demon, patch),
    }
}

impl Demon {
    /// What `patch` has come to, once it has come to `result` on the replies that
    /// the store has given.
    pub open spec fn patched<'a, C>(
        self,
        patch: PatchDemon,
        ctx: RequestContext<'a, C>,
        replies: Seq<Reply>,
        result: Result<Demon, PointercrateError>,
    ) -> bool {
        match ctx.permitted(list_moderation()) {
            Err(error) => result == Err::<Demon, PointercrateError>(error),
            Ok(_) => match ctx.matched(token_of(self.canonical())) {
                Err(error) => result == Err::<Demon, PointercrateError>(error),
                Ok(_) => after::<ApplyDemonPatch>(ApplyDemonPatch(self, patch).first_step(), replies)
                    == Step::<PatchingDemon, Query, Demon>::Done(result),
            },
        }
    }

    /// Changes this demon as `patch` says, for the one who asks in `ctx`, and gives
    /// the demon as it is then.
    ///
    /// The one who asks must be allowed to moderate or to administer the list;
    /// else the patch fails as `check_permissions` says. The one who asks must
    /// also have seen the demon as it is; else the patch fails as `check_if_match`
    /// says. Only then are the fields of the patch looked at and is the store
    /// asked anything, in the way of `ApplyDemonPatch`, which is run against the
    /// connection of `ctx`.
    pub fn patch<'a, C: Store<ApplyDemonPatch>>(
        self,
        patch: PatchDemon,
        ctx: RequestContext<'a, C>,
    ) -> (result: Result<Demon, PointercrateError>)
        ensures
            exists|replies: Seq<Reply>| #[trigger] self.patched(patch, ctx, replies, result),
    {
        match ctx.check_permissions(list_moderation_permissions()) {
            Err(error) => {
                assert(self.patched(patch, ctx, Seq::<Reply>::empty(), Err(error)));
                return Err(error);
            },
            Ok(()) => {},
        }
        match ctx.check_if_match(&self) {
            Err(error) => {
                assert(self.patched(patch, ctx, Seq::<Reply>::empty(), Err(error)));
                return Err(error);
            },
            Ok(()) => {},
        }
        let ghost first = ApplyDemonPatch(self, patch).first_step();
        let result = run(ApplyDemonPatch(self, patch), ctx.connection());
        proof {
            let replies = choose|replies: Seq<Reply>|
                #[trigger] after::<ApplyDemonPatch>(first, replies) == Step::<
                    PatchingDemon,
                    Query,
                    Demon,
                >::Done(result);
            assert(self.patched(patch, ctx, replies, result));
        }
        result
    }
}

impl DemonWithCreatorsAndRecords {
    /// Changes the demon as `patch` says, as `Demon::patch` does it. The creators
    /// and the records stay as they are.
    pub fn patch<'a, C: Store<ApplyDemonPatch>>(
        self,
        patch: PatchDemon,
        ctx: RequestContext<'a, C>,
    ) -> (result: Result<DemonWithCreatorsAndRecords, PointercrateError>)
        ensures
            exists|replies: Seq<Reply>, patched: Result<Demon, PointercrateError>|
                #[trigger] self.demon.patched(patch, ctx, replies, patched) && result == match patched {
                    Ok(demon) => Ok::<DemonWithCreatorsAndRecords, PointercrateError>(
                        DemonWithCreatorsAndRecords {
                            demon,
                            creators: self.creators,
                            records: self.records,
                        },
                    ),
                    Err(error) => Err(error),
                },
    {
        let DemonWithCreatorsAndRecords { demon, creators, records } = self;
        let patched = demon.patch(patch, ctx);
        proof {
            let replies = choose|replies: Seq<Reply>|
                #[trigger] demon.patched(patch, ctx, replies, patched);
            assert(self.demon.patched(patch, ctx, replies, patched));
        }
        match patched {
            Ok(demon) => Ok(DemonWithCreatorsAndRecords { demon, creators, records }),
            Err(error) => Err(error),
        }
    }
}

/// A patch by someone who may not patch demons, or who has not seen the demon as
/// it is, is turned down at once, with the error of the check that failed: no
/// field is looked at and nothing is asked of the store, which therefore holds
/// what it held. The capabilities are checked first.
pub proof fn lemma_patch_turned_down_asks_nothing<'a, C>(
    demon: Demon,
    patch: PatchDemon,
    ctx: RequestContext<'a, C>,
    replies: Seq<Reply>,
    result: Result<Demon, PointercrateError>,
)
    requires
        demon.patched(patch, ctx, replies, result),
    ensures
        ctx.permitted(list_moderation()) matches Err(error) ==> result == Err::<
            Demon,
            PointercrateError,
        >(error),
        ctx.permitted(list_moderation()) is Ok ==> (ctx.matched(
            token_of(demon.canonical()),
        ) matches Err(error) ==> result == Err::<Demon, PointercrateError>(error)),
{
}

/// Whether the patch stands where it has asked for the demon to be written, and
/// nowhere else.
pub open spec fn writes_last(step: Step<PatchingDemon, Query, Demon>) -> bool {
    step matches Step::Ask { state, query } ==> (query is UpdateDemon <==> state is Storing)
}

/// The demon is written to the store by the last query of a patch and by no other:
/// the query that writes it is asked once every field has stood up, and whatever
/// it is answered ends the patch. The writing and the move that goes with it are
/// one query, so the store does both or neither, and a patch that fails leaves the
/// demon in the store as it was.
pub proof fn lemma_demon_written_last(state: PatchingDemon, reply: Reply)
    ensures
        writes_last(ApplyDemonPatch::next_step(state, reply)),
        state is Storing ==> ApplyDemonPatch::next_step(state, reply) is Done,
{
    match state {
        PatchingDemon::ResolvingVerifier { demon, pending, lookup } => {
            let found = PlayerByName::next_step(lookup, reply);
            assert(found matches Step::Ask { query, .. } ==> !(query is UpdateDemon));
            match found {
                Step::Done(Ok(player)) => {
                    lemma_verified_writes_last(Demon { verifier: player, ..demon }, pending);
                },
                _ => {},
            }
        },
        PatchingDemon::ResolvingPublisher { demon, pending, lookup } => {
            let found = PlayerByName::next_step(lookup, reply);
            assert(found matches Step::Ask { query, .. } ==> !(query is UpdateDemon));
        },
        PatchingDemon::CheckingName { demon, patch } => {
            lemma_admitted_writes_last(demon, patch);
        },
        PatchingDemon::CheckingPosition { demon, patch } => {
            lemma_admitted_writes_last(demon, patch);
        },
        PatchingDemon::CheckingVideo { demon, patch } => {
            match reply {
                Reply::Video(Ok(video)) => {
                    lemma_admitted_writes_last(
                        demon,
                        PatchDemon { video: PatchField::Value(video), ..patch },
                    );
                },
                _ => {},
            }
        },
        PatchingDemon::Storing(_) => {},
    }
}

proof fn lemma_verified_writes_last(demon: Demon, pending: Pending)
    ensures
        writes_last(PatchingDemon::verified(demon, pending)),
{
    match pending.publisher {
        Some(name) => {
            let first = PlayerByName(name).first_step();
            assert(first matches Step::Ask { query, .. } && !(query is UpdateDemon));
        },
        None => {},
    }
}

/// The first query of a patch, and each query by which it goes on from one check
/// to the next, writes the demon only where nothing is left to check.
pub proof fn lemma_admitted_writes_last(demon: Demon, patch: PatchDemon)
    ensures
        writes_last(PatchingDemon::admitted(demon, patch)),
        writes_last(PatchingDemon::named(demon, patch)),
        writes_last(PatchingDemon::positioned(demon, patch)),
        writes_last(PatchingDemon::validated(demon, patch)),
{
    let pending = Pending { name: demon.name, position: patch.position, publisher: patch.publisher };
    let applied = PatchingDemon::applied(demon, patch);
    lemma_verified_writes_last(applied, pending);
    match patch.verifier {
        Some(name) => {
            let first = PlayerByName(name).first_step();
            assert(first matches Step::Ask { query, .. } && !(query is UpdateDemon));
        },
        None => {},
    }
}

/// A patch that finds the store out of reach is not tried again: it ends at once,
/// and asks nothing more.
pub proof fn lemma_patch_gives_up_without_connection(state: PatchingDemon, reply: Reply)
    requires
        reply.unavailable(),
    ensures
        given_up(ApplyDemonPatch::next_step(state, reply)),
{
}

/// Whether `result` is `old` with `patch` applied to it: each field that the patch
/// speaks of is as the patch says, and every other field is as it was. Of a new
/// video, a new verifier and a new publisher the patch only says that there is
/// one; what it is, the validation and the store say.
pub open spec fn applies(result: Demon, old: Demon, patch: PatchDemon) -> bool {
    &&& result.name == match patch.name {
        Some(name) => name,
        None => old.name,
    }
    &&& result.position == match patch.position {
        Some(position) => position,
        None => old.position,
    }
    &&& result.requirement == match patch.requirement {
        Some(requirement) => requirement,
        None => old.requirement,
    }
    &&& match patch.video {
        PatchField::Absent => result.video == old.video,
        PatchField::Null => result.video is None,
        PatchField::Value(_) => result.video is Some,
    }
    &&& (patch.verifier is None ==> result.verifier == old.verifier)
    &&& (patch.publisher is None ==> result.publisher == old.publisher)
}

/// Whether the patch of `old` with `patch` waits in `state` as it should: what it
/// has checked so far it has applied, and nothing else.
pub open spec fn in_order(state: PatchingDemon, old: Demon, patch: PatchDemon) -> bool {
    match state {
        PatchingDemon::CheckingName { demon, patch: waiting } => demon == old && waiting == patch,
        PatchingDemon::CheckingPosition { demon, patch: waiting } => demon == old && waiting
            == patch,
        PatchingDemon::CheckingVideo { demon, patch: waiting } => demon == old && waiting == patch
            && patch.video is Value,
        PatchingDemon::ResolvingVerifier { demon, pending, .. } => {
            &&& patch.verifier is Some
            &&& demon.position == old.position
            &&& pending == Pending {
                name: old.name,
                position: patch.position,
                publisher: patch.publisher,
            }
            &&& applies(
                Demon {
                    position: match patch.position {
                        Some(position) => position,
                        None => old.position,
                    },
                    ..demon
                },
                old,
                PatchDemon { verifier: None, publisher: None, ..patch },
            )
        },
        PatchingDemon::ResolvingPublisher { demon, pending, .. } => {
            &&& patch.publisher is Some
            &&& demon.position == old.position
            &&& pending == Pending {
                name: old.name,
                position: patch.position,
                publisher: patch.publisher,
            }
            &&& applies(
                Demon {
                    position: match patch.position {
                        Some(position) => position,
                        None => old.position,
                    },
                    ..demon
                },
                old,
                PatchDemon { publisher: None, ..patch },
            )
        },
        PatchingDemon::Storing(demon) => applies(demon, old, patch),
    }
}

/// Whether the patch of `old` with `patch` stands at `step` as it should: it waits
/// in order, or has given the demon with the patch applied.
pub open spec fn on_course(
    step: Step<PatchingDemon, Query, Demon>,
    old: Demon,
    patch: PatchDemon,
) -> bool {
    match step {
        Step::Ask { state, .. } => in_order(state, old, patch),
        Step::Done(Ok(demon)) => applies(demon, old, patch),
        Step::Done(Err(_)) => true,
    }
}

proof fn lemma_verified_on_course(demon: Demon, pending: Pending, old: Demon, patch: PatchDemon)
    requires
        pending == (Pending { name: old.name, position: patch.position, publisher: patch.publisher }),
        demon.position == old.position,
        applies(
            Demon {
                position: match patch.position {
                    Some(position) => position,
                    None => old.position,
                },
                ..demon
            },
            old,
            PatchDemon { publisher: None, ..patch },
        ),
    ensures
        on_course(PatchingDemon::verified(demon, pending), old, patch),
{
    match pending.publisher {
        Some(name) => {
            let first = PlayerByName(name).first_step();
            assert(first is Ask);
            assert(PatchingDemon::verified(demon, pending) == PatchingDemon::publisher_step(
                first,
                demon,
                pending,
            ));
        },
        None => {
            let moved = Demon {
                position: match pending.position {
                    Some(position) => position,
                    None => demon.position,
                },
                ..demon
            };
            assert(PatchingDemon::verified(demon, pending) == PatchingDemon::storing(
                demon,
                pending,
            ));
            assert(patch.publisher is None);
            assert(applies(moved, old, patch));
        },
    }
}

proof fn lemma_validated_on_course(old: Demon, waiting: PatchDemon, patch: PatchDemon)
    requires
        waiting.name == patch.name,
        waiting.position == patch.position,
        waiting.requirement == patch.requirement,
        waiting.verifier == patch.verifier,
        waiting.publisher == patch.publisher,
        waiting.video == patch.video || (waiting.video is Value && patch.video is Value),
    ensures
        on_course(PatchingDemon::validated(old, waiting), old, patch),
{
    let pending = Pending { name: old.name, position: patch.position, publisher: patch.publisher };
    let applied = PatchingDemon::applied(old, waiting);
    match patch.verifier {
        Some(name) => {},
        None => {
            lemma_verified_on_course(applied, pending, old, patch);
        },
    }
}

proof fn lemma_admitted_on_course(old: Demon, patch: PatchDemon)
    ensures
        on_course(PatchingDemon::admitted(old, patch), old, patch),
        on_course(PatchingDemon::named(old, patch), old, patch),
        on_course(PatchingDemon::positioned(old, patch), old, patch),
{
    lemma_validated_on_course(old, patch, patch);
}

/// A patch that is on course stays on course, whatever it is answered.
pub proof fn lemma_stays_on_course(
    old: Demon,
    patch: PatchDemon,
    state: PatchingDemon,
    reply: Reply,
)
    requires
        in_order(state, old, patch),
    ensures
        on_course(ApplyDemonPatch::next_step(state, reply), old, patch),
{
    match state {
        PatchingDemon::CheckingName { demon, patch: waiting } => {
            lemma_admitted_on_course(old, patch);
        },
        PatchingDemon::CheckingPosition { demon, patch: waiting } => {
            lemma_admitted_on_course(old, patch);
        },
        PatchingDemon::CheckingVideo { demon, patch: waiting } => {
            match reply {
                Reply::Video(Ok(video)) => {
                    lemma_validated_on_course(
                        old,
                        PatchDemon { video: PatchField::Value(video), ..patch },
                        patch,
                    );
                },
                _ => {},
            }
        },
        PatchingDemon::ResolvingVerifier { demon, pending, lookup } => {
            match PlayerByName::next_step(lookup, reply) {
                Step::Done(Ok(player)) => {
                    lemma_verified_on_course(
                        Demon { verifier: player, ..demon },
                        pending,
                        old,
                        patch,
                    );
                },
                _ => {},
            }
        },
        PatchingDemon::ResolvingPublisher { demon, pending, lookup } => {},
        PatchingDemon::Storing(_) => {},
    }
}

proof fn lemma_course_kept(
    old: Demon,
    patch: PatchDemon,
    step: Step<PatchingDemon, Query, Demon>,
    replies: Seq<Reply>,
)
    requires
        on_course(step, old, patch),
    ensures
        on_course(after::<ApplyDemonPatch>(step, replies), old, patch),
    decreases replies.len(),
{
    match step {
        Step::Done(_) => {},
        Step::Ask { state, query } => {
            if replies.len() > 0 {
                lemma_stays_on_course(old, patch, state, replies[0]);
                lemma_course_kept(
                    old,
                    patch,
                    ApplyDemonPatch::next_step(state, replies[0]),
                    replies.drop_first(),
                );
            }
        },
    }
}

/// The demon that comes of a patch is the demon as it was with the patch applied,
/// whatever the store answers: what the patch speaks of is as the patch says, and
/// nothing else has changed.
pub proof fn lemma_patch_applies(
    command: ApplyDemonPatch,
    replies: Seq<Reply>,
    result: Demon,
)
    requires
        after::<ApplyDemonPatch>(command.first_step(), replies) == Step::<
            PatchingDemon,
            Query,
            Demon,
        >::Done(Ok(result)),
    ensures
        applies(result, command.0, command.1),
{
    lemma_admitted_on_course(command.0, command.1);
    lemma_course_kept(command.0, command.1, command.first_step(), replies);
}

} // verus!
