use crate::actor::database::lookup::{DemonByName, FindOrCreate, PlayerByName};
use crate::actor::database::{after, asked, given_up, Command, Outcome, Query, Reply, Step};
use crate::config::{ListLimits, ListSection};
use crate::error::PointercrateError;
use crate::model::demon::Demon;
use crate::model::player::Player;
use crate::model::record::{clone_text, Record, RecordStatus, Submission};
use crate::model::submitter::Submitter;
use vstd::prelude::*;

verus! {

/// Asks for the player and the demon of the given names, in this order. The
/// player is made where the store does not know the name; the demon has to be on
/// the list.
#[derive(Debug)]
pub struct ResolveSubmissionData(pub String, pub String);

/// How far `ResolveSubmissionData` has come.
#[derive(Debug, PartialEq, Eq)]
pub enum Resolving {
    /// The player is being found or made; the demon's name waits.
    Player { lookup: FindOrCreate<String>, demon: String },
    /// The player is there, and the demon is being found.
    Demon { player: Player, name: String },
}

impl ResolveSubmissionData {
    /// How the command goes on once the player is there.
    pub open spec fn with_player(player: Player, demon: String) -> Step<
        Resolving,
        Query,
        (Player, Demon),
    > {
        match DemonByName(demon).first_step() {
            Step::Ask { state, query } => Step::Ask {
                state: Resolving::Demon { player, name: state },
                query,
            },
            Step::Done(Ok(found)) => Step::Done(Ok((player, found))),
            Step::Done(Err(error)) => Step::Done(Err(error)),
        }
    }
}

impl Command for ResolveSubmissionData {
    type Output = (Player, Demon);

    type State = Resolving;

    type Query = Query;

    type Reply = Reply;

    open spec fn first_step(self) -> Step<Resolving, Query, (Player, Demon)> {
        match PlayerByName(self.0).first_step() {
            Step::Ask { state, query } => Step::Ask {
                state: Resolving::Player { lookup: state, demon: self.1 },
                query,
            },
            Step::Done(Ok(player)) => Self::with_player(player, self.1),
            Step::Done(Err(error)) => Step::Done(Err(error)),
        }
    }

    open spec fn next_step(state: Resolving, reply: Reply) -> Step<
        Resolving,
        Query,
        (Player, Demon),
    > {
        match state {
            Resolving::Player { lookup, demon } => match PlayerByName::next_step(lookup, reply) {
                Step::Ask { state, query } => Step::Ask {
                    state: Resolving::Player { lookup: state, demon },
                    query,
                },
                Step::Done(Ok(player)) => Self::with_player(player, demon),
                Step::Done(Err(error)) => Step::Done(Err(error)),
            },
            Resolving::Demon { player, name } => match DemonByName::next_step(name, reply) {
                Step::Ask { state, query } => Step::Ask {
                    state: Resolving::Demon { player, name: state },
                    query,
                },
                Step::Done(Ok(found)) => Step::Done(Ok((player, found))),
                Step::Done(Err(error)) => Step::Done(Err(error)),
            },
        }
    }

    open spec fn budget(state: Self::State) -> nat {
        match state {
            Resolving::Player { lookup, .. } => PlayerByName::budget(lookup) + 1,
            Resolving::Demon { .. } => 0,
        }
    }

    proof fn lemma_budget(state: Self::State, reply: Self::Reply) {
        match state {
            Resolving::Player { lookup, demon } => {
                PlayerByName::lemma_budget(lookup, reply);
            },
            Resolving::Demon { player, name } => {
                DemonByName::lemma_budget(name, reply);
            },
        }
    }

    fn start(self) -> (step: Step<Resolving, Query, (Player, Demon)>) {
        match PlayerByName(self.0).start() {
            Step::Ask { state, query } => Step::Ask {
                state: Resolving::Player { lookup: state, demon: self.1 },
                query,
            },
            Step::Done(Ok(player)) => resolve_demon(player, self.1),
            Step::Done(Err(error)) => Step::Done(Err(error)),
        }
    }

    fn resume(state: Resolving, reply: Reply) -> (step: Step<Resolving, Query, (Player, Demon)>) {
        match state {
            Resolving::Player { lookup, demon } => match PlayerByName::resume(lookup, reply) {
                Step::Ask { state, query } => Step::Ask {
                    state: Resolving::Player { lookup: state, demon },
                    query,
                },
                Step::Done(Ok(player)) => resolve_demon(player, demon),
                Step::Done(Err(error)) => Step::Done(Err(error)),
            },
            Resolving::Demon { player, name } => match DemonByName::resume(name, reply) {
                Step::Ask { state, query } => Step::Ask {
                    state: Resolving::Demon { player, name: state },
                    query,
                },
                Step::Done(Ok(found)) => Step::Done(Ok((player, found))),
                Step::Done(Err(error)) => Step::Done(Err(error)),
            },
        }
    }
}

fn resolve_demon(player: Player, demon: String) -> (step: Step<Resolving, Query, (Player, Demon)>)
    ensures
        step == ResolveSubmissionData::with_player(player, demon),
{
    match DemonByName(demon).start() {
        Step::Ask { state, query } => Step::Ask {
            state: Resolving::Demon { player, name: state },
            query,
        },
        Step::Done(Ok(found)) => Step::Done(Ok((player, found))),
        Step::Done(Err(error)) => Step::Done(Err(error)),
    }
}

/// Has a submission by the given submitter looked at and, where it stands up,
/// turned into a record. The limits say where the main and the extended list end.
///
/// Gives the new record, or nothing for a submission that only asked whether it
/// would be accepted.
#[derive(Debug)]
pub struct ProcessSubmission(pub Submission, pub Submitter, pub ListLimits);

/// What is left of a submission once its names have gone to be resolved.
#[derive(Debug, PartialEq, Eq)]
pub struct Claim {
    pub progress: i16,
    /// The video: as it was handed in until it has been validated, and in the form
    /// in which it is kept from then on.
    pub video: Option<String>,
    pub verify_only: bool,
    /// The id of the submitter.
    pub submitter: i32,
    pub limits: ListLimits,
}

/// How far `ProcessSubmission` has come.
#[derive(Debug, PartialEq, Eq)]
pub enum Processing {
    /// The player and the demon are being resolved.
    Resolving { names: Resolving, claim: Claim },
    /// The video is being validated.
    Validating { player: Player, demon: Demon, claim: Claim },
    /// The submission has stood up, and a record that it may double is looked for.
    Searching { player: Player, demon: Demon, claim: Claim },
    /// A record that the submission beats is being deleted.
    Pruning { player: Player, demon: Demon, claim: Claim },
    /// The new record is being inserted.
    Inserting { player: Player, demon: Demon, claim: Claim },
}

/// Why a claim of `progress` by `player` on `demon` is turned down, if it is. The
/// reasons are looked for in this order: the player is banned; the demon stands
/// behind the extended list; it stands on the extended list and the progress is
/// not 100; the progress is above 100 or below what the demon requires.
pub open spec fn objection(progress: i16, player: Player, demon: Demon, limits: ListLimits) -> Option<
    PointercrateError,
> {
    if player.banned {
        Some(PointercrateError::PlayerBanned)
    } else if limits.spec_section(demon.position) == ListSection::Legacy {
        Some(PointercrateError::SubmitLegacy)
    } else if limits.spec_section(demon.position) == ListSection::Extended && progress != 100 {
        Some(PointercrateError::Non100Extended)
    } else if progress > 100 || progress < demon.requirement {
        Some(PointercrateError::InvalidProgress { requirement: demon.requirement })
    } else {
        None
    }
}

/// Looks at a claim of `progress` by `player` on `demon`, and says why it is turned
/// down, if it is.
pub fn validate(progress: i16, player: &Player, demon: &Demon, limits: ListLimits) -> (result:
    Result<(), PointercrateError>)
    ensures
        result == match objection(progress, *player, *demon, limits) {
            Some(error) => Err::<(), PointercrateError>(error),
            None => Ok(()),
        },
{
    if player.banned {
        return Err(PointercrateError::PlayerBanned);
    }
    match limits.section(demon.position) {
        ListSection::Legacy => {
            return Err(PointercrateError::SubmitLegacy);
        },
        ListSection::Extended => {
            if progress != 100 {
                return Err(PointercrateError::Non100Extended);
            }
        },
        ListSection::Main => {},
    }
    if progress > 100 || progress < demon.requirement {
        return Err(PointercrateError::InvalidProgress { requirement: demon.requirement });
    }
    Ok(())
}

/// Whether a submission with `progress` takes the place of the record `existing`
/// of the same player on the same demon: it does when the record was not rejected
/// and shows less progress.
pub open spec fn spec_beats(progress: i16, existing: &Record) -> bool {
    existing.status != RecordStatus::Rejected && existing.progress < progress
}

#[verifier::when_used_as_spec(spec_beats)]
pub fn beats(progress: i16, existing: &Record) -> (beaten: bool)
    ensures
        beaten == spec_beats(progress, existing),
{
    match existing.status() {
        RecordStatus::Rejected => false,
        _ => existing.progress() < progress,
    }
}

impl ProcessSubmission {
    /// The query that has the new record inserted.
    pub open spec fn insertion(player: Player, demon: Demon, claim: Claim) -> Step<
        Processing,
        Query,
        Option<Record>,
    > {
        Step::Ask {
            state: Processing::Inserting { player, demon, claim },
            query: Query::InsertRecord {
                progress: claim.progress,
                video: claim.video,
                player: player.id,
                submitter: claim.submitter,
                demon: demon.name,
            },
        }
    }

    /// How the command goes on once the video, if there is one, has been
    /// validated: the claim is looked at, and where nothing speaks against it, a
    /// record that it may double is looked for.
    pub open spec fn with_video(player: Player, demon: Demon, claim: Claim) -> Step<
        Processing,
        Query,
        Option<Record>,
    > {
        match objection(claim.progress, player, demon, claim.limits) {
            Some(error) => Step::Done(Err(error)),
            None => Step::Ask {
                state: Processing::Searching { player, demon, claim },
                query: Query::FindExistingRecord {
                    player: player.id,
                    demon: demon.name,
                    video: claim.video,
                },
            },
        }
    }

    /// How the command goes on once the player and the demon are there: a video
    /// that was handed in is validated first.
    pub open spec fn with_names(player: Player, demon: Demon, claim: Claim) -> Step<
        Processing,
        Query,
        Option<Record>,
    > {
        match claim.video {
            Some(raw) => Step::Ask {
                state: Processing::Validating { player, demon, claim },
                query: Query::ValidateVideo(raw),
            },
            None => Self::with_video(player, demon, claim),
        }
    }

    /// How the command goes on from a step of the resolution of its names.
    pub open spec fn resolved(step: Step<Resolving, Query, (Player, Demon)>, claim: Claim) -> Step<
        Processing,
        Query,
        Option<Record>,
    > {
        match step {
            Step::Ask { state, query } => Step::Ask {
                state: Processing::Resolving { names: state, claim },
                query,
            },
            Step::Done(Ok((player, demon))) => Self::with_names(player, demon, claim),
            Step::Done(Err(error)) => Step::Done(Err(error)),
        }
    }

    /// How the command goes on once it knows what the store holds already.
    pub open spec fn with_existing(
        existing: Outcome<Record>,
        player: Player,
        demon: Demon,
        claim: Claim,
    ) -> Step<Processing, Query, Option<Record>> {
        match existing {
            Outcome::Value(record) => if !spec_beats(claim.progress, &record) {
                Step::Done(
                    Err(
                        PointercrateError::SubmissionExists {
                            status: record.status,
                            existing_id: record.id,
                        },
                    ),
                )
            } else if claim.verify_only {
                Step::Done(Ok(None))
            } else if record.status == RecordStatus::Submitted {
                Step::Ask {
                    state: Processing::Pruning { player, demon, claim },
                    query: Query::DeleteRecord(record.id),
                }
            } else {
                Self::insertion(player, demon, claim)
            },
            Outcome::NotFound => if claim.verify_only {
                Step::Done(Ok(None))
            } else {
                Self::insertion(player, demon, claim)
            },
            _ => Step::Done(Err(existing.spec_failure())),
        }
    }

    /// The record that the store has made of the claim under `id`.
    pub open spec fn accepted(id: i32, player: Player, demon: Demon, claim: Claim) -> Record {
        Record {
            id,
            progress: claim.progress,
            video: claim.video,
            status: RecordStatus::Submitted,
            player,
            submitter: claim.submitter,
            demon: demon.spec_embedded(),
        }
    }
}

impl Command for ProcessSubmission {
    type Output = Option<Record>;

    type State = Processing;

    type Query = Query;

    type Reply = Reply;

    open spec fn first_step(self) -> Step<Processing, Query, Option<Record>> {
        if self.1.banned {
            Step::Done(Err(PointercrateError::BannedFromSubmissions))
        } else {
            Self::resolved(
                ResolveSubmissionData(self.0.player, self.0.demon).first_step(),
                Claim {
                    progress: self.0.progress,
                    video: self.0.video,
                    verify_only: self.0.verify_only,
                    submitter: self.1.id,
                    limits: self.2,
                },
            )
        }
    }

    open spec fn next_step(state: Processing, reply: Reply) -> Step<
        Processing,
        Query,
        Option<Record>,
    > {
        match state {
            Processing::Resolving { names, claim } => Self::resolved(
                ResolveSubmissionData::next_step(names, reply),
                claim,
            ),
            Processing::Validating { player, demon, claim } => match reply {
                Reply::Video(Ok(video)) => Self::with_video(
                    player,
                    demon,
                    Claim { video: Some(video), ..claim },
                ),
                Reply::Video(Err(error)) => Step::Done(Err(error)),
                _ => Step::Done(Err(PointercrateError::InvalidState)),
            },
            Processing::Searching { player, demon, claim } => match reply {
                Reply::Record(existing) => Self::with_existing(existing, player, demon, claim),
                _ => Step::Done(Err(PointercrateError::InvalidState)),
            },
            Processing::Pruning { player, demon, claim } => match reply {
                Reply::Written(Outcome::Value(_)) => Self::insertion(player, demon, claim),
                Reply::Written(outcome) => Step::Done(Err(outcome.spec_failure())),
                _ => Step::Done(Err(PointercrateError::InvalidState)),
            },
            Processing::Inserting { player, demon, claim } => match reply {
                Reply::Inserted(Outcome::Value(id)) => Step::Done(
                    Ok(Some(Self::accepted(id, player, demon, claim))),
                ),
                Reply::Inserted(outcome) => Step::Done(Err(outcome.spec_failure())),
                _ => Step::Done(Err(PointercrateError::InvalidState)),
            },
        }
    }

    open spec fn budget(state: Self::State) -> nat {
        match state {
            Processing::Resolving { names, .. } => ResolveSubmissionData::budget(names) + 4,
            Processing::Validating { .. } => 3,
            Processing::Searching { .. } => 2,
            Processing::Pruning { .. } => 1,
            Processing::Inserting { .. } => 0,
        }
    }

    proof fn lemma_budget(state: Self::State, reply: Self::Reply) {
        match state {
            Processing::Resolving { names, claim } => {
                ResolveSubmissionData::lemma_budget(names, reply);
            },
            _ => {},
        }
    }

    fn start(self) -> (step: Step<Processing, Query, Option<Record>>) {
        if self.1.banned {
            return Step::Done(Err(PointercrateError::BannedFromSubmissions));
        }
        let claim = Claim {
            progress: self.0.progress,
            video: self.0.video,
            verify_only: self.0.verify_only,
            submitter: self.1.id,
            limits: self.2,
        };
        go_on_resolved(ResolveSubmissionData(self.0.player, self.0.demon).start(), claim)
    }

    fn resume(state: Processing, reply: Reply) -> (step: Step<Processing, Query, Option<Record>>) {
        match state {
            Processing::Resolving { names, claim } => go_on_resolved(
                ResolveSubmissionData::resume(names, reply),
                claim,
            ),
            Processing::Validating { player, demon, claim } => match reply {
                Reply::Video(Ok(video)) => go_on_with_video(
                    player,
                    demon,
                    Claim {
                        progress: claim.progress,
                        video: Some(video),
                        verify_only: claim.verify_only,
                        submitter: claim.submitter,
                        limits: claim.limits,
                    },
                ),
                Reply::Video(Err(error)) => Step::Done(Err(error)),
                _ => Step::Done(Err(PointercrateError::InvalidState)),
            },
            Processing::Searching { player, demon, claim } => match reply {
                Reply::Record(existing) => go_on_with_existing(existing, player, demon, claim),
                _ => Step::Done(Err(PointercrateError::InvalidState)),
            },
            Processing::Pruning { player, demon, claim } => match reply {
                Reply::Written(Outcome::Value(_)) => ask_insertion(player, demon, claim),
                Reply::Written(outcome) => Step::Done(Err(outcome.failure())),
                _ => Step::Done(Err(PointercrateError::InvalidState)),
            },
            Processing::Inserting { player, demon, claim } => match reply {
                Reply::Inserted(Outcome::Value(id)) => Step::Done(
                    Ok(
                        Some(
                            Record {
                                id,
                                progress: claim.progress,
                                video: claim.video,
                                status: RecordStatus::Submitted,
                                player,
                                submitter: claim.submitter,
                                demon: demon.embedded(),
                            },
                        ),
                    ),
                ),
                Reply::Inserted(outcome) => Step::Done(Err(outcome.failure())),
                _ => Step::Done(Err(PointercrateError::InvalidState)),
            },
        }
    }
}

fn ask_insertion(player: Player, demon: Demon, claim: Claim) -> (step: Step<
    Processing,
    Query,
    Option<Record>,
>)
    ensures
        step == ProcessSubmission::insertion(player, demon, claim),
{
    let query = Query::InsertRecord {
        progress: claim.progress,
        video: clone_text(&claim.video),
        player: player.id,
        submitter: claim.submitter,
        demon: demon.name.clone(),
    };
    Step::Ask { state: Processing::Inserting { player, demon, claim }, query }
}

fn go_on_with_video(player: Player, demon: Demon, claim: Claim) -> (step: Step<
    Processing,
    Query,
    Option<Record>,
>)
    ensures
        step == ProcessSubmission::with_video(player, demon, claim),
{
    match validate(claim.progress, &player, &demon, claim.limits) {
        Err(error) => Step::Done(Err(error)),
        Ok(()) => {
            let query = Query::FindExistingRecord {
                player: player.id,
                demon: demon.name.clone(),
                video: clone_text(&claim.video),
            };
            Step::Ask { state: Processing::Searching { player, demon, claim }, query }
        },
    }
}

fn go_on_with_names(player: Player, demon: Demon, claim: Claim) -> (step: Step<
    Processing,
    Query,
    Option<Record>,
>)
    ensures
        step == ProcessSubmission::with_names(player, demon, claim),
{
    match &claim.video {
        Some(raw) => {
            let query = Query::ValidateVideo(raw.clone());
            Step::Ask { state: Processing::Validating { player, demon, claim }, query }
        },
        None => go_on_with_video(player, demon, claim),
    }
}

fn go_on_resolved(step: Step<Resolving, Query, (Player, Demon)>, claim: Claim) -> (next: Step<
    Processing,
    Query,
    Option<Record>,
>)
    ensures
        next == ProcessSubmission::resolved(step, claim),
{
    match step {
        Step::Ask { state, query } => Step::Ask {
            state: Processing::Resolving { names: state, claim },
            query,
        },
        Step::Done(Ok((player, demon))) => go_on_with_names(player, demon, claim),
        Step::Done(Err(error)) => Step::Done(Err(error)),
    }
}

fn go_on_with_existing(existing: Outcome<Record>, player: Player, demon: Demon, claim: Claim) -> (step:
    Step<Processing, Query, Option<Record>>)
    ensures
        step == ProcessSubmission::with_existing(existing, player, demon, claim),
{
    match existing {
        Outcome::Value(record) => {
            if !beats(claim.progress, &record) {
                Step::Done(
                    Err(
                        PointercrateError::SubmissionExists {
                            status: record.status,
                            existing_id: record.id,
                        },
                    ),
                )
            } else if claim.verify_only {
                Step::Done(Ok(None))
            } else {
                match record.status {
                    RecordStatus::Submitted => Step::Ask {
                        state: Processing::Pruning { player, demon, claim },
                        query: Query::DeleteRecord(record.id),
                    },
                    _ => ask_insertion(player, demon, claim),
                }
            }
        },
        Outcome::NotFound => {
            if claim.verify_only {
                Step::Done(Ok(None))
            } else {
                ask_insertion(player, demon, claim)
            }
        },
        other => Step::Done(Err(other.failure())),
    }
}

impl Processing {
    /// The claim that the command works on.
    pub open spec fn claim(self) -> Claim {
        match self {
            Processing::Resolving { claim, .. } => claim,
            Processing::Validating { claim, .. } => claim,
            Processing::Searching { claim, .. } => claim,
            Processing::Pruning { claim, .. } => claim,
            Processing::Inserting { claim, .. } => claim,
        }
    }
}

/// Whether a query makes or deletes a record.
pub open spec fn changes_records(query: Query) -> bool {
    query is InsertRecord || query is DeleteRecord
}

/// Whether a command in `state` only asks whether its submission would be
/// accepted, and has not set out to make or delete a record.
pub open spec fn verifying(state: Processing) -> bool {
    state.claim().verify_only && !(state is Pruning) && !(state is Inserting)
}

/// Whether a command that stands at `step` only asks whether its submission would
/// be accepted, and is not about to make or delete a record.
pub open spec fn only_verifying(step: Step<Processing, Query, Option<Record>>) -> bool {
    match step {
        Step::Ask { state, query } => verifying(state) && !changes_records(query),
        Step::Done(_) => true,
    }
}

/// A submission by a banned submitter is turned down at once: the command asks
/// nothing, so no name is resolved and no video is validated for it, whatever it
/// holds.
pub proof fn lemma_banned_submitter_asks_nothing(command: ProcessSubmission, replies: Seq<Reply>)
    requires
        command.1.banned,
    ensures
        command.first_step() == Step::<Processing, Query, Option<Record>>::Done(
            Err(PointercrateError::BannedFromSubmissions),
        ),
        asked::<ProcessSubmission>(command.first_step(), replies) == Seq::<Query>::empty(),
{
}

/// A command that only verifies goes on only verifying, whatever it is answered.
pub proof fn lemma_verifying_goes_on(state: Processing, reply: Reply)
    requires
        verifying(state),
    ensures
        only_verifying(ProcessSubmission::next_step(state, reply)),
{
    match state {
        Processing::Resolving { names, claim } => {
            let inner = ResolveSubmissionData::next_step(names, reply);
            match names {
                Resolving::Player { lookup, demon } => {
                    let found = PlayerByName::next_step(lookup, reply);
                    assert(found matches Step::Ask { query, .. } ==> !changes_records(query));
                    assert(DemonByName(demon).first_step() matches Step::Ask { query, .. }
                        && !changes_records(query));
                },
                Resolving::Demon { player, name } => {
                    let found = DemonByName::next_step(name, reply);
                    assert(found is Done);
                },
            }
            assert(inner matches Step::Ask { query, .. } ==> !changes_records(query));
            assert(only_verifying(ProcessSubmission::resolved(inner, claim)));
        },
        _ => {},
    }
}

/// A command that only verifies asks for no record to be made or deleted, however
/// long it runs.
pub proof fn lemma_verifying_changes_no_record(
    step: Step<Processing, Query, Option<Record>>,
    replies: Seq<Reply>,
)
    requires
        only_verifying(step),
    ensures
        forall|i: int|
            0 <= i < asked::<ProcessSubmission>(step, replies).len() ==> !changes_records(
                #[trigger] asked::<ProcessSubmission>(step, replies)[i],
            ),
    decreases replies.len(),
{
    let queries = asked::<ProcessSubmission>(step, replies);
    match step {
        Step::Done(_) => {
            assert(queries.len() == 0);
        },
        Step::Ask { state, query } => {
            if replies.len() > 0 {
                let next = ProcessSubmission::next_step(state, replies[0]);
                let rest = asked::<ProcessSubmission>(next, replies.drop_first());
                lemma_verifying_goes_on(state, replies[0]);
                lemma_verifying_changes_no_record(next, replies.drop_first());
                assert(queries == seq![query] + rest);
                assert forall|i: int| 0 <= i < queries.len() implies !changes_records(
                    #[trigger] queries[i],
                ) by {
                    if i > 0 {
                        assert(queries[i] == rest[i - 1]);
                    }
                }
            } else {
                assert(queries == seq![query]);
            }
        },
    }
}

/// A submission that only asks whether it would be accepted never has a record
/// made or deleted, whatever the store answers and however the command ends.
pub proof fn lemma_verify_only_changes_no_record(command: ProcessSubmission, replies: Seq<Reply>)
    requires
        command.0.verify_only,
    ensures
        forall|i: int|
            0 <= i < asked::<ProcessSubmission>(command.first_step(), replies).len()
                ==> !changes_records(
                #[trigger] asked::<ProcessSubmission>(command.first_step(), replies)[i],
            ),
{
    lemma_verifying_changes_no_record(command.first_step(), replies);
}

/// A submission for a demon that stands behind the extended list is turned down
/// with `SubmitLegacy`, whatever progress it claims, once its player has turned
/// out not to be banned and its video, if it has one, to be in order.
pub proof fn lemma_legacy_demon_is_turned_down(player: Player, demon: Demon, claim: Claim)
    requires
        !player.banned,
        demon.position > claim.limits.extended_list_size,
    ensures
        ProcessSubmission::with_video(player, demon, claim) == Step::<
            Processing,
            Query,
            Option<Record>,
        >::Done(Err(PointercrateError::SubmitLegacy)),
        claim.video is None ==> ProcessSubmission::with_names(player, demon, claim) == Step::<
            Processing,
            Query,
            Option<Record>,
        >::Done(Err(PointercrateError::SubmitLegacy)),
        forall|video: String|
            #[trigger] ProcessSubmission::next_step(
                Processing::Validating { player, demon, claim },
                Reply::Video(Ok(video)),
            ) == Step::<Processing, Query, Option<Record>>::Done(
                Err(PointercrateError::SubmitLegacy),
            ),
{
}

/// The store is searched for a record that the submission may double only after
/// the submission has stood up: what speaks against the claim itself is found
/// before anything that the store holds already.
pub proof fn lemma_search_follows_validation(state: Processing, reply: Reply)
    ensures
        ProcessSubmission::next_step(state, reply) matches Step::Ask {
            state: Processing::Searching { player, demon, claim },
            ..
        } ==> objection(claim.progress, player, demon, claim.limits) is None,
{
}

/// A record that was rejected, or that shows at least the progress of the
/// submission, stands: the command fails with `SubmissionExists` and asks nothing
/// more of the store.
pub proof fn lemma_duplicate_stands(player: Player, demon: Demon, claim: Claim, existing: Record)
    requires
        existing.status == RecordStatus::Rejected || existing.progress >= claim.progress,
    ensures
        ProcessSubmission::next_step(
            Processing::Searching { player, demon, claim },
            Reply::Record(Outcome::Value(existing)),
        ) == Step::<Processing, Query, Option<Record>>::Done(
            Err(
                PointercrateError::SubmissionExists {
                    status: existing.status,
                    existing_id: existing.id,
                },
            ),
        ),
{
}

/// A record that the submission beats is deleted before the new one is made if
/// it has not been reviewed yet, and is left where it is if it was approved. In
/// both cases the new record is made as one that has not been reviewed.
pub proof fn lemma_duplicate_beaten(player: Player, demon: Demon, claim: Claim, existing: Record)
    requires
        !claim.verify_only,
        existing.status != RecordStatus::Rejected,
        existing.progress < claim.progress,
    ensures
        existing.status == RecordStatus::Submitted ==> ProcessSubmission::next_step(
            Processing::Searching { player, demon, claim },
            Reply::Record(Outcome::Value(existing)),
        ) == (Step::<Processing, Query, Option<Record>>::Ask {
            state: Processing::Pruning { player, demon, claim },
            query: Query::DeleteRecord(existing.id),
        }),
        existing.status == RecordStatus::Approved ==> ProcessSubmission::next_step(
            Processing::Searching { player, demon, claim },
            Reply::Record(Outcome::Value(existing)),
        ) == ProcessSubmission::insertion(player, demon, claim),
        ProcessSubmission::next_step(
            Processing::Pruning { player, demon, claim },
            Reply::Written(Outcome::Value(())),
        ) == ProcessSubmission::insertion(player, demon, claim),
        forall|id: i32|
            (#[trigger] ProcessSubmission::next_step(
                Processing::Inserting { player, demon, claim },
                Reply::Inserted(Outcome::Value(id)),
            )) matches Step::Done(Ok(Some(record))) && record.id == id && record.progress
                == claim.progress && record.status == RecordStatus::Submitted,
{
}

/// A submission that finds the store out of reach is not tried again: the command
/// ends at once, and asks nothing more.
pub proof fn lemma_submission_gives_up_without_connection(state: Processing, reply: Reply)
    requires
        reply.unavailable(),
    ensures
        given_up(ProcessSubmission::next_step(state, reply)),
{
}

/// Whether `record` is what `command` may give: a record of the progress that was
/// claimed, not yet reviewed, in the name of the submitter, for a player who is not
/// banned, on a demon that does not stand behind the extended list, with a
/// progress that the demon takes.
pub open spec fn stands_up(record: Record, command: ProcessSubmission) -> bool {
    &&& !command.1.banned
    &&& !command.0.verify_only
    &&& record.progress == command.0.progress
    &&& record.progress <= 100
    &&& record.status == RecordStatus::Submitted
    &&& record.submitter == command.1.id
    &&& !record.player.banned
    &&& command.2.spec_section(record.demon.position) != ListSection::Legacy
    &&& (command.2.spec_section(record.demon.position) == ListSection::Extended
        ==> record.progress == 100)
}

/// Whether `command` waits in `state` as it should: it works on the claim that it
/// was started with, and has set out to change the store only after the claim has
/// stood up.
pub open spec fn in_order(state: Processing, command: ProcessSubmission) -> bool {
    &&& !command.1.banned
    &&& state.claim().progress == command.0.progress
    &&& state.claim().verify_only == command.0.verify_only
    &&& state.claim().submitter == command.1.id
    &&& state.claim().limits == command.2
    &&& match state {
        Processing::Searching { player, demon, claim } => objection(
            claim.progress,
            player,
            demon,
            claim.limits,
        ) is None,
        Processing::Pruning { player, demon, claim } => !claim.verify_only && objection(
            claim.progress,
            player,
            demon,
            claim.limits,
        ) is None,
        Processing::Inserting { player, demon, claim } => !claim.verify_only && objection(
            claim.progress,
            player,
            demon,
            claim.limits,
        ) is None,
        _ => true,
    }
}

/// Whether `command` stands at `step` as it should: it waits in order, or has
/// given a record only as `stands_up` says.
pub open spec fn on_course(
    step: Step<Processing, Query, Option<Record>>,
    command: ProcessSubmission,
) -> bool {
    match step {
        Step::Ask { state, .. } => in_order(state, command),
        Step::Done(Ok(Some(record))) => stands_up(record, command),
        Step::Done(_) => true,
    }
}

/// A command that is on course stays on course, whatever it is answered.
pub proof fn lemma_stays_on_course(command: ProcessSubmission, state: Processing, reply: Reply)
    requires
        in_order(state, command),
    ensures
        on_course(ProcessSubmission::next_step(state, reply), command),
{
    match state {
        Processing::Resolving { names, claim } => {
            let inner = ResolveSubmissionData::next_step(names, reply);
            match inner {
                Step::Done(Ok((player, demon))) => {
                    assert(on_course(ProcessSubmission::with_names(player, demon, claim), command));
                },
                _ => {},
            }
        },
        _ => {},
    }
}

/// A record comes of a submission only as `stands_up` says, whatever the store
/// answers: never for a banned submitter or a banned player, never on a demon
/// behind the extended list, never with a progress that the demon does not take,
/// and never for a submission that only asked whether it would be accepted.
pub proof fn lemma_record_stands_up(
    command: ProcessSubmission,
    replies: Seq<Reply>,
    record: Record,
)
    requires
        after::<ProcessSubmission>(command.first_step(), replies) == Step::<
            Processing,
            Query,
            Option<Record>,
        >::Done(Ok(Some(record))),
    ensures
        stands_up(record, command),
{
    lemma_course_kept(command, command.first_step(), replies);
}

proof fn lemma_course_kept(
    command: ProcessSubmission,
    step: Step<Processing, Query, Option<Record>>,
    replies: Seq<Reply>,
)
    requires
        on_course(step, command),
    ensures
        on_course(after::<ProcessSubmission>(step, replies), command),
    decreases replies.len(),
{
    match step {
        Step::Done(_) => {},
        Step::Ask { state, query } => {
            if replies.len() > 0 {
                lemma_stays_on_course(command, state, replies[0]);
                lemma_course_kept(
                    command,
                    ProcessSubmission::next_step(state, replies[0]),
                    replies.drop_first(),
                );
            }
        },
    }
}

} // verus!
