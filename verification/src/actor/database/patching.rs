use crate::actor::database::{after, asked, run, Command, Outcome, Step, Store};
use crate::context::RequestContext;
use crate::error::PointercrateError;
use crate::middleware::cond::{token_of, Canonical};
use crate::model::user::User;
use crate::patch::{Patch as PatchTrait, Patchable};
use crate::permissions::{Permission, PermissionsSet};
use vstd::prelude::*;

verus! {

/// Has `Patch` applied to `Target` on behalf of the given account, in three steps:
/// the account must hold one of the capabilities that the patch requires; the
/// patch is checked and applied in memory; and what comes of it is written to the
/// store, in one piece.
#[allow(missing_debug_implementations)]
pub struct Patch<Target, Patch>(pub User, pub Target, pub Patch) where
    Target: Patchable<Patch>,
    Patch: PatchTrait,
;

/// Has a patch applied to a value on behalf of someone who has been let through
/// already: the patch is checked and applied in memory, and what comes of it is
/// written to the store, in one piece.
#[allow(missing_debug_implementations)]
pub struct ApplyPatch<Target, Patch>(pub Target, pub Patch) where
    Target: Patchable<Patch>,
    Patch: PatchTrait,
;

/// The one thing that a patch asks: that the value which it has patched, and
/// which it holds as its state meanwhile, be written to the store, all of it or
/// nothing. It is answered by what came of the writing.
#[derive(Debug, PartialEq, Eq)]
pub struct Persist;

/// Whether `user` may do what takes one of the capabilities in `required`: what
/// takes none is open to every account.
pub open spec fn spec_authorized(user: &User, required: &PermissionsSet) -> bool {
    required@ == Set::<Permission>::empty() || user.spec_has_any(required)
}

#[verifier::when_used_as_spec(spec_authorized)]
pub fn authorized(user: &User, required: &PermissionsSet) -> (allowed: bool)
    ensures
        allowed == spec_authorized(user, required),
{
    required.is_empty() || user.has_any(required)
}

impl<T: Patchable<P>, P: PatchTrait> Command for ApplyPatch<T, P> {
    type Output = T;

    /// The patched value, while it is being written.
    type State = T;

    type Query = Persist;

    type Reply = Outcome<()>;

    open spec fn first_step(self) -> Step<T, Persist, T> {
        match self.0.patched(self.1) {
            Ok(patched) => Step::Ask { state: patched, query: Persist },
            Err(error) => Step::Done(Err(error)),
        }
    }

    open spec fn next_step(state: T, reply: Outcome<()>) -> Step<T, Persist, T> {
        match reply {
            Outcome::Value(_) => Step::Done(Ok(state)),
            _ => Step::Done(Err(reply.spec_failure())),
        }
    }

    open spec fn budget(state: Self::State) -> nat {
        0
    }

    proof fn lemma_budget(state: Self::State, reply: Self::Reply) {
    }

    fn start(self) -> (step: Step<T, Persist, T>) {
        let mut target = self.0;
        match target.apply_patch(self.1) {
            Ok(()) => Step::Ask { state: target, query: Persist },
            Err(error) => Step::Done(Err(error)),
        }
    }

    fn resume(state: T, reply: Outcome<()>) -> (step: Step<T, Persist, T>) {
        match reply {
            Outcome::Value(_) => Step::Done(Ok(state)),
            other => Step::Done(Err(other.failure())),
        }
    }
}

impl<T: Patchable<P>, P: PatchTrait> Command for Patch<T, P> {
    type Output = T;

    /// The patched value, while it is being written.
    type State = T;

    type Query = Persist;

    type Reply = Outcome<()>;

    open spec fn first_step(self) -> Step<T, Persist, T> {
        if !spec_authorized(&self.0, &self.2.required()) {
            Step::Done(Err(PointercrateError::MissingPermissions { required: self.2.required() }))
        } else {
            ApplyPatch(self.1, self.2).first_step()
        }
    }

    open spec fn next_step(state: T, reply: Outcome<()>) -> Step<T, Persist, T> {
        ApplyPatch::<T, P>::next_step(state, reply)
    }

    open spec fn budget(state: Self::State) -> nat {
        0
    }

    proof fn lemma_budget(state: Self::State, reply: Self::Reply) {
    }

    fn start(self) -> (step: Step<T, Persist, T>) {
        let required = self.2.required_permissions();
        if !authorized(&self.0, &required) {
            return Step::Done(Err(PointercrateError::MissingPermissions { required }));
        }
        ApplyPatch(self.1, self.2).start()
    }

    fn resume(state: T, reply: Outcome<()>) -> (step: Step<T, Persist, T>) {
        ApplyPatch::<T, P>::resume(state, reply)
    }
}

/// What `patch_in` has come to, once it has come to `result` on the replies that
/// the store has given.
pub open spec fn patched_in<'a, T: Patchable<P> + Canonical, P: PatchTrait, C>(
    target: T,
    patch: P,
    ctx: RequestContext<'a, C>,
    replies: Seq<Outcome<()>>,
    result: Result<T, PointercrateError>,
) -> bool {
    match ctx.permitted(patch.required()) {
        Err(error) => result == Err::<T, PointercrateError>(error),
        Ok(_) => match ctx.matched(token_of(target.canonical())) {
            Err(error) => result == Err::<T, PointercrateError>(error),
            Ok(_) => after::<ApplyPatch<T, P>>(ApplyPatch(target, patch).first_step(), replies)
                == Step::<T, Persist, T>::Done(result),
        },
    }
}

/// Applies `patch` to `target` for the one who asks in `ctx`, and gives the value
/// as it is then.
///
/// The one who asks must hold one of the capabilities that the patch requires;
/// else the patch fails as `check_permissions` says. The one who asks must also
/// have seen the value as it is; else the patch fails as `check_if_match` says.
/// Only then are the fields of the patch looked at and is anything asked of the
/// store, in the way of `ApplyPatch`, which is run against the connection of
/// `ctx`.
pub fn patch_in<'a, T: Patchable<P> + Canonical, P: PatchTrait, C: Store<ApplyPatch<T, P>>>(
    target: T,
    patch: P,
    ctx: RequestContext<'a, C>,
) -> (result: Result<T, PointercrateError>)
    ensures
        exists|replies: Seq<Outcome<()>>| #[trigger] patched_in(target, patch, ctx, replies, result),
{
    match ctx.check_permissions(patch.required_permissions()) {
        Err(error) => {
            assert(patched_in(target, patch, ctx, Seq::<Outcome<()>>::empty(), Err(error)));
            return Err(error);
        },
        Ok(()) => {},
    }
    match ctx.check_if_match(&target) {
        Err(error) => {
            assert(patched_in(target, patch, ctx, Seq::<Outcome<()>>::empty(), Err(error)));
            return Err(error);
        },
        Ok(()) => {},
    }
    let ghost first = ApplyPatch(target, patch).first_step();
    let result = run(ApplyPatch(target, patch), ctx.connection());
    proof {
        let replies = choose|replies: Seq<Outcome<()>>|
            #[trigger] after::<ApplyPatch<T, P>>(first, replies) == Step::<T, Persist, T>::Done(
                result,
            );
        assert(patched_in(target, patch, ctx, replies, result));
    }
    result
}

/// A patch by an account that holds none of the capabilities that the patch
/// requires is turned down at once: nothing is checked, nothing is applied, and
/// nothing is asked of the store, which therefore holds what it held.
pub proof fn lemma_unauthorized_patch_asks_nothing<T: Patchable<P>, P: PatchTrait>(
    command: Patch<T, P>,
    replies: Seq<Outcome<()>>,
)
    requires
        !spec_authorized(&command.0, &command.2.required()),
    ensures
        command.first_step() == Step::<T, Persist, T>::Done(
            Err(PointercrateError::MissingPermissions { required: command.2.required() }),
        ),
        asked::<Patch<T, P>>(command.first_step(), replies) == Seq::<Persist>::empty(),
{
}

/// A patch for someone who may not send it, or who has not seen the value as it
/// is, fails with the error of the check that failed, whatever the store would
/// have answered. The capabilities are checked first.
pub proof fn lemma_patch_in_turned_down<'a, T: Patchable<P> + Canonical, P: PatchTrait, C>(
    target: T,
    patch: P,
    ctx: RequestContext<'a, C>,
    replies: Seq<Outcome<()>>,
    result: Result<T, PointercrateError>,
)
    requires
        patched_in(target, patch, ctx, replies, result),
    ensures
        ctx.permitted(patch.required()) matches Err(error) ==> result == Err::<
            T,
            PointercrateError,
        >(error),
        ctx.permitted(patch.required()) is Ok ==> (ctx.matched(
            token_of(target.canonical()),
        ) matches Err(error) ==> result == Err::<T, PointercrateError>(error)),
{
}

/// A patch with a field that is turned down asks nothing of the store either.
pub proof fn lemma_invalid_patch_asks_nothing<T: Patchable<P>, P: PatchTrait>(
    command: Patch<T, P>,
    replies: Seq<Outcome<()>>,
)
    requires
        command.1.patched(command.2) is Err,
    ensures
        command.first_step() is Done,
        asked::<Patch<T, P>>(command.first_step(), replies) == Seq::<Persist>::empty(),
{
}

/// A patch writes to the store once at most, and what it gives in the end is what
/// it has written: the value as the patch has left it.
pub proof fn lemma_patch_writes_once<T: Patchable<P>, P: PatchTrait>(
    command: Patch<T, P>,
    replies: Seq<Outcome<()>>,
)
    ensures
        asked::<Patch<T, P>>(command.first_step(), replies).len() <= 1,
        command.first_step() matches Step::Ask { state, .. } ==> command.1.patched(command.2)
            == Ok::<T, PointercrateError>(state) && Patch::<T, P>::next_step(
            state,
            Outcome::Value(()),
        ) == Step::<T, Persist, T>::Done(Ok(state)),
{
    match command.first_step() {
        Step::Done(_) => {},
        Step::Ask { state, query } => {
            if replies.len() > 0 {
                let next = Patch::<T, P>::next_step(state, replies[0]);
                assert(next is Done);
                assert(asked::<Patch<T, P>>(next, replies.drop_first()).len() == 0);
            }
        },
    }
}

} // verus!
