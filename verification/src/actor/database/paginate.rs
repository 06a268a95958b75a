use crate::actor::database::{after, Command, Outcome, Step};
use crate::error::PointercrateError;
use crate::pagination::{Navigation, Paginatable};
use vstd::prelude::*;

verus! {

/// Asks for a page of a listing and for the links to the pages around it.
#[derive(Debug)]
pub struct Paginate<P: Paginatable>(pub P);

/// What `Paginate` asks of the store about the page that it holds as its state.
#[derive(Clone, Copy, Debug, PartialEq, Eq, Structural)]
pub enum PageQuery {
    /// The lowest key in the listing. Answered by `PageReply::Boundary`.
    First,
    /// The highest key in the listing. Answered by `PageReply::Boundary`.
    Last,
    /// The highest key on this page, where the listing goes on behind the page.
    /// Answered by `PageReply::Boundary`.
    NextAfter,
    /// The lowest key on this page, where the listing begins before the page.
    /// Answered by `PageReply::Boundary`.
    PrevBefore,
    /// What this page holds. Answered by `PageReply::Page`.
    Page,
}

/// What the store answers `Paginate`.
#[allow(missing_debug_implementations)]
pub enum PageReply<P: Paginatable> {
    /// The key that was asked for; nothing where there is none.
    Boundary(Outcome<Option<i32>>),
    /// What the page holds.
    Page(Outcome<Vec<P::Result>>),
}

/// The page of the listing of `pagination` to which `query` leads, given the key
/// that the store has found for it. The first page lies above the key before the
/// lowest, and the last page below the key behind the highest; the next page lies
/// above the highest key of this one, and the page before below its lowest. Where
/// the store has found no key, there is no page.
pub open spec fn spec_boundary<P: Paginatable>(
    pagination: &P,
    query: PageQuery,
    key: Option<i32>,
) -> Option<P> {
    match key {
        None => None,
        Some(key) => match query {
            PageQuery::First => Some(
                pagination.spec_window(
                    if key > i32::MIN {
                        Some((key - 1) as i32)
                    } else {
                        None
                    },
                    None,
                ),
            ),
            PageQuery::Last => Some(
                pagination.spec_window(
                    None,
                    if key < i32::MAX {
                        Some((key + 1) as i32)
                    } else {
                        None
                    },
                ),
            ),
            PageQuery::NextAfter => Some(pagination.spec_window(Some(key), None)),
            PageQuery::PrevBefore => Some(pagination.spec_window(None, Some(key))),
            PageQuery::Page => None,
        },
    }
}

#[verifier::when_used_as_spec(spec_boundary)]
pub fn boundary<P: Paginatable>(pagination: &P, query: PageQuery, key: Option<i32>) -> (page:
    Option<P>)
    ensures
        page == spec_boundary(pagination, query, key),
{
    match key {
        None => None,
        Some(key) => match query {
            PageQuery::First => Some(
                pagination.window(
                    if key > i32::MIN {
                        Some(key - 1)
                    } else {
                        None
                    },
                    None,
                ),
            ),
            PageQuery::Last => Some(
                pagination.window(
                    None,
                    if key < i32::MAX {
                        Some(key + 1)
                    } else {
                        None
                    },
                ),
            ),
            PageQuery::NextAfter => Some(pagination.window(Some(key), None)),
            PageQuery::PrevBefore => Some(pagination.window(None, Some(key))),
            PageQuery::Page => None,
        },
    }
}

/// How far `Paginate` has come.
#[derive(Debug, PartialEq, Eq)]
pub struct Paging<P> {
    /// The page that was asked for.
    pub pagination: P,
    /// What the store was asked last.
    pub asked: PageQuery,
    /// The links that the store has given so far.
    pub found: Navigation<P>,
}

impl<P: Paginatable> Command for Paginate<P> {
    type Output = (Vec<P::Result>, Navigation<P>);

    type State = Paging<P>;

    type Query = PageQuery;

    type Reply = PageReply<P>;

    open spec fn first_step(self) -> Step<Paging<P>, PageQuery, (Vec<P::Result>, Navigation<P>)> {
        Step::Ask {
            state: Paging {
                pagination: self.0,
                asked: PageQuery::First,
                found: Navigation { first: None, prev: None, next: None, last: None },
            },
            query: PageQuery::First,
        }
    }

    open spec fn next_step(state: Paging<P>, reply: PageReply<P>) -> Step<
        Paging<P>,
        PageQuery,
        (Vec<P::Result>, Navigation<P>),
    > {
        match (state.asked, reply) {
            (PageQuery::First, PageReply::Boundary(Outcome::Value(key))) => Step::Ask {
                state: Paging {
                    asked: PageQuery::Last,
                    found: Navigation {
                        first: spec_boundary(&state.pagination, PageQuery::First, key),
                        ..state.found
                    },
                    ..state
                },
                query: PageQuery::Last,
            },
            (PageQuery::Last, PageReply::Boundary(Outcome::Value(key))) => Step::Ask {
                state: Paging {
                    asked: PageQuery::NextAfter,
                    found: Navigation {
                        last: spec_boundary(&state.pagination, PageQuery::Last, key),
                        ..state.found
                    },
                    ..state
                },
                query: PageQuery::NextAfter,
            },
            (PageQuery::NextAfter, PageReply::Boundary(Outcome::Value(key))) => Step::Ask {
                state: Paging {
                    asked: PageQuery::PrevBefore,
                    found: Navigation {
                        next: spec_boundary(&state.pagination, PageQuery::NextAfter, key),
                        ..state.found
                    },
                    ..state
                },
                query: PageQuery::PrevBefore,
            },
            (PageQuery::PrevBefore, PageReply::Boundary(Outcome::Value(key))) => Step::Ask {
                state: Paging {
                    asked: PageQuery::Page,
                    found: Navigation {
                        prev: spec_boundary(&state.pagination, PageQuery::PrevBefore, key),
                        ..state.found
                    },
                    ..state
                },
                query: PageQuery::Page,
            },
            (PageQuery::Page, PageReply::Page(Outcome::Value(items))) => Step::Done(
                Ok((items, state.found)),
            ),
            (PageQuery::Page, PageReply::Page(outcome)) => Step::Done(
                Err(outcome.spec_failure()),
            ),
            (PageQuery::Page, PageReply::Boundary(_)) => Step::Done(
                Err(PointercrateError::InvalidState),
            ),
            (_, PageReply::Boundary(outcome)) => Step::Done(Err(outcome.spec_failure())),
            (_, PageReply::Page(_)) => Step::Done(Err(PointercrateError::InvalidState)),
        }
    }

    open spec fn budget(state: Self::State) -> nat {
        match state.asked {
            PageQuery::First => 4,
            PageQuery::Last => 3,
            PageQuery::NextAfter => 2,
            PageQuery::PrevBefore => 1,
            PageQuery::Page => 0,
        }
    }

    proof fn lemma_budget(state: Self::State, reply: Self::Reply) {
    }

    fn start(self) -> (step: Step<Paging<P>, PageQuery, (Vec<P::Result>, Navigation<P>)>) {
        Step::Ask {
            state: Paging {
                pagination: self.0,
                asked: PageQuery::First,
                found: Navigation { first: None, prev: None, next: None, last: None },
            },
            query: PageQuery::First,
        }
    }

    fn resume(state: Paging<P>, reply: PageReply<P>) -> (step: Step<
        Paging<P>,
        PageQuery,
        (Vec<P::Result>, Navigation<P>),
    >) {
        let Paging { pagination, asked, found } = state;
        let Navigation { first, prev, next, last } = found;
        match reply {
            PageReply::Boundary(Outcome::Value(key)) => {
                let page = boundary(&pagination, asked, key);
                let (found, query) = match asked {
                    PageQuery::First => (
                        Navigation { first: page, prev, next, last },
                        PageQuery::Last,
                    ),
                    PageQuery::Last => (
                        Navigation { first, prev, next, last: page },
                        PageQuery::NextAfter,
                    ),
                    PageQuery::NextAfter => (
                        Navigation { first, prev, next: page, last },
                        PageQuery::PrevBefore,
                    ),
                    PageQuery::PrevBefore => (
                        Navigation { first, prev: page, next, last },
                        PageQuery::Page,
                    ),
                    PageQuery::Page => {
                        return Step::Done(Err(PointercrateError::InvalidState));
                    },
                };
                Step::Ask { state: Paging { pagination, asked: query, found }, query }
            },
            PageReply::Boundary(outcome) => match asked {
                PageQuery::Page => Step::Done(Err(PointercrateError::InvalidState)),
                _ => Step::Done(Err(outcome.failure())),
            },
            PageReply::Page(outcome) => match asked {
                PageQuery::Page => match outcome {
                    Outcome::Value(items) => Step::Done(
                        Ok((items, Navigation { first, prev, next, last })),
                    ),
                    other => Step::Done(Err(other.failure())),
                },
                _ => Step::Done(Err(PointercrateError::InvalidState)),
            },
        }
    }
}

/// A listing that holds nothing has no first, last, next or previous page. Asked
/// for a page of it, the command ends well, with a page that holds nothing and
/// with none of the four links.
pub proof fn lemma_empty_listing<P: Paginatable>(command: Paginate<P>, items: Vec<P::Result>)
    requires
        items@.len() == 0,
    ensures
        after::<Paginate<P>>(
            command.first_step(),
            seq![
                PageReply::Boundary(Outcome::Value(None)),
                PageReply::Boundary(Outcome::Value(None)),
                PageReply::Boundary(Outcome::Value(None)),
                PageReply::Boundary(Outcome::Value(None)),
                PageReply::Page(Outcome::Value(items)),
            ],
        ) == Step::<Paging<P>, PageQuery, (Vec<P::Result>, Navigation<P>)>::Done(
            Ok((items, Navigation { first: None, prev: None, next: None, last: None })),
        ),
{
    let none = PageReply::<P>::Boundary(Outcome::Value(None));
    let page = PageReply::<P>::Page(Outcome::Value(items));
    let replies = seq![none, none, none, none, page];
    let r1 = replies.drop_first();
    let r2 = r1.drop_first();
    let r3 = r2.drop_first();
    let r4 = r3.drop_first();
    let r5 = r4.drop_first();
    let s0 = command.first_step();
    let s1 = Paginate::<P>::next_step(s0->state, replies[0]);
    let s2 = Paginate::<P>::next_step(s1->state, r1[0]);
    let s3 = Paginate::<P>::next_step(s2->state, r2[0]);
    let s4 = Paginate::<P>::next_step(s3->state, r3[0]);
    let s5 = Paginate::<P>::next_step(s4->state, r4[0]);
    assert(r5.len() == 0);
    assert(after::<Paginate<P>>(s5, r5) == s5);
    assert(after::<Paginate<P>>(s4, r4) == s5);
    assert(after::<Paginate<P>>(s3, r3) == s5);
    assert(after::<Paginate<P>>(s2, r2) == s5);
    assert(after::<Paginate<P>>(s1, r1) == s5);
    assert(after::<Paginate<P>>(s0, replies) == s5);
}

} // verus!
