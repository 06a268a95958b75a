use pointercrate::actor::database::paginate::{boundary, PageQuery, PageReply, Paging};
use pointercrate::actor::database::{Command, Outcome, Paginate, Step};
use pointercrate::error::PointercrateError;
use pointercrate::model::record::paginate::{
    status_text, to_decimal, RecordPagination, DEFAULT_PAGE_SIZE,
};
use pointercrate::model::record::{Record, RecordStatus};
use pointercrate::pagination::{write_link_header, Navigation, Paginatable};

fn page(after: Option<i32>, limit: Option<i32>) -> RecordPagination {
    RecordPagination { before: None, after, limit, demon: None, status: None }
}

fn asks(
    step: Step<Paging<RecordPagination>, PageQuery, (Vec<Record>, Navigation<RecordPagination>)>,
) -> (Paging<RecordPagination>, PageQuery) {
    match step {
        Step::Ask { state, query } => (state, query),
        Step::Done(_) => panic!("the command ended early"),
    }
}

fn key(key: Option<i32>) -> PageReply<RecordPagination> {
    PageReply::Boundary(Outcome::Value(key))
}

#[test]
fn numbers_are_written_in_base_ten() {
    assert_eq!(to_decimal(0), "0");
    assert_eq!(to_decimal(7), "7");
    assert_eq!(to_decimal(10), "10");
    assert_eq!(to_decimal(1234567890), "1234567890");
    assert_eq!(to_decimal(-1), "-1");
    assert_eq!(to_decimal(-40), "-40");
    assert_eq!(to_decimal(i32::MAX), "2147483647");
    assert_eq!(to_decimal(i32::MIN), "-2147483648");
}

#[test]
fn page_of_records_gives_its_parameters_in_order() {
    let pair = |name: &str, value: &str| (name.to_string(), value.to_string());
    let full = RecordPagination {
        before: Some(100),
        after: Some(-3),
        limit: Some(50),
        demon: Some("Sonic Wave".to_string()),
        status: Some(RecordStatus::Approved),
    };
    assert_eq!(
        full.query_pairs(),
        vec![
            pair("before", "100"),
            pair("after", "-3"),
            pair("limit", "50"),
            pair("demon", "Sonic Wave"),
            pair("status", "approved"),
        ]
    );
    assert_eq!(page(None, None).query_pairs(), vec![]);
    let some = RecordPagination {
        before: None,
        after: None,
        limit: Some(1),
        demon: None,
        status: Some(RecordStatus::Rejected),
    };
    assert_eq!(some.query_pairs(), vec![pair("limit", "1"), pair("status", "rejected")]);
    let waiting = RecordPagination { status: Some(RecordStatus::Submitted), ..page(None, None) };
    assert_eq!(waiting.query_pairs(), vec![pair("status", "submitted")]);
}

#[test]
fn header_names_the_four_links() {
    assert_eq!(
        write_link_header("a=1", "b=2", "c=3", "d=4"),
        "<a=1>; rel=first,<b=2>; rel=prev,<c=3>; rel=next,<d=4>; rel=last"
    );
    assert_eq!(
        write_link_header("", "", "", ""),
        "<>; rel=first,<>; rel=prev,<>; rel=next,<>; rel=last"
    );
}

#[test]
fn links_are_written_as_query_strings() {
    let links = Navigation {
        first: Some(page(None, Some(50))),
        prev: None,
        next: Some(RecordPagination {
            before: None,
            after: Some(50),
            limit: Some(50),
            demon: Some("Sonic Wave & co".to_string()),
            status: None,
        }),
        last: Some(RecordPagination {
            before: Some(2147483647),
            after: None,
            limit: Some(50),
            demon: Some("Zaphkiel=é".to_string()),
            status: Some(RecordStatus::Approved),
        }),
    };
    assert_eq!(
        links.header(),
        Ok("<limit=50>; rel=first,<>; rel=prev,\
            <after=50&limit=50&demon=Sonic+Wave+%26+co>; rel=next,\
            <before=2147483647&limit=50&demon=Zaphkiel%3D%C3%A9&status=approved>; rel=last"
            .to_string())
    );
}

#[test]
fn page_without_parameters_has_an_empty_link() {
    let links =
        Navigation { first: Some(page(None, None)), prev: None, next: None, last: Some(page(None, None)) };
    assert_eq!(
        links.header(),
        Ok("<>; rel=first,<>; rel=prev,<>; rel=next,<>; rel=last".to_string())
    );
}

#[test]
fn empty_listing_gives_an_empty_page_and_no_links() {
    let (state, query) = asks(Paginate(page(None, Some(50))).start());
    assert_eq!(query, PageQuery::First);
    let (state, query) = asks(Paginate::resume(state, key(None)));
    assert_eq!(query, PageQuery::Last);
    let (state, query) = asks(Paginate::resume(state, key(None)));
    assert_eq!(query, PageQuery::NextAfter);
    let (state, query) = asks(Paginate::resume(state, key(None)));
    assert_eq!(query, PageQuery::PrevBefore);
    let (state, query) = asks(Paginate::resume(state, key(None)));
    assert_eq!(query, PageQuery::Page);
    assert_eq!(state.pagination, page(None, Some(50)));
    match Paginate::resume(state, PageReply::Page(Outcome::Value(vec![]))) {
        Step::Done(Ok((records, links))) => {
            assert!(records.is_empty());
            assert_eq!(links, Navigation { first: None, prev: None, next: None, last: None });
            assert_eq!(
                links.header(),
                Ok("<>; rel=first,<>; rel=prev,<>; rel=next,<>; rel=last".to_string())
            );
        },
        _ => panic!("the listing of nothing failed"),
    }
}

#[test]
fn each_link_lies_where_the_keys_of_the_store_put_it() {
    let (state, _) = asks(Paginate(page(Some(10), Some(5))).start());
    let (state, _) = asks(Paginate::resume(state, key(Some(1))));
    let (state, _) = asks(Paginate::resume(state, key(Some(99))));
    let (state, _) = asks(Paginate::resume(state, key(Some(15))));
    let (state, _) = asks(Paginate::resume(state, key(Some(11))));
    match Paginate::resume(state, PageReply::Page(Outcome::Value(vec![]))) {
        Step::Done(Ok((_, links))) => {
            let between = |after: Option<i32>, before: Option<i32>| RecordPagination {
                before,
                after,
                limit: Some(5),
                demon: None,
                status: None,
            };
            assert_eq!(
                links,
                Navigation {
                    first: Some(between(Some(0), None)),
                    prev: Some(between(None, Some(11))),
                    next: Some(between(Some(15), None)),
                    last: Some(between(None, Some(100))),
                }
            );
            assert_eq!(
                links.header(),
                Ok("<after=0&limit=5>; rel=first,<before=11&limit=5>; rel=prev,\
                    <after=15&limit=5>; rel=next,<before=100&limit=5>; rel=last"
                    .to_string())
            );
        },
        _ => panic!("the listing failed"),
    }
}

#[test]
fn page_on_the_first_page_has_no_page_before_it() {
    let (state, _) = asks(Paginate(page(None, Some(2))).start());
    let (state, _) = asks(Paginate::resume(state, key(Some(1))));
    let (state, _) = asks(Paginate::resume(state, key(Some(5))));
    let (state, _) = asks(Paginate::resume(state, key(Some(2))));
    let (state, _) = asks(Paginate::resume(state, key(None)));
    match Paginate::resume(state, PageReply::Page(Outcome::Value(vec![]))) {
        Step::Done(Ok((_, links))) => {
            assert_eq!(
                links.header(),
                Ok("<after=0&limit=2>; rel=first,<>; rel=prev,\
                    <after=2&limit=2>; rel=next,<before=6&limit=2>; rel=last"
                    .to_string())
            );
        },
        _ => panic!("the listing failed"),
    }
}

#[test]
fn window_keeps_what_is_listed_and_how_much() {
    let listing = RecordPagination {
        before: Some(1),
        after: Some(2),
        limit: Some(7),
        demon: Some("Sonic Wave".to_string()),
        status: Some(RecordStatus::Approved),
    };
    assert_eq!(
        listing.window(Some(40), None),
        RecordPagination {
            before: None,
            after: Some(40),
            limit: Some(7),
            demon: Some("Sonic Wave".to_string()),
            status: Some(RecordStatus::Approved),
        }
    );
    assert_eq!(
        listing.window(None, Some(-3)),
        RecordPagination {
            before: Some(-3),
            after: None,
            limit: Some(7),
            demon: Some("Sonic Wave".to_string()),
            status: Some(RecordStatus::Approved),
        }
    );
}

#[test]
fn pages_are_found_by_the_keys_around_them() {
    let listing = page(Some(10), Some(5));
    assert_eq!(boundary(&listing, PageQuery::First, Some(3)), Some(page(Some(2), Some(5))));
    assert_eq!(boundary(&listing, PageQuery::First, Some(i32::MIN)), Some(page(None, Some(5))));
    assert_eq!(
        boundary(&listing, PageQuery::Last, Some(3)),
        Some(RecordPagination { before: Some(4), ..page(None, Some(5)) })
    );
    assert_eq!(boundary(&listing, PageQuery::Last, Some(i32::MAX)), Some(page(None, Some(5))));
    assert_eq!(boundary(&listing, PageQuery::NextAfter, Some(15)), Some(page(Some(15), Some(5))));
    assert_eq!(
        boundary(&listing, PageQuery::PrevBefore, Some(11)),
        Some(RecordPagination { before: Some(11), ..page(None, Some(5)) })
    );
    assert_eq!(boundary(&listing, PageQuery::Page, Some(11)), None);
    for query in [PageQuery::First, PageQuery::Last, PageQuery::NextAfter, PageQuery::PrevBefore] {
        assert_eq!(boundary(&listing, query, None), None);
    }
}

#[test]
fn failure_of_the_store_ends_the_listing() {
    let (state, _) = asks(Paginate(page(None, None)).start());
    match Paginate::resume(state, PageReply::Boundary(Outcome::Failed)) {
        Step::Done(Err(error)) => assert_eq!(error, PointercrateError::DatabaseError),
        _ => panic!("the failure went unnoticed"),
    }
    let (state, _) = asks(Paginate(page(None, None)).start());
    match Paginate::resume(state, PageReply::Boundary(Outcome::Unavailable)) {
        Step::Done(Err(error)) => assert_eq!(error, PointercrateError::ConnectionUnavailable),
        _ => panic!("the failure went unnoticed"),
    }
    let (state, _) = asks(Paginate(page(None, None)).start());
    match Paginate::resume(state, PageReply::Page(Outcome::Value(vec![]))) {
        Step::Done(Err(error)) => assert_eq!(error, PointercrateError::InvalidState),
        _ => panic!("a page was taken for a link"),
    }
    let (state, _) = asks(Paginate(page(None, None)).start());
    let (state, _) = asks(Paginate::resume(state, key(None)));
    let (state, _) = asks(Paginate::resume(state, key(None)));
    let (state, _) = asks(Paginate::resume(state, key(None)));
    let (state, _) = asks(Paginate::resume(state, key(None)));
    match Paginate::resume(state, PageReply::Page(Outcome::NotFound)) {
        Step::Done(Err(error)) => assert_eq!(error, PointercrateError::DatabaseError),
        _ => panic!("the failure went unnoticed"),
    }
}

#[test]
fn page_holds_fifty_records_unless_it_says_otherwise() {
    assert_eq!(DEFAULT_PAGE_SIZE, 50);
    assert_eq!(page(None, None).page_size(), 50);
    assert_eq!(page(None, Some(0)).page_size(), 50);
    assert_eq!(page(None, Some(-7)).page_size(), 50);
    assert_eq!(page(None, Some(1)).page_size(), 1);
    assert_eq!(page(None, Some(i32::MAX)).page_size(), i32::MAX);
}

#[test]
fn each_status_has_its_word() {
    assert_eq!(status_text(RecordStatus::Submitted), "submitted");
    assert_eq!(status_text(RecordStatus::Approved), "approved");
    assert_eq!(status_text(RecordStatus::Rejected), "rejected");
}
