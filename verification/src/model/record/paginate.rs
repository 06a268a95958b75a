use crate::model::record::{clone_text, Record, RecordStatus};
use crate::pagination::Paginatable;
use vstd::prelude::*;
use vstd::string::StringExecFns;

verus! {

/// The character for a digit.
pub open spec fn digit(d: nat) -> char {
    if d == 0 {
        '0'
    } else if d == 1 {
        '1'
    } else if d == 2 {
        '2'
    } else if d == 3 {
        '3'
    } else if d == 4 {
        '4'
    } else if d == 5 {
        '5'
    } else if d == 6 {
        '6'
    } else if d == 7 {
        '7'
    } else if d == 8 {
        '8'
    } else {
        '9'
    }
}

/// The digits of a natural number in base ten, the highest first.
pub open spec fn digits(n: nat) -> Seq<char>
    decreases n,
{
    if n < 10 {
        seq![digit(n)]
    } else {
        digits(n / 10).push(digit(n % 10))
    }
}

/// A whole number written in base ten, with a minus sign where it is below zero.
pub open spec fn decimal(n: int) -> Seq<char> {
    if n < 0 {
        seq!['-'] + digits((-n) as nat)
    } else {
        digits(n as nat)
    }
}

fn digit_text(d: u32) -> (text: &'static str)
    requires
        d < 10,
    ensures
        text@ == seq![digit(d as nat)],
{
    proof {
        reveal_strlit("0");
        reveal_strlit("1");
        reveal_strlit("2");
        reveal_strlit("3");
        reveal_strlit("4");
        reveal_strlit("5");
        reveal_strlit("6");
        reveal_strlit("7");
        reveal_strlit("8");
        reveal_strlit("9");
    }
    let text = if d == 0 {
        "0"
    } else if d == 1 {
        "1"
    } else if d == 2 {
        "2"
    } else if d == 3 {
        "3"
    } else if d == 4 {
        "4"
    } else if d == 5 {
        "5"
    } else if d == 6 {
        "6"
    } else if d == 7 {
        "7"
    } else if d == 8 {
        "8"
    } else {
        "9"
    };
    assert(text@ =~= seq![digit(d as nat)]);
    text
}

fn write_digits(out: &mut String, n: u32)
    ensures
        final(out)@ == old(out)@ + digits(n as nat),
    decreases n,
{
    if n >= 10 {
        write_digits(out, n / 10);
    }
    out.append(digit_text(n % 10));
    assert(out@ =~= old(out)@ + digits(n as nat));
}

/// Writes a whole number in base ten.
pub fn to_decimal(n: i32) -> (text: String)
    ensures
        text@ == decimal(n as int),
{
    let mut text = String::new();
    if n < 0 {
        proof {
            reveal_strlit("-");
        }
        text.append("-");
        let magnitude: i64 = -(n as i64);
        write_digits(&mut text, magnitude as u32);
        assert(text@ =~= decimal(n as int));
    } else {
        write_digits(&mut text, n as u32);
        assert(text@ =~= decimal(n as int));
    }
    text
}

/// A page of the listing of records: which records are listed, how many of them
/// on a page, and on which side of which record the page lies.
#[derive(Debug, PartialEq, Eq)]
pub struct RecordPagination {
    /// The page holds records with an id below this one.
    pub before: Option<i32>,
    /// The page holds records with an id above this one.
    pub after: Option<i32>,
    /// The page holds this many records at most.
    pub limit: Option<i32>,
    /// Only records on the demon of this name are listed.
    pub demon: Option<String>,
    /// Only records that stand like this are listed.
    pub status: Option<RecordStatus>,
}

/// The word for a status in a query.
pub open spec fn status_word(status: RecordStatus) -> Seq<char> {
    match status {
        RecordStatus::Submitted => "submitted"@,
        RecordStatus::Approved => "approved"@,
        RecordStatus::Rejected => "rejected"@,
    }
}

/// The word for a status in a query.
pub fn status_text(status: RecordStatus) -> (word: &'static str)
    ensures
        word@ == status_word(status),
{
    match status {
        RecordStatus::Submitted => "submitted",
        RecordStatus::Approved => "approved",
        RecordStatus::Rejected => "rejected",
    }
}

/// How many records a page holds at most where the page does not say so itself.
pub const DEFAULT_PAGE_SIZE: i32 = 50;

/// The parameter `name` with `value`, where there is a value.
pub open spec fn param(name: Seq<char>, value: Option<Seq<char>>) -> Seq<(Seq<char>, Seq<char>)> {
    match value {
        Some(value) => seq![(name, value)],
        None => Seq::empty(),
    }
}

fn push_param(pairs: &mut Vec<(String, String)>, name: &str, value: Option<String>)
    ensures
        final(pairs).deep_view() == old(pairs).deep_view() + param(
            name@,
            match value {
                Some(value) => Some(value@),
                None => None,
            },
        ),
{
    match value {
        Some(value) => {
            pairs.push((String::from_str(name), value));
            assert(pairs.deep_view() =~= old(pairs).deep_view() + seq![(name@, value@)]);
        },
        None => {
            assert(pairs.deep_view() =~= old(pairs).deep_view() + Seq::empty());
        },
    }
}

impl RecordPagination {
    /// A number of the page as a text, where the page gives it.
    pub open spec fn number(value: Option<i32>) -> Option<Seq<char>> {
        match value {
            Some(n) => Some(decimal(n as int)),
            None => None,
        }
    }

    /// How many records the page holds at most: as many as it says, and
    /// `DEFAULT_PAGE_SIZE` where it says nothing, or nothing above zero.
    pub open spec fn spec_page_size(&self) -> i32 {
        match self.limit {
            Some(limit) => if limit > 0 {
                limit
            } else {
                DEFAULT_PAGE_SIZE
            },
            None => DEFAULT_PAGE_SIZE,
        }
    }

    #[verifier::when_used_as_spec(spec_page_size)]
    pub fn page_size(&self) -> (size: i32)
        ensures
            size == self.spec_page_size(),
            size > 0,
    {
        match self.limit {
            Some(limit) => if limit > 0 {
                limit
            } else {
                DEFAULT_PAGE_SIZE
            },
            None => DEFAULT_PAGE_SIZE,
        }
    }
}

fn number_text(value: Option<i32>) -> (text: Option<String>)
    ensures
        match text {
            Some(text) => RecordPagination::number(value) == Some(text@),
            None => RecordPagination::number(value) is None,
        },
{
    match value {
        Some(n) => Some(to_decimal(n)),
        None => None,
    }
}

impl Paginatable for RecordPagination {
    type Result = Record;

    open spec fn spec_window(&self, after: Option<i32>, before: Option<i32>) -> Self {
        RecordPagination { before, after, limit: self.limit, demon: self.demon, status: self.status }
    }

    fn window(&self, after: Option<i32>, before: Option<i32>) -> (page: Self) {
        RecordPagination {
            before,
            after,
            limit: self.limit,
            demon: clone_text(&self.demon),
            status: self.status,
        }
    }

    open spec fn params(&self) -> Seq<(Seq<char>, Seq<char>)> {
        param("before"@, Self::number(self.before)) + param("after"@, Self::number(self.after))
            + param("limit"@, Self::number(self.limit)) + param(
            "demon"@,
            match self.demon {
                Some(name) => Some(name@),
                None => None,
            },
        ) + param(
            "status"@,
            match self.status {
                Some(status) => Some(status_word(status)),
                None => None,
            },
        )
    }

    fn query_pairs(&self) -> (pairs: Vec<(String, String)>) {
        let mut pairs: Vec<(String, String)> = Vec::new();
        assert(pairs.deep_view() =~= Seq::empty());
        push_param(&mut pairs, "before", number_text(self.before));
        push_param(&mut pairs, "after", number_text(self.after));
        push_param(&mut pairs, "limit", number_text(self.limit));
        let demon = match &self.demon {
            Some(name) => Some(name.clone()),
            None => None,
        };
        push_param(&mut pairs, "demon", demon);
        let status = match self.status {
            Some(status) => Some(String::from_str(status_text(status))),
            None => None,
        };
        push_param(&mut pairs, "status", status);
        assert(pairs.deep_view() =~= self.params());
        pairs
    }
}

} // verus!
