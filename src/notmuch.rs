//! Translation of envelope search filters into notmuch queries.

use vstd::prelude::*;

use crate::text::opt_string_view;

verus! {

/// A calendar date.
#[derive(Clone, Copy, Debug, PartialEq, Eq, Structural)]
pub struct QueryDate {
    pub year: i32,
    pub month: u32,
    pub day: u32,
}

/// A search filter over envelopes.
#[derive(Debug, PartialEq, Eq)]
pub enum SearchEmailsQueryFilter {
    And(Box<SearchEmailsQueryFilter>, Box<SearchEmailsQueryFilter>),
    Or(Box<SearchEmailsQueryFilter>, Box<SearchEmailsQueryFilter>),
    Not(Box<SearchEmailsQueryFilter>),
    /// Sent on the date.
    Date(QueryDate),
    /// Sent before the date.
    BeforeDate(QueryDate),
    /// Sent after the date.
    AfterDate(QueryDate),
    From(String),
    To(String),
    Subject(String),
    Body(String),
    Keyword(String),
}

/// An envelope search query.
#[derive(Debug, PartialEq, Eq)]
pub struct SearchEmailsQuery {
    pub filters: Option<SearchEmailsQueryFilter>,
}

/// The text of a date as chrono's `Display` writes it (`%Y-%m-%d`, with a
/// sign for years outside 0..=9999); none when it is not a date chrono can
/// represent.
pub uninterp spec fn date_text_of(year: i32, month: u32, day: u32) -> Option<Seq<char>>;

/// The date `days` days after the given one; none when either is not a
/// date chrono can represent.
pub uninterp spec fn date_shifted(year: i32, month: u32, day: u32, days: i64) -> Option<(i32, u32, u32)>;

/// Relies on chrono's `NaiveDate::from_ymd_opt` and its `Display`, which
/// writes `%Y-%m-%d` (with a sign for years outside 0..=9999).
#[verifier::external_body]
fn date_text(d: QueryDate) -> (r: Option<String>)
    ensures
        match r {
            Some(t) => date_text_of(d.year, d.month, d.day) == Some(t@),
            None => date_text_of(d.year, d.month, d.day) is None,
        },
{
    chrono::NaiveDate::from_ymd_opt(d.year, d.month, d.day).map(|x| x.to_string())
}

/// Relies on chrono's `NaiveDate::checked_add_signed`: the date `days`
/// days later, none out of range.
#[verifier::external_body]
fn shift_date(d: QueryDate, days: i64) -> (r: Option<QueryDate>)
    ensures
        match r {
            Some(x) => date_shifted(d.year, d.month, d.day, days) == Some((x.year, x.month, x.day)),
            None => date_shifted(d.year, d.month, d.day, days) is None,
        },
{
    let x = chrono::NaiveDate::from_ymd_opt(d.year, d.month, d.day)?
        .checked_add_signed(chrono::TimeDelta::try_days(days)?)?;
    Some(QueryDate {
        year: chrono::Datelike::year(&x),
        month: chrono::Datelike::month(&x),
        day: chrono::Datelike::day(&x),
    })
}

/// The text of a date shifted by `days`.
pub open spec fn shifted_text(d: QueryDate, days: i64) -> Option<Seq<char>> {
    match date_shifted(d.year, d.month, d.day, days) {
        Some((y, m, dd)) => date_text_of(y, m, dd),
        None => None,
    }
}

/// The notmuch query of filter `f`; none when one of its dates is not a
/// representable date. notmuch date ranges are inclusive, so "before"
/// ends a day earlier and "after" starts a day later.
pub open spec fn filter_query(f: SearchEmailsQueryFilter) -> Option<Seq<char>>
    decreases f,
{
    match f {
        SearchEmailsQueryFilter::And(l, r) => match (filter_query(*l), filter_query(*r)) {
            (Some(a), Some(b)) => Some("("@ + a + ") and ("@ + b + ")"@),
            _ => None,
        },
        SearchEmailsQueryFilter::Or(l, r) => match (filter_query(*l), filter_query(*r)) {
            (Some(a), Some(b)) => Some("("@ + a + ") or ("@ + b + ")"@),
            _ => None,
        },
        SearchEmailsQueryFilter::Not(r) => match filter_query(*r) {
            Some(a) => Some("not ("@ + a + ")"@),
            None => None,
        },
        SearchEmailsQueryFilter::Date(d) => match date_text_of(d.year, d.month, d.day) {
            Some(t) => Some("date:"@ + t),
            None => None,
        },
        SearchEmailsQueryFilter::BeforeDate(d) => match shifted_text(d, -1i64) {
            Some(t) => Some("date:.."@ + t),
            None => None,
        },
        SearchEmailsQueryFilter::AfterDate(d) => match shifted_text(d, 1i64) {
            Some(t) => Some("date:"@ + t + ".."@),
            None => None,
        },
        SearchEmailsQueryFilter::From(p) => Some("from:"@ + p@),
        SearchEmailsQueryFilter::To(p) => Some("to:"@ + p@),
        SearchEmailsQueryFilter::Subject(p) => Some("subject:"@ + p@),
        SearchEmailsQueryFilter::Body(p) => Some("body:"@ + p@),
        SearchEmailsQueryFilter::Keyword(p) => Some("keyword:"@ + p@),
    }
}

fn prefixed(prefix: &str, s: &str) -> (r: String)
    ensures
        r@ == prefix@ + s@,
{
    let mut r = prefix.to_owned();
    r.append(s);
    r
}

fn shifted_date_text(d: QueryDate, days: i64) -> (r: Option<String>)
    ensures
        opt_string_view(r) == shifted_text(d, days),
{
    match shift_date(d, days) {
        Some(x) => date_text(x),
        None => None,
    }
}

impl SearchEmailsQueryFilter {
    /// The notmuch query of the filter; none when one of its dates is not
    /// a representable date.
    pub fn to_notmuch_search_query(&self) -> (r: Option<String>)
        ensures
            opt_string_view(r) == filter_query(*self),
        decreases self,
    {
        match self {
            SearchEmailsQueryFilter::And(l, r) => {
                let a = l.to_notmuch_search_query()?;
                let b = r.to_notmuch_search_query()?;
                let mut q = prefixed("(", a.as_str());
                q.append(") and (");
                q.append(b.as_str());
                q.append(")");
                Some(q)
            },
            SearchEmailsQueryFilter::Or(l, r) => {
                let a = l.to_notmuch_search_query()?;
                let b = r.to_notmuch_search_query()?;
                let mut q = prefixed("(", a.as_str());
                q.append(") or (");
                q.append(b.as_str());
                q.append(")");
                Some(q)
            },
            SearchEmailsQueryFilter::Not(r) => {
                let a = r.to_notmuch_search_query()?;
                let mut q = prefixed("not (", a.as_str());
                q.append(")");
                Some(q)
            },
            SearchEmailsQueryFilter::Date(d) => {
                let t = date_text(*d)?;
                Some(prefixed("date:", t.as_str()))
            },
            SearchEmailsQueryFilter::BeforeDate(d) => {
                let t = shifted_date_text(*d, -1)?;
                Some(prefixed("date:..", t.as_str()))
            },
            SearchEmailsQueryFilter::AfterDate(d) => {
                let t = shifted_date_text(*d, 1)?;
                let mut q = prefixed("date:", t.as_str());
                q.append("..");
                Some(q)
            },
            SearchEmailsQueryFilter::From(p) => Some(prefixed("from:", p.as_str())),
            SearchEmailsQueryFilter::To(p) => Some(prefixed("to:", p.as_str())),
            SearchEmailsQueryFilter::Subject(p) => Some(prefixed("subject:", p.as_str())),
            SearchEmailsQueryFilter::Body(p) => Some(prefixed("body:", p.as_str())),
            SearchEmailsQueryFilter::Keyword(p) => Some(prefixed("keyword:", p.as_str())),
        }
    }
}

impl SearchEmailsQuery {
    /// The notmuch query of the query's filters, empty without filters.
    pub open spec fn to_notmuch_spec(&self) -> Option<Seq<char>> {
        match self.filters {
            Some(f) => filter_query(f),
            None => Some(Seq::<char>::empty()),
        }
    }

    /// The notmuch query of the query's filters, empty without filters;
    /// none when one of its dates is not a representable date.
    pub fn to_notmuch_search_query(&self) -> (r: Option<String>)
        ensures
            opt_string_view(r) == self.to_notmuch_spec(),
    {
        match &self.filters {
            Some(f) => f.to_notmuch_search_query(),
            None => Some(String::new()),
        }
    }
}

/// `s` written as a Rust string literal, quoted and escaped.
pub uninterp spec fn debug_quoted(s: Seq<char>) -> Seq<char>;

/// Relies on `str`'s `Debug`: `s` quoted, with quotes, backslashes and
/// control characters escaped.
#[verifier::external_body]
fn quote(s: &str) -> (r: String)
    ensures
        r@ == debug_quoted(s@),
{
    format!("{s:?}")
}

/// The notmuch query listing the envelopes of `folder` (the inbox when
/// `is_inbox`: notmuch's top-level folder) that match `filters`.
pub open spec fn list_query(folder: Seq<char>, is_inbox: bool, filters: Seq<char>) -> Seq<char> {
    let base = if is_inbox {
        "folder:\"\""@
    } else {
        "folder:"@ + debug_quoted(folder)
    };
    if filters.len() > 0 {
        base + " and "@ + filters
    } else {
        base
    }
}

/// The notmuch query listing the envelopes of `folder` that match
/// `query`; none when one of the query's dates is not a representable
/// date.
pub fn notmuch_list_query(folder: &str, is_inbox: bool, query: &SearchEmailsQuery) -> (r: Option<String>)
    ensures
        match (r, query.to_notmuch_spec()) {
            (Some(t), Some(q)) => t@ == list_query(folder@, is_inbox, q),
            (None, None) => true,
            _ => false,
        },
{
    let filters = query.to_notmuch_search_query()?;
    let mut q = if is_inbox {
        "folder:\"\"".to_owned()
    } else {
        let quoted = quote(folder);
        prefixed("folder:", quoted.as_str())
    };
    if filters.unicode_len() > 0 {
        q.append(" and ");
        q.append(filters.as_str());
    }
    Some(q)
}

} // verus!
