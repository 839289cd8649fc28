//! The pure parts of the web front-end that lists the scraped videos and
//! speakers: the SQL of each listing, the pagination of a query, and the
//! answer given to a failed request.
use vstd::prelude::*;

verus! {

/// Why a page of the front-end could not be served.
#[derive(Debug)]
pub enum Error {
    /// The database failed; its message.
    Elephantry(String),
    /// Nothing is served at the address asked for.
    NotFound,
    /// A template could not be rendered; its message.
    Template(String),
}

impl Error {
    /// The HTTP status code of the answer to a request that failed so.
    pub fn status(&self) -> (r: u16)
        ensures
            r == match self {
                Error::NotFound => 404u16,
                _ => 500u16,
            },
    {
        match self {
            Error::Elephantry(_) => 500,
            Error::NotFound => 404,
            Error::Template(_) => 500,
        }
    }
}

/// The character of the decimal digit `d`.
pub open spec fn digit(d: nat) -> char {
    (48 + d) as char
}

/// The decimal writing of `n`, without leading zeros.
pub open spec fn decimal(n: nat) -> Seq<char>
    decreases n,
{
    if n < 10 {
        seq![digit(n)]
    } else {
        decimal(n / 10) + seq![digit(n % 10)]
    }
}

fn digit_str(d: usize) -> (r: &'static str)
    requires
        d < 10,
    ensures
        r@ == seq![digit(d as nat)],
{
    proof {
        reveal_strlit("0");
        reveal_strlit("1");
        reveal_strlit("2");
        reveal_strlit("3");
        reveal_strlit("4");
        reveal_strlit("5");
        reveal_strlit("6");
        reveal_strlit("7");
        reveal_strlit("8");
        reveal_strlit("9");
    }
    match d {
        0 => "0",
        1 => "1",
        2 => "2",
        3 => "3",
        4 => "4",
        5 => "5",
        6 => "6",
        7 => "7",
        8 => "8",
        _ => "9",
    }
}

fn push_decimal(out: &mut String, n: usize)
    ensures
        final(out)@ == old(out)@ + decimal(n as nat),
    decreases n,
{
    if n >= 10 {
        push_decimal(out, n / 10);
    }
    out.append(digit_str(n % 10));
    assert(final(out)@ =~= old(out)@ + decimal(n as nat)) by {
        if n >= 10 {
            assert(decimal(n as nat) == decimal((n / 10) as nat) + seq![digit((n % 10) as nat)]);
        }
    }
}

/// The template rendered as the answer to a request that failed with the
/// HTTP status `status`.
pub fn error_page(status: u16) -> (r: String)
    ensures
        r@ == "errors/"@ + decimal(status as nat) + ".html"@,
{
    let mut r = String::from_str("errors/");
    push_decimal(&mut r, status as usize);
    r.append(".html");
    r
}

/// Where a page of a listing starts and how many rows it holds; `page`
/// counts from 1.
#[derive(Clone, Copy, Debug)]
pub struct Pagination {
    pub page: usize,
    pub limit: usize,
}

/// The SQL clause that selects the rows of the page.
pub open spec fn pagination_clause(page: nat, limit: nat) -> Seq<char> {
    "offset "@ + decimal(((page - 1) * limit) as nat) + " fetch first "@ + decimal(limit)
        + " rows only"@
}

/// Calls `elephantry_extras::Pagination::to_sql` on the pagination
/// `{ page, limit }`.
///
/// Trusted: the contract claims what the source of the call shows, the
/// result of `format!("offset {} fetch first {} rows only", (page - 1) * limit,
/// limit)`, with both numbers written in decimal. The call overflows where
/// `page` is 0 or the offset does not fit in a `usize`; the `requires` leaves
/// those inputs out.
#[verifier::external_body]
fn pagination_to_sql(page: usize, limit: usize) -> (r: String)
    requires
        1 <= page,
        (page - 1) * limit <= usize::MAX,
    ensures
        r@ == pagination_clause(page as nat, limit as nat),
{
    elephantry_extras::Pagination { page, limit }.to_sql()
}

/// The query that selects the rows of the page of `sql`.
pub fn paginate_sql(sql: &str, pagination: &Pagination) -> (r: String)
    requires
        1 <= pagination.page,
        (pagination.page - 1) * pagination.limit <= usize::MAX,
    ensures
        r@ == sql@ + " "@ + pagination_clause(pagination.page as nat, pagination.limit as nat),
{
    let clause = pagination_to_sql(pagination.page, pagination.limit);
    String::from_str(sql).concat(" ").concat(clause.as_str())
}

/// The query that counts the rows of `sql`.
pub fn count_sql(sql: &str) -> (r: String)
    ensures
        r@ == "with query as ("@ + sql@ + ") select count(1) from query"@,
{
    String::from_str("with query as (").concat(sql).concat(") select count(1) from query")
}

/// The listings of the front-end.
#[derive(Clone, Copy, Debug, PartialEq, Eq, Structural)]
pub enum Listing {
    Videos,
    Speakers,
}

impl Listing {
    /// The query of the whole listing.
    pub fn sql(self) -> (r: &'static str)
        ensures
            r@ == match self {
                Listing::Videos => "select * from view.video"@,
                Listing::Speakers => "select * from view.speaker"@,
            },
    {
        match self {
            Listing::Videos => "select * from view.video",
            Listing::Speakers => "select * from view.speaker",
        }
    }

    /// The query of the rows whose title matches the pattern given as its
    /// parameter.
    pub fn search_sql(self) -> (r: &'static str)
        ensures
            r@ == match self {
                Listing::Videos => "select * from view.video where title ~* $*"@,
                Listing::Speakers => "select * from view.speaker where title ~* $*"@,
            },
    {
        match self {
            Listing::Videos => "select * from view.video where title ~* $*",
            Listing::Speakers => "select * from view.speaker where title ~* $*",
        }
    }

    /// The address of the whole listing.
    pub fn base_url(self) -> (r: &'static str)
        ensures
            r@ == match self {
                Listing::Videos => "/videos"@,
                Listing::Speakers => "/speakers"@,
            },
    {
        match self {
            Listing::Videos => "/videos",
            Listing::Speakers => "/speakers",
        }
    }

    /// The address of the search for `q` in the listing.
    pub fn search_url(self, q: &str) -> (r: String)
        ensures
            r@ == match self {
                Listing::Videos => "/search/videos?q="@,
                Listing::Speakers => "/search/speakers?q="@,
            } + q@,
    {
        let prefix = match self {
            Listing::Videos => "/search/videos?q=",
            Listing::Speakers => "/search/speakers?q=",
        };
        String::from_str(prefix).concat(q)
    }
}

} // verus!
