//! The decisions taken while scraping: which records of a video are stored,
//! in which order, how many websocket messages are read before giving up, and
//! which pages of the index are fetched.
use crate::data::{first_comments, first_statements, Comment, Debate, Debates, Statement, Content};
use crate::errors::{Error, Result};
use crate::sorting::{is_stable_sort_by_id, sort_by_id};
use vstd::prelude::*;

verus! {

/// The items of an optional vector; none where there is no vector.
pub open spec fn or_empty<A>(o: Option<Vec<A>>) -> Seq<A> {
    match o {
        Some(v) => v@,
        None => Seq::empty(),
    }
}

/// The statement, as made in the video `video_id`.
pub open spec fn in_video(st: Statement, video_id: i32) -> Statement {
    Statement {
        id: st.id,
        speaker_id: st.speaker_id,
        video_id: video_id,
        text: st.text,
        time: st.time,
    }
}

/// The statements, as made in the video `video_id`.
pub open spec fn stamped(s: Seq<Statement>, video_id: i32) -> Seq<Statement> {
    s.map_values(|st: Statement| in_video(st, video_id))
}

fn into_statements(debates: Debates) -> (r: Option<Vec<Statement>>)
    ensures
        r == first_statements(debates.0@),
{
    let mut rest = debates.0;
    let ghost all = rest@;
    while rest.len() > 0
        invariant
            all == debates.0@,
            first_statements(all) == first_statements(rest@),
        decreases rest@.len(),
    {
        let ghost before = rest@;
        let d = rest.remove(0);
        assert(before.drop_first() =~= rest@);
        if let Debate::Response(response) = d {
            if let Content::Statements(statements) = response.response {
                return Some(statements);
            }
        }
    }
    None
}

fn into_comments(debates: Debates) -> (r: Option<Vec<Comment>>)
    ensures
        r == first_comments(debates.0@),
{
    let mut rest = debates.0;
    let ghost all = rest@;
    while rest.len() > 0
        invariant
            all == debates.0@,
            first_comments(all) == first_comments(rest@),
        decreases rest@.len(),
    {
        let ghost before = rest@;
        let d = rest.remove(0);
        assert(before.drop_first() =~= rest@);
        if let Debate::Response(response) = d {
            if let Content::Comments(comments) = response.response {
                return Some(comments.comments);
            }
        }
    }
    None
}

/// The statements to store for the video `video_id`, from the messages of its
/// statements channel: those of the first reply that holds statements (none
/// if no reply does), each marked as made in the video `video_id`.
pub fn statements_to_save(debates: Debates, video_id: i32) -> (r: Vec<Statement>)
    ensures
        r@ == stamped(or_empty(first_statements(debates.0@)), video_id),
        r@.len() == or_empty(first_statements(debates.0@)).len(),
        forall|i: int|
            0 <= i < r@.len() ==> {
                let received = #[trigger] or_empty(first_statements(debates.0@))[i];
                &&& r@[i].id == received.id
                &&& r@[i].speaker_id == received.speaker_id
                &&& r@[i].video_id == video_id
                &&& r@[i].text == received.text
                &&& r@[i].time == received.time
            },
{
    let mut rest = match into_statements(debates) {
        Some(statements) => statements,
        None => Vec::new(),
    };
    let ghost all = rest@;
    let ghost mut i: int = 0;
    let mut out: Vec<Statement> = Vec::new();
    assert(all.skip(0) =~= all);
    while rest.len() > 0
        invariant
            0 <= i <= all.len(),
            rest@ == all.skip(i),
            out@ == stamped(all.take(i), video_id),
        decreases rest@.len(),
    {
        let mut st = rest.remove(0);
        st.video_id = video_id;
        out.push(st);
        proof {
            assert(all.skip(i).drop_first() =~= all.skip(i + 1));
            assert(all.take(i + 1) =~= all.take(i).push(all[i]));
            i = i + 1;
        }
        assert(out@ =~= stamped(all.take(i), video_id));
    }
    assert(all.take(i) =~= all);
    proof {
        law_stamped(all, video_id);
    }
    out
}

/// Marking statements as made in a video changes their video id only: each
/// keeps its id, speaker, text and time, and their order is kept.
pub proof fn law_stamped(s: Seq<Statement>, video_id: i32)
    ensures
        stamped(s, video_id).len() == s.len(),
        forall|i: int|
            0 <= i < s.len() ==> {
                let st = #[trigger] stamped(s, video_id)[i];
                &&& st.id == s[i].id
                &&& st.speaker_id == s[i].speaker_id
                &&& st.video_id == video_id
                &&& st.text == s[i].text
                &&& st.time == s[i].time
            },
{
}

/// The comments to store for a video, from the messages of its comments
/// channel: those of the first reply that holds comments (none if no reply
/// does), sorted by id, comments with the same id keeping their order.
pub fn comments_to_save(debates: Debates) -> (r: Vec<Comment>)
    ensures
        is_stable_sort_by_id(r@, or_empty(first_comments(debates.0@))),
        r@.to_multiset() == or_empty(first_comments(debates.0@)).to_multiset(),
{
    let mut comments = match into_comments(debates) {
        Some(comments) => comments,
        None => Vec::new(),
    };
    sort_by_id(&mut comments);
    comments
}

/// How many more messages that are not debate data the scraper accepts on
/// the websocket before it gives up a request.
pub struct ReadBudget {
    pub tries_left: i32,
}

/// The budget of a request that has just been sent.
pub open spec fn fresh_budget() -> ReadBudget {
    ReadBudget { tries_left: 10 }
}

/// Whether the budget allows one more message to be read.
pub open spec fn allows_read(b: ReadBudget) -> bool {
    b.tries_left >= 0
}

/// The budget after a message that is not debate data.
pub open spec fn after_unreadable(b: ReadBudget) -> ReadBudget {
    ReadBudget { tries_left: (b.tries_left - 1) as i32 }
}

impl ReadBudget {
    /// The budget of a request that has just been sent.
    pub fn new() -> (b: ReadBudget)
        ensures
            b == fresh_budget(),
    {
        ReadBudget { tries_left: 10 }
    }

    /// Whether one more message may be read: `Ok` if so, else the error that
    /// ends the request.
    pub fn check(&self) -> (r: Result<()>)
        ensures
            allows_read(*self) ==> r is Ok,
            !allows_read(*self) ==> r matches Err(Error::WebsocketTryOut),
    {
        if self.tries_left < 0 {
            Err(Error::WebsocketTryOut)
        } else {
            Ok(())
        }
    }

    /// Records that the message read was not debate data.
    pub fn unreadable(&mut self)
        requires
            allows_read(*old(self)),
        ensures
            *final(self) == after_unreadable(*old(self)),
    {
        self.tries_left = self.tries_left - 1;
    }
}

/// The budget of a request after `n` messages that are not debate data.
pub open spec fn budget_after(n: nat) -> ReadBudget
    decreases n,
{
    if n == 0 {
        fresh_budget()
    } else {
        after_unreadable(budget_after((n - 1) as nat))
    }
}

/// A request reads at most eleven messages: after `n` messages that are not
/// debate data, one more may be read exactly when `n` is at most ten.
pub proof fn law_eleven_reads(n: nat)
    requires
        n <= 11,
    ensures
        allows_read(budget_after(n)) <==> n <= 10,
        budget_after(n).tries_left == 10 - n,
    decreases n,
{
    if n > 0 {
        law_eleven_reads((n - 1) as nat);
    }
}

/// The last page of the index to fetch: the one asked for, else the number of
/// pages of the index.
pub fn page_limit(limit: Option<u32>, total_pages: u32) -> (r: u32)
    ensures
        r == match limit {
            Some(l) => l,
            None => total_pages,
        },
{
    match limit {
        Some(l) => l,
        None => total_pages,
    }
}

/// The page that follows `page` when the last page to fetch is `limit`.
pub open spec fn spec_next_page(page: u32, limit: u32) -> Option<u32> {
    if page == limit {
        None
    } else {
        Some((page + 1) as u32)
    }
}

/// The page to fetch after `page` when the last page to fetch is `limit`:
/// none once `limit` is reached.
pub fn next_page(page: u32, limit: u32) -> (r: Option<u32>)
    requires
        page < u32::MAX || page == limit,
    ensures
        r == spec_next_page(page, limit),
{
    if page == limit {
        None
    } else {
        Some(page + 1)
    }
}

/// The first `n` pages fetched from `page` on, when the last page to fetch is
/// `limit`.
pub open spec fn pages_fetched(page: u32, limit: u32, n: nat) -> Seq<u32>
    decreases n,
{
    if n == 0 {
        Seq::empty()
    } else {
        seq![page] + match spec_next_page(page, limit) {
            Some(next) => pages_fetched(next, limit, (n - 1) as nat),
            None => Seq::empty(),
        }
    }
}

proof fn lemma_pages_fetched_from(page: u32, limit: u32)
    requires
        1 <= page <= limit,
    ensures
        pages_fetched(page, limit, (limit - page + 2) as nat) == Seq::new(
            (limit - page + 1) as nat,
            |k: int| (page + k) as u32,
        ),
    decreases limit - page,
{
    let n: nat = (limit - page + 2) as nat;
    if page == limit {
        assert(pages_fetched(page, limit, n) =~= Seq::new(1, |k: int| (page + k) as u32));
    } else {
        lemma_pages_fetched_from((page + 1) as u32, limit);
        assert(pages_fetched(page, limit, n) =~= Seq::new(
            (limit - page + 1) as nat,
            |k: int| (page + k) as u32,
        ));
    }
}

/// From the first page on, the pages fetched are `1, 2, ..., limit`, and no
/// page follows `limit`.
pub proof fn law_pages_one_to_limit(limit: u32)
    requires
        1 <= limit,
    ensures
        pages_fetched(1, limit, (limit + 1) as nat) == Seq::new(limit as nat, |k: int| (k + 1) as u32),
{
    lemma_pages_fetched_from(1, limit);
    assert(Seq::new(limit as nat, |k: int| (1 + k) as u32) =~= Seq::new(
        limit as nat,
        |k: int| (k + 1) as u32,
    ));
}

} // verus!
