//! Row delivery over paged results: a cursor over one fetched page, and a
//! stream that asks for the next page whenever the held one runs out.
//!
//! Neither performs I/O. The stream says when a page is wanted (`Step::Fetch`
//! with the continuation token to send); whoever drives it fetches the page
//! and hands it back through `resume`. A dropped stream asks for nothing more.

use vstd::prelude::*;
use crate::errors::{Misuse, QueryError, TransportFault};

verus! {

/// What an advance of a stream yields.
pub enum Step<R> {
    /// The next row.
    Row(R),
    /// A page is wanted; send this continuation token (`None` for the first page).
    Fetch(Option<Vec<u8>>),
    /// The result set is exhausted (or the stream failed earlier).
    End,
    Error(QueryError),
}

#[derive(Clone, Copy, Debug, PartialEq, Eq, Structural)]
pub enum StreamState {
    /// No page was asked for yet.
    Unstarted,
    /// A page is held.
    Ready,
    /// A page was asked for and has not come.
    Fetching,
    Exhausted,
    Failed,
}

/// The stream as a mathematical value.
pub struct StreamModel<R> {
    pub state: StreamState,
    /// Rows of the held page not yet delivered, in order.
    pub rows: Seq<R>,
    /// Continuation token of the held page (before the first fetch: the
    /// token to start from).
    pub token: Option<Vec<u8>>,
    /// Pages asked for so far.
    pub fetches: nat,
}

/// Whether a model is one that a stream can be in.
pub open spec fn model_wf<R>(m: StreamModel<R>) -> bool {
    (m.state != StreamState::Ready ==> m.rows.len() == 0)
    && (m.state != StreamState::Ready && m.state != StreamState::Unstarted ==> m.token.is_none())
    && (m.state == StreamState::Unstarted ==> m.fetches == 0)
    && (m.state != StreamState::Unstarted ==> m.fetches > 0)
}

/// One advance: the next row of the held page; else a fetch with the held
/// token; else the end. The first advance fetches from the starting token.
pub open spec fn advance_model<R>(m: StreamModel<R>) -> (StreamModel<R>, Step<R>) {
    match m.state {
        StreamState::Unstarted => (
            StreamModel { state: StreamState::Fetching, token: None, fetches: m.fetches + 1, ..m },
            Step::Fetch(m.token),
        ),
        StreamState::Ready => if m.rows.len() > 0 {
            (StreamModel { rows: m.rows.drop_first(), ..m }, Step::Row(m.rows[0]))
        } else if m.token.is_some() {
            (
                StreamModel { state: StreamState::Fetching, token: None, fetches: m.fetches + 1, ..m },
                Step::Fetch(m.token),
            )
        } else {
            (StreamModel { state: StreamState::Exhausted, ..m }, Step::End)
        },
        StreamState::Fetching => (m, Step::Error(QueryError::Misuse(Misuse::OutOfTurn))),
        StreamState::Exhausted | StreamState::Failed => (m, Step::End),
    }
}

/// A fetched page (its rows and continuation token) taken in.
pub open spec fn receive_model<R>(m: StreamModel<R>, rows: Seq<R>, token: Option<Vec<u8>>) -> StreamModel<R> {
    StreamModel { state: StreamState::Ready, rows, token, ..m }
}

/// What `resume` does with the outcome of the fetch that was asked for.
pub open spec fn resume_model<R>(
    m: StreamModel<R>,
    page: Result<(Seq<R>, Option<Vec<u8>>), TransportFault>,
) -> (StreamModel<R>, Step<R>) {
    if m.state != StreamState::Fetching {
        (m, Step::Error(QueryError::Misuse(Misuse::OutOfTurn)))
    } else {
        match page {
            Err(t) => (StreamModel { state: StreamState::Failed, ..m }, Step::Error(QueryError::Transport(t))),
            Ok((rows, token)) => advance_model(receive_model(m, rows, token)),
        }
    }
}

/// The rows of `v` in the opposite order.
pub open spec fn reversed<R>(v: Seq<R>) -> Seq<R> {
    Seq::new(v.len(), |i: int| v[v.len() - 1 - i])
}

/// The rows of `rows` in the opposite order, so that popping yields them in order.
fn reverse_rows<R>(rows: Vec<R>) -> (r: Vec<R>)
    ensures
        reversed(r@) == rows@,
{
    let ghost orig = rows@;
    let mut rows = rows;
    let mut pending: Vec<R> = Vec::new();
    while rows.len() > 0
        invariant
            rows@ == orig.take(rows@.len() as int),
            rows@.len() <= orig.len(),
            pending@.len() + rows@.len() == orig.len(),
            forall|j: int| 0 <= j < pending@.len() ==> #[trigger] pending@[j] == orig[orig.len() - 1 - j],
        decreases rows@.len(),
    {
        let row = rows.pop().unwrap();
        pending.push(row);
        assert(rows@ =~= orig.take(rows@.len() as int));
    }
    assert(reversed(pending@) =~= orig);
    pending
}

/// An auto-paging stream of rows.
pub struct PagingStream<R> {
    state: StreamState,
    /// Undelivered rows of the held page, the next one last.
    pending: Vec<R>,
    token: Option<Vec<u8>>,
    fetches: Ghost<nat>,
}

impl<R> View for PagingStream<R> {
    type V = StreamModel<R>;

    closed spec fn view(&self) -> StreamModel<R> {
        StreamModel {
            state: self.state,
            rows: reversed(self.pending@),
            token: self.token,
            fetches: self.fetches@,
        }
    }
}

/// A page of an owned sequence, as a `Result` of views.
pub open spec fn page_view<R>(page: Result<(Vec<R>, Option<Vec<u8>>), TransportFault>) -> Result<
    (Seq<R>, Option<Vec<u8>>),
    TransportFault,
> {
    match page {
        Ok((rows, token)) => Ok((rows@, token)),
        Err(t) => Err(t),
    }
}

impl<R> PagingStream<R> {
    /// A stream that has asked for nothing yet.
    pub fn new() -> (r: Self)
        ensures
            r@.state == StreamState::Unstarted,
            r@.rows.len() == 0,
            r@.token.is_none(),
            r@.fetches == 0,
            model_wf(r@),
    {
        let r = PagingStream { state: StreamState::Unstarted, pending: Vec::new(), token: None, fetches: Ghost(0) };
        assert(r@.rows =~= Seq::<R>::empty());
        r
    }

    /// A stream whose first fetch resumes a result set at `paging_state`
    /// (`None`: at its start).
    pub fn starting_at(paging_state: Option<Vec<u8>>) -> (r: Self)
        ensures
            r@.state == StreamState::Unstarted,
            r@.rows.len() == 0,
            r@.token == paging_state,
            r@.fetches == 0,
            model_wf(r@),
    {
        let r = PagingStream {
            state: StreamState::Unstarted,
            pending: Vec::new(),
            token: paging_state,
            fetches: Ghost(0),
        };
        assert(r@.rows =~= Seq::<R>::empty());
        r
    }

    pub fn state(&self) -> (r: StreamState)
        ensures
            r == self@.state,
    {
        self.state
    }

    /// Moves to the next row; asks for a page only where the held one is
    /// used up and its token says more follow.
    pub fn advance(&mut self) -> (r: Step<R>)
        ensures
            (final(self)@, r) == advance_model(old(self)@),
            model_wf(old(self)@) ==> model_wf(final(self)@),
    {
        match self.state {
            StreamState::Unstarted => {
                let token = self.token.take();
                self.state = StreamState::Fetching;
                self.fetches = Ghost(self.fetches@ + 1);
                Step::Fetch(token)
            },
            StreamState::Ready => {
                let ghost before = self@;
                if self.pending.len() > 0 {
                    let row = self.pending.pop().unwrap();
                    assert(self@.rows =~= before.rows.drop_first());
                    Step::Row(row)
                } else if self.token.is_some() {
                    let token = self.token.take();
                    self.state = StreamState::Fetching;
                    self.fetches = Ghost(self.fetches@ + 1);
                    Step::Fetch(token)
                } else {
                    self.state = StreamState::Exhausted;
                    Step::End
                }
            },
            StreamState::Fetching => Step::Error(QueryError::Misuse(Misuse::OutOfTurn)),
            StreamState::Exhausted | StreamState::Failed => Step::End,
        }
    }

    /// Takes in the outcome of the fetch that the last step asked for and
    /// advances once more: a transport failure ends the stream in `Failed`.
    pub fn resume(&mut self, page: Result<(Vec<R>, Option<Vec<u8>>), TransportFault>) -> (r: Step<R>)
        ensures
            (final(self)@, r) == resume_model(old(self)@, page_view(page)),
            model_wf(old(self)@) ==> model_wf(final(self)@),
    {
        if self.state != StreamState::Fetching {
            return Step::Error(QueryError::Misuse(Misuse::OutOfTurn));
        }
        match page {
            Err(t) => {
                self.state = StreamState::Failed;
                Step::Error(QueryError::Transport(t))
            },
            Ok((rows, token)) => {
                self.pending = reverse_rows(rows);
                self.token = token;
                self.state = StreamState::Ready;
                self.advance()
            },
        }
    }
}

/// A fetched page as a value: its rows and its continuation token.
pub type PageModel<R> = (Seq<R>, Option<Vec<u8>>);

/// Drives a stream until it stops, answering each fetch with the next of
/// `pages`. Gives the rows delivered, whether the stream reached its end,
/// and how many pages it had asked for by then.
pub open spec fn drain<R>(m: StreamModel<R>, pages: Seq<PageModel<R>>) -> (Seq<R>, bool, nat)
    decreases pages.len(), m.rows.len(),
{
    let (next, step) = advance_model(m);
    match step {
        Step::Row(x) => if m.state == StreamState::Ready && m.rows.len() > 0 {
            let (rest, ended, fetches) = drain(next, pages);
            (seq![x] + rest, ended, fetches)
        } else {
            (Seq::empty(), false, m.fetches)
        },
        Step::Fetch(_) => if pages.len() == 0 {
            (Seq::empty(), false, next.fetches)
        } else {
            drain(receive_model(next, pages[0].0, pages[0].1), pages.drop_first())
        },
        Step::End => (Seq::empty(), true, m.fetches),
        Step::Error(_) => (Seq::empty(), false, m.fetches),
    }
}

/// Every page but the last carries a continuation token; the last carries none.
pub open spec fn chained<R>(pages: Seq<PageModel<R>>) -> bool {
    forall|i: int| 0 <= i < pages.len() ==> (#[trigger] pages[i].1.is_some() <==> i < pages.len() - 1)
}

/// The rows of all pages, page after page.
pub open spec fn all_rows<R>(pages: Seq<PageModel<R>>) -> Seq<R>
    decreases pages.len(),
{
    if pages.len() == 0 {
        Seq::empty()
    } else {
        pages[0].0 + all_rows(pages.drop_first())
    }
}

/// A stream that has asked for nothing yet.
pub open spec fn fresh_model<R>() -> StreamModel<R> {
    StreamModel { state: StreamState::Unstarted, rows: Seq::empty(), token: None, fetches: 0 }
}

proof fn lemma_drain_ready<R>(m: StreamModel<R>, pages: Seq<PageModel<R>>)
    requires
        m.state == StreamState::Ready,
        m.token.is_some() <==> pages.len() > 0,
        chained(pages),
    ensures
        drain(m, pages) == (m.rows + all_rows(pages), true, m.fetches + pages.len()),
    decreases pages.len(), m.rows.len(),
{
    if m.rows.len() > 0 {
        let next = advance_model(m).0;
        lemma_drain_ready(next, pages);
        assert(seq![m.rows[0]] + (next.rows + all_rows(pages)) =~= m.rows + all_rows(pages));
    } else if m.token.is_some() {
        let next = advance_model(m).0;
        let rest = pages.drop_first();
        assert forall|i: int| 0 <= i < rest.len() implies (#[trigger] rest[i].1.is_some() <==> i < rest.len() - 1) by {
            assert(rest[i] == pages[i + 1]);
        }
        assert(pages[0].1.is_some() <==> rest.len() > 0);
        lemma_drain_ready(receive_model(next, pages[0].0, pages[0].1), rest);
        assert(m.rows + all_rows(pages) =~= pages[0].0 + all_rows(rest));
    } else {
        assert(m.rows + all_rows(pages) =~= Seq::<R>::empty());
    }
}

/// A stream fed N pages, of which only the last has no continuation token,
/// delivers the rows of all N pages in order, reaches its end, and has asked
/// for exactly N pages: never an (N+1)-th.
pub proof fn lemma_stream_reads_each_page_once<R>(pages: Seq<PageModel<R>>)
    requires
        pages.len() > 0,
        chained(pages),
    ensures
        drain(fresh_model::<R>(), pages) == (all_rows(pages), true, pages.len()),
{
    let next = advance_model(fresh_model::<R>()).0;
    let rest = pages.drop_first();
    assert forall|i: int| 0 <= i < rest.len() implies (#[trigger] rest[i].1.is_some() <==> i < rest.len() - 1) by {
        assert(rest[i] == pages[i + 1]);
    }
    lemma_drain_ready(receive_model(next, pages[0].0, pages[0].1), rest);
}

/// A stream asks for a page only through a `Fetch` step: every other step,
/// of `advance` or of `resume`, leaves the count of fetches as it was. So a
/// stream that is no longer advanced asks for nothing more.
pub proof fn lemma_fetch_only_when_asked<R>(m: StreamModel<R>, page: Result<PageModel<R>, TransportFault>)
    ensures
        advance_model(m).0.fetches == m.fetches + if advance_model(m).1 is Fetch { 1nat } else { 0nat },
        resume_model(m, page).0.fetches == m.fetches + if resume_model(m, page).1 is Fetch { 1nat } else { 0nat },
{
}

/// A cursor over the rows of one page that was already fetched; it never
/// asks for more.
pub struct PageIterator<R> {
    pending: Vec<R>,
}

impl<R> View for PageIterator<R> {
    type V = Seq<R>;

    closed spec fn view(&self) -> Seq<R> {
        reversed(self.pending@)
    }
}

impl<R> PageIterator<R> {
    /// Holds the rows of a page, in order.
    pub fn new(rows: Vec<R>) -> (r: Self)
        ensures
            r@ == rows@,
    {
        PageIterator { pending: reverse_rows(rows) }
    }

    /// The next row of the page, or `None` once all were delivered.
    pub fn next_row(&mut self) -> (r: Option<R>)
        ensures
            old(self)@.len() == 0 ==> r.is_none() && final(self)@ == old(self)@,
            old(self)@.len() > 0 ==> r == Some(old(self)@[0]) && final(self)@ == old(self)@.drop_first(),
    {
        let ghost before = self@;
        let r = self.pending.pop();
        assert(self@ =~= if before.len() > 0 { before.drop_first() } else { before });
        r
    }

    /// How many rows are left.
    pub fn remaining(&self) -> (r: usize)
        ensures
            r == self@.len(),
    {
        self.pending.len()
    }
}

} // verus!
