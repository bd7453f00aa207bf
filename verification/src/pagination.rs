//! The connection builder: from a full ordered sequence and the paging
//! arguments to one contiguous window of it, with the page metadata.

use vstd::prelude::*;
use crate::cursor::{cursor_in, cursor_text, decode_within, encode};

verus! {

/// Why a page could not be built.
#[derive(Clone, Copy, Debug, PartialEq, Eq, Structural)]
pub enum PageError {
    /// `first` and `last` were both given, or one of them was negative.
    InvalidPaginationArgs,
    /// `after` or `before` names no position of the sequence.
    CursorDecodeError,
}

/// The paging arguments of one connection field.
#[derive(Clone, Debug)]
pub struct Params {
    pub after: Option<String>,
    pub before: Option<String>,
    pub first: Option<i32>,
    pub last: Option<i32>,
}

/// One element of a page with the cursor that names its position.
#[derive(Debug)]
pub struct Edge<T> {
    pub node: T,
    pub cursor: String,
}

/// Where a page stands in the full sequence.
#[derive(Clone, Debug)]
pub struct PageInfo {
    pub has_previous_page: bool,
    pub has_next_page: bool,
    pub start_cursor: Option<String>,
    pub end_cursor: Option<String>,
}

/// A page: the edges of one window and its metadata.
#[derive(Debug)]
pub struct Connection<T> {
    pub edges: Vec<Edge<T>>,
    pub page_info: PageInfo,
}

/// A half-open range of positions.
pub struct Window {
    pub start: nat,
    pub end: nat,
}

/// The characters of an optional string.
pub open spec fn text_of(s: Option<String>) -> Option<Seq<char>> {
    match s {
        Some(t) => Some(t@),
        None => None,
    }
}

/// Whether the two counts can be served: not both given, none negative.
pub open spec fn counts_valid(first: Option<i32>, last: Option<i32>) -> bool {
    &&& !(first is Some && last is Some)
    &&& (first is Some ==> first->0 >= 0)
    &&& (last is Some ==> last->0 >= 0)
}

/// Whether an optional cursor, if given, names a position among `n` elements.
pub open spec fn cursor_valid(cursor: Option<Seq<char>>, n: nat) -> bool {
    cursor is Some ==> cursor_in(cursor->0, n) is Some
}

/// The window that valid arguments select among `n` elements.
///
/// `after` drops everything up to and including its position, `before`
/// everything from its position on. Of what remains, `first` keeps the head,
/// `last` the tail, and with neither the head up to `limit` is kept.
pub open spec fn window_of(
    n: nat,
    after: Option<nat>,
    before: Option<nat>,
    first: Option<nat>,
    last: Option<nat>,
    limit: nat,
) -> Window {
    let lo = match after {
        Some(a) => a + 1,
        None => 0,
    };
    let hi_given = match before {
        Some(b) => b,
        None => n,
    };
    let hi = if hi_given < lo {
        lo
    } else {
        hi_given
    };
    match (first, last) {
        (Some(f), _) => Window { start: lo, end: if lo + f < hi { lo + f } else { hi } },
        (None, Some(l)) => Window { start: if lo + l < hi { (hi - l) as nat } else { lo }, end: hi },
        (None, None) => Window { start: lo, end: if lo + limit < hi { lo + limit } else { hi } },
    }
}

/// The position behind an optional cursor that is known to be valid.
pub open spec fn bound_of(cursor: Option<Seq<char>>, n: nat) -> Option<nat> {
    match cursor {
        Some(c) => cursor_in(c, n),
        None => None,
    }
}

/// A count as a natural number.
pub open spec fn count_of(c: Option<i32>) -> Option<nat> {
    match c {
        Some(v) => Some(v as nat),
        None => None,
    }
}

/// What a request over `n` elements comes to: the window to return, or the
/// error. Bad counts are reported before bad cursors.
pub open spec fn page_outcome(params: Params, n: nat, limit: nat) -> Result<Window, PageError> {
    if !counts_valid(params.first, params.last) {
        Err(PageError::InvalidPaginationArgs)
    } else if !cursor_valid(text_of(params.after), n) || !cursor_valid(text_of(params.before), n) {
        Err(PageError::CursorDecodeError)
    } else {
        Ok(
            window_of(
                n,
                bound_of(text_of(params.after), n),
                bound_of(text_of(params.before), n),
                count_of(params.first),
                count_of(params.last),
                limit,
            ),
        )
    }
}

/// Whether `c` is the page of `items` over the window `w`: its edges are the
/// elements of the window in order, each with the cursor of its position, and
/// the metadata says what lies before and after.
pub open spec fn is_page<T>(c: Connection<T>, items: Seq<T>, w: Window) -> bool {
    &&& w.start <= w.end <= items.len()
    &&& c.edges@.len() == w.end - w.start
    &&& forall|i: int|
        0 <= i < c.edges@.len() ==> (#[trigger] c.edges@[i]).node == items[w.start + i]
            && c.edges@[i].cursor@ == cursor_text((w.start + i) as nat)
    &&& c.page_info.has_previous_page == (w.start > 0)
    &&& c.page_info.has_next_page == (w.end < items.len())
    &&& text_of(c.page_info.start_cursor) == if w.start < w.end {
        Some(cursor_text(w.start))
    } else {
        None
    }
    &&& text_of(c.page_info.end_cursor) == if w.start < w.end {
        Some(cursor_text((w.end - 1) as nat))
    } else {
        None
    }
}

/// Every window that valid arguments select lies within the sequence and
/// within what the cursors leave; it holds no more than the count that bounds
/// it, starts right behind `after` when read from the head, and ends right
/// before `before` when read from the tail.
pub proof fn lemma_window_bounded(
    n: nat,
    after: Option<nat>,
    before: Option<nat>,
    first: Option<nat>,
    last: Option<nat>,
    limit: nat,
)
    requires
        after is Some ==> after->0 < n,
        before is Some ==> before->0 < n,
    ensures
        ({
            let w = window_of(n, after, before, first, last, limit);
            &&& w.start <= w.end <= n
            &&& (first is Some ==> w.end - w.start <= first->0)
            &&& (first is None && last is Some ==> w.end - w.start <= last->0)
            &&& (first is None && last is None ==> w.end - w.start <= limit)
            &&& (after is Some ==> w.start > after->0)
            &&& (before is Some ==> w.end <= before->0 || w.start == w.end)
            &&& (after is Some && (first is Some || last is None) ==> w.start == after->0 + 1)
            &&& (after is None && (first is Some || last is None) ==> w.start == 0)
            &&& (before is None && first is None && last is Some ==> w.end == n)
        }),
{
}

/// Paging forward misses nothing and repeats nothing: the page asked for
/// after the last cursor of a page of `first` elements starts where that page
/// ended.
pub proof fn lemma_next_page_follows(n: nat, after: Option<nat>, first: nat, limit: nat)
    requires
        after is Some ==> after->0 < n,
        first > 0,
    ensures
        ({
            let w = window_of(n, after, None, Some(first), None, limit);
            w.start < w.end ==> window_of(
                n,
                Some((w.end - 1) as nat),
                None,
                Some(first),
                None,
                limit,
            ).start == w.end
        }),
{
}

/// Paging backward misses nothing and repeats nothing: the page asked for
/// before the first cursor of a page of `last` elements ends where that page
/// started.
pub proof fn lemma_previous_page_precedes(n: nat, before: Option<nat>, last: nat, limit: nat)
    requires
        before is Some ==> before->0 < n,
        last > 0,
    ensures
        ({
            let w = window_of(n, None, before, None, Some(last), limit);
            w.start < w.end ==> window_of(n, None, Some(w.start), None, Some(last), limit).end
                == w.start
        }),
{
}

impl Params {
    /// The arguments as given.
    pub fn new(
        after: Option<String>,
        before: Option<String>,
        first: Option<i32>,
        last: Option<i32>,
    ) -> (p: Params)
        ensures
            p.after == after,
            p.before == before,
            p.first == first,
            p.last == last,
    {
        Params { after, before, first, last }
    }
}

/// The elements of `v` in reverse order.
fn reversed<T>(v: Vec<T>) -> (r: Vec<T>)
    ensures
        r@ == v@.reverse(),
{
    let ghost orig = v@;
    let mut v = v;
    let mut r: Vec<T> = Vec::new();
    while v.len() > 0
        invariant
            v@.len() + r@.len() == orig.len(),
            v@ == orig.subrange(0, v@.len() as int),
            forall|i: int| 0 <= i < r@.len() ==> r@[i] == orig[orig.len() - 1 - i],
        decreases v@.len(),
    {
        let x = v.pop();
        match x {
            Some(x) => r.push(x),
            None => {},
        }
    }
    assert(r@ =~= orig.reverse());
    r
}

/// The position that an optional cursor names, or the error if it is given
/// and names none.
fn bound(cursor: &Option<String>, n: usize) -> (r: Result<Option<usize>, PageError>)
    ensures
        cursor_valid(text_of(*cursor), n as nat) ==> r is Ok && (match r->Ok_0 {
            Some(p) => bound_of(text_of(*cursor), n as nat) == Some(p as nat),
            None => bound_of(text_of(*cursor), n as nat) is None && *cursor is None,
        }),
        !cursor_valid(text_of(*cursor), n as nat) ==> r == Err::<Option<usize>, PageError>(
            PageError::CursorDecodeError,
        ),
{
    match cursor {
        Some(c) => match decode_within(c.as_str(), n) {
            Ok(p) => Ok(Some(p)),
            Err(_) => Err(PageError::CursorDecodeError),
        },
        None => Ok(None),
    }
}

/// The window that `params` select among `n` elements, or the error.
pub fn plan(params: &Params, n: usize, default_limit: usize) -> (r: Result<(usize, usize), PageError>)
    ensures
        match page_outcome(*params, n as nat, default_limit as nat) {
            Ok(w) => r == Ok::<(usize, usize), PageError>((w.start as usize, w.end as usize))
                && w.start <= w.end <= n,
            Err(e) => r == Err::<(usize, usize), PageError>(e),
        },
{
    if params.first.is_some() && params.last.is_some() {
        return Err(PageError::InvalidPaginationArgs);
    }
    match params.first {
        Some(f) => if f < 0 {
            return Err(PageError::InvalidPaginationArgs);
        },
        None => {},
    }
    match params.last {
        Some(l) => if l < 0 {
            return Err(PageError::InvalidPaginationArgs);
        },
        None => {},
    }
    let after = match bound(&params.after, n) {
        Ok(a) => a,
        Err(e) => {
            return Err(e);
        },
    };
    let before = match bound(&params.before, n) {
        Ok(b) => b,
        Err(e) => {
            return Err(e);
        },
    };
    let lo: usize = match after {
        Some(a) => a + 1,
        None => 0,
    };
    let hi_given: usize = match before {
        Some(b) => b,
        None => n,
    };
    let hi: usize = if hi_given < lo {
        lo
    } else {
        hi_given
    };
    let room: usize = hi - lo;
    match (params.first, params.last) {
        (Some(f), _) => {
            let f: usize = f as usize;
            Ok((lo, if f < room { lo + f } else { hi }))
        },
        (None, Some(l)) => {
            let l: usize = l as usize;
            Ok((if l < room { hi - l } else { lo }, hi))
        },
        (None, None) => Ok((lo, if default_limit < room { lo + default_limit } else { hi })),
    }
}

/// The page of `items` over the positions from `start` up to `end`.
fn page<T>(items: Vec<T>, start: usize, end: usize) -> (c: Connection<T>)
    requires
        start <= end <= items@.len(),
    ensures
        is_page(c, items@, Window { start: start as nat, end: end as nat }),
{
    let n: usize = items.len();
    let mut rest = items;
    rest.truncate(end);
    let tail = rest.split_off(start);
    assert(tail@ =~= items@.subrange(start as int, end as int));
    let mut stack = reversed(tail);
    let mut edges: Vec<Edge<T>> = Vec::new();
    let mut at: usize = start;
    while at < end
        invariant
            start <= at <= end <= items@.len(),
            stack@.len() == end - at,
            edges@.len() == at - start,
            forall|j: int| 0 <= j < stack@.len() ==> stack@[j] == items@[end - 1 - j],
            forall|i: int|
                0 <= i < edges@.len() ==> (#[trigger] edges@[i]).node == items@[start + i]
                    && edges@[i].cursor@ == cursor_text((start + i) as nat),
        decreases end - at,
    {
        let node = stack.pop();
        match node {
            Some(node) => {
                let cursor = encode(at);
                edges.push(Edge { node, cursor });
            },
            None => {},
        }
        at = at + 1;
    }
    let start_cursor = if start < end {
        Some(encode(start))
    } else {
        None
    };
    let end_cursor = if start < end {
        Some(encode(end - 1))
    } else {
        None
    };
    let page_info = PageInfo {
        has_previous_page: start > 0,
        has_next_page: end < n,
        start_cursor,
        end_cursor,
    };
    Connection { edges, page_info }
}

/// Builds the page of `items` that `params` ask for, with `default_limit`
/// elements at most when neither `first` nor `last` is given.
///
/// The outcome is `page_outcome`: either its error, with no partial result,
/// or the page over exactly its window.
pub fn query<T>(items: Vec<T>, params: Params, default_limit: usize) -> (r: Result<
    Connection<T>,
    PageError,
>)
    ensures
        match page_outcome(params, items@.len(), default_limit as nat) {
            Ok(w) => r is Ok && is_page(r->Ok_0, items@, w),
            Err(e) => r is Err && r->Err_0 == e,
        },
{
    match plan(&params, items.len(), default_limit) {
        Ok((start, end)) => Ok(page(items, start, end)),
        Err(e) => Err(e),
    }
}

/// The connection builder of one field: the page size it applies where a
/// request names no count.
#[derive(Clone, Copy, Debug)]
pub struct ConnectionBuilder {
    pub default_limit: usize,
}

impl ConnectionBuilder {
    /// A builder that bounds open requests to `default_limit` elements.
    pub fn new(default_limit: usize) -> (b: Self)
        ensures
            b.default_limit == default_limit,
    {
        ConnectionBuilder { default_limit }
    }

    /// The page of `items` that `params` ask for.
    pub fn build<T>(&self, items: Vec<T>, params: Params) -> (r: Result<Connection<T>, PageError>)
        ensures
            match page_outcome(params, items@.len(), self.default_limit as nat) {
                Ok(w) => r is Ok && is_page(r->Ok_0, items@, w),
                Err(e) => r is Err && r->Err_0 == e,
            },
    {
        query(items, params, self.default_limit)
    }
}

} // verus!
