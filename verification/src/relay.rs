//! Cursor pagination: the window a caller asks for, what is asked of the
//! backing fetch, and the connection made of what the fetch returns.
//!
//! A cursor names a position in the stable total order of a collection. It is
//! opaque here: the engine hands cursors on and never reads one as an offset.

use vstd::prelude::*;
use crate::error::CoreError;

verus! {

pub const NEGATIVE_FIRST: &'static str = "The \"first\" parameter must be a non-negative number";

pub const NEGATIVE_LAST: &'static str = "The \"last\" parameter must be a non-negative number";

/// The window of a list that a caller asks for.
#[derive(Debug)]
pub struct Window {
    pub after: Option<String>,
    pub before: Option<String>,
    pub first: Option<i32>,
    pub last: Option<i32>,
}

/// How many items a window may hold, counted from its start and from its end.
#[derive(Clone, Copy, Debug, PartialEq, Eq, Structural)]
pub struct Limits {
    pub first: Option<u32>,
    pub last: Option<u32>,
}

#[derive(Debug)]
pub struct Edge<T> {
    pub node: T,
    pub cursor: String,
}

#[derive(Debug)]
pub struct PageInfo {
    pub has_previous_page: bool,
    pub has_next_page: bool,
    pub start_cursor: Option<String>,
    pub end_cursor: Option<String>,
}

#[derive(Debug)]
pub struct Connection<T> {
    pub edges: Vec<Edge<T>>,
    pub page_info: PageInfo,
}

/// The text of an optional cursor.
pub open spec fn text(cursor: Option<String>) -> Option<Seq<char>> {
    match cursor {
        Some(c) => Some(c@),
        None => None,
    }
}

/// A count as a number, where there is one.
pub open spec fn count(limit: Option<u32>) -> Option<int> {
    match limit {
        Some(n) => Some(n as int),
        None => None,
    }
}

/// The cursors of a list of edges, in the edges' order.
pub open spec fn cursors_of<T>(edges: Seq<Edge<T>>) -> Seq<Seq<char>> {
    edges.map_values(|e: Edge<T>| e.cursor@)
}

/// Whether no cursor stands for two positions.
pub open spec fn distinct(cursors: Seq<Seq<char>>) -> bool {
    forall|i: int, j: int| 0 <= i < j < cursors.len() ==> cursors[i] != cursors[j]
}

/// The first position that `cursor` names in `cursors`, if it names one.
pub open spec fn position(cursors: Seq<Seq<char>>, cursor: Seq<char>) -> Option<int>
    decreases cursors.len(),
{
    if cursors.len() == 0 {
        None
    } else {
        match position(cursors.drop_last(), cursor) {
            Some(i) => Some(i),
            None => if cursors.last() == cursor {
                Some(cursors.len() - 1)
            } else {
                None
            },
        }
    }
}

/// A stretch of a collection: the positions from `lo` up to, not including, `hi`.
pub struct Span {
    pub lo: int,
    pub hi: int,
}

pub open spec fn min(a: int, b: int) -> int {
    if a <= b {
        a
    } else {
        b
    }
}

pub open spec fn max(a: int, b: int) -> int {
    if a >= b {
        a
    } else {
        b
    }
}

/// What a backing fetch over the ordered collection `cursors` returns: the
/// items behind `after` and in front of `before`, of these the first `first`,
/// and of those the last `last`. `None` where a cursor names no position.
pub open spec fn fetched(
    cursors: Seq<Seq<char>>,
    after: Option<Seq<char>>,
    before: Option<Seq<char>>,
    first: Option<int>,
    last: Option<int>,
) -> Option<Span> {
    let start = match after {
        None => Some(0int),
        Some(c) => match position(cursors, c) {
            Some(i) => Some(i + 1),
            None => None,
        },
    };
    let end = match before {
        None => Some(cursors.len() as int),
        Some(c) => position(cursors, c),
    };
    match (start, end) {
        (Some(lo), Some(end)) => {
            let hi = match first {
                Some(n) => min(max(lo, end), lo + n),
                None => max(lo, end),
            };
            let lo = match last {
                Some(m) => max(lo, hi - m),
                None => lo,
            };
            Some(Span { lo, hi })
        },
        _ => None,
    }
}

/// What the engine keeps of `len` fetched rows, and what it reports.
pub struct Kept {
    pub lo: int,
    pub hi: int,
    pub has_previous_page: bool,
    pub has_next_page: bool,
}

/// Of `len` rows that were fetched with one row more than each limit, the
/// engine keeps the first `first`, and of those the last `last`. A next page
/// is reported where the fetch found a row past the first `first`, a previous
/// page where it found one in front of the last `last`.
pub open spec fn kept(len: int, first: Option<int>, last: Option<int>) -> Kept {
    let hi = match first {
        Some(n) => min(len, n),
        None => len,
    };
    let lo = match last {
        Some(m) => max(0, hi - m),
        None => 0,
    };
    Kept {
        lo,
        hi,
        has_previous_page: last matches Some(m) && hi > m,
        has_next_page: first matches Some(n) && len > n,
    }
}

/// One more than a limit, where there is one.
pub open spec fn one_more(limit: Option<int>) -> Option<int> {
    match limit {
        Some(n) => Some(n + 1),
        None => None,
    }
}

/// The page that a window shows of the collection `cursors`: the stretch of
/// positions and the two flags. `None` where a cursor names no position.
pub open spec fn page(
    cursors: Seq<Seq<char>>,
    after: Option<Seq<char>>,
    before: Option<Seq<char>>,
    first: Option<int>,
    last: Option<int>,
) -> Option<Kept> {
    match fetched(cursors, after, before, one_more(first), one_more(last)) {
        None => None,
        Some(span) => {
            let k = kept(span.hi - span.lo, first, last);
            Some(Kept { lo: span.lo + k.lo, hi: span.lo + k.hi, ..k })
        },
    }
}

impl Window {
    /// The limits of the window, or the failure of a negative count.
    pub fn limits(&self) -> (r: Result<Limits, CoreError>)
        ensures
            match r {
                Ok(limits) => {
                    &&& limits.can_grow()
                    &&& count(limits.first) == match self.first {
                        Some(n) => Some(n as int),
                        None => None,
                    }
                    &&& count(limits.last) == match self.last {
                        Some(n) => Some(n as int),
                        None => None,
                    }
                },
                Err(e) => e matches CoreError::Other(m) && (if self.first matches Some(n) && n < 0 {
                    m@ == NEGATIVE_FIRST@
                } else {
                    self.last matches Some(n) && n < 0 && m@ == NEGATIVE_LAST@
                }),
            },
    {
        let first = match self.first {
            Some(n) => if n < 0 {
                return Err(CoreError::Other(NEGATIVE_FIRST.to_owned()));
            } else {
                Some(n as u32)
            },
            None => None,
        };
        let last = match self.last {
            Some(n) => if n < 0 {
                return Err(CoreError::Other(NEGATIVE_LAST.to_owned()));
            } else {
                Some(n as u32)
            },
            None => None,
        };
        Ok(Limits { first, last })
    }
}

impl Limits {
    /// Whether each limit is small enough to ask for one row more.
    pub open spec fn can_grow(self) -> bool {
        &&& self.first matches Some(n) ==> n < u32::MAX
        &&& self.last matches Some(n) ==> n < u32::MAX
    }

    /// What to ask of the backing fetch: one row more than each limit, so
    /// that the rows returned tell whether the list goes on past the window.
    pub fn with_extra_row(&self) -> (ask: Limits)
        requires
            self.can_grow(),
        ensures
            count(ask.first) == one_more(count(self.first)),
            count(ask.last) == one_more(count(self.last)),
    {
        Limits {
            first: match self.first {
                Some(n) => Some(n + 1),
                None => None,
            },
            last: match self.last {
                Some(n) => Some(n + 1),
                None => None,
            },
        }
    }
}

/// What `position` finds: the first position that holds the cursor, or that
/// no position holds it.
pub proof fn lemma_position(cursors: Seq<Seq<char>>, cursor: Seq<char>)
    ensures
        match position(cursors, cursor) {
            Some(i) => 0 <= i < cursors.len() && cursors[i] == cursor && forall|j: int|
                0 <= j < i ==> cursors[j] != cursor,
            None => forall|j: int| 0 <= j < cursors.len() ==> cursors[j] != cursor,
        },
    decreases cursors.len(),
{
    if cursors.len() > 0 {
        let front = cursors.drop_last();
        lemma_position(front, cursor);
        assert(forall|j: int| 0 <= j < front.len() ==> front[j] == cursors[j]);
    }
}

/// The first position of `cursor` among the cursors of `edges`.
pub fn locate<T>(edges: &Vec<Edge<T>>, cursor: &String) -> (r: Option<usize>)
    ensures
        match r {
            Some(i) => i < edges@.len() && position(cursors_of(edges@), cursor@) == Some(i as int),
            None => position(cursors_of(edges@), cursor@) is None,
        },
{
    let ghost cursors = cursors_of(edges@);
    let mut i: usize = 0;
    while i < edges.len()
        invariant
            i <= edges.len(),
            cursors == cursors_of(edges@),
            forall|j: int| 0 <= j < i ==> cursors[j] != cursor@,
        decreases edges.len() - i,
    {
        if edges[i].cursor == *cursor {
            proof {
                assert(cursors[i as int] == cursor@);
                lemma_position(cursors, cursor@);
            }
            return Some(i);
        }
        assert(cursors[i as int] != cursor@);
        i += 1;
    }
    proof {
        lemma_position(cursors, cursor@);
    }
    None
}

/// The backing fetch over a collection held in memory: the stretch of
/// `edges` that `fetched` describes. A cursor that names no position is a
/// client's error, not an empty result.
pub fn fetch_span<T>(
    edges: &Vec<Edge<T>>,
    after: &Option<String>,
    before: &Option<String>,
    ask: &Limits,
) -> (r: Result<(usize, usize), CoreError>)
    ensures
        match fetched(cursors_of(edges@), text(*after), text(*before), count(ask.first), count(ask.last)) {
            Some(span) => r == Ok::<(usize, usize), CoreError>((span.lo as usize, span.hi as usize))
                && 0 <= span.lo <= span.hi <= edges@.len(),
            None => r == Err::<(usize, usize), CoreError>(CoreError::InvalidID),
        },
{
    proof {
        if let Some(c) = after {
            lemma_position(cursors_of(edges@), c@);
        }
        if let Some(c) = before {
            lemma_position(cursors_of(edges@), c@);
        }
    }
    let total = edges.len();
    let start = match after {
        None => 0,
        Some(c) => match locate(edges, c) {
            Some(i) => i + 1,
            None => {
                return Err(CoreError::InvalidID);
            },
        },
    };
    let end = match before {
        None => total,
        Some(c) => match locate(edges, c) {
            Some(i) => i,
            None => {
                return Err(CoreError::InvalidID);
            },
        },
    };
    let end = if end < start {
        start
    } else {
        end
    };
    let hi = match ask.first {
        Some(n) => if (n as usize) < end - start {
            start + n as usize
        } else {
            end
        },
        None => end,
    };
    let lo = match ask.last {
        Some(m) => if (m as usize) < hi - start {
            hi - m as usize
        } else {
            start
        },
        None => start,
    };
    Ok((lo, hi))
}

impl<T> Connection<T> {
    /// The connection made of the rows that the backing fetch returned where
    /// it was asked for one row more than each of `limits`: the rows that
    /// `kept` describes, each with its cursor, and the two flags. The start
    /// and end cursors are those of the first and the last edge.
    pub fn build(rows: Vec<Edge<T>>, limits: &Limits) -> (out: Connection<T>)
        ensures
            ({
                let k = kept(rows@.len() as int, count(limits.first), count(limits.last));
                &&& out.edges@ == rows@.subrange(k.lo, k.hi)
                &&& out.page_info.has_previous_page == k.has_previous_page
                &&& out.page_info.has_next_page == k.has_next_page
            }),
            out.edges@.len() == 0 ==> out.page_info.start_cursor is None
                && out.page_info.end_cursor is None,
            out.edges@.len() > 0 ==> text(out.page_info.start_cursor) == Some(
                out.edges@.first().cursor@,
            ) && text(out.page_info.end_cursor) == Some(out.edges@.last().cursor@),
    {
        let mut rows = rows;
        let ghost all = rows@;
        let len = rows.len();
        let mut has_next_page = false;
        if let Some(n) = limits.first {
            if (n as usize) < len {
                has_next_page = true;
                rows.truncate(n as usize);
            }
        }
        let hi = rows.len();
        let mut has_previous_page = false;
        let mut edges = rows;
        if let Some(m) = limits.last {
            if (m as usize) < hi {
                has_previous_page = true;
                let ghost cut = edges@;
                let tail = edges.split_off(hi - m as usize);
                edges = tail;
                assert(edges@ == all.subrange(hi - m, hi as int));
            }
        }
        assert(edges@ == all.subrange(
            kept(all.len() as int, count(limits.first), count(limits.last)).lo,
            kept(all.len() as int, count(limits.first), count(limits.last)).hi,
        ));
        let (start_cursor, end_cursor) = if edges.len() > 0 {
            (Some(edges[0].cursor.clone()), Some(edges[edges.len() - 1].cursor.clone()))
        } else {
            (None, None)
        };
        Connection {
            edges,
            page_info: PageInfo { has_previous_page, has_next_page, start_cursor, end_cursor },
        }
    }
}

/// Whether `out` is the connection that `window` shows of `collection`: the
/// edges of the page that `page` describes, in the collection's order, with
/// that page's flags and with the cursors of its first and last edge.
pub open spec fn answers<T>(collection: Seq<Edge<T>>, window: Window, out: Connection<T>) -> bool {
    &&& page(
        cursors_of(collection),
        text(window.after),
        text(window.before),
        signed(window.first),
        signed(window.last),
    ) matches Some(p)
    &&& 0 <= p.lo <= p.hi <= collection.len()
    &&& out.edges@ == collection.subrange(p.lo, p.hi)
    &&& out.page_info.has_previous_page == p.has_previous_page
    &&& out.page_info.has_next_page == p.has_next_page
    &&& text(out.page_info.start_cursor) == if p.lo < p.hi {
        Some(collection[p.lo].cursor@)
    } else {
        None
    }
    &&& text(out.page_info.end_cursor) == if p.lo < p.hi {
        Some(collection[p.hi - 1].cursor@)
    } else {
        None
    }
}

/// The engine over a collection held in memory, from the window to the
/// connection: the limits are read off the window, the fetch is asked for
/// one row more than each, and the connection is built of what it returns.
/// A negative count and a cursor that names no position are refused.
#[verifier::rlimit(40)]
pub fn query<T>(collection: Vec<Edge<T>>, window: &Window) -> (r: Result<Connection<T>, CoreError>)
    ensures
        match r {
            Ok(out) => {
                &&& window.first matches Some(n) ==> n >= 0
                &&& window.last matches Some(n) ==> n >= 0
                &&& answers(collection@, *window, out)
            },
            Err(e) => if window.first matches Some(n) && n < 0 {
                e matches CoreError::Other(m) && m@ == NEGATIVE_FIRST@
            } else if window.last matches Some(n) && n < 0 {
                e matches CoreError::Other(m) && m@ == NEGATIVE_LAST@
            } else {
                e == CoreError::InvalidID && page(
                    cursors_of(collection@),
                    text(window.after),
                    text(window.before),
                    signed(window.first),
                    signed(window.last),
                ) is None
            },
        },
{
    let limits = window.limits()?;
    let ask = limits.with_extra_row();
    let total = collection.len();
    let ghost cursors = cursors_of(collection@);
    let ghost found = fetched(
        cursors,
        text(window.after),
        text(window.before),
        one_more(signed(window.first)),
        one_more(signed(window.last)),
    );
    assert(count(limits.first) == signed(window.first));
    assert(count(limits.last) == signed(window.last));
    let (lo, hi) = match fetch_span(&collection, &window.after, &window.before, &ask) {
        Ok(span) => span,
        Err(e) => {
            assert(found is None);
            return Err(e);
        },
    };
    assert(found matches Some(span) && span.lo == lo && span.hi == hi && hi <= total);
    let mut rows = collection;
    rows.truncate(hi);
    let rows = rows.split_off(lo);
    assert(rows@ == collection@.subrange(lo as int, hi as int));
    let out = Connection::build(rows, &limits);
    proof {
        let k = kept(hi - lo, signed(window.first), signed(window.last));
        assert(0 <= k.lo <= k.hi <= hi - lo);
        assert(out.edges@ =~= collection@.subrange(lo + k.lo, lo + k.hi));
        if k.lo < k.hi {
            assert(out.edges@.first() == collection@[lo + k.lo]);
            assert(out.edges@.last() == collection@[lo + k.hi - 1]);
        }
        assert(page(
            cursors,
            text(window.after),
            text(window.before),
            signed(window.first),
            signed(window.last),
        ) == Some(Kept { lo: lo + k.lo, hi: lo + k.hi, ..k }));
    }
    Ok(out)
}

/// A count as the caller wrote it, where there is one.
pub open spec fn signed(limit: Option<i32>) -> Option<int> {
    match limit {
        Some(n) => Some(n as int),
        None => None,
    }
}

/// The cursor to page forward from so that the next page starts at position
/// `at`: none at the start of the collection, else the cursor in front of `at`.
pub open spec fn after_of(cursors: Seq<Seq<char>>, at: int) -> Option<Seq<char>> {
    if at <= 0 {
        None
    } else {
        Some(cursors[at - 1])
    }
}

/// The cursor to page backward from so that the page ends in front of
/// position `at`: none at the end of the collection, else the cursor at `at`.
pub open spec fn before_of(cursors: Seq<Seq<char>>, at: int) -> Option<Seq<char>> {
    if at >= cursors.len() {
        None
    } else {
        Some(cursors[at])
    }
}

/// In a collection of distinct cursors each cursor names its own position.
pub proof fn lemma_position_of_own_cursor(cursors: Seq<Seq<char>>, at: int)
    requires
        distinct(cursors),
        0 <= at < cursors.len(),
    ensures
        position(cursors, cursors[at]) == Some(at),
{
    lemma_position(cursors, cursors[at]);
}

/// Law: a page never holds more items than the larger of its two limits, it
/// lies within the collection, and the flag of a direction is set only where
/// the collection goes on in that direction.
pub proof fn lemma_page_within_limits(
    cursors: Seq<Seq<char>>,
    after: Option<Seq<char>>,
    before: Option<Seq<char>>,
    first: Option<int>,
    last: Option<int>,
)
    requires
        first matches Some(n) ==> n >= 0,
        last matches Some(n) ==> n >= 0,
    ensures
        page(cursors, after, before, first, last) matches Some(p) ==> {
            &&& 0 <= p.lo <= p.hi <= cursors.len()
            &&& first matches Some(n) ==> p.hi - p.lo <= n
            &&& last matches Some(n) ==> p.hi - p.lo <= n
            &&& p.has_next_page ==> p.hi < cursors.len()
            &&& p.has_previous_page ==> p.lo > 0
        },
{
    if let Some(c) = after {
        lemma_position(cursors, c);
    }
    if let Some(c) = before {
        lemma_position(cursors, c);
    }
}

/// The page of `k` items that starts at position `at`.
pub proof fn lemma_forward_page(cursors: Seq<Seq<char>>, k: int, at: int)
    requires
        distinct(cursors),
        0 <= at <= cursors.len(),
        k >= 0,
    ensures
        page(cursors, after_of(cursors, at), None, Some(k), None) == Some(
            Kept {
                lo: at,
                hi: min(cursors.len() as int, at + k),
                has_previous_page: false,
                has_next_page: cursors.len() - at > k,
            },
        ),
{
    if at > 0 {
        lemma_position_of_own_cursor(cursors, at - 1);
    }
}

/// The page of `k` items that ends in front of position `at`.
pub proof fn lemma_backward_page(cursors: Seq<Seq<char>>, k: int, at: int)
    requires
        distinct(cursors),
        0 <= at <= cursors.len(),
        k >= 0,
    ensures
        page(cursors, None, before_of(cursors, at), None, Some(k)) == Some(
            Kept { lo: max(0, at - k), hi: at, has_previous_page: at > k, has_next_page: false },
        ),
{
    if at < cursors.len() {
        lemma_position_of_own_cursor(cursors, at);
    }
}

/// What a caller sees who pages forward by `k` from `after`, following the
/// end cursor of each page while a next page is reported, for at most `turns`
/// more pages: the pages' cursors, one page behind the other.
pub open spec fn forward_walk(
    cursors: Seq<Seq<char>>,
    k: int,
    after: Option<Seq<char>>,
    turns: nat,
) -> Seq<Seq<char>>
    decreases turns,
{
    match page(cursors, after, None, Some(k), None) {
        None => Seq::empty(),
        Some(p) => {
            let shown = cursors.subrange(p.lo, p.hi);
            if p.has_next_page && turns > 0 && shown.len() > 0 {
                shown + forward_walk(cursors, k, Some(shown.last()), (turns - 1) as nat)
            } else {
                shown
            }
        },
    }
}

/// What a caller sees who pages backward by `k` from `before`, following the
/// start cursor of each page while a previous page is reported, for at most
/// `turns` more pages: the pages' cursors, each page in front of the one
/// that was seen before it.
pub open spec fn backward_walk(
    cursors: Seq<Seq<char>>,
    k: int,
    before: Option<Seq<char>>,
    turns: nat,
) -> Seq<Seq<char>>
    decreases turns,
{
    match page(cursors, None, before, None, Some(k)) {
        None => Seq::empty(),
        Some(p) => {
            let shown = cursors.subrange(p.lo, p.hi);
            if p.has_previous_page && turns > 0 && shown.len() > 0 {
                backward_walk(cursors, k, Some(shown.first()), (turns - 1) as nat) + shown
            } else {
                shown
            }
        },
    }
}

proof fn lemma_forward_walk_from(cursors: Seq<Seq<char>>, k: int, at: int, turns: nat)
    requires
        distinct(cursors),
        0 <= at <= cursors.len(),
        k > 0,
        turns >= cursors.len() - at,
    ensures
        forward_walk(cursors, k, after_of(cursors, at), turns) == cursors.subrange(
            at,
            cursors.len() as int,
        ),
    decreases turns,
{
    lemma_forward_page(cursors, k, at);
    let n = cursors.len() as int;
    if n - at > k {
        let shown = cursors.subrange(at, at + k);
        assert(shown.last() == cursors[at + k - 1]);
        assert(after_of(cursors, at + k) == Some(shown.last()));
        lemma_forward_walk_from(cursors, k, at + k, (turns - 1) as nat);
        assert(shown + cursors.subrange(at + k, n) =~= cursors.subrange(at, n));
    }
}

proof fn lemma_backward_walk_from(cursors: Seq<Seq<char>>, k: int, at: int, turns: nat)
    requires
        distinct(cursors),
        0 <= at <= cursors.len(),
        k > 0,
        turns >= at,
    ensures
        backward_walk(cursors, k, before_of(cursors, at), turns) == cursors.subrange(0, at),
    decreases turns,
{
    lemma_backward_page(cursors, k, at);
    if at > k {
        let shown = cursors.subrange(at - k, at);
        assert(shown.first() == cursors[at - k]);
        assert(before_of(cursors, at - k) == Some(shown.first()));
        lemma_backward_walk_from(cursors, k, at - k, (turns - 1) as nat);
        assert(cursors.subrange(0, at - k) + shown =~= cursors.subrange(0, at));
    }
}

/// Law: the page that follows a page of `k` items starts where that page
/// ended. Where a page reports a next page it is not empty, and the page
/// asked for with its end cursor holds the next `k` items: nothing is shown
/// twice and nothing is left out.
pub proof fn lemma_next_page_follows(cursors: Seq<Seq<char>>, k: int, at: int)
    requires
        distinct(cursors),
        0 <= at <= cursors.len(),
        k > 0,
    ensures
        page(cursors, after_of(cursors, at), None, Some(k), None) matches Some(p) && (
        p.has_next_page ==> p.lo < p.hi && page(
            cursors,
            Some(cursors[p.hi - 1]),
            None,
            Some(k),
            None,
        ) == Some(
            Kept {
                lo: p.hi,
                hi: min(cursors.len() as int, p.hi + k),
                has_previous_page: false,
                has_next_page: cursors.len() - p.hi > k,
            },
        )) && (!p.has_next_page ==> p.hi == cursors.len()),
{
    lemma_forward_page(cursors, k, at);
    if cursors.len() - at > k {
        lemma_forward_page(cursors, k, at + k);
    }
}

/// Law: paging forward by `k` from the start, with each page's end cursor as
/// the next `after`, until no next page is reported, shows the whole
/// collection in its order: the pages put one behind the other are the
/// collection.
pub proof fn lemma_forward_paging_covers(cursors: Seq<Seq<char>>, k: int)
    requires
        distinct(cursors),
        k > 0,
    ensures
        forward_walk(cursors, k, None, cursors.len()) == cursors,
{
    lemma_forward_walk_from(cursors, k, 0, cursors.len());
    assert(cursors.subrange(0, cursors.len() as int) =~= cursors);
}

/// Law: paging backward by `k` from the end, with each page's start cursor as
/// the next `before`, until no previous page is reported, shows the same
/// collection: the pages put each in front of the one seen before it are the
/// collection, so read from the end they give its order reversed.
pub proof fn lemma_backward_paging_covers(cursors: Seq<Seq<char>>, k: int)
    requires
        distinct(cursors),
        k > 0,
    ensures
        backward_walk(cursors, k, None, cursors.len()) == cursors,
        backward_walk(cursors, k, None, cursors.len()).reverse() == forward_walk(
            cursors,
            k,
            None,
            cursors.len(),
        ).reverse(),
{
    lemma_backward_walk_from(cursors, k, cursors.len() as int, cursors.len());
    assert(cursors.subrange(0, cursors.len() as int) =~= cursors);
    lemma_forward_paging_covers(cursors, k);
}

/// Law: the same window on the same collection is answered with the same
/// edges, the same flags and the same cursors, however often it is asked.
pub proof fn lemma_same_query_same_answer<T>(
    collection: Seq<Edge<T>>,
    window: Window,
    one: Connection<T>,
    other: Connection<T>,
)
    requires
        answers(collection, window, one),
        answers(collection, window, other),
    ensures
        one.edges@ == other.edges@,
        cursors_of(one.edges@) == cursors_of(other.edges@),
        one.page_info.has_previous_page == other.page_info.has_previous_page,
        one.page_info.has_next_page == other.page_info.has_next_page,
        text(one.page_info.start_cursor) == text(other.page_info.start_cursor),
        text(one.page_info.end_cursor) == text(other.page_info.end_cursor),
{
}

} // verus!
