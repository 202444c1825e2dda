//! Paged response planning.
//!
//! An ordered collection of N renderable items is split into fixed-size
//! pages of 10. The first page is delivered by editing the deferred initial
//! response; every further page is an independent follow-up message, in
//! order. An empty collection yields a single "no results" response instead
//! of an empty page.

use vstd::prelude::*;

verus! {

/// Items per page.
pub const PAGE_SIZE: usize = 10;

/// How many responses a collection of `n` items produces.
pub open spec fn page_count_spec(n: nat) -> nat {
    if n == 0 {
        1
    } else {
        ((n - 1) / (PAGE_SIZE as int) + 1) as nat
    }
}

/// One page of output: its 1-based position, the total number of pages, and
/// the half-open range of item positions `[start, end)` it renders. Item
/// order within and across pages follows the collection's order.
#[derive(Clone, Copy, PartialEq, Eq, Structural, Debug)]
pub struct Page {
    pub index: usize,
    pub total: usize,
    pub start: usize,
    pub end: usize,
}

/// One network write of the paged response protocol: the "no results"
/// response, the initial (edited) response carrying page 1, or one ordered
/// follow-up message carrying a later page.
#[derive(Clone, Copy, PartialEq, Eq, Structural, Debug)]
pub enum Emission {
    NoResults,
    Initial(Page),
    FollowUp(Page),
}

/// The page at 0-based position `p` when `n` items are split into `total`
/// pages.
pub open spec fn page_at(n: nat, total: nat, p: int) -> Page {
    Page {
        index: (p + 1) as usize,
        total: total as usize,
        start: (PAGE_SIZE * p) as usize,
        end: (if PAGE_SIZE * p + PAGE_SIZE <= n {
            PAGE_SIZE * p + PAGE_SIZE
        } else {
            n as int
        }) as usize,
    }
}

/// Plans the full response sequence for `n` items: one "no results"
/// response when there is nothing to show, and otherwise exactly
/// `page_count_spec(n)` pages, page 1 as the initial response and each
/// later page as a follow-up, covering the items in order.
pub fn plan_pages(n: usize) -> (r: Vec<Emission>)
    ensures
        n == 0 ==> r@ =~= seq![Emission::NoResults],
        n > 0 ==> {
            &&& r@.len() == page_count_spec(n as nat)
            &&& r@[0] == Emission::Initial(page_at(n as nat, page_count_spec(n as nat), 0))
            &&& forall|p: int|
                1 <= p < r@.len() ==> r@[p] == Emission::FollowUp(
                    page_at(n as nat, page_count_spec(n as nat), p),
                )
        },
{
    let mut r: Vec<Emission> = Vec::new();
    if n == 0 {
        r.push(Emission::NoResults);
        return r;
    }
    let total = (n - 1) / PAGE_SIZE + 1;
    let mut p: usize = 0;
    while p < total
        invariant
            0 < n <= usize::MAX,
            total == page_count_spec(n as nat),
            p <= total,
            r@.len() == p,
            p > 0 ==> r@[0] == Emission::Initial(page_at(n as nat, total as nat, 0)),
            forall|q: int|
                1 <= q < p ==> r@[q] == Emission::FollowUp(page_at(n as nat, total as nat, q)),
        decreases total - p,
    {
        proof {
            assert(PAGE_SIZE * (p as int) <= PAGE_SIZE * (total as int - 1)) by (nonlinear_arith)
                requires
                    p as int <= total as int - 1,
            ;
            assert(PAGE_SIZE * (total as int - 1) <= n as int - 1) by (nonlinear_arith)
                requires
                    total as int == (n as int - 1) / (PAGE_SIZE as int) + 1,
                    n > 0,
            ;
        }
        let start = PAGE_SIZE * p;
        let end = if n - start > PAGE_SIZE {
            start + PAGE_SIZE
        } else {
            n
        };
        let page = Page { index: p + 1, total, start, end };
        if p == 0 {
            r.push(Emission::Initial(page));
        } else {
            r.push(Emission::FollowUp(page));
        }
        p = p + 1;
    }
    r
}

} // verus!
