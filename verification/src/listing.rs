//! The order in which messages are listed, and the arithmetic of pages.

use vstd::prelude::*;
use crate::models::{message_views, Message, MessageView};

verus! {

/// A listing is in order when no message stands after one that it may not
/// stand before: higher priority first, and among equal priorities the
/// newest first.
pub open spec fn in_order(list: Seq<MessageView>) -> bool {
    forall|i: int, j: int| 0 <= i < j < list.len() ==> (#[trigger] list[i]).listed_before(#[trigger] list[j])
}

/// Puts `m` into a listing that is in order, behind every message that may
/// stand before it, and returns the position it took.
pub fn insert_in_order(list: &mut Vec<Message>, m: Message) -> (at: usize)
    requires
        in_order(message_views(old(list)@)),
    ensures
        at <= old(list).len(),
        final(list)@ == old(list)@.insert(at as int, m),
        in_order(message_views(final(list)@)),
{
    let ghost before = message_views(list@);
    let mut at: usize = 0;
    while at < list.len() && list[at].listed_before(&m)
        invariant
            at <= list.len(),
            *list == *old(list),
            forall|k: int| 0 <= k < at ==> (#[trigger] list[k])@.listed_before(m@),
        decreases list.len() - at,
    {
        at += 1;
    }
    list.insert(at, m);
    proof {
        let after = message_views(list@);
        assert forall|i: int, j: int| 0 <= i < j < after.len() implies (#[trigger] after[i]).listed_before(
            #[trigger] after[j],
        ) by {
            if j < at {
                assert(after[i] == before[i] && after[j] == before[j]);
            } else if j == at {
                assert(after[i] == before[i] && after[j] == m@);
            } else if i < at {
                assert(after[i] == before[i] && after[j] == before[j - 1]);
            } else if i == at {
                assert(before[at as int].listed_before(before[j - 1]) || at as int == j - 1);
            } else {
                assert(after[i] == before[i - 1] && after[j] == before[j - 1]);
            }
        }
    }
    at
}

/// How many pages a listing of `total` items has when a page holds
/// `page_size` of them: `total / page_size`, rounded up.
pub open spec fn pages_needed(total: int, page_size: int) -> int {
    if total % page_size == 0 {
        total / page_size
    } else {
        total / page_size + 1
    }
}

/// Where page `page` (counted from 1) begins in a listing of `total` items:
/// behind the items of the pages before it, and at the end of the listing
/// when those pages already hold everything.
pub open spec fn page_start(total: int, page: int, page_size: int) -> int {
    if (page - 1) * page_size < total {
        (page - 1) * page_size
    } else {
        total
    }
}

/// Where page `page` ends: `page_size` items behind its start, or at the end
/// of the listing when fewer are left.
pub open spec fn page_end(total: int, page: int, page_size: int) -> int {
    if page_start(total, page, page_size) + page_size < total {
        page_start(total, page, page_size) + page_size
    } else {
        total
    }
}

/// The number of pages as it is reported: [`pages_needed`], held at
/// `u32::MAX` where it would be more.
pub open spec fn pages_reported(total: int, page_size: int) -> int {
    if pages_needed(total, page_size) > u32::MAX {
        u32::MAX as int
    } else {
        pages_needed(total, page_size)
    }
}

/// The number of pages of a listing, see [`pages_reported`].
pub fn total_pages(total: usize, page_size: u32) -> (pages: u32)
    requires
        page_size >= 1,
    ensures
        pages == pages_reported(total as int, page_size as int),
{
    let size: usize = page_size as usize;
    let full: usize = total / size;
    let rest: usize = total % size;
    if rest == 0 {
        if full > u32::MAX as usize {
            u32::MAX
        } else {
            full as u32
        }
    } else {
        assert(full < total) by (nonlinear_arith)
            requires
                full == total as int / size as int,
                rest == total as int % size as int,
                rest != 0,
                size >= 1,
        ;
        if full >= u32::MAX as usize {
            u32::MAX
        } else {
            (full + 1) as u32
        }
    }
}

/// The bounds of page `page` in a listing of `total` items, see
/// [`page_start`] and [`page_end`].
pub fn page_bounds(total: usize, page: u32, page_size: u32) -> (bounds: (usize, usize))
    requires
        page >= 1,
        page_size >= 1,
    ensures
        bounds.0 == page_start(total as int, page as int, page_size as int),
        bounds.1 == page_end(total as int, page as int, page_size as int),
        bounds.0 <= bounds.1 <= total,
        bounds.1 - bounds.0 <= page_size,
{
    let before: u64 = (page - 1) as u64;
    let size: u64 = page_size as u64;
    assert(before * size <= 0xFFFF_FFFF * 0xFFFF_FFFF) by (nonlinear_arith)
        requires
            0 <= before <= 0xFFFF_FFFF,
            0 <= size <= 0xFFFF_FFFF,
    ;
    let skipped: u64 = before * size;
    let start: usize = if skipped < total as u64 {
        skipped as usize
    } else {
        total
    };
    let end: usize = if total - start > page_size as usize {
        start + page_size as usize
    } else {
        total
    };
    (start, end)
}

} // verus!
