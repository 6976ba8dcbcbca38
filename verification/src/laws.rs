//! Laws of the board: what holds of its operations on every input, stated
//! over the models the operations are specified with.

use vstd::prelude::*;
use crate::listing::{page_end, page_start};
use crate::models::{
    message_views, CreateMessageView, Message, MessageView, PaginatedResponse, UpdateMessageView,
};
use crate::storage::{
    distinct_clients, knows_client, messages_by_id, present_at, present_clients, registered,
    ClientStatusView, DataStats, DataStoreView, PRESENCE_WINDOW_NANOS,
};
use crate::time::Timestamp;

verus! {

/// A message that was just created has not been updated since: its two
/// times are the same.
pub proof fn law_created_message_is_not_yet_updated(
    id: u128,
    now: Timestamp,
    payload: CreateMessageView,
)
    ensures
        MessageView::created(id, now, payload).updated_at == MessageView::created(
            id,
            now,
            payload,
        ).created_at,
        MessageView::created(id, now, payload).id == id,
{
}

/// An update made at a time after the message's last update moves the time
/// of its last update strictly forward. The update's time is the clock's:
/// where the clock has not moved since the last update, neither does this
/// time.
pub proof fn law_update_advances_updated_at(
    m: MessageView,
    update: UpdateMessageView,
    now: Timestamp,
)
    requires
        now.instant() > m.updated_at.instant(),
    ensures
        m.updated(update, now).updated_at.instant() > m.updated_at.instant(),
{
}

/// A message is never updated before it was created, as long as no update
/// is made at a time before its creation.
pub proof fn law_update_keeps_times_in_order(
    m: MessageView,
    update: UpdateMessageView,
    now: Timestamp,
)
    requires
        now.instant() >= m.created_at.instant(),
    ensures
        m.updated(update, now).updated_at.instant() >= m.updated(
            update,
            now,
        ).created_at.instant(),
{
}

/// An update leaves every field that it does not name as it was, and never
/// touches the identifier or the time of creation.
pub proof fn law_update_keeps_omitted_fields(
    m: MessageView,
    update: UpdateMessageView,
    now: Timestamp,
)
    ensures
        m.updated(update, now).id == m.id,
        m.updated(update, now).created_at == m.created_at,
        update.title is None ==> m.updated(update, now).title == m.title,
        update.content is None ==> m.updated(update, now).content == m.content,
        update.author is None ==> m.updated(update, now).author == m.author,
        update.priority is None ==> m.updated(update, now).priority == m.priority,
        update.expires_at is None ==> m.updated(update, now).expires_at == m.expires_at,
        update.enabled is None ==> m.updated(update, now).enabled == m.enabled,
{
}

/// An update sets every field that it names.
pub proof fn law_update_sets_named_fields(
    m: MessageView,
    update: UpdateMessageView,
    now: Timestamp,
)
    ensures
        update.title matches Some(t) ==> m.updated(update, now).title == t,
        update.content matches Some(c) ==> m.updated(update, now).content == c,
        update.author matches Some(a) ==> m.updated(update, now).author == a,
        update.priority matches Some(p) ==> m.updated(update, now).priority == p,
        update.expires_at matches Some(e) ==> m.updated(update, now).expires_at == Some(e),
        update.enabled matches Some(e) ==> m.updated(update, now).enabled == e,
        m.updated(update, now).updated_at == now,
{
}

/// A message whose expiry has come is in no listing of the active messages.
pub proof fn law_expired_message_is_not_listed(
    s: DataStoreView,
    id: u128,
    now: Timestamp,
    listing: Seq<MessageView>,
)
    requires
        s.messages.contains_key(id),
        s.messages[id].expires_at matches Some(e) && e.instant() <= now.instant(),
        s.active_listing(now, listing),
    ensures
        forall|i: int| 0 <= i < listing.len() ==> (#[trigger] listing[i]).id != id,
{
}

/// A message whose expiry has come is on no page of the active messages.
pub proof fn law_expired_message_is_on_no_page(
    s: DataStoreView,
    id: u128,
    now: Timestamp,
    page: u32,
    page_size: u32,
    r: PaginatedResponse<Message>,
)
    requires
        s.messages.contains_key(id),
        s.messages[id].expires_at matches Some(e) && e.instant() <= now.instant(),
        page >= 1,
        page_size >= 1,
        s.shows_page(now, page, page_size, r),
    ensures
        forall|i: int| 0 <= i < r.data.len() ==> (#[trigger] r.data[i]).id != id,
{
    let start = page_start(r.total as int, page as int, page_size as int);
    let end = page_end(r.total as int, page as int, page_size as int);
    let whole = choose|whole: Seq<MessageView>| #[trigger]
        s.active_listing(now, whole) && whole.len() == r.total && message_views(r.data@)
            == whole.subrange(start, end);
    law_expired_message_is_not_listed(s, id, now, whole);
    assert(0 <= start <= end <= whole.len()) by (nonlinear_arith)
        requires
            start == page_start(r.total as int, page as int, page_size as int),
            end == page_end(r.total as int, page as int, page_size as int),
            page >= 1,
            page_size >= 1,
            r.total == whole.len(),
    ;
    assert(whole.subrange(start, end).len() == end - start);
    assert forall|i: int| 0 <= i < r.data.len() implies (#[trigger] r.data[i]).id != id by {
        assert(whole.subrange(start, end)[i] == whole[start + i]);
    }
}

/// Whether the listing order tells any two active messages apart: no two of
/// them have both the same priority and the same instant of creation.
pub open spec fn order_is_strict(s: DataStoreView, now: Timestamp) -> bool {
    forall|x: u128, y: u128|
        #![trigger s.messages[x], s.messages[y]]
        s.active_ids(now).contains(x) && s.active_ids(now).contains(y) && x != y ==> !(
        s.messages[x].listed_before(s.messages[y]) && s.messages[y].listed_before(s.messages[x]))
}

/// Two listings of the active messages agree on their first `k` places, where
/// the order tells any two active messages apart.
proof fn lemma_listings_agree(
    s: DataStoreView,
    now: Timestamp,
    a: Seq<MessageView>,
    b: Seq<MessageView>,
    k: int,
)
    requires
        s.active_listing(now, a),
        s.active_listing(now, b),
        order_is_strict(s, now),
        0 <= k <= a.len(),
        a.len() == b.len(),
    ensures
        forall|i: int| 0 <= i < k ==> a[i] == b[i],
    decreases k,
{
    if k > 0 {
        lemma_listings_agree(s, now, a, b, k - 1);
        let at = k - 1;
        // Where each listing holds what the other has at this place. Neither
        // holds it further up, where the two agree and every message stands
        // once; and were it further down in both, each of the two messages
        // would be listed before the other.
        let in_b = choose|j: int| 0 <= j < b.len() && (#[trigger] b[j]).id == a[at].id;
        let in_a = choose|i: int| 0 <= i < a.len() && (#[trigger] a[i]).id == b[at].id;
        assert(b[in_b] == a[at] && a[in_a] == b[at]);
        assert(in_b >= at && in_a >= at);
        if in_b > at && in_a > at {
            assert(b[at].listed_before(a[at]) && a[at].listed_before(b[at]));
            assert(a[at].id != b[at].id);
        }
    }
}

/// The listing of the active messages is determined, where the order tells
/// any two of them apart: there is one listing and no other.
pub proof fn law_active_listing_is_determined(
    s: DataStoreView,
    now: Timestamp,
    a: Seq<MessageView>,
    b: Seq<MessageView>,
)
    requires
        s.active_listing(now, a),
        s.active_listing(now, b),
        order_is_strict(s, now),
    ensures
        a == b,
{
    s.lemma_listing_len(a, s.active_ids(now));
    s.lemma_listing_len(b, s.active_ids(now));
    lemma_listings_agree(s, now, a, b, a.len() as int);
}

/// A page of the active messages is determined as well, where the order
/// tells any two of them apart: two answers to one request, made of one
/// snapshot at one time, show the same messages and the same figures.
pub proof fn law_page_is_determined(
    s: DataStoreView,
    now: Timestamp,
    page: u32,
    page_size: u32,
    r1: PaginatedResponse<Message>,
    r2: PaginatedResponse<Message>,
)
    requires
        s.shows_page(now, page, page_size, r1),
        s.shows_page(now, page, page_size, r2),
        order_is_strict(s, now),
    ensures
        message_views(r1.data@) == message_views(r2.data@),
        r1.total == r2.total,
        r1.total_pages == r2.total_pages,
        r1.page == r2.page,
        r1.page_size == r2.page_size,
{
    let start = page_start(r1.total as int, page as int, page_size as int);
    let end = page_end(r1.total as int, page as int, page_size as int);
    let whole1 = choose|whole: Seq<MessageView>| #[trigger]
        s.active_listing(now, whole) && whole.len() == r1.total && message_views(r1.data@)
            == whole.subrange(start, end);
    let whole2 = choose|whole: Seq<MessageView>| #[trigger]
        s.active_listing(now, whole) && whole.len() == r2.total && message_views(r2.data@)
            == whole.subrange(start, end);
    law_active_listing_is_determined(s, now, whole1, whole2);
}

/// An expired message is still stored: every list of all messages holds it,
/// as it was stored.
pub proof fn law_expired_message_is_still_stored(
    s: DataStoreView,
    id: u128,
    now: Timestamp,
    all: Seq<MessageView>,
)
    requires
        s.messages.contains_key(id),
        !s.messages[id].is_active(now),
        s.lists(all, s.messages.dom()),
    ensures
        exists|i: int| 0 <= i < all.len() && #[trigger] all[i] == s.messages[id],
{
    let i = choose|i: int| 0 <= i < all.len() && (#[trigger] all[i]).id == id;
    assert(all[i] == s.messages[id]);
}

/// Once a message is removed, removing it again finds nothing: the snapshot
/// no longer holds its identifier, so a second removal changes nothing, the
/// time of the last change included.
pub proof fn law_removed_message_is_gone(s: DataStoreView, id: u128, now: Timestamp)
    requires
        s.wf(),
    ensures
        !s.without_message(id, now).messages.contains_key(id),
        s.without_message(id, now).wf(),
        !s.messages.contains_key(id) ==> s.without_message(id, now).messages == s.messages,
{
}

/// A client that was last seen the presence window ago, or longer, is not
/// present, whatever its online flag says.
pub proof fn law_stale_client_is_not_present(c: ClientStatusView, now: Timestamp)
    requires
        now.instant() - c.last_seen.instant() >= PRESENCE_WINDOW_NANOS,
    ensures
        !c.is_present(now),
{
}

/// A client that is not present at `now` is not among the present clients,
/// and is not counted in the statistics: these count fewer clients online
/// than there are clients.
pub proof fn law_absent_client_is_not_listed(
    clients: Seq<ClientStatusView>,
    at: int,
    now: Timestamp,
)
    requires
        distinct_clients(clients),
        0 <= at < clients.len(),
        !clients[at].is_present(now),
    ensures
        forall|j: int|
            0 <= j < present_clients(clients, now).len() ==> (#[trigger] present_clients(
                clients,
                now,
            )[j]).id != clients[at].id,
        present_clients(clients, now).len() < clients.len(),
{
    let present = present_clients(clients, now);
    broadcast use vstd::seq_lib::group_filter_ensures;
    assert forall|j: int| 0 <= j < present.len() implies (#[trigger] present[j]).id
        != clients[at].id by {
        clients.lemma_filter_contains_rev(present_at(now), present[j]);
        let k = choose|k: int| 0 <= k < clients.len() && clients[k] == present[j];
        assert(clients[k].is_present(now) && k != at);
    }
    lemma_present_are_fewer(clients, at, now);
}

/// A client that is present at `now` is among the present clients.
pub proof fn law_present_client_is_listed(
    clients: Seq<ClientStatusView>,
    at: int,
    now: Timestamp,
)
    requires
        0 <= at < clients.len(),
        clients[at].is_present(now),
    ensures
        present_clients(clients, now).contains(clients[at]),
{
    clients.lemma_filter_contains(present_at(now), at);
}

/// Where one of the clients is not present, fewer are present than there are.
proof fn lemma_present_are_fewer(clients: Seq<ClientStatusView>, at: int, now: Timestamp)
    requires
        0 <= at < clients.len(),
        !clients[at].is_present(now),
    ensures
        present_clients(clients, now).len() < clients.len(),
    decreases clients.len(),
{
    reveal(Seq::filter);
    let rest = clients.drop_last();
    rest.lemma_filter_len(present_at(now));
    if at < rest.len() {
        lemma_present_are_fewer(rest, at, now);
    }
}

/// The statistics of a snapshot never count more than it holds.
pub proof fn law_stats_count_within_totals(s: DataStoreView, now: Timestamp, stats: DataStats)
    requires
        s.wf(),
        s.has_stats(now, stats),
    ensures
        stats.active_messages <= stats.total_messages,
        stats.online_clients <= stats.total_clients,
{
    vstd::set_lib::lemma_len_subset(s.active_ids(now), s.messages.dom());
    s.clients.lemma_filter_len(present_at(now));
}

/// What `messages_by_id` makes of a list in which no identifier occurs
/// twice: every message of the list under its identifier, and nothing else.
proof fn lemma_messages_by_id(list: Seq<MessageView>)
    requires
        forall|i: int, j: int|
            0 <= i < j < list.len() ==> (#[trigger] list[i]).id != (#[trigger] list[j]).id,
    ensures
        forall|i: int|
            0 <= i < list.len() ==> messages_by_id(list).contains_key((#[trigger] list[i]).id)
                && messages_by_id(list)[list[i].id] == list[i],
        forall|id: u128| #[trigger]
            messages_by_id(list).contains_key(id) ==> exists|i: int|
                0 <= i < list.len() && (#[trigger] list[i]).id == id,
    decreases list.len(),
{
    if list.len() > 0 {
        let rest = list.drop_last();
        lemma_messages_by_id(rest);
        assert forall|i: int| 0 <= i < list.len() implies messages_by_id(list).contains_key(
            (#[trigger] list[i]).id,
        ) && messages_by_id(list)[list[i].id] == list[i] by {
            if i < rest.len() {
                assert(rest[i] == list[i]);
            }
        }
        assert forall|id: u128| #[trigger] messages_by_id(list).contains_key(id) implies exists|
            i: int,
        |
            0 <= i < list.len() && (#[trigger] list[i]).id == id by {
            if id != list.last().id {
                assert(messages_by_id(rest).contains_key(id));
                let i = choose|i: int| 0 <= i < rest.len() && (#[trigger] rest[i]).id == id;
                assert(list[i] == rest[i]);
            }
        }
    }
}

/// Registering clients one after the other, none of them twice, keeps them
/// as they are.
proof fn lemma_registered_distinct(clients: Seq<ClientStatusView>)
    requires
        distinct_clients(clients),
    ensures
        registered(clients) == clients,
    decreases clients.len(),
{
    if clients.len() > 0 {
        let rest = clients.drop_last();
        lemma_registered_distinct(rest);
        assert(!knows_client(rest, clients.last().id)) by {
            if knows_client(rest, clients.last().id) {
                let i = choose|i: int|
                    0 <= i < rest.len() && (#[trigger] rest[i]).id == clients.last().id;
                assert(rest[i] == clients[i]);
            }
        }
        assert(rest.push(clients.last()) =~= clients);
    }
}

/// A snapshot is rebuilt from what it hands out: from any list of all its
/// messages, its clients and the time of its last change comes the same
/// snapshot again. So a snapshot that is written out in full and read back
/// unchanged is restored as it was.
pub proof fn law_snapshot_is_rebuilt_from_its_records(s: DataStoreView, all: Seq<MessageView>)
    requires
        s.wf(),
        s.lists(all, s.messages.dom()),
    ensures
        DataStoreView::from_records(all, s.clients, s.last_updated) == s,
{
    lemma_messages_by_id(all);
    lemma_registered_distinct(s.clients);
    let rebuilt = messages_by_id(all);
    assert forall|id: u128| rebuilt.contains_key(id) <==> s.messages.contains_key(id) by {
        if s.messages.contains_key(id) || rebuilt.contains_key(id) {
            let i = choose|i: int| 0 <= i < all.len() && (#[trigger] all[i]).id == id;
            assert(rebuilt.contains_key(all[i].id) && s.messages.contains_key(all[i].id));
        }
    }
    assert forall|id: u128| rebuilt.contains_key(id) implies rebuilt[id] == s.messages[id] by {
        let i = choose|i: int| 0 <= i < all.len() && (#[trigger] all[i]).id == id;
        assert(rebuilt[id] == all[i] && s.messages[id] == all[i]);
    }
    assert(rebuilt =~= s.messages);
}

} // verus!
