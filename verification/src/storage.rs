//! The snapshot of the board and the operations on it.
//!
//! [`DataStore`] is the snapshot: every message under its identifier, every
//! client once, and the time of the last change. Its operations take the
//! current time, and a new message's identifier, as arguments, so each of them
//! is a function of its inputs. [`FileStorage`] is the handle a service works
//! with: it draws the time and the identifiers itself.

use std::collections::HashMap;
use vstd::prelude::*;
use vstd::std_specs::hash::{axiom_spec_hash_map_iter, spec_hash_map_iter};
use vstd::std_specs::iter::IteratorSpec;
use crate::ids::{fresh_id, is_random_id};
use crate::listing::{
    in_order, insert_in_order, page_bounds, page_end, page_start, pages_reported, total_pages,
};
use crate::models::{
    message_views, text_view, CreateMessage, Message, MessageView, PaginatedResponse,
    UpdateMessage,
};
use crate::time::Timestamp;

verus! {

/// The presence window: a client that was last seen this many nanoseconds
/// ago, or longer, is no longer counted as online. Five minutes.
pub const PRESENCE_WINDOW_NANOS: i128 = 300_000_000_000;

/// What is known of a client.
#[derive(Debug, PartialEq, Eq)]
pub struct ClientStatus {
    pub id: String,
    pub name: String,
    pub last_seen: Timestamp,
    pub is_online: bool,
    pub ip_address: Option<String>,
    pub device_info: Option<String>,
}

/// What a [`ClientStatus`] says, with its texts as sequences of characters.
pub struct ClientStatusView {
    pub id: Seq<char>,
    pub name: Seq<char>,
    pub last_seen: Timestamp,
    pub is_online: bool,
    pub ip_address: Option<Seq<char>>,
    pub device_info: Option<Seq<char>>,
}

impl View for ClientStatus {
    type V = ClientStatusView;

    open spec fn view(&self) -> ClientStatusView {
        ClientStatusView {
            id: self.id@,
            name: self.name@,
            last_seen: self.last_seen,
            is_online: self.is_online,
            ip_address: text_view(self.ip_address),
            device_info: text_view(self.device_info),
        }
    }
}

/// A copy of an optional text.
fn clone_text(s: &Option<String>) -> (r: Option<String>)
    ensures
        r == *s,
{
    match s {
        Some(t) => Some(t.clone()),
        None => None,
    }
}

impl Clone for ClientStatus {
    fn clone(&self) -> (r: Self)
        ensures
            r == *self,
    {
        ClientStatus {
            id: self.id.clone(),
            name: self.name.clone(),
            last_seen: self.last_seen,
            is_online: self.is_online,
            ip_address: clone_text(&self.ip_address),
            device_info: clone_text(&self.device_info),
        }
    }
}

impl ClientStatusView {
    /// A client is present at `now` when it is flagged online and was last
    /// seen less than the presence window before `now`.
    pub open spec fn is_present(self, now: Timestamp) -> bool {
        self.is_online && now.instant() - self.last_seen.instant() < PRESENCE_WINDOW_NANOS
    }

    /// This client after it went offline at `now`.
    pub open spec fn gone_offline(self, now: Timestamp) -> ClientStatusView {
        ClientStatusView { is_online: false, last_seen: now, ..self }
    }
}

impl ClientStatus {
    /// Whether the client is present at `now`, see
    /// [`ClientStatusView::is_present`].
    pub fn is_present(&self, now: &Timestamp) -> (r: bool)
        ensures
            r == self@.is_present(*now),
    {
        self.is_online && now.nanos_since(&self.last_seen) < PRESENCE_WINDOW_NANOS
    }
}

/// What each client of `list` says, in the same order.
pub open spec fn client_views(list: Seq<ClientStatus>) -> Seq<ClientStatusView> {
    list.map_values(|c: ClientStatus| c@)
}

/// Whether `clients` holds a client with the identifier `id`.
pub open spec fn knows_client(clients: Seq<ClientStatusView>, id: Seq<char>) -> bool {
    exists|i: int| 0 <= i < clients.len() && (#[trigger] clients[i]).id == id
}

/// The position in `clients` of a client with the identifier `id`, where
/// there is one.
pub open spec fn client_position(clients: Seq<ClientStatusView>, id: Seq<char>) -> int {
    choose|i: int| 0 <= i < clients.len() && (#[trigger] clients[i]).id == id
}

/// No two clients share an identifier.
pub open spec fn distinct_clients(clients: Seq<ClientStatusView>) -> bool {
    forall|i: int, j: int|
        0 <= i < j < clients.len() ==> (#[trigger] clients[i]).id != (#[trigger] clients[j]).id
}

/// `clients` after `client` was registered: it takes the place of the client
/// with its identifier, or the last place where there was none.
pub open spec fn with_client(clients: Seq<ClientStatusView>, client: ClientStatusView) -> Seq<
    ClientStatusView,
> {
    if knows_client(clients, client.id) {
        clients.update(client_position(clients, client.id), client)
    } else {
        clients.push(client)
    }
}

/// The test that [`present_clients`] filters by.
pub open spec fn present_at(now: Timestamp) -> spec_fn(ClientStatusView) -> bool {
    |c: ClientStatusView| c.is_present(now)
}

/// Those of `clients` that are present at `now`, in the order they have in
/// `clients`.
pub open spec fn present_clients(clients: Seq<ClientStatusView>, now: Timestamp) -> Seq<
    ClientStatusView,
> {
    clients.filter(present_at(now))
}

/// The messages of `list`, each under its identifier; where two share one,
/// the later of them.
pub open spec fn messages_by_id(list: Seq<MessageView>) -> Map<u128, MessageView>
    decreases list.len(),
{
    if list.len() == 0 {
        Map::empty()
    } else {
        messages_by_id(list.drop_last()).insert(list.last().id, list.last())
    }
}

/// The clients of `list`, registered one after the other, see
/// [`with_client`].
pub open spec fn registered(list: Seq<ClientStatusView>) -> Seq<ClientStatusView>
    decreases list.len(),
{
    if list.len() == 0 {
        Seq::empty()
    } else {
        with_client(registered(list.drop_last()), list.last())
    }
}

/// The snapshot as a mathematical value.
pub struct DataStoreView {
    /// Every message, under its identifier.
    pub messages: Map<u128, MessageView>,
    /// Every client, in the order in which they were first registered.
    pub clients: Seq<ClientStatusView>,
    /// The time of the last change to either of them.
    pub last_updated: Timestamp,
}

impl DataStoreView {
    /// The snapshot that holds nothing, last changed at the epoch.
    pub open spec fn empty() -> DataStoreView {
        DataStoreView {
            messages: Map::empty(),
            clients: Seq::empty(),
            last_updated: Timestamp { secs: 0, nanos: 0 },
        }
    }

    /// The snapshot that holds the messages and the clients of two lists, and
    /// was last changed at `last_updated`.
    pub open spec fn from_records(
        messages: Seq<MessageView>,
        clients: Seq<ClientStatusView>,
        last_updated: Timestamp,
    ) -> DataStoreView {
        DataStoreView {
            messages: messages_by_id(messages),
            clients: registered(clients),
            last_updated,
        }
    }

    /// A snapshot is well formed when it holds finitely many messages, each
    /// under its own identifier, and no two clients with one identifier.
    pub open spec fn wf(self) -> bool {
        &&& self.messages.dom().finite()
        &&& forall|id: u128| #[trigger]
            self.messages.contains_key(id) ==> self.messages[id].id == id
        &&& distinct_clients(self.clients)
    }

    /// The identifiers of the messages that are active at `now`.
    pub open spec fn active_ids(self, now: Timestamp) -> Set<u128> {
        Set::new(|id: u128| self.messages.contains_key(id) && self.messages[id].is_active(now))
    }

    /// Whether `list` lists exactly the messages with an identifier in `ids`,
    /// each once and as the snapshot holds it.
    pub open spec fn lists(self, list: Seq<MessageView>, ids: Set<u128>) -> bool {
        &&& forall|i: int|
            0 <= i < list.len() ==> {
                &&& ids.contains((#[trigger] list[i]).id)
                &&& self.messages.contains_key(list[i].id)
                &&& self.messages[list[i].id] == list[i]
            }
        &&& forall|i: int, j: int|
            0 <= i < j < list.len() ==> (#[trigger] list[i]).id != (#[trigger] list[j]).id
        &&& forall|id: u128| #[trigger]
            ids.contains(id) ==> exists|i: int| 0 <= i < list.len() && (#[trigger] list[i]).id == id
    }

    /// Whether `list` is a listing of the active messages at `now`: exactly
    /// those messages, in order. Messages of one priority that were created at
    /// the same instant may stand either way round.
    pub open spec fn active_listing(self, now: Timestamp, list: Seq<MessageView>) -> bool {
        &&& self.lists(list, self.active_ids(now))
        &&& in_order(list)
    }

    /// Whether `r` shows page `page` (counted from 1) of the messages that are
    /// active at `now`, `page_size` to a page: its items are that stretch of a
    /// listing of the active messages, and its figures are those of the whole
    /// listing. The stretch is empty for a page behind the last one. The
    /// number of pages is held at `u32::MAX` where it would be more.
    pub open spec fn shows_page(
        self,
        now: Timestamp,
        page: u32,
        page_size: u32,
        r: PaginatedResponse<Message>,
    ) -> bool {
        &&& r.total == self.active_ids(now).len()
        &&& r.page == page
        &&& r.page_size == page_size
        &&& r.total_pages == pages_reported(r.total as int, page_size as int)
        &&& exists|whole: Seq<MessageView>| #[trigger]
            self.active_listing(now, whole) && whole.len() == r.total && message_views(r.data@)
                == whole.subrange(
                page_start(r.total as int, page as int, page_size as int),
                page_end(r.total as int, page as int, page_size as int),
            )
    }

    /// A listing has as many entries as there are identifiers to list.
    pub proof fn lemma_listing_len(self, list: Seq<MessageView>, ids: Set<u128>)
        requires
            self.lists(list, ids),
        ensures
            ids.finite(),
            ids.len() == list.len(),
    {
        let listed = list.map_values(|m: MessageView| m.id);
        assert forall|id: u128| ids.contains(id) implies listed.to_set().contains(id) by {
            let i = choose|i: int| 0 <= i < list.len() && (#[trigger] list[i]).id == id;
            assert(listed[i] == id);
        }
        assert forall|id: u128| listed.to_set().contains(id) implies ids.contains(id) by {
            let i = choose|i: int| 0 <= i < listed.len() && listed[i] == id;
            assert(list[i].id == id);
        }
        assert(listed.to_set() =~= ids);
        listed.unique_seq_to_set();
    }

    /// The snapshot after `m` was stored under its identifier at `now`.
    pub open spec fn with_message(self, m: MessageView, now: Timestamp) -> DataStoreView {
        DataStoreView { messages: self.messages.insert(m.id, m), last_updated: now, ..self }
    }

    /// The snapshot after the message `id` was removed at `now`.
    pub open spec fn without_message(self, id: u128, now: Timestamp) -> DataStoreView {
        DataStoreView { messages: self.messages.remove(id), last_updated: now, ..self }
    }

    /// The snapshot after `client` was registered at `now`.
    pub open spec fn with_client(self, client: ClientStatusView, now: Timestamp) -> DataStoreView {
        DataStoreView { clients: with_client(self.clients, client), last_updated: now, ..self }
    }

    /// The snapshot after the client `id`, which it knows, went offline at `now`.
    pub open spec fn with_client_offline(self, id: Seq<char>, now: Timestamp) -> DataStoreView {
        let at = client_position(self.clients, id);
        DataStoreView {
            clients: self.clients.update(at, self.clients[at].gone_offline(now)),
            last_updated: now,
            ..self
        }
    }
}

/// Figures that describe a snapshot at one moment. They are computed when
/// asked for and never stored.
#[derive(Clone, Copy, Debug, PartialEq, Eq, Structural)]
pub struct DataStats {
    /// How many messages the snapshot holds.
    pub total_messages: usize,
    /// How many of them are active.
    pub active_messages: usize,
    /// How many clients the snapshot knows.
    pub total_clients: usize,
    /// How many of them are present.
    pub online_clients: usize,
    /// The time of the snapshot's last change.
    pub last_updated: Timestamp,
}

impl DataStoreView {
    /// Whether `stats` are the statistics of this snapshot at `now`: the
    /// messages and the clients it holds, the messages that are active and the
    /// clients that are present at `now`, and the time of its last change.
    pub open spec fn has_stats(self, now: Timestamp, stats: DataStats) -> bool {
        &&& stats.total_messages == self.messages.dom().len()
        &&& stats.active_messages == self.active_ids(now).len()
        &&& stats.total_clients == self.clients.len()
        &&& stats.online_clients == present_clients(self.clients, now).len()
        &&& stats.last_updated == self.last_updated
    }
}

/// The snapshot: every message, every client, and the time of the last change
/// to either.
#[derive(Debug)]
pub struct DataStore {
    messages: HashMap<u128, Message>,
    clients: Vec<ClientStatus>,
    last_updated: Timestamp,
}

impl View for DataStore {
    type V = DataStoreView;

    closed spec fn view(&self) -> DataStoreView {
        DataStoreView {
            messages: self.messages@.map_values(|m: Message| m@),
            clients: client_views(self.clients@),
            last_updated: self.last_updated,
        }
    }
}

impl Default for DataStore {
    fn default() -> (s: DataStore)
        ensures
            s@ == DataStoreView::empty(),
    {
        DataStore::new()
    }
}

impl DataStore {
    /// Every snapshot is well formed, see [`DataStoreView::wf`].
    #[verifier::type_invariant]
    spec fn well_formed(&self) -> bool {
        self@.wf()
    }

    /// Takes the messages out of the snapshot, to change them and put them
    /// back.
    fn take_messages(&mut self) -> (messages: HashMap<u128, Message>)
        ensures
            messages == old(self).messages,
            final(self).clients == old(self).clients,
            final(self).last_updated == old(self).last_updated,
            old(self)@.wf(),
            forall|id: u128| #[trigger] messages@.contains_key(id) ==> messages@[id].id == id,
    {
        proof {
            use_type_invariant(&*self);
        }
        let mut messages: HashMap<u128, Message> = HashMap::new();
        assert(messages@.map_values(|m: Message| m@) =~= Map::empty());
        assert forall|id: u128| #[trigger] self.messages@.contains_key(id) implies self.messages@[id].id
            == id by {
            assert(self@.messages.contains_key(id));
        }
        core::mem::swap(&mut self.messages, &mut messages);
        messages
    }

    /// Puts `messages` into the snapshot, in place of those it holds.
    fn put_messages(&mut self, messages: HashMap<u128, Message>)
        requires
            forall|id: u128| #[trigger] messages@.contains_key(id) ==> messages@[id].id == id,
        ensures
            final(self).messages == messages,
            final(self).clients == old(self).clients,
            final(self).last_updated == old(self).last_updated,
    {
        proof {
            use_type_invariant(&*self);
        }
        let mut messages = messages;
        proof {
            let shown = messages@.map_values(|m: Message| m@);
            vstd::std_specs::hash::axiom_hashmap_view_finite_dom(messages);
            assert(shown.dom() =~= messages@.dom());
        }
        core::mem::swap(&mut self.messages, &mut messages);
    }

    /// Records `now` as the time of the last change.
    fn touch(&mut self, now: Timestamp)
        ensures
            final(self).messages == old(self).messages,
            final(self).clients == old(self).clients,
            final(self).last_updated == now,
    {
        proof {
            use_type_invariant(&*self);
        }
        self.last_updated = now;
    }

    /// Takes the clients out of the snapshot, to change them and put them
    /// back.
    fn take_clients(&mut self) -> (clients: Vec<ClientStatus>)
        ensures
            clients == old(self).clients,
            final(self).messages == old(self).messages,
            final(self).last_updated == old(self).last_updated,
            old(self)@.wf(),
    {
        proof {
            use_type_invariant(&*self);
        }
        let mut clients: Vec<ClientStatus> = Vec::new();
        core::mem::swap(&mut self.clients, &mut clients);
        clients
    }

    /// Puts `clients` into the snapshot, in place of those it holds.
    fn put_clients(&mut self, clients: Vec<ClientStatus>)
        requires
            distinct_clients(client_views(clients@)),
        ensures
            final(self).clients == clients,
            final(self).messages == old(self).messages,
            final(self).last_updated == old(self).last_updated,
    {
        proof {
            use_type_invariant(&*self);
        }
        let mut clients = clients;
        core::mem::swap(&mut self.clients, &mut clients);
    }

    /// The snapshot that holds nothing.
    pub fn new() -> (s: DataStore)
        ensures
            s@.wf(),
            s@ == DataStoreView::empty(),
    {
        let messages: HashMap<u128, Message> = HashMap::new();
        let clients: Vec<ClientStatus> = Vec::new();
        assert(messages@.map_values(|m: Message| m@) =~= Map::empty());
        assert(client_views(clients@) =~= Seq::empty());
        DataStore { messages, clients, last_updated: Timestamp::epoch() }
    }

    /// Stores `m` under its identifier, as it is.
    fn keep_message(&mut self, m: Message)
        ensures
            final(self)@ == (DataStoreView {
                messages: old(self)@.messages.insert(m.id, m@),
                ..old(self)@
            }),
    {
        let ghost id = m.id;
        let ghost shown = m@;
        let mut messages = self.take_messages();
        messages.insert(m.id, m);
        self.put_messages(messages);
        assert(self@.messages =~= old(self)@.messages.insert(id, shown));
    }

    /// The snapshot that holds the messages of `messages` and the clients of
    /// `clients`, and was last changed at `last_updated`. Where two messages,
    /// or two clients, share an identifier, the later one stays.
    pub fn from_records(
        messages: Vec<Message>,
        clients: Vec<ClientStatus>,
        last_updated: Timestamp,
    ) -> (s: DataStore)
        ensures
            s@.wf(),
            s@ == DataStoreView::from_records(
                message_views(messages@),
                client_views(clients@),
                last_updated,
            ),
    {
        let mut s = DataStore::new();
        let ghost given = message_views(messages@);
        for m in it: messages.into_iter()
            invariant
                it.seq() == messages@,
                given == message_views(messages@),
                s@.messages == messages_by_id(given.take(it.index())),
                s@.clients == Seq::<ClientStatusView>::empty(),
        {
            assert(given.take(it.index() + 1).drop_last() =~= given.take(it.index()));
            s.keep_message(m);
        }
        assert(given.take(given.len() as int) =~= given);
        let ghost known = client_views(clients@);
        for c in it: clients.into_iter()
            invariant
                it.seq() == clients@,
                known == client_views(clients@),
                s@.messages == messages_by_id(given),
                s@.clients == registered(known.take(it.index())),
        {
            assert(known.take(it.index() + 1).drop_last() =~= known.take(it.index()));
            s.upsert_client(c, last_updated);
        }
        assert(known.take(known.len() as int) =~= known);
        s.touch(last_updated);
        proof {
            use_type_invariant(&s);
        }
        s
    }

    /// The time of the last change.
    pub fn last_updated(&self) -> (t: Timestamp)
        ensures
            t == self@.last_updated,
    {
        self.last_updated
    }

    /// Stores the message that `payload` creates under `id` at `now`, and
    /// returns it. A message that was stored under `id` before is replaced.
    pub fn insert_message(&mut self, id: u128, now: Timestamp, payload: CreateMessage) -> (m:
        Message)
        ensures
            final(self)@.wf(),
            m@ == MessageView::created(id, now, payload@),
            final(self)@ == old(self)@.with_message(m@, now),
    {
        let m = Message::create(id, now, payload);
        let mut messages = self.take_messages();
        messages.insert(id, m.clone());
        self.put_messages(messages);
        self.touch(now);
        assert(self@.messages =~= old(self)@.messages.insert(id, m@));
        m
    }

    /// The message stored under `id`, if there is one.
    pub fn message(&self, id: u128) -> (r: Option<Message>)
        ensures
            match r {
                Some(m) => self@.messages.contains_key(id) && m@ == self@.messages[id],
                None => !self@.messages.contains_key(id),
            },
    {
        match self.messages.get(&id) {
            Some(m) => Some(m.clone()),
            None => None,
        }
    }

    /// Applies `update` at `now` to the message stored under `id` and returns
    /// the message as it then is, or changes nothing and returns `None` where
    /// no message is stored under `id`.
    pub fn apply_update(&mut self, id: u128, now: Timestamp, update: UpdateMessage) -> (r: Option<
        Message,
    >)
        ensures
            final(self)@.wf(),
            match r {
                Some(m) => {
                    &&& old(self)@.messages.contains_key(id)
                    &&& m@ == old(self)@.messages[id].updated(update@, now)
                    &&& final(self)@ == old(self)@.with_message(m@, now)
                },
                None => !old(self)@.messages.contains_key(id) && final(self)@ == old(self)@,
            },
    {
        let mut messages = self.take_messages();
        match messages.remove(&id) {
            Some(stored) => {
                let mut m = stored;
                m.apply(update, now);
                messages.insert(id, m.clone());
                self.put_messages(messages);
                self.touch(now);
                assert(self@.messages =~= old(self)@.messages.insert(id, m@));
                Some(m)
            },
            None => {
                assert(messages@ =~= old(self).messages@);
                self.put_messages(messages);
                None
            },
        }
    }

    /// Removes the message stored under `id` at `now` and returns `true`, or
    /// changes nothing, the time of the last change included, and returns
    /// `false` where no message is stored under `id`.
    pub fn remove_message(&mut self, id: u128, now: Timestamp) -> (removed: bool)
        ensures
            final(self)@.wf(),
            removed == old(self)@.messages.contains_key(id),
            removed ==> final(self)@ == old(self)@.without_message(id, now),
            !removed ==> final(self)@ == old(self)@,
    {
        let mut messages = self.take_messages();
        match messages.remove(&id) {
            Some(_) => {
                self.put_messages(messages);
                self.touch(now);
                assert(self@.messages =~= old(self)@.messages.remove(id));
                true
            },
            None => {
                assert(messages@ =~= old(self).messages@);
                self.put_messages(messages);
                false
            },
        }
    }

    /// How many messages the snapshot holds.
    pub fn message_count(&self) -> (n: usize)
        ensures
            n == self@.messages.dom().len(),
    {
        assert(self@.messages.dom() =~= self.messages@.dom());
        self.messages.len()
    }

    /// Every message of the snapshot, in no particular order.
    pub fn all_messages(&self) -> (list: Vec<Message>)
        ensures
            self@.wf(),
            self@.lists(message_views(list@), self@.messages.dom()),
            list.len() == self@.messages.dom().len(),
    {
        proof {
            use_type_invariant(&*self);
        }
        let mut list: Vec<Message> = Vec::new();
        let ghost entries = spec_hash_map_iter(&self.messages).remaining();
        proof {
            axiom_spec_hash_map_iter(&self.messages);
        }
        for kv in it: self.messages.iter()
            invariant
                it.seq() == entries,
                entries.no_duplicates(),
                list.len() == it.index(),
                forall|j: int| 0 <= j < list.len() ==> *entries[j].1 == #[trigger] list[j],
        {
            list.push(kv.1.clone());
        }
        proof {
            axiom_spec_hash_map_iter(&self.messages);
            assert(self@.messages.dom() =~= self.messages@.dom());
            let shown = message_views(list@);
            assert forall|i: int| 0 <= i < shown.len() implies (#[trigger] shown[i]).id == *entries[i].0
                && self@.messages.contains_key(shown[i].id) && self@.messages[shown[i].id]
                == shown[i] by {
                assert(self@.messages.contains_key(*entries[i].0));
            }
            assert forall|id: u128| #[trigger] self@.messages.dom().contains(id) implies exists|
                i: int,
            |
                0 <= i < shown.len() && (#[trigger] shown[i]).id == id by {
                let i = choose|i: int| 0 <= i < entries.len() && entries[i] == (&id, &self.messages@[id]);
                assert(shown[i].id == id);
            }
        }
        list
    }

    /// The messages that are active at `now`, in listing order: higher
    /// priority first, and among equal priorities the newest first.
    pub fn active_messages(&self, now: Timestamp) -> (list: Vec<Message>)
        ensures
            self@.wf(),
            self@.active_listing(now, message_views(list@)),
            list.len() == self@.active_ids(now).len(),
    {
        proof {
            use_type_invariant(&*self);
        }
        let mut list: Vec<Message> = Vec::new();
        let ghost entries = spec_hash_map_iter(&self.messages).remaining();
        // For each listed message, the entry it was taken from.
        let ghost mut origin: Seq<int> = Seq::empty();
        proof {
            axiom_spec_hash_map_iter(&self.messages);
        }
        for kv in it: self.messages.iter()
            invariant
                self@.wf(),
                it.seq() == entries,
                entries.no_duplicates(),
                forall|i: int|
                    0 <= i < entries.len() ==> {
                        &&& self@.messages.contains_key(*(#[trigger] entries[i]).0)
                        &&& self@.messages[*entries[i].0] == (*entries[i].1)@
                    },
                in_order(message_views(list@)),
                origin.len() == list.len(),
                forall|j: int|
                    0 <= j < list.len() ==> {
                        &&& 0 <= #[trigger] origin[j] < it.index()
                        &&& *entries[origin[j]].1 == list[j]
                    },
                forall|i: int, j: int|
                    0 <= i < j < list.len() ==> #[trigger] origin[i] != #[trigger] origin[j],
                forall|i: int|
                    0 <= i < it.index() && (*(#[trigger] entries[i]).1)@.is_active(now)
                        ==> origin.contains(i),
                forall|j: int| 0 <= j < list.len() ==> (#[trigger] list[j])@.is_active(now),
        {
            let ghost n = it.index();
            let ghost taken = origin;
            if kv.1.is_active(&now) {
                let at = insert_in_order(&mut list, kv.1.clone());
                proof {
                    origin = taken.insert(at as int, n);
                    assert forall|i: int|
                        0 <= i < n + 1 && (*(#[trigger] entries[i]).1)@.is_active(
                            now,
                        ) implies origin.contains(i) by {
                        if i == n {
                            assert(origin[at as int] == i);
                        } else {
                            let j = choose|j: int| 0 <= j < taken.len() && taken[j] == i;
                            let moved = if j < at { j } else { j + 1 };
                            assert(origin[moved] == i);
                        }
                    }
                }
            }
        }
        proof {
            axiom_spec_hash_map_iter(&self.messages);
            let shown = message_views(list@);
            let ids = self@.active_ids(now);
            assert forall|j: int| 0 <= j < shown.len() implies {
                &&& (#[trigger] shown[j]).id == *entries[origin[j]].0
                &&& ids.contains(shown[j].id)
                &&& self@.messages.contains_key(shown[j].id)
                &&& self@.messages[shown[j].id] == shown[j]
            } by {
                assert(shown[j] == list[j]@);
            }
            assert forall|i: int, j: int| 0 <= i < j < shown.len() implies (#[trigger] shown[i]).id
                != (#[trigger] shown[j]).id by {
                assert(entries[origin[i]] != entries[origin[j]]);
            }
            assert forall|id: u128| #[trigger] ids.contains(id) implies exists|j: int|
                0 <= j < shown.len() && (#[trigger] shown[j]).id == id by {
                let i = choose|i: int|
                    0 <= i < entries.len() && entries[i] == (&id, &self.messages@[id]);
                let j = choose|j: int| 0 <= j < origin.len() && origin[j] == i;
                assert(shown[j].id == id);
            }
            self@.lemma_listing_len(shown, ids);
        }
        list
    }

    /// How many messages are active at `now`.
    pub fn count_active(&self, now: Timestamp) -> (n: usize)
        ensures
            self@.wf(),
            n == self@.active_ids(now).len(),
    {
        proof {
            use_type_invariant(&*self);
        }
        let total: usize = self.messages.len();
        let mut n: usize = 0;
        let ghost entries = spec_hash_map_iter(&self.messages).remaining();
        // The identifiers counted so far.
        let ghost mut counted: Set<u128> = Set::empty();
        proof {
            axiom_spec_hash_map_iter(&self.messages);
        }
        for kv in it: self.messages.iter()
            invariant
                it.seq() == entries,
                entries.no_duplicates(),
                entries.len() == total,
                forall|i: int|
                    0 <= i < entries.len() ==> {
                        &&& self@.messages.contains_key(*(#[trigger] entries[i]).0)
                        &&& self@.messages[*entries[i].0] == (*entries[i].1)@
                    },
                counted.finite(),
                counted.len() == n,
                n <= it.index(),
                forall|id: u128| #[trigger]
                    counted.contains(id) ==> {
                        &&& self@.active_ids(now).contains(id)
                        &&& exists|i: int| 0 <= i < it.index() && *(#[trigger] entries[i]).0 == id
                    },
                forall|i: int|
                    0 <= i < it.index() && (*(#[trigger] entries[i]).1)@.is_active(now)
                        ==> counted.contains(*entries[i].0),
        {
            let ghost seen = it.index();
            let ghost so_far = counted;
            if kv.1.is_active(&now) {
                proof {
                    if so_far.contains(*kv.0) {
                        let i = choose|i: int|
                            0 <= i < seen && *(#[trigger] entries[i]).0 == *kv.0;
                        assert(entries[i] == entries[seen]);
                    }
                    counted = so_far.insert(*kv.0);
                    assert forall|id: u128| #[trigger] counted.contains(id) implies exists|i: int|
                        0 <= i < seen + 1 && *(#[trigger] entries[i]).0 == id by {
                        if id == *kv.0 {
                            assert(*entries[seen].0 == id);
                        } else {
                            let i = choose|i: int|
                                0 <= i < seen && *(#[trigger] entries[i]).0 == id;
                            assert(*entries[i].0 == id);
                        }
                    }
                }
                n += 1;
            } else {
                proof {
                    assert forall|id: u128| #[trigger] counted.contains(id) implies exists|i: int|
                        0 <= i < seen + 1 && *(#[trigger] entries[i]).0 == id by {
                        let i = choose|i: int| 0 <= i < seen && *(#[trigger] entries[i]).0 == id;
                        assert(*entries[i].0 == id);
                    }
                }
            }
        }
        proof {
            axiom_spec_hash_map_iter(&self.messages);
            assert forall|id: u128| self@.active_ids(now).contains(id) implies counted.contains(
                id,
            ) by {
                let i = choose|i: int|
                    0 <= i < entries.len() && entries[i] == (&id, &self.messages@[id]);
                assert(*entries[i].0 == id);
            }
            assert(counted =~= self@.active_ids(now));
        }
        n
    }

    /// Page `page` (counted from 1) of the messages that are active at `now`,
    /// `page_size` to a page, with the figures of the whole listing. A page
    /// behind the last one is empty.
    pub fn active_page(&self, now: Timestamp, page: u32, page_size: u32) -> (r: PaginatedResponse<
        Message,
    >)
        requires
            page >= 1,
            page_size >= 1,
        ensures
            self@.wf(),
            self@.shows_page(now, page, page_size, r),
    {
        let mut list = self.active_messages(now);
        let ghost whole = message_views(list@);
        let total: usize = list.len();
        let (start, end) = page_bounds(total, page, page_size);
        list.truncate(end);
        let data = list.split_off(start);
        assert(message_views(data@) =~= whole.subrange(start as int, end as int));
        PaginatedResponse { data, total, page, page_size, total_pages: total_pages(total, page_size) }
    }

    /// Where the client with the identifier `id` stands, if the snapshot
    /// knows one.
    fn find_client(&self, id: &String) -> (r: Option<usize>)
        ensures
            self@.wf(),
            match r {
                Some(at) => knows_client(self@.clients, id@) && at == client_position(
                    self@.clients,
                    id@,
                ) && at < self.clients.len(),
                None => !knows_client(self@.clients, id@),
            },
    {
        proof {
            use_type_invariant(&*self);
        }
        let mut at: usize = 0;
        while at < self.clients.len()
            invariant
                self@.wf(),
                at <= self.clients.len(),
                forall|i: int| 0 <= i < at ==> (#[trigger] self@.clients[i]).id != id@,
            decreases self.clients.len() - at,
        {
            if self.clients[at].id == *id {
                proof {
                    let found = client_position(self@.clients, id@);
                    assert(found == at) by {
                        if found > at {
                            assert(self@.clients[at as int].id != self@.clients[found].id);
                        }
                    }
                }
                return Some(at);
            }
            at += 1;
        }
        None
    }

    /// Registers `client` at `now`: it takes the place of the client with its
    /// identifier, or is added behind the others where there was none.
    pub fn upsert_client(&mut self, client: ClientStatus, now: Timestamp)
        ensures
            final(self)@.wf(),
            final(self)@ == old(self)@.with_client(client@, now),
    {
        let found = self.find_client(&client.id);
        let mut clients = self.take_clients();
        match found {
            Some(at) => {
                clients[at] = client;
                assert(client_views(clients@) =~= old(self)@.clients.update(at as int, client@));
            },
            None => {
                clients.push(client);
                assert(client_views(clients@) =~= old(self)@.clients.push(client@));
            },
        }
        self.put_clients(clients);
        self.touch(now);
    }

    /// Every client of the snapshot, in the order in which they were first
    /// registered.
    pub fn all_clients(&self) -> (list: Vec<ClientStatus>)
        ensures
            client_views(list@) == self@.clients,
    {
        let mut list: Vec<ClientStatus> = Vec::new();
        let mut at: usize = 0;
        while at < self.clients.len()
            invariant
                at <= self.clients.len(),
                list@ == self.clients@.take(at as int),
            decreases self.clients.len() - at,
        {
            list.push(self.clients[at].clone());
            at += 1;
        }
        list
    }

    /// The clients that are present at `now`, in the order in which they were
    /// first registered.
    pub fn online_clients(&self, now: Timestamp) -> (list: Vec<ClientStatus>)
        ensures
            client_views(list@) == present_clients(self@.clients, now),
    {
        let mut list: Vec<ClientStatus> = Vec::new();
        let mut at: usize = 0;
        proof {
            reveal(Seq::filter);
        }
        while at < self.clients.len()
            invariant
                at <= self.clients.len(),
                client_views(list@) == present_clients(self@.clients.take(at as int), now),
            decreases self.clients.len() - at,
        {
            proof {
                reveal(Seq::filter);
                assert(self@.clients.take(at + 1).drop_last() =~= self@.clients.take(at as int));
            }
            if self.clients[at].is_present(&now) {
                list.push(self.clients[at].clone());
            }
            at += 1;
        }
        assert(self@.clients.take(at as int) =~= self@.clients);
        list
    }

    /// How many clients are present at `now`.
    pub fn count_online(&self, now: Timestamp) -> (n: usize)
        ensures
            n == present_clients(self@.clients, now).len(),
    {
        let mut n: usize = 0;
        let mut at: usize = 0;
        proof {
            reveal(Seq::filter);
        }
        while at < self.clients.len()
            invariant
                at <= self.clients.len(),
                n <= at,
                n == present_clients(self@.clients.take(at as int), now).len(),
            decreases self.clients.len() - at,
        {
            proof {
                reveal(Seq::filter);
                assert(self@.clients.take(at + 1).drop_last() =~= self@.clients.take(at as int));
            }
            if self.clients[at].is_present(&now) {
                n += 1;
            }
            at += 1;
        }
        assert(self@.clients.take(at as int) =~= self@.clients);
        n
    }

    /// Marks the client with the identifier `id` as offline and last seen at
    /// `now`, and returns `true`; or changes nothing and returns `false` where
    /// the snapshot knows no such client.
    pub fn set_client_offline(&mut self, id: &str, now: Timestamp) -> (changed: bool)
        ensures
            final(self)@.wf(),
            changed == knows_client(old(self)@.clients, id@),
            changed ==> final(self)@ == old(self)@.with_client_offline(id@, now),
            !changed ==> final(self)@ == old(self)@,
    {
        proof {
            use_type_invariant(&*self);
        }
        let wanted: String = id.to_owned();
        match self.find_client(&wanted) {
            Some(at) => {
                let mut clients = self.take_clients();
                clients[at].is_online = false;
                clients[at].last_seen = now;
                assert(client_views(clients@) =~= old(self)@.clients.update(
                    at as int,
                    old(self)@.clients[at as int].gone_offline(now),
                ));
                self.put_clients(clients);
                self.touch(now);
                true
            },
            None => false,
        }
    }

    /// The snapshot's statistics at `now`.
    pub fn stats(&self, now: Timestamp) -> (r: DataStats)
        ensures
            self@.wf(),
            self@.has_stats(now, r),
    {
        proof {
            use_type_invariant(&*self);
        }
        DataStats {
            total_messages: self.message_count(),
            active_messages: self.count_active(now),
            total_clients: self.clients.len(),
            online_clients: self.count_online(now),
            last_updated: self.last_updated,
        }
    }
}

/// The store a service works with: a snapshot, changed and read at the time
/// the system clock shows.
///
/// The store keeps the snapshot in memory only. A caller that wants it to
/// outlive the process writes [`FileStorage::data`] out after every operation
/// that reports a change.
#[derive(Debug)]
pub struct FileStorage {
    data: DataStore,
}

impl View for FileStorage {
    type V = DataStoreView;

    closed spec fn view(&self) -> DataStoreView {
        self.data@
    }
}

impl FileStorage {
    /// A store over the snapshot that was loaded, or over an empty one where
    /// none could be loaded.
    pub fn new(loaded: Option<DataStore>) -> (s: FileStorage)
        ensures
            s@.wf(),
            s@ == match loaded {
                Some(data) => data@,
                None => DataStoreView::empty(),
            },
    {
        let data = match loaded {
            Some(data) => data,
            None => DataStore::new(),
        };
        proof {
            use_type_invariant(&data);
        }
        FileStorage { data }
    }

    /// The snapshot as it stands.
    pub fn data(&self) -> (data: &DataStore)
        ensures
            data@ == self@,
            self@.wf(),
    {
        proof {
            use_type_invariant(&self.data);
        }
        &self.data
    }

    /// Creates a message from `msg` under a new identifier, created and last
    /// updated now, and returns it. The snapshot has changed.
    pub fn create_message(&mut self, msg: CreateMessage) -> (m: Message)
        ensures
            final(self)@.wf(),
            is_random_id(m.id),
            m@ == MessageView::created(m.id, m.created_at, msg@),
            final(self)@ == old(self)@.with_message(m@, m.created_at),
    {
        let id: u128 = fresh_id();
        let now = Timestamp::now();
        self.data.insert_message(id, now, msg)
    }

    /// Every message, expired or not, in no particular order.
    pub fn get_messages(&self) -> (list: Vec<Message>)
        ensures
            self@.wf(),
            self@.lists(message_views(list@), self@.messages.dom()),
            list.len() == self@.messages.dom().len(),
    {
        self.data.all_messages()
    }

    /// The messages that are active now, in listing order.
    pub fn get_active_messages(&self) -> (list: Vec<Message>)
        ensures
            self@.wf(),
            exists|now: Timestamp| #[trigger] self@.active_listing(now, message_views(list@)),
    {
        let now = Timestamp::now();
        let list = self.data.active_messages(now);
        list
    }

    /// Page `page` (counted from 1) of the messages that are active now,
    /// `page_size` to a page.
    pub fn get_active_messages_paginated(&self, page: u32, page_size: u32) -> (r:
        PaginatedResponse<Message>)
        requires
            page >= 1,
            page_size >= 1,
        ensures
            self@.wf(),
            exists|now: Timestamp| #[trigger] self@.shows_page(now, page, page_size, r),
    {
        let now = Timestamp::now();
        let r = self.data.active_page(now, page, page_size);
        r
    }

    /// The message stored under `id`, if there is one.
    pub fn get_message(&self, id: u128) -> (r: Option<Message>)
        ensures
            match r {
                Some(m) => self@.messages.contains_key(id) && m@ == self@.messages[id],
                None => !self@.messages.contains_key(id),
            },
    {
        self.data.message(id)
    }

    /// Applies `update` to the message stored under `id`, marks it as updated
    /// now, and returns it as it then is: the snapshot has changed. Where no
    /// message is stored under `id`, returns `None` and changes nothing.
    pub fn update_message(&mut self, id: u128, update: UpdateMessage) -> (r: Option<Message>)
        ensures
            final(self)@.wf(),
            match r {
                Some(m) => {
                    &&& old(self)@.messages.contains_key(id)
                    &&& m@ == old(self)@.messages[id].updated(update@, m.updated_at)
                    &&& final(self)@ == old(self)@.with_message(m@, m.updated_at)
                },
                None => !old(self)@.messages.contains_key(id) && final(self)@ == old(self)@,
            },
    {
        let now = Timestamp::now();
        self.data.apply_update(id, now, update)
    }

    /// Removes the message stored under `id` and returns `true`: the snapshot
    /// has changed. Where no message is stored under `id`, returns `false`
    /// and changes nothing, the time of the last change included.
    pub fn delete_message(&mut self, id: u128) -> (removed: bool)
        ensures
            final(self)@.wf(),
            removed == old(self)@.messages.contains_key(id),
            removed ==> final(self)@ == old(self)@.without_message(
                id,
                final(self)@.last_updated,
            ),
            !removed ==> final(self)@ == old(self)@,
    {
        let now = Timestamp::now();
        self.data.remove_message(id, now)
    }

    /// Registers `client`, in place of the client with its identifier where
    /// there is one. The snapshot has changed.
    pub fn update_client_status(&mut self, client: ClientStatus)
        ensures
            final(self)@.wf(),
            final(self)@ == old(self)@.with_client(client@, final(self)@.last_updated),
    {
        let now = Timestamp::now();
        self.data.upsert_client(client, now)
    }

    /// Every client, in the order in which they were first registered.
    pub fn get_clients(&self) -> (list: Vec<ClientStatus>)
        ensures
            client_views(list@) == self@.clients,
    {
        self.data.all_clients()
    }

    /// The clients that are present now.
    pub fn get_online_clients(&self) -> (list: Vec<ClientStatus>)
        ensures
            exists|now: Timestamp|
                client_views(list@) == #[trigger] present_clients(self@.clients, now),
    {
        let now = Timestamp::now();
        let list = self.data.online_clients(now);
        assert(client_views(list@) == present_clients(self@.clients, now));
        list
    }

    /// Marks the client with the identifier `client_id` as offline and last
    /// seen now, and returns `true`: the snapshot has changed. Where no such
    /// client is known, returns `false` and changes nothing.
    pub fn mark_client_offline(&mut self, client_id: &str) -> (changed: bool)
        ensures
            final(self)@.wf(),
            changed == knows_client(old(self)@.clients, client_id@),
            changed ==> final(self)@ == old(self)@.with_client_offline(
                client_id@,
                final(self)@.last_updated,
            ),
            !changed ==> final(self)@ == old(self)@,
    {
        let now = Timestamp::now();
        self.data.set_client_offline(client_id, now)
    }

    /// The snapshot's statistics as of now.
    pub fn get_stats(&self) -> (stats: DataStats)
        ensures
            exists|now: Timestamp| #[trigger] self@.has_stats(now, stats),
    {
        let now = Timestamp::now();
        let stats = self.data.stats(now);
        assert(self@.has_stats(now, stats));
        stats
    }
}

} // verus!
