//! What a request does to the store and how it is answered, once the
//! request has been read and before the answer is written.
//!
//! Each function takes the store and the request's values and returns the
//! value to send, or the status that says why there is none. A function that
//! takes `&mut FileStorage` and answers with a value has changed the
//! snapshot.

use vstd::prelude::*;
use crate::ids::{is_random_id, parse_id, parsed_id};
use crate::models::{
    message_views, CreateMessage, Message, MessageView, PaginatedResponse, PaginationParams,
    UpdateMessage, UpdateMessageView,
};
use crate::storage::{client_views, ClientStatus, DataStats, DataStoreView, FileStorage};
use crate::time::Timestamp;

verus! {

/// The statuses with which requests are answered, besides plain success.
#[derive(Clone, Copy, Debug, PartialEq, Eq, Structural)]
pub enum StatusCode {
    /// 201: the message was created.
    Created,
    /// 204: done, and there is nothing to send.
    NoContent,
    /// 400: the identifier in the request is no UUID.
    BadRequest,
    /// 404: no message has the identifier in the request.
    NotFound,
}

impl StatusCode {
    /// The status as a number.
    pub open spec fn code(self) -> u16 {
        match self {
            StatusCode::Created => 201,
            StatusCode::NoContent => 204,
            StatusCode::BadRequest => 400,
            StatusCode::NotFound => 404,
        }
    }

    /// The status as a number, see [`StatusCode::code`].
    pub fn as_u16(self) -> (n: u16)
        ensures
            n == self.code(),
    {
        match self {
            StatusCode::Created => 201,
            StatusCode::NoContent => 204,
            StatusCode::BadRequest => 400,
            StatusCode::NotFound => 404,
        }
    }
}

/// Creates a message from `payload` and answers with it, as created.
pub fn create_message(storage: &mut FileStorage, payload: CreateMessage) -> (r: (
    StatusCode,
    Message,
))
    ensures
        final(storage)@.wf(),
        r.0 == StatusCode::Created,
        is_random_id(r.1.id),
        r.1@ == MessageView::created(r.1.id, r.1.created_at, payload@),
        final(storage)@ == old(storage)@.with_message(r.1@, r.1.created_at),
{
    let m = storage.create_message(payload);
    (StatusCode::Created, m)
}

/// Answers with the page of active messages that `params` asks for: the
/// first page where it names none, ten to a page where it names no size, and
/// no more than a hundred.
pub fn get_messages_paginated(storage: &FileStorage, params: PaginationParams) -> (r:
    PaginatedResponse<Message>)
    ensures
        exists|now: Timestamp| #[trigger]
            storage@.shows_page(now, params.effective_page(), params.effective_page_size(), r),
{
    let page: u32 = params.page_or_default();
    let page_size: u32 = params.page_size_or_default();
    storage.get_active_messages_paginated(page, page_size)
}

/// Answers with every message, expired or not, in no particular order.
pub fn get_messages(storage: &FileStorage) -> (list: Vec<Message>)
    ensures
        storage@.lists(message_views(list@), storage@.messages.dom()),
        list.len() == storage@.messages.dom().len(),
{
    storage.get_messages()
}

/// Answers with the messages that are active now, in listing order.
pub fn get_active_messages(storage: &FileStorage) -> (list: Vec<Message>)
    ensures
        exists|now: Timestamp| #[trigger] storage@.active_listing(now, message_views(list@)),
{
    storage.get_active_messages()
}

/// What [`find_message`] and [`get_message`] promise, given the identifier
/// that was read from the request.
pub open spec fn finds_message(
    store: DataStoreView,
    id: Option<u128>,
    r: Result<Message, StatusCode>,
) -> bool {
    match id {
        None => r == Err::<Message, StatusCode>(StatusCode::BadRequest),
        Some(id) => match r {
            Ok(m) => store.messages.contains_key(id) && m@ == store.messages[id],
            Err(e) => e == StatusCode::NotFound && !store.messages.contains_key(id),
        },
    }
}

/// Answers with the message whose identifier was read from the request:
/// `id` is what was read, `None` where the request held no UUID.
pub fn find_message(storage: &FileStorage, id: Option<u128>) -> (r: Result<Message, StatusCode>)
    ensures
        finds_message(storage@, id, r),
{
    match id {
        None => Err(StatusCode::BadRequest),
        Some(id) => match storage.get_message(id) {
            Some(m) => Ok(m),
            None => Err(StatusCode::NotFound),
        },
    }
}

/// Answers with the message that `id` names as a UUID.
pub fn get_message(storage: &FileStorage, id: &str) -> (r: Result<Message, StatusCode>)
    ensures
        finds_message(storage@, parsed_id(id@), r),
{
    find_message(storage, parse_id(id))
}

/// What [`change_message`] and [`update_message`] promise, given the
/// identifier that was read from the request.
pub open spec fn changes_message(
    before: DataStoreView,
    id: Option<u128>,
    payload: UpdateMessageView,
    after: DataStoreView,
    r: Result<Message, StatusCode>,
) -> bool {
    match id {
        None => r == Err::<Message, StatusCode>(StatusCode::BadRequest) && after == before,
        Some(id) => match r {
            Ok(m) => {
                &&& before.messages.contains_key(id)
                &&& m@ == before.messages[id].updated(payload, m.updated_at)
                &&& after == before.with_message(m@, m.updated_at)
            },
            Err(e) => {
                &&& e == StatusCode::NotFound
                &&& !before.messages.contains_key(id)
                &&& after == before
            },
        },
    }
}

/// Applies `payload` to the message whose identifier was read from the
/// request, and answers with the message as it then is.
pub fn change_message(storage: &mut FileStorage, id: Option<u128>, payload: UpdateMessage) -> (r:
    Result<Message, StatusCode>)
    ensures
        changes_message(old(storage)@, id, payload@, final(storage)@, r),
{
    match id {
        None => Err(StatusCode::BadRequest),
        Some(id) => match storage.update_message(id, payload) {
            Some(m) => Ok(m),
            None => Err(StatusCode::NotFound),
        },
    }
}

/// Applies `payload` to the message that `id` names as a UUID, and answers
/// with the message as it then is.
pub fn update_message(storage: &mut FileStorage, id: &str, payload: UpdateMessage) -> (r: Result<
    Message,
    StatusCode,
>)
    ensures
        changes_message(old(storage)@, parsed_id(id@), payload@, final(storage)@, r),
{
    change_message(storage, parse_id(id), payload)
}

/// What [`remove_message`] and [`delete_message`] promise, given the
/// identifier that was read from the request.
pub open spec fn removes_message(
    before: DataStoreView,
    id: Option<u128>,
    after: DataStoreView,
    r: Result<StatusCode, StatusCode>,
) -> bool {
    match id {
        None => r == Err::<StatusCode, StatusCode>(StatusCode::BadRequest) && after == before,
        Some(id) => if before.messages.contains_key(id) {
            &&& r == Ok::<StatusCode, StatusCode>(StatusCode::NoContent)
            &&& after == before.without_message(id, after.last_updated)
        } else {
            &&& r == Err::<StatusCode, StatusCode>(StatusCode::NotFound)
            &&& after == before
        },
    }
}

/// Removes the message whose identifier was read from the request.
pub fn remove_message(storage: &mut FileStorage, id: Option<u128>) -> (r: Result<
    StatusCode,
    StatusCode,
>)
    ensures
        removes_message(old(storage)@, id, final(storage)@, r),
{
    match id {
        None => Err(StatusCode::BadRequest),
        Some(id) => if storage.delete_message(id) {
            Ok(StatusCode::NoContent)
        } else {
            Err(StatusCode::NotFound)
        },
    }
}

/// Removes the message that `id` names as a UUID.
pub fn delete_message(storage: &mut FileStorage, id: &str) -> (r: Result<StatusCode, StatusCode>)
    ensures
        removes_message(old(storage)@, parsed_id(id@), final(storage)@, r),
{
    remove_message(storage, parse_id(id))
}

/// What [`toggle_message`] and [`toggle_message_enabled`] promise, given
/// the identifier that was read from the request: the message's `enabled`
/// flag is turned over, and nothing else of it changes but the time of its
/// last update.
pub open spec fn toggles_message(
    before: DataStoreView,
    id: Option<u128>,
    after: DataStoreView,
    r: Result<Message, StatusCode>,
) -> bool {
    match id {
        None => r == Err::<Message, StatusCode>(StatusCode::BadRequest) && after == before,
        Some(id) => match r {
            Ok(m) => {
                &&& before.messages.contains_key(id)
                &&& m@ == before.messages[id].updated(
                    UpdateMessageView::only_enabled(!before.messages[id].enabled),
                    m.updated_at,
                )
                &&& after == before.with_message(m@, m.updated_at)
            },
            Err(e) => {
                &&& e == StatusCode::NotFound
                &&& !before.messages.contains_key(id)
                &&& after == before
            },
        },
    }
}

/// Turns over the `enabled` flag of the message whose identifier was read
/// from the request, and answers with the message as it then is. The flag is
/// read and written in one step: no other change can come between.
pub fn toggle_message(storage: &mut FileStorage, id: Option<u128>) -> (r: Result<
    Message,
    StatusCode,
>)
    ensures
        toggles_message(old(storage)@, id, final(storage)@, r),
{
    match id {
        None => Err(StatusCode::BadRequest),
        Some(id) => match storage.get_message(id) {
            None => Err(StatusCode::NotFound),
            Some(current) => {
                let update = UpdateMessage {
                    title: None,
                    content: None,
                    author: None,
                    priority: None,
                    expires_at: None,
                    enabled: Some(!current.enabled),
                };
                match storage.update_message(id, update) {
                    Some(m) => Ok(m),
                    None => Err(StatusCode::NotFound),
                }
            },
        },
    }
}

/// Turns over the `enabled` flag of the message that `id` names as a UUID.
pub fn toggle_message_enabled(storage: &mut FileStorage, id: &str) -> (r: Result<
    Message,
    StatusCode,
>)
    ensures
        toggles_message(old(storage)@, parsed_id(id@), final(storage)@, r),
{
    toggle_message(storage, parse_id(id))
}

/// Answers with every client, in the order in which they were first
/// registered.
pub fn get_clients(storage: &FileStorage) -> (list: Vec<ClientStatus>)
    ensures
        client_views(list@) == storage@.clients,
{
    storage.get_clients()
}

/// Answers with the snapshot's statistics as of now.
pub fn get_stats(storage: &FileStorage) -> (stats: DataStats)
    ensures
        exists|now: Timestamp| #[trigger] storage@.has_stats(now, stats),
{
    storage.get_stats()
}

} // verus!
