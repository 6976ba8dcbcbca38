//! The values the board is made of: messages, their priority, and the
//! payloads that create, change and page through them.

use vstd::prelude::*;
use crate::time::Timestamp;

verus! {

/// The page shown when a request names none.
pub const DEFAULT_PAGE: u32 = 1;

/// The page size used when a request names none.
pub const DEFAULT_PAGE_SIZE: u32 = 10;

/// The largest page size a request can obtain.
pub const MAX_PAGE_SIZE: u32 = 100;

/// How urgent a message is.
#[derive(Clone, Copy, Debug, PartialEq, Eq, Structural)]
pub enum Priority {
    Low,
    Normal,
    High,
    Urgent,
}

impl Priority {
    /// The rank by which messages are listed: 1 for the most urgent, 4 for
    /// the least. A lower rank is listed first.
    pub open spec fn rank_spec(self) -> int {
        match self {
            Priority::Urgent => 1,
            Priority::High => 2,
            Priority::Normal => 3,
            Priority::Low => 4,
        }
    }

    /// The rank of this priority, see [`Priority::rank_spec`].
    pub fn rank(self) -> (r: u8)
        ensures
            r == self.rank_spec(),
            1 <= r <= 4,
    {
        match self {
            Priority::Urgent => 1,
            Priority::High => 2,
            Priority::Normal => 3,
            Priority::Low => 4,
        }
    }
}

/// A message on the board.
#[derive(Debug, PartialEq, Eq)]
pub struct Message {
    pub id: u128,
    pub title: String,
    pub content: String,
    pub author: String,
    pub created_at: Timestamp,
    pub updated_at: Timestamp,
    pub priority: Priority,
    pub expires_at: Option<Timestamp>,
    pub enabled: bool,
}

/// What a [`Message`] says, with its texts as sequences of characters.
pub struct MessageView {
    pub id: u128,
    pub title: Seq<char>,
    pub content: Seq<char>,
    pub author: Seq<char>,
    pub created_at: Timestamp,
    pub updated_at: Timestamp,
    pub priority: Priority,
    pub expires_at: Option<Timestamp>,
    pub enabled: bool,
}

impl View for Message {
    type V = MessageView;

    open spec fn view(&self) -> MessageView {
        MessageView {
            id: self.id,
            title: self.title@,
            content: self.content@,
            author: self.author@,
            created_at: self.created_at,
            updated_at: self.updated_at,
            priority: self.priority,
            expires_at: self.expires_at,
            enabled: self.enabled,
        }
    }
}

impl Clone for Message {
    fn clone(&self) -> (r: Self)
        ensures
            r == *self,
    {
        Message {
            id: self.id,
            title: self.title.clone(),
            content: self.content.clone(),
            author: self.author.clone(),
            created_at: self.created_at,
            updated_at: self.updated_at,
            priority: self.priority,
            expires_at: self.expires_at,
            enabled: self.enabled,
        }
    }
}

/// The payload that creates a message.
#[derive(Debug, PartialEq, Eq)]
pub struct CreateMessage {
    pub title: String,
    pub content: String,
    pub author: String,
    pub priority: Priority,
    pub expires_at: Option<Timestamp>,
}

/// What a [`CreateMessage`] says.
pub struct CreateMessageView {
    pub title: Seq<char>,
    pub content: Seq<char>,
    pub author: Seq<char>,
    pub priority: Priority,
    pub expires_at: Option<Timestamp>,
}

impl View for CreateMessage {
    type V = CreateMessageView;

    open spec fn view(&self) -> CreateMessageView {
        CreateMessageView {
            title: self.title@,
            content: self.content@,
            author: self.author@,
            priority: self.priority,
            expires_at: self.expires_at,
        }
    }
}

/// The payload that changes a message: a field that is `None` leaves the
/// message's field as it is.
#[derive(Debug, PartialEq, Eq)]
pub struct UpdateMessage {
    pub title: Option<String>,
    pub content: Option<String>,
    pub author: Option<String>,
    pub priority: Option<Priority>,
    pub expires_at: Option<Timestamp>,
    pub enabled: Option<bool>,
}

/// What an [`UpdateMessage`] says.
pub struct UpdateMessageView {
    pub title: Option<Seq<char>>,
    pub content: Option<Seq<char>>,
    pub author: Option<Seq<char>>,
    pub priority: Option<Priority>,
    pub expires_at: Option<Timestamp>,
    pub enabled: Option<bool>,
}

/// The characters of an optional text.
pub open spec fn text_view(s: Option<String>) -> Option<Seq<char>> {
    match s {
        Some(t) => Some(t@),
        None => None,
    }
}

impl View for UpdateMessage {
    type V = UpdateMessageView;

    open spec fn view(&self) -> UpdateMessageView {
        UpdateMessageView {
            title: text_view(self.title),
            content: text_view(self.content),
            author: text_view(self.author),
            priority: self.priority,
            expires_at: self.expires_at,
            enabled: self.enabled,
        }
    }
}

impl UpdateMessageView {
    /// The payload that changes nothing but the `enabled` flag.
    pub open spec fn only_enabled(enabled: bool) -> UpdateMessageView {
        UpdateMessageView {
            title: None,
            content: None,
            author: None,
            priority: None,
            expires_at: None,
            enabled: Some(enabled),
        }
    }
}

impl MessageView {
    /// The message that `payload` creates under `id` at the time `now`:
    /// created and last updated at `now`, and enabled.
    pub open spec fn created(id: u128, now: Timestamp, payload: CreateMessageView) -> MessageView {
        MessageView {
            id,
            title: payload.title,
            content: payload.content,
            author: payload.author,
            created_at: now,
            updated_at: now,
            priority: payload.priority,
            expires_at: payload.expires_at,
            enabled: true,
        }
    }

    /// This message after `update` was applied at the time `now`: each field
    /// the update names takes the update's value, every other field stays, and
    /// `updated_at` becomes `now`.
    pub open spec fn updated(self, update: UpdateMessageView, now: Timestamp) -> MessageView {
        MessageView {
            id: self.id,
            title: match update.title {
                Some(t) => t,
                None => self.title,
            },
            content: match update.content {
                Some(c) => c,
                None => self.content,
            },
            author: match update.author {
                Some(a) => a,
                None => self.author,
            },
            created_at: self.created_at,
            updated_at: now,
            priority: match update.priority {
                Some(p) => p,
                None => self.priority,
            },
            expires_at: match update.expires_at {
                Some(e) => Some(e),
                None => self.expires_at,
            },
            enabled: match update.enabled {
                Some(e) => e,
                None => self.enabled,
            },
        }
    }

    /// A message is active at `now` when it never expires, or expires
    /// strictly after `now`.
    pub open spec fn is_active(self, now: Timestamp) -> bool {
        match self.expires_at {
            None => true,
            Some(e) => e.instant() > now.instant(),
        }
    }

    /// Whether this message may stand before `other` in a listing: its
    /// priority ranks higher, or ranks the same and it was created no earlier.
    pub open spec fn listed_before(self, other: MessageView) -> bool {
        ||| self.priority.rank_spec() < other.priority.rank_spec()
        ||| (self.priority.rank_spec() == other.priority.rank_spec()
            && self.created_at.instant() >= other.created_at.instant())
    }
}

impl Message {
    /// The message that `payload` creates, see [`MessageView::created`].
    pub fn create(id: u128, now: Timestamp, payload: CreateMessage) -> (m: Message)
        ensures
            m@ == MessageView::created(id, now, payload@),
    {
        Message {
            id,
            title: payload.title,
            content: payload.content,
            author: payload.author,
            created_at: now,
            updated_at: now,
            priority: payload.priority,
            expires_at: payload.expires_at,
            enabled: true,
        }
    }

    /// Applies `update` to this message, see [`MessageView::updated`].
    pub fn apply(&mut self, update: UpdateMessage, now: Timestamp)
        ensures
            final(self)@ == old(self)@.updated(update@, now),
    {
        if let Some(title) = update.title {
            self.title = title;
        }
        if let Some(content) = update.content {
            self.content = content;
        }
        if let Some(author) = update.author {
            self.author = author;
        }
        if let Some(priority) = update.priority {
            self.priority = priority;
        }
        if let Some(expires_at) = update.expires_at {
            self.expires_at = Some(expires_at);
        }
        if let Some(enabled) = update.enabled {
            self.enabled = enabled;
        }
        self.updated_at = now;
    }

    /// Whether the message is active at `now`, see [`MessageView::is_active`].
    pub fn is_active(&self, now: &Timestamp) -> (r: bool)
        ensures
            r == self@.is_active(*now),
    {
        match &self.expires_at {
            None => true,
            Some(e) => e.is_after(now),
        }
    }

    /// Whether the message may stand before `other` in a listing, see
    /// [`MessageView::listed_before`].
    pub fn listed_before(&self, other: &Message) -> (r: bool)
        ensures
            r == self@.listed_before(other@),
    {
        let mine: u8 = self.priority.rank();
        let theirs: u8 = other.priority.rank();
        mine < theirs || (mine == theirs && !other.created_at.is_after(&self.created_at))
    }
}

/// What each message of `list` says, in the same order.
pub open spec fn message_views(list: Seq<Message>) -> Seq<MessageView> {
    list.map_values(|m: Message| m@)
}

/// The page a request asks for; a field that is `None` takes its default.
#[derive(Clone, Copy, Debug, PartialEq, Eq, Structural)]
pub struct PaginationParams {
    pub page: Option<u32>,
    pub page_size: Option<u32>,
}

impl PaginationParams {
    /// The page that is served: the one asked for, or the first one where
    /// none, or page 0, was asked for.
    pub open spec fn effective_page(self) -> u32 {
        match self.page {
            Some(p) => if p < 1 { 1 } else { p },
            None => DEFAULT_PAGE,
        }
    }

    /// The page size that is served: the one asked for, brought into the
    /// range from 1 to [`MAX_PAGE_SIZE`], or [`DEFAULT_PAGE_SIZE`] where none
    /// was asked for.
    pub open spec fn effective_page_size(self) -> u32 {
        match self.page_size {
            Some(s) => if s < 1 { 1 } else if s > MAX_PAGE_SIZE { MAX_PAGE_SIZE } else { s },
            None => DEFAULT_PAGE_SIZE,
        }
    }

    /// The page that is served, see [`PaginationParams::effective_page`].
    pub fn page_or_default(&self) -> (p: u32)
        ensures
            p == self.effective_page(),
            p >= 1,
    {
        match self.page {
            Some(p) => if p < 1 { 1 } else { p },
            None => DEFAULT_PAGE,
        }
    }

    /// The page size that is served, see
    /// [`PaginationParams::effective_page_size`].
    pub fn page_size_or_default(&self) -> (s: u32)
        ensures
            s == self.effective_page_size(),
            1 <= s <= MAX_PAGE_SIZE,
    {
        match self.page_size {
            Some(s) => if s < 1 { 1 } else if s > MAX_PAGE_SIZE { MAX_PAGE_SIZE } else { s },
            None => DEFAULT_PAGE_SIZE,
        }
    }
}

/// One page of a listing, with the figures that describe the whole listing.
#[derive(Debug, PartialEq, Eq)]
pub struct PaginatedResponse<T> {
    /// The items of the page asked for.
    pub data: Vec<T>,
    /// How many items the whole listing has.
    pub total: usize,
    /// The page asked for, counted from 1.
    pub page: u32,
    /// How many items a full page holds.
    pub page_size: u32,
    /// How many pages the whole listing has.
    pub total_pages: u32,
}

} // verus!
