use bulletin_board::handlers::StatusCode;
use bulletin_board::listing::{insert_in_order, page_bounds, total_pages};
use bulletin_board::models::{
    CreateMessage, Message, PaginationParams, Priority, UpdateMessage, DEFAULT_PAGE,
    DEFAULT_PAGE_SIZE, MAX_PAGE_SIZE,
};
use bulletin_board::time::Timestamp;

fn message(id: u128, priority: Priority, created_secs: i64) -> Message {
    Message::create(
        id,
        Timestamp { secs: created_secs, nanos: 0 },
        CreateMessage {
            title: format!("m{}", id),
            content: String::new(),
            author: String::new(),
            priority,
            expires_at: None,
        },
    )
}

#[test]
fn priority_ranks() {
    assert_eq!(Priority::Urgent.rank(), 1);
    assert_eq!(Priority::High.rank(), 2);
    assert_eq!(Priority::Normal.rank(), 3);
    assert_eq!(Priority::Low.rank(), 4);
}

#[test]
fn timestamps_are_ordered_by_instant() {
    let a = Timestamp { secs: 5, nanos: 999_999_999 };
    let b = Timestamp { secs: 6, nanos: 0 };
    assert!(b.is_after(&a));
    assert!(!a.is_after(&b));
    assert!(!a.is_after(&a));
    assert_eq!(b.nanos_since(&a), 1);
    assert_eq!(a.nanos_since(&b), -1);
    assert_eq!(a.as_nanos(), 5_999_999_999);
    assert_eq!(Timestamp { secs: -1, nanos: 1 }.as_nanos(), -999_999_999);
    assert_eq!(Timestamp::epoch(), Timestamp { secs: 0, nanos: 0 });
    assert_eq!(Timestamp::epoch().as_nanos(), 0);
    assert_eq!(
        Timestamp { secs: i64::MIN, nanos: 0 }.as_nanos(),
        (i64::MIN as i128) * 1_000_000_000
    );
}

#[test]
fn message_create_and_apply() {
    let mut m = message(9, Priority::Low, 100);
    assert_eq!(m.created_at, m.updated_at);
    assert!(m.enabled);
    let copy = m.clone();
    assert_eq!(copy, m);
    m.apply(
        UpdateMessage {
            title: None,
            content: None,
            author: None,
            priority: None,
            expires_at: None,
            enabled: Some(false),
        },
        Timestamp { secs: 101, nanos: 0 },
    );
    assert!(!m.enabled);
    assert_eq!(m.title, copy.title);
    assert_eq!(m.updated_at, Timestamp { secs: 101, nanos: 0 });
    assert_eq!(m.created_at, copy.created_at);
}

#[test]
fn listed_before_compares_rank_then_age() {
    let urgent_old = message(1, Priority::Urgent, 1);
    let urgent_new = message(2, Priority::Urgent, 2);
    let low_new = message(3, Priority::Low, 3);
    assert!(urgent_new.listed_before(&urgent_old));
    assert!(!urgent_old.listed_before(&urgent_new));
    assert!(urgent_old.listed_before(&low_new));
    assert!(!low_new.listed_before(&urgent_old));
    assert!(urgent_old.listed_before(&urgent_old));
}

#[test]
fn insert_in_order_finds_the_place() {
    let mut list: Vec<Message> = Vec::new();
    assert_eq!(insert_in_order(&mut list, message(1, Priority::Normal, 10)), 0);
    assert_eq!(insert_in_order(&mut list, message(2, Priority::Urgent, 5)), 0);
    assert_eq!(insert_in_order(&mut list, message(3, Priority::Low, 50)), 2);
    assert_eq!(insert_in_order(&mut list, message(4, Priority::Normal, 20)), 1);
    assert_eq!(insert_in_order(&mut list, message(5, Priority::Normal, 10)), 3);
    let ids: Vec<u128> = list.iter().map(|m| m.id).collect();
    assert_eq!(ids, vec![2, 4, 1, 5, 3]);
}

#[test]
fn total_pages_rounds_up() {
    assert_eq!(total_pages(0, 10), 0);
    assert_eq!(total_pages(1, 10), 1);
    assert_eq!(total_pages(10, 10), 1);
    assert_eq!(total_pages(11, 10), 2);
    assert_eq!(total_pages(20, 10), 2);
    assert_eq!(total_pages(25, 10), 3);
    assert_eq!(total_pages(1, 100), 1);
    assert_eq!(total_pages(7, 1), 7);
    assert_eq!(total_pages(u32::MAX as usize, 1), u32::MAX);
    assert_eq!(total_pages(usize::MAX, u32::MAX), if usize::BITS > 32 { u32::MAX } else { 1 });
}

#[test]
fn total_pages_is_held_at_the_largest_number() {
    if usize::BITS > 32 {
        assert_eq!(total_pages(usize::MAX, 1), u32::MAX);
        assert_eq!(total_pages(u32::MAX as usize + 1, 1), u32::MAX);
        assert_eq!(total_pages((u32::MAX as usize) * 2 + 1, 2), u32::MAX);
        assert_eq!(total_pages((u32::MAX as usize) * 2 - 1, 2), u32::MAX);
        assert_eq!(total_pages((u32::MAX as usize) * 2 - 2, 2), u32::MAX - 1);
    }
}

#[test]
fn page_bounds_of_a_listing() {
    assert_eq!(page_bounds(25, 1, 10), (0, 10));
    assert_eq!(page_bounds(25, 2, 10), (10, 20));
    assert_eq!(page_bounds(25, 3, 10), (20, 25));
    assert_eq!(page_bounds(25, 4, 10), (25, 25));
    assert_eq!(page_bounds(0, 1, 10), (0, 0));
    assert_eq!(page_bounds(5, 1, 100), (0, 5));
    assert_eq!(page_bounds(25, u32::MAX, u32::MAX), (25, 25));
    assert_eq!(page_bounds(25, 26, 1), (25, 25));
    assert_eq!(page_bounds(25, 25, 1), (24, 25));
}

#[test]
fn pagination_params_defaults_and_limits() {
    let none = PaginationParams { page: None, page_size: None };
    assert_eq!(none.page_or_default(), 1);
    assert_eq!(none.page_size_or_default(), 10);
    assert_eq!(DEFAULT_PAGE, 1);
    assert_eq!(DEFAULT_PAGE_SIZE, 10);
    assert_eq!(MAX_PAGE_SIZE, 100);
    let zero = PaginationParams { page: Some(0), page_size: Some(0) };
    assert_eq!(zero.page_or_default(), 1);
    assert_eq!(zero.page_size_or_default(), 1);
    let big = PaginationParams { page: Some(u32::MAX), page_size: Some(101) };
    assert_eq!(big.page_or_default(), u32::MAX);
    assert_eq!(big.page_size_or_default(), 100);
    let plain = PaginationParams { page: Some(3), page_size: Some(100) };
    assert_eq!(plain.page_or_default(), 3);
    assert_eq!(plain.page_size_or_default(), 100);
}

#[test]
fn status_codes_as_numbers() {
    assert_eq!(StatusCode::Created.as_u16(), 201);
    assert_eq!(StatusCode::NoContent.as_u16(), 204);
    assert_eq!(StatusCode::BadRequest.as_u16(), 400);
    assert_eq!(StatusCode::NotFound.as_u16(), 404);
}
