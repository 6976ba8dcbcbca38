use bulletin_board::handlers::{
    change_message, create_message, delete_message, find_message, get_active_messages,
    get_clients, get_message, get_messages, get_messages_paginated, get_stats, remove_message,
    toggle_message, toggle_message_enabled, update_message, StatusCode,
};
use bulletin_board::models::{CreateMessage, PaginationParams, Priority, UpdateMessage};
use bulletin_board::storage::{ClientStatus, DataStore, FileStorage};
use bulletin_board::time::Timestamp;

const KNOWN: &str = "a1a2a3a4-b1b2-c1c2-d1d2-d3d4d5d6d7d8";
const KNOWN_ID: u128 = 0xa1a2a3a4b1b2c1c2d1d2d3d4d5d6d7d8;
const UNKNOWN: &str = "00000000-0000-4000-8000-000000000001";

fn new_message(title: &str, priority: Priority) -> CreateMessage {
    CreateMessage {
        title: title.to_string(),
        content: "text".to_string(),
        author: "ada".to_string(),
        priority,
        expires_at: None,
    }
}

fn retitle(title: &str) -> UpdateMessage {
    UpdateMessage {
        title: Some(title.to_string()),
        content: None,
        author: None,
        priority: None,
        expires_at: None,
        enabled: None,
    }
}

fn storage_with_known_message() -> FileStorage {
    let mut data = DataStore::new();
    data.insert_message(KNOWN_ID, Timestamp { secs: 100, nanos: 0 }, new_message("known", Priority::Normal));
    FileStorage::new(Some(data))
}

fn now_secs() -> i64 {
    chrono::Utc::now().timestamp()
}

#[test]
fn storage_starts_from_what_was_loaded() {
    let empty = FileStorage::new(None);
    assert!(empty.get_messages().is_empty());
    assert!(empty.get_clients().is_empty());
    assert_eq!(empty.data().last_updated(), Timestamp { secs: 0, nanos: 0 });
    let loaded = storage_with_known_message();
    assert_eq!(loaded.get_messages().len(), 1);
    assert_eq!(loaded.data().last_updated(), Timestamp { secs: 100, nanos: 0 });
}

#[test]
fn created_message_gets_a_random_uuid_and_the_time() {
    let mut storage = FileStorage::new(None);
    let before = now_secs();
    let (status, m) = create_message(&mut storage, new_message("hello", Priority::High));
    let after = now_secs();
    assert_eq!(status, StatusCode::Created);
    assert_eq!(m.id & 0xF000_C000_0000_0000_0000, 0x4000_8000_0000_0000_0000);
    assert_eq!(uuid::Uuid::from_u128(m.id).get_version_num(), 4);
    assert_eq!(uuid::Uuid::from_u128(m.id).get_variant(), uuid::Variant::RFC4122);
    assert_eq!(m.created_at, m.updated_at);
    assert!(before <= m.created_at.secs && m.created_at.secs <= after);
    assert!(m.created_at.nanos < 1_000_000_000);
    assert!(m.enabled);
    assert_eq!(m.title, "hello");
    assert_eq!(storage.get_message(m.id), Some(m.clone()));
    assert_eq!(storage.data().last_updated(), m.created_at);
    let (_, other) = create_message(&mut storage, new_message("again", Priority::High));
    assert_ne!(other.id, m.id);
    assert_eq!(storage.get_messages().len(), 2);
}

#[test]
fn get_message_reads_the_uuid() {
    let storage = storage_with_known_message();
    assert_eq!(get_message(&storage, KNOWN).unwrap().title, "known");
    assert_eq!(get_message(&storage, KNOWN).unwrap().id, KNOWN_ID);
    assert_eq!(get_message(&storage, "A1A2A3A4B1B2C1C2D1D2D3D4D5D6D7D8").unwrap().id, KNOWN_ID);
    assert_eq!(
        get_message(&storage, "urn:uuid:a1a2a3a4-b1b2-c1c2-d1d2-d3d4d5d6d7d8").unwrap().id,
        KNOWN_ID
    );
    assert_eq!(
        get_message(&storage, "{a1a2a3a4-b1b2-c1c2-d1d2-d3d4d5d6d7d8}").unwrap().id,
        KNOWN_ID
    );
    assert_eq!(get_message(&storage, UNKNOWN), Err(StatusCode::NotFound));
    assert_eq!(get_message(&storage, "not-a-uuid"), Err(StatusCode::BadRequest));
    assert_eq!(get_message(&storage, ""), Err(StatusCode::BadRequest));
    assert_eq!(get_message(&storage, "a1a2a3a4-b1b2-c1c2-d1d2-d3d4d5d6d7d"), Err(StatusCode::BadRequest));
}

#[test]
fn find_message_by_what_was_read() {
    let storage = storage_with_known_message();
    assert_eq!(find_message(&storage, None), Err(StatusCode::BadRequest));
    assert_eq!(find_message(&storage, Some(1)), Err(StatusCode::NotFound));
    assert_eq!(find_message(&storage, Some(KNOWN_ID)).unwrap().title, "known");
}

#[test]
fn update_message_by_uuid() {
    let mut storage = storage_with_known_message();
    let before = now_secs();
    let m = update_message(&mut storage, KNOWN, retitle("renamed")).unwrap();
    assert_eq!(m.title, "renamed");
    assert_eq!(m.content, "text");
    assert_eq!(m.created_at, Timestamp { secs: 100, nanos: 0 });
    assert!(m.updated_at.secs >= before);
    assert!(m.updated_at.is_after(&m.created_at));
    assert_eq!(storage.data().last_updated(), m.updated_at);
    assert_eq!(storage.get_message(KNOWN_ID), Some(m));
    assert_eq!(update_message(&mut storage, UNKNOWN, retitle("x")), Err(StatusCode::NotFound));
    assert_eq!(update_message(&mut storage, "nonsense", retitle("x")), Err(StatusCode::BadRequest));
    assert_eq!(change_message(&mut storage, None, retitle("x")), Err(StatusCode::BadRequest));
    assert_eq!(change_message(&mut storage, Some(5), retitle("x")), Err(StatusCode::NotFound));
    assert_eq!(storage.get_message(KNOWN_ID).unwrap().title, "renamed");
}

#[test]
fn delete_message_by_uuid() {
    let mut storage = storage_with_known_message();
    let loaded_at = storage.data().last_updated();
    assert_eq!(delete_message(&mut storage, "nonsense"), Err(StatusCode::BadRequest));
    assert_eq!(delete_message(&mut storage, UNKNOWN), Err(StatusCode::NotFound));
    assert_eq!(remove_message(&mut storage, None), Err(StatusCode::BadRequest));
    assert_eq!(storage.data().last_updated(), loaded_at);
    assert_eq!(storage.get_messages().len(), 1);
    assert_eq!(delete_message(&mut storage, KNOWN), Ok(StatusCode::NoContent));
    assert!(storage.data().last_updated().is_after(&loaded_at));
    assert_eq!(storage.get_message(KNOWN_ID), None);
    let removed_at = storage.data().last_updated();
    assert_eq!(delete_message(&mut storage, KNOWN), Err(StatusCode::NotFound));
    assert_eq!(remove_message(&mut storage, Some(KNOWN_ID)), Err(StatusCode::NotFound));
    assert_eq!(storage.data().last_updated(), removed_at);
}

#[test]
fn toggle_turns_the_flag_over() {
    let mut storage = storage_with_known_message();
    let off = toggle_message_enabled(&mut storage, KNOWN).unwrap();
    assert!(!off.enabled);
    assert_eq!(off.title, "known");
    assert_eq!(off.created_at, Timestamp { secs: 100, nanos: 0 });
    assert!(!storage.get_message(KNOWN_ID).unwrap().enabled);
    let on = toggle_message(&mut storage, Some(KNOWN_ID)).unwrap();
    assert!(on.enabled);
    assert_eq!(toggle_message_enabled(&mut storage, UNKNOWN), Err(StatusCode::NotFound));
    assert_eq!(toggle_message_enabled(&mut storage, "{}"), Err(StatusCode::BadRequest));
    assert_eq!(toggle_message(&mut storage, None), Err(StatusCode::BadRequest));
    // A disabled message is still active: only its expiry decides that.
    toggle_message_enabled(&mut storage, KNOWN).unwrap();
    assert_eq!(get_active_messages(&storage).len(), 1);
}

#[test]
fn listings_through_the_store() {
    let mut data = DataStore::new();
    let long_ago = Timestamp { secs: 1, nanos: 0 };
    let far_ahead = Timestamp { secs: i64::MAX, nanos: 0 };
    data.insert_message(1, long_ago, CreateMessage { expires_at: Some(long_ago), ..new_message("expired", Priority::Urgent) });
    data.insert_message(2, long_ago, CreateMessage { expires_at: Some(far_ahead), ..new_message("low", Priority::Low) });
    data.insert_message(3, long_ago, new_message("urgent", Priority::Urgent));
    let storage = FileStorage::new(Some(data));
    assert_eq!(get_messages(&storage).len(), 3);
    let active: Vec<String> = get_active_messages(&storage).into_iter().map(|m| m.title).collect();
    assert_eq!(active, vec!["urgent", "low"]);
    let page = get_messages_paginated(&storage, PaginationParams { page: None, page_size: None });
    assert_eq!(page.page, 1);
    assert_eq!(page.page_size, 10);
    assert_eq!(page.total, 2);
    assert_eq!(page.total_pages, 1);
    assert_eq!(page.data.len(), 2);
    let small = get_messages_paginated(&storage, PaginationParams { page: Some(2), page_size: Some(1) });
    assert_eq!(small.total_pages, 2);
    assert_eq!(small.data.len(), 1);
    assert_eq!(small.data[0].title, "low");
    let clamped = get_messages_paginated(&storage, PaginationParams { page: Some(0), page_size: Some(1_000) });
    assert_eq!(clamped.page, 1);
    assert_eq!(clamped.page_size, 100);
    let direct = storage.get_active_messages_paginated(3, 1);
    assert!(direct.data.is_empty());
    assert_eq!(direct.total_pages, 2);
    let stats = get_stats(&storage);
    assert_eq!(stats.total_messages, 3);
    assert_eq!(stats.active_messages, 2);
    assert_eq!(stats.last_updated, long_ago);
}

#[test]
fn clients_through_the_store() {
    let mut storage = FileStorage::new(None);
    let now = chrono::Utc::now();
    let seen = |minutes_ago: i64| Timestamp {
        secs: now.timestamp() - minutes_ago * 60,
        nanos: now.timestamp_subsec_nanos(),
    };
    let client = |id: &str, minutes_ago: i64| ClientStatus {
        id: id.to_string(),
        name: id.to_string(),
        last_seen: seen(minutes_ago),
        is_online: true,
        ip_address: None,
        device_info: Some("phone".to_string()),
    };
    storage.update_client_status(client("fresh", 1));
    let first_change = storage.data().last_updated();
    assert!(first_change.secs >= now.timestamp());
    storage.update_client_status(client("stale", 10));
    assert_eq!(get_clients(&storage).len(), 2);
    let online = storage.get_online_clients();
    assert_eq!(online.len(), 1);
    assert_eq!(online[0].id, "fresh");
    let stats = get_stats(&storage);
    assert_eq!(stats.total_clients, 2);
    assert_eq!(stats.online_clients, 1);
    assert!(!storage.mark_client_offline("nobody"));
    assert!(storage.mark_client_offline("fresh"));
    assert!(storage.get_online_clients().is_empty());
    let all = get_clients(&storage);
    assert_eq!(all[0].id, "fresh");
    assert!(!all[0].is_online);
    assert!(all[0].last_seen.secs >= now.timestamp());
    assert_eq!(get_stats(&storage).online_clients, 0);
}
