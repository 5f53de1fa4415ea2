use notification_service::errors::AuthError;
use notification_service::notification::{CreateNotificationRequest, NotificationQuery};
use notification_service::service::Service;
use notification_service::token::Claims;
use notification_service::user::CreateUserRequest;

fn subject(sub: &str) -> Claims {
    Claims {
        sub: sub.to_string(),
        username: "x".to_string(),
        exp: 0,
        iat: 0,
    }
}

fn post(title: &str, published: Option<bool>) -> CreateNotificationRequest {
    CreateNotificationRequest {
        title: title.to_string(),
        content: format!("content of {}", title),
        priority: None,
        is_published: published,
    }
}

fn query(page: Option<u32>, per_page: Option<u32>) -> NotificationQuery {
    NotificationQuery {
        page,
        per_page,
        priority: None,
        search: None,
    }
}

/// A service with one admin (identifier 1) and one regular user
/// (identifier 2).
fn service_with_users() -> Service {
    let mut s = Service::new("test-secret".to_string(), 3600);
    s.register(&CreateUserRequest {
        username: "admin".to_string(),
        password: "adminpw".to_string(),
        is_admin: Some(true),
    })
    .unwrap();
    s.register(&CreateUserRequest {
        username: "bob".to_string(),
        password: "bobpw".to_string(),
        is_admin: Some(false),
    })
    .unwrap();
    s
}

#[test]
fn non_admin_cannot_post_and_admin_post_is_retrievable() {
    let mut s = service_with_users();

    let denied = s.create_notification(&subject("2"), &post("hello", None));
    assert_eq!(denied.unwrap_err(), AuthError::Forbidden);

    let resp = s
        .create_notification(&subject("1"), &post("hello", None))
        .expect("an administrator posts");
    assert_eq!(resp.title, "hello");
    assert_eq!(resp.priority, "medium");
    assert_eq!(resp.author_id, 1);
    assert_eq!(resp.author_username.as_deref(), Some("admin"));
    assert!(resp.is_published);
    assert!(resp.attachments.is_empty());

    let fetched = s.get_notification(resp.id).expect("immediately retrievable");
    assert_eq!(fetched.id, resp.id);
    assert_eq!(fetched.title, "hello");

    let list = s.get_notifications(&query(None, None));
    assert_eq!(list.total, 1);
    assert_eq!(list.pages, 1);
    assert_eq!(list.current_page, 1);
    assert_eq!(list.per_page, 10);
    assert_eq!(list.notifications.len(), 1);
    assert_eq!(list.notifications[0].id, resp.id);
}

#[test]
fn posting_by_unknown_or_malformed_subject_fails() {
    let mut s = service_with_users();
    assert_eq!(
        s.create_notification(&subject("99"), &post("a", None)).unwrap_err(),
        AuthError::NotFound
    );
    assert_eq!(
        s.create_notification(&subject("one"), &post("a", None)).unwrap_err(),
        AuthError::InvalidInput
    );
}

#[test]
fn listing_pages_newest_first_and_hides_unpublished() {
    let mut s = service_with_users();
    let admin = subject("1");
    let mut ids = Vec::new();
    for k in 0..5 {
        let r = s
            .create_notification(&admin, &post(&format!("n{}", k), Some(true)))
            .unwrap();
        ids.push(r.id);
    }
    let hidden = s
        .create_notification(&admin, &post("draft", Some(false)))
        .unwrap();

    // The draft is not retrievable and not listed.
    assert_eq!(s.get_notification(hidden.id).unwrap_err(), AuthError::NotFound);

    let page1 = s.get_notifications(&query(Some(1), Some(2)));
    assert_eq!(page1.total, 5);
    assert_eq!(page1.pages, 3);
    assert_eq!(page1.current_page, 1);
    assert_eq!(page1.per_page, 2);
    assert_eq!(page1.notifications.len(), 2);
    assert_eq!(page1.notifications[0].id, ids[4]);
    assert_eq!(page1.notifications[1].id, ids[3]);

    let page2 = s.get_notifications(&query(Some(2), Some(2)));
    assert_eq!(page2.notifications.len(), 2);
    assert_eq!(page2.notifications[0].id, ids[2]);
    assert_eq!(page2.notifications[1].id, ids[1]);

    let page3 = s.get_notifications(&query(Some(3), Some(2)));
    assert_eq!(page3.notifications.len(), 1);
    assert_eq!(page3.notifications[0].id, ids[0]);

    let beyond = s.get_notifications(&query(Some(4), Some(2)));
    assert_eq!(beyond.notifications.len(), 0);
}

#[test]
fn listing_caps_page_size_and_survives_page_zero() {
    let mut s = service_with_users();
    s.create_notification(&subject("1"), &post("only", None)).unwrap();

    let capped = s.get_notifications(&query(None, Some(1000)));
    assert_eq!(capped.per_page, 100);
    assert_eq!(capped.notifications.len(), 1);

    let zero = s.get_notifications(&query(Some(0), Some(10)));
    assert_eq!(zero.current_page, 0);
    assert_eq!(zero.notifications.len(), 1);

    let empty_page_size = s.get_notifications(&query(None, Some(0)));
    assert_eq!(empty_page_size.per_page, 0);
    assert_eq!(empty_page_size.pages, 0);
    assert_eq!(empty_page_size.notifications.len(), 0);
    assert_eq!(empty_page_size.total, 1);
}

#[test]
fn listing_is_newest_first_by_creation_time_even_under_a_backwards_clock() {
    let mut s = service_with_users();
    let admin = subject("1");
    let a = s
        .create_notification_at(&admin, &post("first", Some(true)), 100)
        .unwrap();
    let b = s
        .create_notification_at(&admin, &post("second", Some(true)), 200)
        .unwrap();
    // A clock reading older than the newest record is raised to it.
    let c = s
        .create_notification_at(&admin, &post("third", Some(true)), 50)
        .unwrap();
    assert_eq!(a.created_at, 100);
    assert_eq!(b.created_at, 200);
    assert_eq!(c.created_at, 200);

    let list = s.get_notifications(&query(None, None));
    let stamps: Vec<i64> = list.notifications.iter().map(|n| n.created_at).collect();
    assert_eq!(stamps, vec![200, 200, 100]);
    for w in stamps.windows(2) {
        assert!(w[0] >= w[1]);
    }
    assert_eq!(list.notifications[2].id, a.id);
}

#[test]
fn missing_notification_is_not_found() {
    let s = service_with_users();
    assert_eq!(s.get_notification(12345).unwrap_err(), AuthError::NotFound);
}

#[test]
fn custom_priority_is_kept() {
    let mut s = service_with_users();
    let r = s
        .create_notification(
            &subject("1"),
            &CreateNotificationRequest {
                title: "urgent".to_string(),
                content: "now".to_string(),
                priority: Some("high".to_string()),
                is_published: None,
            },
        )
        .unwrap();
    assert_eq!(r.priority, "high");
}
