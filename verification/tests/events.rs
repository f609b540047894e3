use kx_page_rs::auth::admin_token;
use kx_page_rs::dates::{display_time, stored_time};
use kx_page_rs::events::{
    delete_request, event_from_row, event_list, insert_row, post_request, update_request, PostAction,
    PostProgress,
};
use kx_page_rs::messages::{EventDelete, EventPost, EventSpec, EventUpdate};
use kx_page_rs::reply::{DbStage, Status};
use kx_page_rs::decimal::decimal_string;
use kx_page_rs::sql::{delete_sql, event_update_parameters, event_update_sql, join_strings};

fn spec(time: &str, href: &str, desc: &str, image: &str) -> EventSpec {
    EventSpec {
        event_uuid: String::from("u-1"),
        event_title: String::from("Opening"),
        event_description: String::from(desc),
        event_href: String::from(href),
        event_time: String::from(time),
        image_hash: String::from(image),
    }
}

#[test]
fn update_sql_with_every_field() {
    let e = spec("2024/03/05", "http://x", "about", "abc.png");
    assert_eq!(
        event_update_sql(&e),
        "UPDATE events SET title=?2, time=?3, href=?4, desc=?5, image_hash=?6 WHERE uuid = ?1;"
    );
}

#[test]
fn update_sql_skips_empty_fields() {
    let e = spec("2024/03/05", "", "", "");
    assert_eq!(event_update_sql(&e), "UPDATE events SET title=?2, time=?3 WHERE uuid = ?1;");
    let e = spec("t", "", "", "h");
    assert_eq!(event_update_sql(&e), "UPDATE events SET title=?2, time=?3, image_hash=?4 WHERE uuid = ?1;");
}

#[test]
fn update_sql_never_holds_values() {
    let mut e = spec("2024/01/01", "", "", "");
    e.event_title = String::from("x' WHERE uuid=?1 OR 1=1 --");
    assert_eq!(event_update_sql(&e), "UPDATE events SET title=?2, time=?3 WHERE uuid = ?1;");
    let params = event_update_parameters(&e, String::from("2024-01-01 00:00:00"));
    assert_eq!(params, vec!["u-1", "x' WHERE uuid=?1 OR 1=1 --", "2024-01-01 00:00:00"]);
}

#[test]
fn update_request_decisions() {
    let admin = admin_token("pw");
    let r = update_request(None, &admin).err().unwrap();
    assert_eq!((r.status, r.message.as_str()), (Status::InternalServerError, "failed"));
    let req = EventUpdate { token: String::from("wrong"), event: Some(spec("2024/01/01", "", "", "")) };
    let r = update_request(Some(req), &admin).err().unwrap();
    assert_eq!((r.status, r.message.as_str()), (Status::Unauthorized, "failed"));
    let req = EventUpdate { token: admin.clone(), event: None };
    let r = update_request(Some(req), &admin).err().unwrap();
    assert_eq!((r.status, r.message.as_str()), (Status::BadRequest, "failed"));
    let req = EventUpdate { token: admin.clone(), event: Some(spec("2024-05-20 08:00:00", "", "", "")) };
    let u = update_request(Some(req), &admin).ok().unwrap();
    assert_eq!(u.sql, "UPDATE events SET title=?2, time=?3 WHERE uuid = ?1;");
    assert_eq!(u.params, vec!["u-1", "Opening", "2024-05-20 08:00:00"]);
    let req = EventUpdate { token: admin.clone(), event: Some(spec("soon", "", "", "")) };
    let u = update_request(Some(req), &admin).ok().unwrap();
    assert_eq!(u.params[2], "soon");
    let mut e = spec("2024/05/20", "", "d", "");
    e.event_title = String::from("it's");
    let req = EventUpdate { token: admin.clone(), event: Some(e) };
    let u = update_request(Some(req), &admin).ok().unwrap();
    assert_eq!(u.sql, "UPDATE events SET title=?2, time=?3, desc=?4 WHERE uuid = ?1;");
    assert_eq!(u.params, vec!["u-1", "it's", "2024-05-20 00:00:00", "d"]);
}

#[test]
fn updated_time_is_shown_as_posted() {
    let admin = admin_token("pw");
    let req = EventUpdate { token: admin.clone(), event: Some(spec("2024/05/20", "", "", "")) };
    let u = update_request(Some(req), &admin).ok().unwrap();
    assert_eq!(display_time(&u.params[2]), "2024/05/20");
}

#[test]
fn join_with_separator() {
    let list = vec![String::from("a"), String::from("b"), String::from("c")];
    assert_eq!(join_strings(&list, ", "), "a, b, c");
    assert_eq!(join_strings(&vec![String::from("only")], ", "), "only");
    assert_eq!(join_strings(&Vec::new(), ", "), "");
}

#[test]
fn delete_request_decisions() {
    let admin = admin_token("pw");
    let r = delete_request(None, &admin).err().unwrap();
    assert_eq!((r.status, r.message.as_str()), (Status::InternalServerError, "failed"));
    let req = EventDelete { token: String::new(), uuids: vec![String::from("a")] };
    let r = delete_request(Some(req), &admin).err().unwrap();
    assert_eq!((r.status, r.message.as_str()), (Status::Unauthorized, "failed"));
    let req = EventDelete { token: admin.clone(), uuids: vec![String::from("a"), String::from("b")] };
    let d = delete_request(Some(req), &admin).ok().unwrap();
    assert_eq!(d.sql, "DELETE FROM events WHERE uuid IN (?1, ?2);");
    assert_eq!(d.uuids, vec!["a", "b"]);
}

#[test]
fn delete_statements() {
    assert_eq!(delete_sql(1), "DELETE FROM events WHERE uuid IN (?1);");
    assert_eq!(delete_sql(0), "DELETE FROM events WHERE uuid IN ();");
    let sql = delete_sql(12);
    assert!(sql.starts_with("DELETE FROM events WHERE uuid IN (?1, ?2, ?3,"));
    assert!(sql.ends_with("?10, ?11, ?12);"));
    assert_eq!(decimal_string(0), "0");
    assert_eq!(decimal_string(907), "907");
}

#[test]
fn post_request_decisions() {
    let admin = admin_token("pw");
    let r = post_request(None, &admin).err().unwrap();
    assert_eq!((r.status, r.message.as_str()), (Status::InternalServerError, "failed"));
    let req = EventPost { token: String::from("x"), events: vec![] };
    let r = post_request(Some(req), &admin).err().unwrap();
    assert_eq!((r.status, r.message.as_str()), (Status::Unauthorized, "failed"));
    let req = EventPost { token: admin.clone(), events: vec![spec("2024/01/02", "", "", ""), spec("x", "", "", "")] };
    let events = post_request(Some(req), &admin).ok().unwrap();
    assert_eq!(events.len(), 2);
    assert_eq!(events[1].event_time, "x");
}

#[test]
fn stored_time_of_posted_dates() {
    assert_eq!(stored_time("2024/03/05").unwrap(), "2024-03-05 00:00:00");
    assert_eq!(stored_time("0999/12/31").unwrap(), "0999-12-31 00:00:00");
    assert!(stored_time("2024-03-05").is_none());
    assert!(stored_time("2023/02/29").is_none());
    assert!(stored_time("").is_none());
}

#[test]
fn insert_rows() {
    let row = insert_row(&spec("2024/03/05", "", "desc", "img")).ok().unwrap();
    assert_eq!(row.uuid, "u-1");
    assert_eq!(row.time, "2024-03-05 00:00:00");
    assert_eq!(row.title, "Opening");
    assert_eq!(row.href, None);
    assert_eq!(row.image_hash, Some(String::from("img")));
    assert_eq!(row.description, "desc");
    let r = insert_row(&spec("March 5th", "", "", "")).err().unwrap();
    assert_eq!((r.status, r.message.as_str()), (Status::InternalServerError, "failed"));
}

#[test]
fn displayed_times() {
    assert_eq!(display_time(&String::from("2024-03-05 00:00:00")), "2024/03/05");
    assert_eq!(display_time(&String::from("2024-12-31 23:59:59")), "2024/12/31");
    assert_eq!(display_time(&String::from("2024/03/05")), "2024/03/05");
    assert_eq!(display_time(&String::from("not a time")), "not a time");
}

#[test]
fn posted_date_is_shown_as_posted() {
    let stored = stored_time("2021/07/09").unwrap();
    assert_eq!(display_time(&stored), "2021/07/09");
}

#[test]
fn rows_and_lists() {
    let e = event_from_row(
        String::from("u"),
        String::from("T"),
        String::from("2024-01-01 00:00:00"),
        None,
        Some(String::from("d")),
        None,
    );
    assert_eq!(e.event_href, "");
    assert_eq!(e.event_description, "d");
    assert_eq!(e.image_hash, "");
    let other = spec("garbage", "h", "", "");
    let list = event_list(&vec![e, other]);
    assert_eq!(list.events.len(), 2);
    assert_eq!(list.events[0].event_time, "2024/01/01");
    assert_eq!(list.events[0].event_uuid, "u");
    assert_eq!(list.events[1].event_time, "garbage");
    assert_eq!(list.events[1].event_href, "h");
    assert!(event_list(&Vec::new()).events.is_empty());
}

#[test]
fn post_progress_inserts_in_order() {
    let mut p = PostProgress::new(vec![spec("2024/01/02", "", "", ""), spec("2024/01/03", "h", "", "")]);
    match p.step(None) {
        PostAction::Insert(row) => assert_eq!(row.time, "2024-01-02 00:00:00"),
        PostAction::Finish(_) => panic!("expected an insert"),
    }
    match p.step(None) {
        PostAction::Insert(row) => {
            assert_eq!(row.time, "2024-01-03 00:00:00");
            assert_eq!(row.href, Some(String::from("h")));
        }
        PostAction::Finish(_) => panic!("expected an insert"),
    }
    match p.step(None) {
        PostAction::Finish(r) => assert_eq!((r.status, r.message.as_str()), (Status::Success, "success")),
        PostAction::Insert(_) => panic!("expected the end"),
    }
    assert_eq!(p.next, 2);
}

#[test]
fn post_progress_stops_at_first_failure() {
    let mut p = PostProgress::new(vec![spec("2024/01/02", "", "", ""), spec("bad", "", "", ""), spec("2024/01/04", "", "", "")]);
    assert!(matches!(p.step(None), PostAction::Insert(_)));
    match p.step(None) {
        PostAction::Finish(r) => assert_eq!((r.status, r.message.as_str()), (Status::InternalServerError, "failed")),
        PostAction::Insert(_) => panic!("expected a refusal"),
    }
    let mut p = PostProgress::new(vec![spec("2024/01/02", "", "", "")]);
    assert!(matches!(p.step(None), PostAction::Insert(_)));
    match p.step(Some(DbStage::Execute)) {
        PostAction::Finish(r) => assert_eq!((r.status, r.message.as_str()), (Status::BadRequest, "failed")),
        PostAction::Insert(_) => panic!("expected a refusal"),
    }
    let mut p = PostProgress::new(Vec::new());
    assert!(matches!(p.step(None), PostAction::Finish(_)));
}
