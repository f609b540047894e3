use kx_page_rs::auth::admin_token;
use kx_page_rs::config::{parse_port, port_setting, route_path, setting_or};
use kx_page_rs::dates::{CalendarDate, DateTime};
use kx_page_rs::images::{
    image_content_type, image_extension, remove_request, removal_failed, storage_info_request,
    upload_reply, upload_request, upload_write_failed,
};
use kx_page_rs::messages::{AdminToken, ImageDelete, ImageUpload};
use kx_page_rs::query::{now_text, query_point, query_time, query_time_from_decoded};
use kx_page_rs::reply::Status;
use kx_page_rs::storage::{storage_size_fits, summarize_storage, ListedEntry};

#[test]
fn query_time_decodes_url_safe_base64() {
    assert_eq!(query_time(&String::from("MjAyNC0wMS0wMSAxMjozMDowMA==")), "2024-01-01 12:30:00");
    assert_eq!(query_time(&String::from("fn5-")), "~~~");
    assert_eq!(query_time(&String::from("Pz8_")), "???");
}

#[test]
fn query_time_falls_back_to_the_parameter() {
    // Not Base64 at all.
    assert_eq!(query_time(&String::from("2024-01-01 00:00:00")), "2024-01-01 00:00:00");
    // Missing padding.
    assert_eq!(query_time(&String::from("MjAyNC0wMS0wMSAxMjozMDowMA")), "MjAyNC0wMS0wMSAxMjozMDowMA");
    // Base64 of bytes that are not UTF-8.
    assert_eq!(query_time(&String::from("-_-_")), "-_-_");
    assert_eq!(query_time(&String::from("")), "");
}

#[test]
fn decoded_query_choice() {
    let q = String::from("q");
    assert_eq!(query_time_from_decoded(&q, None), "q");
    assert_eq!(query_time_from_decoded(&q, Some(vec![0xff])), "q");
    assert_eq!(query_time_from_decoded(&q, Some(b"2024".to_vec())), "2024");
    assert_eq!(query_time_from_decoded(&q, Some(vec![0xe4, 0xb8, 0xad])), "中");
    assert_eq!(query_time_from_decoded(&q, Some(vec![0xe4, 0xb8])), "q");
    assert_eq!(query_time_from_decoded(&q, Some(vec![0xed, 0xa0, 0x80])), "q");
}

#[test]
fn query_point_without_parameter_is_now() {
    let now = query_point(None);
    assert_eq!(now.len(), 19);
    let b = now.as_bytes();
    assert_eq!((b[4], b[7], b[10], b[13], b[16]), (b'-', b'-', b' ', b':', b':'));
    let q = String::from("fn5-");
    assert_eq!(query_point(Some(&q)), "~~~");
}

#[test]
fn extensions_and_content_types() {
    assert_eq!(image_extension("abc.png"), "png");
    assert_eq!(image_extension("a.b.jpeg"), "jpeg");
    assert_eq!(image_extension("noext"), "noext");
    assert_eq!(image_extension("trailing."), "");
    assert_eq!(image_extension(""), "");
    assert_eq!(image_content_type("9f86d081.webp"), "image/webp");
    assert_eq!(image_content_type("图.png"), "image/png");
}

#[test]
fn storage_info_decisions() {
    let admin = admin_token("pw");
    let r = storage_info_request(None, &admin).err().unwrap();
    assert_eq!((r.status, r.message.as_str()), (Status::BadRequest, "failed"));
    let r = storage_info_request(Some(AdminToken { token: String::from("pw") }), &admin).err().unwrap();
    assert_eq!((r.status, r.message.as_str()), (Status::Unauthorized, "failed"));
    assert!(storage_info_request(Some(AdminToken { token: admin.clone() }), &admin).is_ok());
}

#[test]
fn upload_and_removal_decisions() {
    let admin = admin_token("pw");
    let r = upload_request(None, &admin).err().unwrap();
    assert_eq!((r.status, r.message.as_str()), (Status::BadRequest, "failed"));
    let up = ImageUpload { token: String::from("no"), filename: String::from("a.png"), image: vec![1] };
    let r = upload_request(Some(up), &admin).err().unwrap();
    assert_eq!((r.status, r.message.as_str()), (Status::Unauthorized, "failed"));
    let up = ImageUpload { token: admin.clone(), filename: String::from("a.png"), image: vec![1, 2] };
    let up = upload_request(Some(up), &admin).ok().unwrap();
    assert_eq!((up.filename.as_str(), up.image.as_slice()), ("a.png", &[1u8, 2][..]));
    let r = upload_reply(String::from("a.png"));
    assert_eq!((r.status, r.message.as_str()), (Status::Success, "a.png"));
    let r = upload_write_failed();
    assert_eq!((r.status, r.message.as_str()), (Status::InternalServerError, "failed"));

    let r = remove_request(None, &admin).err().unwrap();
    assert_eq!((r.status, r.message.as_str()), (Status::BadRequest, "failed"));
    let del = ImageDelete { token: String::new(), filename: String::from("a.png") };
    let r = remove_request(Some(del), &admin).err().unwrap();
    assert_eq!((r.status, r.message.as_str()), (Status::Unauthorized, "failed"));
    let del = ImageDelete { token: admin.clone(), filename: String::from("a.png") };
    assert_eq!(remove_request(Some(del), &admin).ok().unwrap(), "a.png");
    let r = removal_failed();
    assert_eq!((r.status, r.message.as_str()), (Status::BadRequest, "failed"));
}

fn entry(is_file: bool, name: Option<&str>, size: Option<u64>) -> ListedEntry {
    ListedEntry { is_file, name: name.map(String::from), size }
}

#[test]
fn storage_summary() {
    let entries = vec![
        entry(true, Some("a.png"), Some(10)),
        entry(false, Some("subdir"), Some(4096)),
        entry(true, None, Some(7)),
        entry(true, Some("b.jpg"), None),
        entry(true, Some("c.gif"), Some(5)),
    ];
    assert!(storage_size_fits(&entries));
    let info = summarize_storage(&entries);
    assert_eq!(info.size, 15);
    assert_eq!(info.count, 3);
    assert_eq!(info.files, vec!["a.png", "b.jpg", "c.gif"]);
    let empty = summarize_storage(&Vec::new());
    assert_eq!((empty.size, empty.count, empty.files.len()), (0, 0, 0));
}

#[test]
fn storage_summary_of_concatenated_listings() {
    let a = vec![entry(true, Some("a"), Some(1)), entry(false, Some("d"), Some(2))];
    let b = vec![entry(true, Some("b"), Some(3))];
    let mut ab = vec![entry(true, Some("a"), Some(1)), entry(false, Some("d"), Some(2))];
    ab.push(entry(true, Some("b"), Some(3)));
    let (sa, sb, sab) = (summarize_storage(&a), summarize_storage(&b), summarize_storage(&ab));
    assert_eq!(sab.size, sa.size + sb.size);
    assert_eq!(sab.files, [sa.files, sb.files].concat());
}

#[test]
fn storage_size_overflow_is_detected() {
    let entries = vec![entry(true, Some("a"), Some(u64::MAX)), entry(true, Some("b"), Some(1))];
    assert!(!storage_size_fits(&entries));
    let entries = vec![entry(true, Some("a"), Some(u64::MAX)), entry(false, Some("b"), Some(1))];
    assert!(storage_size_fits(&entries));
    assert_eq!(summarize_storage(&entries).size, u64::MAX);
}

#[test]
fn settings() {
    assert_eq!(port_setting(None), 8000);
    assert_eq!(port_setting(Some(String::from("9000"))), 9000);
    assert_eq!(port_setting(Some(String::from("+80"))), 80);
    assert_eq!(port_setting(Some(String::from("65535"))), 65535);
    assert_eq!(port_setting(Some(String::from("65536"))), 3000);
    assert_eq!(port_setting(Some(String::from("abc"))), 3000);
    assert_eq!(port_setting(Some(String::from(" 80"))), 3000);
    assert_eq!(port_setting(Some(String::from(""))), 3000);
    assert_eq!(setting_or(None, "./assets/images"), "./assets/images");
    assert_eq!(setting_or(Some(String::from("/srv")), "./assets/images"), "/srv");
    assert_eq!(route_path(&String::from("/api/v1"), "/events"), "/api/v1/events");
}

#[test]
fn port_parsing() {
    assert_eq!(parse_port("0"), Some(0));
    assert_eq!(parse_port("007"), Some(7));
    assert_eq!(parse_port("+443"), Some(443));
    assert_eq!(parse_port("65535"), Some(65535));
    assert_eq!(parse_port("65536"), None);
    assert_eq!(parse_port("99999999999"), None);
    assert_eq!(parse_port("+"), None);
    assert_eq!(parse_port("-0"), None);
    assert_eq!(parse_port("8o"), None);
    assert_eq!(parse_port(""), None);
    assert_eq!(parse_port("++1"), None);
}

#[test]
fn clock_reading_as_query_time() {
    let now = DateTime {
        date: CalendarDate { year: 2024, month: 6, day: 1 },
        hour: 9,
        minute: 5,
        second: 7,
    };
    assert_eq!(now_text(&now), "2024-06-01 09:05:07");
    let early = DateTime { date: CalendarDate { year: 33, month: 1, day: 2 }, hour: 0, minute: 0, second: 0 };
    assert_eq!(now_text(&early), "0033-01-02 00:00:00");
}
