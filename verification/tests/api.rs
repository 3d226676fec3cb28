use filebox::api::{
    CreateFileboxRequest, CreateFileboxResponse, FileboxFileType, GetFileboxResponse, TakeTextResponse, Upload,
    Violation,
};
use filebox::clock::Timestamp;
use filebox::errors::Error;
use filebox::handlers::{
    add_new_filebox, download_of, get_filebox_by_code, health_check_handler, stored_file, take_filebox_by_code,
    upload_dir, Download,
};
use filebox::models::{file_type_name, FileType, Filebox};
use filebox::scheduler::start_clean_expired_filebox;

fn text_request(name: &str, text: Option<&str>, duration_day: u8) -> CreateFileboxRequest {
    CreateFileboxRequest {
        name: name.to_string(),
        text: text.map(|t| t.to_string()),
        duration_day,
        file_type: FileboxFileType::Text,
        file: None,
    }
}

fn file_request(name: &str, file_name: Option<&str>, duration_day: u8) -> CreateFileboxRequest {
    CreateFileboxRequest {
        name: name.to_string(),
        text: None,
        duration_day,
        file_type: FileboxFileType::File,
        file: file_name.map(|n| Upload { file_name: Some(n.to_string()) }),
    }
}

fn stored(file_type: FileType, used_at: Option<Timestamp>) -> Filebox {
    Filebox {
        id: 7,
        code: "12345".to_string(),
        name: "test".to_string(),
        size: 123,
        file_type,
        text: "21123".to_string(),
        file_path: "folder/test.zip".to_string(),
        created_at: Timestamp::new(1_704_067_200, 5),
        expired_at: Timestamp::new(1_704_067_200 + 7 * 86_400, 5),
        used_at,
    }
}

#[test]
fn kinds_and_their_numbers() {
    assert_eq!(u8::from(&FileboxFileType::File), 1);
    assert_eq!(u8::from(&FileboxFileType::Text), 2);
    assert_eq!(FileboxFileType::from_code(1), Some(FileboxFileType::File));
    assert_eq!(FileboxFileType::from_code(2), Some(FileboxFileType::Text));
    for num in [0u8, 3, 4, 255] {
        assert_eq!(FileboxFileType::from_code(num), None);
    }
    for kind in [FileboxFileType::File, FileboxFileType::Text] {
        assert_eq!(FileboxFileType::from_code(u8::from(&kind)), Some(kind));
    }
}

#[test]
fn kinds_convert_both_ways() {
    assert_eq!(FileType::from(FileboxFileType::Text), FileType::Text);
    assert_eq!(FileType::from(FileboxFileType::File), FileType::File);
    assert_eq!(FileboxFileType::from(FileType::Text), FileboxFileType::Text);
    assert_eq!(FileboxFileType::from(FileType::File), FileboxFileType::File);
    assert_eq!(FileType::default(), FileType::Text);
    assert_eq!(file_type_name(FileType::File), "file");
    assert_eq!(file_type_name(FileType::Text), "text");
}

/// The codes of the errors of each field, fields in alphabetical order.
fn codes_by_field(errors: &validator::ValidationErrors) -> Vec<(String, Vec<String>)> {
    let mut found: Vec<(String, Vec<String>)> = errors
        .field_errors()
        .into_iter()
        .map(|(field, errors)| (field.to_string(), errors.iter().map(|error| error.code.to_string()).collect()))
        .collect();
    found.sort();
    found
}

fn one(field: &str, code: &str) -> (String, Vec<String>) {
    (field.to_string(), vec![code.to_string()])
}

#[test]
fn valid_requests_pass() {
    assert_eq!(text_request("note", Some("hello"), 7).validate(), Ok(()));
    assert_eq!(text_request(&"n".repeat(50), Some(&"t".repeat(2000)), 29).validate(), Ok(()));
    assert_eq!(text_request("", Some("t"), 1).validate(), Ok(()));
    assert_eq!(file_request("archive", Some("a.zip"), 1).validate(), Ok(()));
    assert!(text_request("note", Some("hello"), 7).violations().is_empty());
}

#[test]
fn violations_become_errors_of_their_fields() {
    let errors = text_request(&"n".repeat(51), Some(""), 0).validate().unwrap_err();
    assert_eq!(errors.errors().len(), 3);
    assert_eq!(
        codes_by_field(&errors),
        vec![
            one("duration_day", "duration_day over scope"),
            one("name", "name more than 50 characters"),
            one("text", "text over scope"),
        ]
    );
    let errors = text_request("n", None, 7).validate().unwrap_err();
    assert_eq!(codes_by_field(&errors), vec![one("text", "text empty")]);
    let errors = file_request("n", None, 30).validate().unwrap_err();
    assert_eq!(
        codes_by_field(&errors),
        vec![one("duration_day", "duration_day over scope"), one("file", "file empty")]
    );
    assert!(errors.errors().len() == 2 && !errors.is_empty());
}

#[test]
fn each_violation_is_found() {
    assert_eq!(text_request(&"n".repeat(51), Some("t"), 7).violations(), vec![Violation::NameTooLong]);
    assert_eq!(text_request("n", Some("t"), 0).violations(), vec![Violation::DurationOutOfRange]);
    assert_eq!(text_request("n", Some("t"), 30).violations(), vec![Violation::DurationOutOfRange]);
    assert_eq!(text_request("n", Some(""), 7).violations(), vec![Violation::TextOutOfRange]);
    assert_eq!(text_request("n", Some(&"t".repeat(2001)), 7).violations(), vec![Violation::TextOutOfRange]);
    assert_eq!(text_request("n", None, 7).violations(), vec![Violation::TextMissing]);
    assert_eq!(file_request("n", None, 7).violations(), vec![Violation::FileMissing]);
}

#[test]
fn violations_come_all_at_once_and_in_order() {
    assert_eq!(
        text_request(&"n".repeat(60), None, 255).violations(),
        vec![Violation::NameTooLong, Violation::DurationOutOfRange, Violation::TextMissing]
    );
    assert_eq!(
        file_request(&"n".repeat(60), None, 0).violations(),
        vec![Violation::NameTooLong, Violation::DurationOutOfRange, Violation::FileMissing]
    );
}

#[test]
fn lengths_are_counted_in_bytes() {
    // 17 characters of three bytes each are 51 bytes.
    assert_eq!(text_request(&"文".repeat(17), Some("t"), 7).violations(), vec![Violation::NameTooLong]);
    assert_eq!(text_request(&"文".repeat(16), Some("t"), 7).violations(), vec![]);
    assert_eq!(text_request("n", Some(&"文".repeat(667)), 7).violations(), vec![Violation::TextOutOfRange]);
    assert_eq!(text_request("n", Some(&"文".repeat(666)), 7).violations(), vec![]);
}

#[test]
fn a_file_box_ignores_the_text_and_a_text_box_the_file() {
    let mut request = file_request("n", Some("a.zip"), 7);
    request.text = Some(String::new());
    assert_eq!(request.violations(), vec![]);
    let mut request = text_request("n", Some("t"), 7);
    request.file = Some(Upload { file_name: None });
    assert_eq!(request.violations(), vec![]);
}

#[test]
fn violations_name_their_fields() {
    assert_eq!(Violation::NameTooLong.field(), "name");
    assert_eq!(Violation::NameTooLong.code(), "name more than 50 characters");
    assert_eq!(Violation::DurationOutOfRange.field(), "duration_day");
    assert_eq!(Violation::DurationOutOfRange.code(), "duration_day over scope");
    assert_eq!(Violation::TextOutOfRange.field(), "text");
    assert_eq!(Violation::TextOutOfRange.code(), "text over scope");
    assert_eq!(Violation::TextMissing.field(), "text");
    assert_eq!(Violation::TextMissing.code(), "text empty");
    assert_eq!(Violation::FileMissing.field(), "file");
    assert_eq!(Violation::FileMissing.code(), "file empty");
}

#[test]
fn text_box_to_store() {
    let now = Timestamp::new(1_704_067_200, 9);
    let added = add_new_filebox(text_request("note", Some("hello"), 7), "abc12".to_string(), "unused", now).unwrap();
    assert_eq!(added.code, "abc12");
    assert_eq!(added.name, "note");
    assert_eq!(added.size, 0);
    assert_eq!(added.file_type, FileType::Text);
    assert_eq!(added.text, "hello");
    assert_eq!(added.file_path, "");
    assert_eq!(added.created_at, now);
    assert_eq!(added.expired_at, Timestamp::new(1_704_067_200 + 7 * 86_400, 9));
}

#[test]
fn file_box_to_store() {
    let now = Timestamp::new(1_704_067_200, 0);
    let added = add_new_filebox(file_request("archive", Some("a.zip"), 29), "abc12".to_string(), "f00d", now).unwrap();
    assert_eq!(added.code, "abc12");
    assert_eq!(added.name, "archive");
    assert_eq!(added.file_type, FileType::File);
    assert_eq!(added.text, "");
    assert_eq!(added.file_path, "f00d/a.zip");
    assert_eq!(added.created_at, now);
    assert_eq!(added.expired_at, Timestamp::new(1_704_067_200 + 29 * 86_400, 0));
}

#[test]
fn invalid_request_is_turned_down() {
    let now = Timestamp::new(1_704_067_200, 0);
    let added = add_new_filebox(text_request("note", None, 7), "abc12".to_string(), "unused", now);
    assert!(matches!(added, Err(Error::InputValidateError)));
    let added = add_new_filebox(file_request("archive", None, 7), "abc12".to_string(), "f00d", now);
    assert!(matches!(added, Err(Error::InputValidateError)));
}

#[test]
fn days_are_added_within_range() {
    assert_eq!(Timestamp::new(10, 3).plus_days(0), Timestamp::new(10, 3));
    assert_eq!(Timestamp::new(10, 3).plus_days(2), Timestamp::new(10 + 2 * 86_400, 3));
    assert_eq!(Timestamp::new(-86_400, 0).plus_days(1), Timestamp::new(0, 0));
    assert_eq!(Timestamp::new(i64::MAX - 5, 1).plus_days(1), Timestamp::new(i64::MAX, 1));
}

#[test]
fn paths_under_the_upload_directory() {
    assert_eq!(upload_dir("/srv/upload", "f00d"), "/srv/upload/f00d");
    assert_eq!(stored_file("/srv/upload", "f00d/a.zip"), "/srv/upload/f00d/a.zip");
    assert_eq!(stored_file("", ""), "/");
}

#[test]
fn box_is_shown_until_it_is_taken() {
    let shown: GetFileboxResponse = get_filebox_by_code(stored(FileType::File, None)).unwrap();
    assert_eq!(shown.id, 7);
    assert_eq!(shown.code, "12345");
    assert_eq!(shown.name, "test");
    assert_eq!(shown.file_type, FileboxFileType::File);
    assert_eq!(shown.created_at, 1_704_067_200);
    assert_eq!(shown.expired_at, 1_704_067_200 + 7 * 86_400);
    assert_eq!(shown.used_at, None);
    assert!(get_filebox_by_code(stored(FileType::File, Some(Timestamp::new(1_704_070_000, 0)))).is_none());
    assert!(stored(FileType::Text, Some(Timestamp::new(1, 0))).has_taken());
    assert!(!stored(FileType::Text, None).has_taken());
}

#[test]
fn responses_from_a_stored_box() {
    let taken_at = Timestamp::new(1_704_070_000, 1);
    let shown = GetFileboxResponse::from(stored(FileType::Text, Some(taken_at)));
    assert_eq!(shown.used_at, Some(1_704_070_000));
    assert_eq!(shown.file_type, FileboxFileType::Text);

    let created = CreateFileboxResponse::from(stored(FileType::Text, None));
    assert_eq!(created.id, 7);
    assert_eq!(created.code, "12345");
    assert_eq!(created.name, "test");
    assert_eq!(created.file_type, FileboxFileType::Text);
    assert_eq!(created.created_at, 1_704_067_200);
    assert_eq!(created.expired_at, 1_704_067_200 + 7 * 86_400);

    let taken = TakeTextResponse::from_taken(stored(FileType::Text, Some(taken_at)));
    assert_eq!(taken.id, 7);
    assert_eq!(taken.code, "12345");
    assert_eq!(taken.name, "test");
    assert_eq!(taken.text, "21123");
    assert_eq!(taken.file_type, FileboxFileType::Text);
    assert_eq!(taken.created_at, 1_704_067_200);
    assert_eq!(taken.expired_at, 1_704_067_200 + 7 * 86_400);
    assert_eq!(taken.used_at, 1_704_070_000);
}

#[test]
fn text_box_is_sent_as_a_text_file() {
    match take_filebox_by_code(stored(FileType::Text, Some(Timestamp::new(1, 0))), "/srv/upload") {
        Some(Download::Text { file_name, body }) => {
            assert_eq!(file_name, "test.txt");
            assert_eq!(body, "21123");
        }
        other => panic!("{:?}", other),
    }
}

#[test]
fn file_box_is_sent_under_its_last_path_component() {
    match take_filebox_by_code(stored(FileType::File, Some(Timestamp::new(1, 0))), "/srv/upload") {
        Some(Download::File { file_name, path }) => {
            assert_eq!(file_name, "test.zip");
            assert_eq!(path, "/srv/upload/folder/test.zip");
        }
        other => panic!("{:?}", other),
    }
    let mut nameless = stored(FileType::File, None);
    nameless.file_path = "folder/..".to_string();
    assert!(take_filebox_by_code(nameless, "/srv/upload").is_none());
    let mut empty = stored(FileType::File, None);
    empty.file_path = String::new();
    assert!(take_filebox_by_code(empty, "/srv/upload").is_none());
}

#[test]
fn download_for_a_given_file_name() {
    match download_of(stored(FileType::File, None), "up", Some("other.bin".to_string())) {
        Some(Download::File { file_name, path }) => {
            assert_eq!(file_name, "other.bin");
            assert_eq!(path, "up/folder/test.zip");
        }
        other => panic!("{:?}", other),
    }
    assert!(download_of(stored(FileType::File, None), "up", None).is_none());
    assert!(matches!(download_of(stored(FileType::Text, None), "up", None), Some(Download::Text { .. })));
}

#[test]
fn health_checks_are_counted() {
    let mut count: u64 = 0;
    let answer = health_check_handler("I'm OK.", &mut count);
    assert_eq!(answer.message, "I'm OK.");
    assert_eq!(answer.health_check_count, 1);
    assert_eq!(count, 1);
    let answer = health_check_handler("I'm OK.", &mut count);
    assert_eq!(answer.health_check_count, 2);
    let mut full = u64::MAX;
    let answer = health_check_handler("I'm OK.", &mut full);
    assert_eq!(answer.health_check_count, u64::MAX);
    assert_eq!(full, u64::MAX);
}

#[test]
fn only_file_boxes_leave_files_behind() {
    let mut first = stored(FileType::File, None);
    first.file_path = "a/one.bin".to_string();
    let second = stored(FileType::Text, None);
    let mut third = stored(FileType::File, Some(Timestamp::new(5, 0)));
    third.file_path = "b/two.bin".to_string();
    let deleted = vec![first, second, third];
    assert_eq!(start_clean_expired_filebox(&deleted, "/srv/upload"), vec!["/srv/upload/a/one.bin", "/srv/upload/b/two.bin"]);
    assert!(start_clean_expired_filebox(&Vec::new(), "/srv/upload").is_empty());
}

#[test]
fn offered_name_is_a_piece_of_the_stored_path() {
    for stored_path in ["folder/test.zip", "a/b/c.txt", "plain", "trailing/", "a//b", "./x", "x/.", "/", "..", ""] {
        let mut filebox = stored(FileType::File, None);
        filebox.file_path = stored_path.to_string();
        match take_filebox_by_code(filebox, "/srv/upload") {
            Some(Download::File { file_name, path }) => {
                assert!(stored_path.contains(&file_name), "{:?} in {:?}", file_name, stored_path);
                assert_eq!(path, format!("/srv/upload/{}", stored_path));
            }
            Some(other) => panic!("{:?}", other),
            None => {}
        }
    }
}
