use repo_archiver::json::{Json, Member};
use repo_archiver::repository::{active_only, repositories_from_document, Repository};
use repo_archiver::timestamp::Timestamp;

fn text(s: &str) -> Json {
    Json::Text(String::from(s))
}

fn member(key: &str, value: Json) -> Member {
    Member { key: String::from(key), value }
}

fn repo(name: &str, archived: bool) -> Repository {
    Repository {
        name: String::from(name),
        full_name: format!("alice/{}", name),
        pushed_at: Timestamp { seconds: 1, nanos: 2 },
        archived,
    }
}

#[test]
fn parse_builds_the_tree_of_the_text() {
    let parsed = Json::parse(b" {\"b\": [1, -2.5, null, true], \"a\": \"x\\ny\"} ");
    assert_eq!(
        parsed,
        Some(Json::Object(vec![
            member("a", text("x\ny")),
            member(
                "b",
                Json::Array(vec![
                    Json::Number(String::from("1")),
                    Json::Number(String::from("-2.5")),
                    Json::Null,
                    Json::Bool(true),
                ])
            ),
        ]))
    );
}

#[test]
fn parse_rejects_what_is_no_document() {
    assert_eq!(Json::parse(b""), None);
    assert_eq!(Json::parse(b"{\"a\":"), None);
    assert_eq!(Json::parse(b"[1] [2]"), None);
    assert_eq!(Json::parse(b"{'a': 1}"), None);
    assert_eq!(Json::parse(&[0xff, 0xfe]), None);
}

#[test]
fn parse_keeps_the_last_of_repeated_keys() {
    assert_eq!(
        Json::parse(b"{\"k\": 1, \"k\": 2}"),
        Some(Json::Object(vec![member("k", Json::Number(String::from("2")))]))
    );
}

#[test]
fn get_finds_the_first_member_with_the_key() {
    let object = Json::Object(vec![
        member("a", Json::Null),
        member("b", Json::Bool(true)),
        member("b", Json::Bool(false)),
    ]);
    assert_eq!(object.get("a"), Some(&Json::Null));
    assert_eq!(object.get("b"), Some(&Json::Bool(true)));
    assert_eq!(object.get("c"), None);
    assert_eq!(Json::Array(vec![]).get("a"), None);
    assert_eq!(text("a").get("a"), None);
}

#[test]
fn typed_access_checks_the_kind() {
    let object = Json::Object(vec![member("t", text("v")), member("f", Json::Bool(false))]);
    assert_eq!(object.text_at("t"), Some(&String::from("v")));
    assert_eq!(object.text_at("f"), None);
    assert_eq!(object.text_at("x"), None);
    assert_eq!(object.flag_at("f"), Some(false));
    assert_eq!(object.flag_at("t"), None);
    assert_eq!(text("v").as_text(), Some(&String::from("v")));
    assert_eq!(Json::Null.as_text(), None);
    assert_eq!(Json::Bool(true).as_flag(), Some(true));
    assert_eq!(Json::Number(String::from("1")).as_flag(), None);
    assert_eq!(Json::Array(vec![Json::Null]).as_items(), Some(&vec![Json::Null]));
    assert_eq!(object.as_items(), None);
}

#[test]
fn record_needs_all_four_fields() {
    let record = Json::Object(vec![
        member("name", text("a")),
        member("full_name", text("alice/a")),
        member("archived", Json::Bool(true)),
    ]);
    let stamp = Timestamp { seconds: 5, nanos: 0 };
    assert_eq!(
        Repository::from_record(&record, Some(stamp)),
        Some(Repository {
            name: String::from("a"),
            full_name: String::from("alice/a"),
            pushed_at: stamp,
            archived: true,
        })
    );
    assert_eq!(Repository::from_record(&record, None), None);
    assert_eq!(Repository::from_record(&Json::Null, Some(stamp)), None);
    assert_eq!(Repository::from_json(&record), None);
}

#[test]
fn record_timestamp_is_read_as_utc() {
    let record = Json::Object(vec![
        member("name", text("a")),
        member("full_name", text("alice/a")),
        member("pushed_at", text("2023-01-01T01:00:00.5+01:00")),
        member("archived", Json::Bool(false)),
    ]);
    assert_eq!(
        Repository::from_json(&record).map(|r| r.pushed_at),
        Some(Timestamp { seconds: 1672531200, nanos: 500_000_000 })
    );
}

#[test]
fn document_of_records_is_read_in_order() {
    let record = |name: &str, archived: bool| {
        Json::Object(vec![
            member("archived", Json::Bool(archived)),
            member("pushed_at", text("1970-01-01T00:00:01Z")),
            member("full_name", text(&format!("alice/{}", name))),
            member("name", text(name)),
        ])
    };
    let document = Json::Array(vec![record("z", true), record("a", false)]);
    let expect = |name: &str, archived: bool| Repository {
        name: String::from(name),
        full_name: format!("alice/{}", name),
        pushed_at: Timestamp { seconds: 1, nanos: 0 },
        archived,
    };
    assert_eq!(
        repositories_from_document(&document),
        Some(vec![expect("z", true), expect("a", false)])
    );
    assert_eq!(repositories_from_document(&Json::Object(vec![])), None);
}

#[test]
fn active_only_keeps_order_and_drops_archived() {
    let all = vec![repo("c", false), repo("a", true), repo("b", false), repo("d", true)];
    assert_eq!(active_only(&all), vec![repo("c", false), repo("b", false)]);
    assert_eq!(active_only(&vec![]), vec![]);
    assert_eq!(active_only(&vec![repo("a", true)]), vec![]);
}

#[test]
fn clone_copies_every_field() {
    let first = repo("a", true);
    assert_eq!(first.clone(), first);
}
