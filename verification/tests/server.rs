use toc::config::default_data_dir;
use toc::config::default_gc_interval_s;
use toc::config::default_listen;
use toc::config::default_servername;
use toc::config::Config;
use toc::config::GeneralConfig;
use toc::config::UserConfig;
use toc::meta::meta_file_id;
use toc::meta::MetaData;
use toc::meta::MetaStore;
use toc::meta::SEVEN_DAYS;
use toc::pipe::create_pipe;
use toc::range::etag;
use toc::range::handle_range;
use toc::range::if_range_fulfilled;
use toc::range::is_etag;
use toc::range::parse_range_text;
use toc::range::parse_range;
use toc::range::MaxRead;
use toc::responses::ErrorResponse;
use toc::server::bearer_token;
use toc::server::check_token;
use toc::server::download_mode;
use toc::server::follow_step;
use toc::server::gc_first_delay;
use toc::server::human_size;
use toc::server::may_delete;
use toc::server::path;
use toc::server::share_url;
use toc::server::upload_receipt;
use toc::server::DownloadMode;
use toc::server::FollowStep;
use toc::server::GcTally;
use toc::tar_hash::TarHash;
use toc::text::decimal_chars;

fn config() -> Config {
    Config {
        general: GeneralConfig {
            hostname: default_servername(),
            listen: default_listen(),
            data_dir: default_data_dir(),
            gc_interval_s: default_gc_interval_s(),
        },
        users: vec![
            UserConfig { username: "ann".to_string(), token: "one".to_string() },
            UserConfig { username: "bob".to_string(), token: "two".to_string() },
            UserConfig { username: "cat".to_string(), token: "one".to_string() },
        ],
    }
}

fn record(owner: &str, finished: bool) -> MetaData {
    let mut m = MetaData::for_upload(owner, 1000);
    m.finished = finished;
    m
}

#[test]
fn responses_carry_status_and_text() {
    let r = ErrorResponse::unauthorized();
    assert_eq!((r.status, r.error.as_str()), (401, "Unauthorized"));
    let r = ErrorResponse::unimplemented();
    assert_eq!((r.status, r.error.as_str()), (501, "Not implemented yet :/"));
    let r = ErrorResponse::not_found();
    assert_eq!((r.status, r.error.as_str()), (404, "404 - Not found :/"));
    assert_eq!(r.message(), "404 - Not found :/");
}

#[test]
fn defaults() {
    let c = config();
    assert_eq!(c.general.hostname, "localhost");
    assert_eq!(c.general.listen, "[::1]:8000");
    assert_eq!(c.general.data_dir, "./data");
    assert_eq!(c.general.gc_interval_s, 3600);
    assert_eq!(gc_first_delay(3600), 360);
    assert_eq!(gc_first_delay(9), 0);
}

#[test]
fn token_names_the_first_user_that_has_it() {
    let c = config();
    assert_eq!(c.user_by_token("one"), Some(0));
    assert_eq!(c.user_by_token("two"), Some(1));
    assert_eq!(c.user_by_token("three"), None);
    assert_eq!(c.user_by_token(""), None);
    assert_eq!(bearer_token("Bearer two"), "two");
    assert_eq!(bearer_token("two"), "two");
    assert_eq!(bearer_token("bearer two"), "bearer two");
    assert_eq!(bearer_token("Bearer "), "");
    assert_eq!(bearer_token("Bearer"), "Bearer");
    assert_eq!(bearer_token("Bearer Bearer x"), "Bearer x");
    assert_eq!(check_token(&c, Some("Bearer two")).unwrap(), 1);
    assert_eq!(check_token(&c, Some("one")).unwrap(), 0);
    assert_eq!(check_token(&c, Some("Bearer  two")).unwrap_err().status, 401);
    assert_eq!(check_token(&c, None).unwrap_err().status, 401);
}

#[test]
fn only_the_owner_deletes() {
    let m = record("ann", true);
    assert!(may_delete(Some(&m), "ann").is_ok());
    assert_eq!(may_delete(Some(&m), "bob").unwrap_err().status, 401);
    assert_eq!(may_delete(None, "ann").unwrap_err().status, 404);
}

#[test]
fn uploads_are_kept_seven_days() {
    let m = MetaData::for_upload("ann", 1_700_000_000);
    assert_eq!(m.owner, "ann");
    assert_eq!(m.created_at_unix, 1_700_000_000);
    assert_eq!(m.delete_at_unix, 1_700_000_000 + 7 * 24 * 60 * 60);
    assert_eq!(SEVEN_DAYS, 604_800);
    assert!(!m.finished && !m.allow_write && !m.allow_rewrite);
    assert!(!m.is_expired(m.delete_at_unix));
    assert!(m.is_expired(m.delete_at_unix + 1));
    assert!(!m.is_expired(0));
}

#[test]
fn store_paths() {
    let id = TarHash { hash: [0xab; 32] };
    let hex = "ab".repeat(32);
    assert_eq!(MetaStore::new("./data").file_path(&id), format!("./data/{}.tar.age", hex));
    assert_eq!(MetaStore::new("./data/").file_path(&id), format!("./data/{}.tar.age", hex));
    assert_eq!(MetaStore::new("").file_path(&id), format!("{}.tar.age", hex));
    assert_eq!(MetaStore::new("/").meta_path(&id), format!("/{}.meta.json", hex));
    assert_eq!(MetaStore::new("d").meta_path(&id), format!("d/{}.meta.json", hex));
    assert_eq!(path(&id), format!("data/{}.tar.age", hex));
    let joined = std::path::Path::new("./data").join(format!("{}.tar.age", hex));
    assert_eq!(MetaStore::new("./data").file_path(&id), joined.to_str().unwrap());
}

#[test]
fn records_are_known_by_their_file_names() {
    let hex = "0123456789abcdefABCDEF0123456789abcdef0123456789abcdef0123456789";
    let id = meta_file_id(&format!("{}.meta.json", hex)).unwrap();
    assert_eq!(id.to_string(), hex.to_lowercase());
    assert_eq!(meta_file_id(&format!("{}.x.meta.json", hex)).unwrap(), id);
    assert_eq!(meta_file_id(&format!("{}.tar.age", hex)), None);
    assert_eq!(meta_file_id(&format!("{}x.meta.json", hex)), None);
    assert_eq!(meta_file_id(&format!("{}.meta.json", &hex[1..])), None);
    assert_eq!(meta_file_id(&format!("{}.meta.json ", hex)), None);
    assert_eq!(meta_file_id(&format!("{}_meta.json", hex)), None);
    assert_eq!(meta_file_id(&format!("g{}.meta.json", &hex[1..])), None);
    assert_eq!(meta_file_id(".meta.json"), None);
    assert_eq!(meta_file_id(""), None);
}

#[test]
fn downloads() {
    assert_eq!(download_mode(true, true, true), DownloadMode::Whole);
    assert_eq!(download_mode(true, false, false), DownloadMode::Whole);
    assert_eq!(download_mode(false, false, false), DownloadMode::Following);
    assert_eq!(download_mode(false, true, false), DownloadMode::NotFinished);
    assert_eq!(download_mode(false, false, true), DownloadMode::NotFinished);
    let open = record("ann", false);
    let done = record("ann", true);
    assert_eq!(follow_step(7, None, 1), FollowStep::Deliver(7));
    assert_eq!(follow_step(0, None, 60), FollowStep::End);
    assert_eq!(follow_step(0, Some(&done), 60), FollowStep::End);
    assert_eq!(follow_step(0, Some(&open), 60), FollowStep::Wait);
    assert_eq!(follow_step(0, Some(&open), 2), FollowStep::Wait);
    assert_eq!(follow_step(0, Some(&open), 1), FollowStep::End);
    assert_eq!(follow_step(0, Some(&open), 0), FollowStep::End);
}

#[test]
fn collector_counts() {
    let mut t = GcTally::new();
    t.note(None);
    t.note(Some(true));
    t.note(Some(true));
    t.note(Some(false));
    assert_eq!(t, GcTally { count: 2, total: 4, errors: 1 });
    assert_eq!(t.summary(), "== GC: 2 / 4, 1 Errors");
    assert_eq!(GcTally::new().summary(), "== GC: 0 / 0, 0 Errors");
}

#[test]
fn sizes_for_people() {
    assert_eq!(human_size(0), "0 b");
    assert_eq!(human_size(4095), "4095 b");
    assert_eq!(human_size(4096), "4 K");
    assert_eq!(human_size(4096 * 1024 - 1), "4095 K");
    assert_eq!(human_size(4096 * 1024), "4 M");
    assert_eq!(human_size(5 << 30), "5 G");
    assert_eq!(human_size(5 << 40), "5 T");
    assert_eq!(human_size(5 << 50), "5 P");
    assert_eq!(human_size(u64::MAX), "15 E");
}

#[test]
fn numbers_in_decimal() {
    let text = |n: u64| decimal_chars(n).into_iter().collect::<String>();
    assert_eq!(text(0), "0");
    assert_eq!(text(9), "9");
    assert_eq!(text(10), "10");
    assert_eq!(text(1_234_567_890), "1234567890");
    assert_eq!(text(u64::MAX), "18446744073709551615");
}

#[test]
fn addresses() {
    assert_eq!(share_url("toc.example", "0005-a-b-c-d"), "https://toc.example/0005-a-b-c-d/");
    assert_eq!(
        upload_receipt("h", "c"),
        "===\n\nhttps://h/c/\n\n===\n\ncurl 'https://h/c/' | tar -xkvf -\n\n===\n"
    );
}

#[test]
fn ranges_are_read() {
    assert_eq!(parse_range("bytes=0-0"), Some((0, 1)));
    assert_eq!(parse_range("bytes=5-9"), Some((5, 5)));
    assert_eq!(parse_range("  bytes=5-9\t"), Some((5, 5)));
    assert_eq!(parse_range("bytes=9-5"), Some((9, 1)));
    assert_eq!(parse_range("bytes=+5-+9"), Some((5, 5)));
    assert_eq!(parse_range("bytes=0-18446744073709551615"), Some((0, 0)));
    assert_eq!(parse_range("bytes=1-18446744073709551615"), Some((1, u64::MAX)));
    assert_eq!(parse_range("bytes=0-18446744073709551616"), None);
    assert_eq!(parse_range("bytes=5-"), None);
    assert_eq!(parse_range("bytes=-5"), None);
    assert_eq!(parse_range("bytes=5"), None);
    assert_eq!(parse_range("bytes=5-9-"), None);
    assert_eq!(parse_range("bytes=5 - 9"), None);
    assert_eq!(parse_range("bytes= 5-9"), None);
    assert_eq!(parse_range("Bytes=5-9"), None);
    assert_eq!(parse_range("bytes5-9"), None);
    assert_eq!(parse_range("bytes"), None);
    assert_eq!(parse_range(""), None);
}

#[test]
fn ranges_need_the_right_tag() {
    assert_eq!(etag(0), "\"0\"");
    assert_eq!(etag(1_700_000_000), "\"1700000000\"");
    assert!(if_range_fulfilled(None, None));
    assert!(if_range_fulfilled(None, Some(5)));
    assert!(if_range_fulfilled(Some("\"5\""), Some(5)));
    assert!(if_range_fulfilled(Some(" \"5\" "), Some(5)));
    assert!(!if_range_fulfilled(Some("5"), Some(5)));
    assert!(!if_range_fulfilled(Some("\"6\""), Some(5)));
    assert!(!if_range_fulfilled(Some("\"5\""), None));
}

#[test]
fn whole_file_without_a_range() {
    let plan = handle_range(None, None, None, None, 0, 1000);
    assert_eq!((plan.status, plan.start, plan.length), (200, 0, 1000));
    assert_eq!(plan.content_range, None);
    assert_eq!(plan.etag, None);
    let plan = handle_range(None, None, Some(300), Some(77), 100, 1000);
    assert_eq!((plan.status, plan.start, plan.length), (200, 100, 300));
    assert_eq!(plan.etag.as_deref(), Some("\"77\""));
    let plan = handle_range(None, None, Some(3000), None, 100, 1000);
    assert_eq!((plan.status, plan.start, plan.length), (200, 100, 900));
    let plan = handle_range(Some("bytes=1-2"), Some("\"1\""), None, Some(2), 0, 1000);
    assert_eq!((plan.status, plan.start, plan.length), (200, 0, 1000));
    let plan = handle_range(Some("bytes=1-"), None, None, Some(2), 0, 1000);
    assert_eq!((plan.status, plan.start, plan.length), (200, 0, 1000));
}

#[test]
fn part_of_a_file_for_a_range() {
    let plan = handle_range(Some("bytes=10-19"), None, None, Some(5), 0, 1000);
    assert_eq!((plan.status, plan.start, plan.length), (206, 10, 10));
    assert_eq!(plan.content_range.as_deref(), Some("bytes 10-19/1000"));
    assert_eq!(plan.etag.as_deref(), Some("\"5\""));
    let plan = handle_range(Some("bytes=10-19"), Some("\"5\""), Some(15), Some(5), 100, 1000);
    assert_eq!((plan.status, plan.start, plan.length), (206, 110, 5));
    assert_eq!(plan.content_range.as_deref(), Some("bytes 10-14/15"));
    let plan = handle_range(Some("bytes=990-2000"), None, None, None, 0, 1000);
    assert_eq!((plan.status, plan.start, plan.length), (206, 990, 10));
    assert_eq!(plan.content_range.as_deref(), Some("bytes 990-999/1000"));
    let plan = handle_range(Some("bytes=1000-2000"), None, None, None, 0, 1000);
    assert_eq!((plan.status, plan.start, plan.length), (206, 1000, 0));
    assert_eq!(plan.content_range.as_deref(), Some("bytes 1000-999/1000"));
    let plan = handle_range(Some("bytes=0-5"), None, None, None, 7, 7);
    assert_eq!((plan.status, plan.start, plan.length), (206, 7, 0));
    assert_eq!(plan.content_range.as_deref(), Some("bytes 0-18446744073709551615/0"));
    let plan = handle_range(Some("bytes=18446744073709551615-0"), None, None, None, 7, 9);
    assert_eq!((plan.status, plan.start, plan.length), (206, u64::MAX, 0));
}

#[test]
fn reads_are_capped() {
    let mut cap = MaxRead { left: 10 };
    assert_eq!(cap.allowance(4), 4);
    cap.consumed(4);
    assert_eq!(cap.left, 6);
    assert_eq!(cap.allowance(100), 6);
    cap.consumed(6);
    assert_eq!(cap.allowance(100), 0);
    assert_eq!(MaxRead { left: u64::MAX }.allowance(3), 3);
}

#[test]
fn pipe_hands_chunks_on() {
    let (mut writer, mut reader) = create_pipe();
    assert_eq!(writer.written(), 0);
    assert!(reader.is_empty());
    let mut buf = [0u8; 4];
    assert_eq!(reader.read(&mut buf), 0);
    writer.record(6);
    writer.record(0);
    assert_eq!(writer.written(), 6);
    reader.refill(vec![1, 2, 3, 4, 5, 6]);
    assert!(!reader.is_empty());
    assert_eq!(reader.read(&mut buf), 4);
    assert_eq!(buf, [1, 2, 3, 4]);
    assert_eq!(reader.read(&mut buf), 2);
    assert_eq!(buf, [5, 6, 3, 4]);
    assert!(reader.is_empty());
    assert_eq!(reader.read(&mut buf), 0);
    reader.refill(vec![9]);
    assert_eq!(reader.read(&mut []), 0);
    assert_eq!(reader.read(&mut buf), 1);
    assert_eq!(buf[0], 9);
}

#[test]
fn range_text_is_read_as_it_stands() {
    let text = |t: &str| t.chars().collect::<Vec<char>>();
    assert_eq!(parse_range_text(&text("bytes=3-4")), Some((3, 2)));
    assert_eq!(parse_range_text(&text(" bytes=3-4")), None);
    assert_eq!(parse_range_text(&text("bytes=3-4 ")), None);
    assert!(is_etag("\"12\"", 12));
    assert!(!is_etag(" \"12\"", 12));
    assert!(!is_etag("\"012\"", 12));
}
