use toc::client::entry_action;
use toc::client::parse_url;
use toc::client::procotol_parser;
use toc::client::EntryAction;
use toc::client::shorten;
use toc::client::tar_password_parser;
use toc::client::to_ascii_lower;
use toc::client::Config;
use toc::client::Protocol;

#[test]
fn protocols_by_scheme() {
    assert_eq!(procotol_parser("https"), Ok(Protocol::Https));
    assert_eq!(procotol_parser("http"), Ok(Protocol::Http));
    assert_eq!(procotol_parser("wss"), Ok(Protocol::Https));
    assert_eq!(procotol_parser("ws"), Ok(Protocol::Http));
    assert_eq!(procotol_parser("HTTPS"), Ok(Protocol::Https));
    assert_eq!(procotol_parser("Ws"), Ok(Protocol::Http));
    assert_eq!(procotol_parser("ftp"), Err("Unknown protocol: ftp".to_string()));
    assert_eq!(procotol_parser(""), Err("Unknown protocol: ".to_string()));
    assert_eq!(procotol_parser("https "), Err("Unknown protocol: https ".to_string()));
    assert_eq!(procotol_parser("Http\u{212A}"), Err("Unknown protocol: Http\u{212A}".to_string()));
    assert_eq!(Protocol::Https.name(), "https");
    assert_eq!(Protocol::Http.name(), "http");
    assert_eq!(Protocol::default(), Protocol::Https);
    assert_eq!(to_ascii_lower('A'), 'a');
    assert_eq!(to_ascii_lower('Z'), 'z');
    assert_eq!(to_ascii_lower('@'), '@');
    assert_eq!(to_ascii_lower('['), '[');
    assert_eq!(to_ascii_lower('É'), 'É');
}

#[test]
fn settings_start_open() {
    let c = Config::default();
    assert!(c.host.is_none() && c.token.is_none() && c.protocol.is_none() && c.history_file.is_none());
}

#[test]
fn code_alone() {
    let url = tar_password_parser(" 0005-abandon-ability-able-about\n").unwrap();
    assert_eq!(url.protocol, None);
    assert_eq!(url.host, None);
    assert_eq!(url.code.to_string(), "0005-abandon-ability-able-about");
    let url = tar_password_parser("0005-abandon-ability-able-about/").unwrap();
    assert_eq!(url.host, None);
    assert_eq!(url.code.prefix(), 5);
    let url = tar_password_parser("0005-abandon-ability-able-about///").unwrap_err();
    assert_eq!(url, "Invalid code: //.");
    let url = tar_password_parser("/0005-abandon-ability-able-about").unwrap_err();
    assert_eq!(url, "Invalid code: /0005-abandon-ability-able-about.");
}

#[test]
fn code_with_server_and_scheme() {
    let url = tar_password_parser("toc.example/0005-abandon-ability-able-about/").unwrap();
    assert_eq!(url.protocol, None);
    assert_eq!(url.host.as_deref(), Some("toc.example"));
    assert_eq!(url.code.words(), [0, 1, 2, 3]);
    let url = tar_password_parser("HTTP://toc.example:8000/0005-abandon-ability-able-about").unwrap();
    assert_eq!(url.protocol, Some(Protocol::Http));
    assert_eq!(url.host.as_deref(), Some("toc.example:8000"));
    let url = tar_password_parser("wss://0005-abandon-ability-able-about").unwrap();
    assert_eq!(url.protocol, Some(Protocol::Https));
    assert_eq!(url.host, None);
    let url = tar_password_parser("https://h/0005-abandon-ability-able-about").unwrap();
    assert_eq!(url.host.as_deref(), Some("h"));
}

#[test]
fn words_that_are_no_code() {
    let said = |input: &str| tar_password_parser(input).unwrap_err();
    assert_eq!(said("gopher://h/0005-abandon-ability-able-about"), "Unknown protocol: gopher");
    assert_eq!(said("://x"), "Unknown protocol: ");
    assert_eq!(said("h/p/0005-a"), "Invalid code: p/0005-a.");
    assert_eq!(said("https://h/"), "Invalid code: h/.");
    assert_eq!(said(""), "Invalid code: .");
    assert_eq!(said("nothing"), "Invalid code: nothing.");
}

#[test]
fn long_paths_lose_their_middle() {
    let short: Vec<u8> = (0..100u8).collect();
    assert_eq!(shorten(&short), short);
    let long: Vec<u8> = (0..101u8).collect();
    let cut = shorten(&long);
    assert_eq!(cut.len(), 100);
    assert_eq!(&cut[..50], &long[..50]);
    assert_eq!(&cut[50..], &long[51..]);
    let long: Vec<u8> = (0..250u8).collect();
    let cut = shorten(&long);
    assert_eq!(&cut[..50], &long[..50]);
    assert_eq!(&cut[50..], &long[200..]);
    assert_eq!(shorten(&[]), Vec::<u8>::new());
}

#[test]
fn entries_of_a_received_archive() {
    assert_eq!(entry_action("./", false, false, true, false), EntryAction::Ignore);
    assert_eq!(entry_action(".", true, true, true, false), EntryAction::Ignore);
    assert_eq!(entry_action("a", true, false, false, true), EntryAction::Skip);
    assert_eq!(entry_action("a/", true, false, true, false), EntryAction::Skip);
    assert_eq!(entry_action("a/", true, true, true, false), EntryAction::MakeDir);
    assert_eq!(entry_action("a/", false, false, true, false), EntryAction::MakeDir);
    assert_eq!(entry_action("a", true, true, false, true), EntryAction::WriteFile { replace: true });
    assert_eq!(entry_action("a", false, false, false, true), EntryAction::WriteFile { replace: false });
    assert_eq!(entry_action("a", false, true, false, false), EntryAction::LeaveOut);
    assert_eq!(entry_action("..", false, false, true, false), EntryAction::MakeDir);
}

#[test]
fn url_text_is_read_as_it_stands() {
    let text = |t: &str| t.chars().collect::<Vec<char>>();
    let url = parse_url(&text("ws://h/0005-abandon-ability-able-about")).unwrap();
    assert_eq!(url.protocol, Some(Protocol::Http));
    assert_eq!(url.host.as_deref(), Some("h"));
    assert_eq!(parse_url(&text(" 0005-abandon-ability-able-about")).unwrap_err(), "Invalid code:  0005-abandon-ability-able-about.");
}
