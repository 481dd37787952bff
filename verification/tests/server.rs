use chat::error::{AppError, ImmutStr};
use chat::jwt::UserCliams;
use chat::notify::config::NotifyConfig;
use chat::server::chat::{ChatFault, CreateChat};
use chat::server::config::{pick_settings_file, AppConfig};
use chat::server::file::ChatFile;
use chat::server::message::{CreateMessage, ListMessage};
use chat::text::{chars_of, decimal, find, find_last, parse_i64, same_text};
use chat::types::ChatType;

fn request(members: Vec<i64>, name: Option<&str>, public: bool) -> CreateChat {
    CreateChat { name: name.map(|n| n.to_string()), members, public }
}

fn parsed(text: &str) -> Option<i64> {
    parse_i64(&text.chars().collect())
}

#[test]
fn errors_carry_their_kind_status_and_text() {
    let e = AppError::not_found("file not found");
    assert!(matches!(e, AppError::NotFound(ImmutStr::Static("file not found"))));
    assert_eq!(e.status(), 404);
    assert_eq!(e.message(), "file not found");
    let e = AppError::invalid_input("empty content".to_string());
    assert!(matches!(e, AppError::InvalidInput(ImmutStr::Boxed(_))));
    assert_eq!(e.status(), 422);
    assert_eq!(e.message(), "empty content");
    let e = AppError::already_exist("user");
    assert!(matches!(e, AppError::AlreadyExist(_)));
    assert_eq!(e.status(), 409);
    assert_eq!(e.message(), "user");
    let e = AppError::forbidden("user is not the chat member or chat not exist");
    assert!(matches!(e, AppError::Forbidden(_)));
    assert_eq!(e.status(), 403);
    let e = AppError::any("connection refused".to_string());
    assert!(matches!(e, AppError::Internal(_)));
    assert_eq!(e.status(), 500);
    assert_eq!(e.message(), "connection refused");
    assert_eq!(ImmutStr::from("a").text(), "a");
    assert_eq!(ImmutStr::from("b".to_string()).text(), "b");
}

#[test]
fn a_chat_needs_two_members() {
    assert_eq!(request(vec![], None, false).check_shape(), Err(ChatFault::TooFewMembers));
    assert_eq!(request(vec![1], Some("x"), true).check_shape(), Err(ChatFault::TooFewMembers));
    assert_eq!(request(vec![1, 2], None, false).check_shape(), Ok(()));
    let e = ChatFault::TooFewMembers.into_error();
    assert_eq!(e.status(), 422);
    assert_eq!(e.message(), "chat must have at least 2 members");
}

#[test]
fn a_named_chat_has_at_most_five_members() {
    assert_eq!(request(vec![1, 2, 3, 4, 5], Some("five"), false).check_shape(), Ok(()));
    assert_eq!(
        request(vec![1, 2, 3, 4, 5, 6], Some("six"), false).check_shape(),
        Err(ChatFault::NamedCrowd)
    );
    assert_eq!(request(vec![1, 2, 3, 4, 5, 6], None, false).check_shape(), Ok(()));
    assert_eq!(
        ChatFault::NamedCrowd.message(),
        "group chat with more than 5 members must have a name"
    );
}

#[test]
fn every_member_of_a_chat_must_exist() {
    let input = request(vec![1, 2, 3], None, false);
    assert_eq!(input.check_members(3), Ok(()));
    assert_eq!(input.check_members(2), Err(ChatFault::UnknownMembers));
    assert_eq!(input.check_members(4), Err(ChatFault::UnknownMembers));
    assert_eq!(ChatFault::UnknownMembers.into_error().message(), "some members don't exist");
}

#[test]
fn the_kind_of_a_chat_follows_from_name_and_size() {
    assert_eq!(request(vec![1, 2], None, false).chat_type(), ChatType::Single);
    assert_eq!(request(vec![1, 2], None, true).chat_type(), ChatType::Single);
    assert_eq!(request(vec![1, 2, 3], None, false).chat_type(), ChatType::Group);
    assert_eq!(request(vec![1, 2], Some("test"), true).chat_type(), ChatType::PublicChannel);
    assert_eq!(request(vec![1, 2], Some("test"), false).chat_type(), ChatType::PrivateChannel);
}

#[test]
fn chat_kinds_have_names() {
    for kind in [ChatType::Single, ChatType::Group, ChatType::PrivateChannel, ChatType::PublicChannel] {
        assert_eq!(ChatType::from_name(kind.name()), Some(kind));
    }
    assert_eq!(ChatType::PrivateChannel.name(), "private_channel");
    assert_eq!(ChatType::from_name("Single"), None);
}

#[test]
fn a_message_needs_content_and_its_files() {
    let message = |content: &str, files: Vec<&str>| CreateMessage {
        chat_id: 1,
        content: content.to_string(),
        files: files.into_iter().map(|f| f.to_string()).collect(),
    };
    assert!(message("test", vec![]).verify(&vec![]).is_ok());
    let e = message("", vec![]).verify(&vec![]).unwrap_err();
    assert_eq!(e.status(), 422);
    assert_eq!(e.message(), "empty content");
    assert!(message("test", vec!["a", "b"]).verify(&vec![true, true]).is_ok());
    let e = message("test", vec!["a", "b"]).verify(&vec![true, false]).unwrap_err();
    assert_eq!(e.status(), 422);
    assert_eq!(e.message(), "some files not exist");
    assert!(message("test", vec!["a", "b"]).verify(&vec![true]).is_err());
    assert_eq!(message("", vec!["a"]).verify(&vec![false]).unwrap_err().message(), "empty content");
}

#[test]
fn messages_are_listed_below_the_last_seen() {
    assert_eq!(ListMessage { last_id: None, limit: 10 }.before(), i64::MAX);
    assert_eq!(ListMessage { last_id: Some(7), limit: 10 }.before(), 7);
}

#[test]
fn a_file_is_named_by_its_hash() {
    let file = ChatFile::new(1, "hello.tar.gz", b"hello world");
    assert_eq!(file.ws_id, 1);
    assert_eq!(file.ext, "gz");
    assert_eq!(file.hash, "2aae6c35c94fcfb415dbe95f408b9ce91ee846ed");
    assert!(file.is_placed());
    assert_eq!(file.hash_to_path(), "1/2aa/e6c/35c94fcfb415dbe95f408b9ce91ee846ed.gz");
    assert_eq!(file.url(), "/files/1/2aa/e6c/35c94fcfb415dbe95f408b9ce91ee846ed.gz");
    assert_eq!(file.path("/tmp/files"), "/tmp/files/1/2aa/e6c/35c94fcfb415dbe95f408b9ce91ee846ed.gz");
    assert_eq!(file.path("/tmp/files/"), "/tmp/files/1/2aa/e6c/35c94fcfb415dbe95f408b9ce91ee846ed.gz");
    assert_eq!(file.path(""), "1/2aa/e6c/35c94fcfb415dbe95f408b9ce91ee846ed.gz");
    assert_eq!(
        std::path::Path::new("/tmp/files").join(file.hash_to_path()),
        std::path::PathBuf::from(file.path("/tmp/files"))
    );
    assert_eq!(ChatFile::new(1, "README", b"").ext, "README");
    assert_eq!(ChatFile::new(1, "archive.", b"").ext, "");
    assert_eq!(ChatFile::new(1, "", b"").hash, "da39a3ee5e6b4b0d3255bfef95601890afd80709");
    assert_eq!(ChatFile::new(-3, "a.b", b"").hash_to_path(), "-3/da3/9a3/ee5e6b4b0d3255bfef95601890afd80709.b");
}

#[test]
fn a_file_is_found_again_by_its_address() {
    let file = ChatFile::new(12, "notes.txt", b"hello world");
    let found = ChatFile::from_url(&file.hash_to_path()).unwrap();
    assert_eq!(found.ws_id, 12);
    assert_eq!(found.ext, "txt");
    assert_eq!(found.hash, file.hash);
    let found = ChatFile::from_url("1/abc/def/0123").unwrap();
    assert_eq!((found.ws_id, found.ext.as_str(), found.hash.as_str()), (1, "txt", "abcdef0123"));
    let found = ChatFile::from_url("+7/abc/def/0123.tar.gz/more/parts").unwrap();
    assert_eq!((found.ws_id, found.ext.as_str(), found.hash.as_str()), (7, "tar.gz", "abcdef0123"));
    let found = ChatFile::from_url("1/a/b/c").unwrap();
    assert_eq!(found.hash, "abc");
    assert!(!found.is_placed());
    let found = ChatFile::from_url("1///.png").unwrap();
    assert_eq!((found.ext.as_str(), found.hash.as_str()), ("png", ""));
}

#[test]
fn a_hash_is_cut_at_its_third_and_sixth_byte() {
    let found = ChatFile::from_url("1/abc/def/\u{e9}.png").unwrap();
    assert_eq!(found.hash, "abcdef\u{e9}");
    assert!(found.is_placed());
    assert_eq!(found.hash_to_path(), "1/abc/def/\u{e9}.png");
    assert_eq!(found.path("/tmp/files"), "/tmp/files/1/abc/def/\u{e9}.png");
    let file = |hash: &str| ChatFile { ws_id: 2, ext: "txt".to_string(), hash: hash.to_string() };
    let two_then_one = file("\u{e9}a\u{20ac}rest");
    assert!(two_then_one.is_placed());
    let (first, tail) = two_then_one.hash.split_at(3);
    let (second, third) = tail.split_at(3);
    assert_eq!(two_then_one.hash_to_path(), format!("2/{}/{}/{}.txt", first, second, third));
    assert_eq!(two_then_one.hash_to_path(), "2/\u{e9}a/\u{20ac}/rest.txt");
    assert_eq!(file("abcdef").hash_to_path(), "2/abc/def/.txt");
}

#[test]
fn a_hash_that_cannot_be_cut_has_no_place() {
    let file = |hash: &str| ChatFile { ws_id: 2, ext: "txt".to_string(), hash: hash.to_string() };
    assert!(!file("").is_placed());
    assert!(!file("abcde").is_placed());
    assert!(!file("ab\u{e9}def").is_placed());
    assert!(!file("abcde\u{e9}").is_placed());
    assert!(!file("a\u{1f600}bcd").is_placed());
    assert!(!file("\u{e9}\u{e9}\u{e9}").is_placed());
    assert!(file("\u{20ac}\u{20ac}").is_placed());
    assert!(!file("abc\u{1f600}").is_placed());
}

#[test]
fn an_address_needs_four_parts_and_a_workspace() {
    for url in ["", "1", "1/abc", "1/abc/def"] {
        let e = ChatFile::from_url(url).unwrap_err();
        assert_eq!(e.status(), 422);
        assert_eq!(e.message(), "invalid file url format");
    }
    for url in ["/abc/def/0123", "x/abc/def/0123", "1 /abc/def/0123", "9223372036854775808/a/b/c"] {
        let e = ChatFile::from_url(url).unwrap_err();
        assert_eq!(e.status(), 500);
        assert_eq!(e.message(), "invalid workspace id in file url");
    }
    assert_eq!(ChatFile::from_url("-9223372036854775808/a/b/c").unwrap().ws_id, i64::MIN);
}

#[test]
fn uploads_need_a_plain_name_and_downloads_the_same_workspace() {
    assert!(ChatFile::accepts_name("a.png"));
    assert!(!ChatFile::accepts_name(""));
    assert!(!ChatFile::accepts_name("a/b.png"));
    assert!(!ChatFile::accepts_name("/"));
    let file = ChatFile::new(2, "a.png", b"x");
    assert!(file.check_workspace(&UserCliams { uid: 1, ws_id: 2 }).is_ok());
    let e = file.check_workspace(&UserCliams { uid: 1, ws_id: 3 }).unwrap_err();
    assert_eq!(e.status(), 404);
    assert_eq!(e.message(), "file not found");
    let e = ChatFile::read_error(true, "No such file or directory".to_string());
    assert_eq!((e.status(), e.message().as_str()), (404, "file not found"));
    let e = ChatFile::read_error(false, "permission denied".to_string());
    assert_eq!((e.status(), e.message().as_str()), (500, "permission denied"));
}

#[test]
fn settings_come_from_the_named_file_first() {
    assert_eq!(AppConfig::locate(Some("/etc/chat.yml".to_string()), true, true), Some("/etc/chat.yml".to_string()));
    assert_eq!(AppConfig::locate(None, true, true), Some("app.yml".to_string()));
    assert_eq!(AppConfig::locate(None, false, true), Some("app.yaml".to_string()));
    assert_eq!(AppConfig::locate(None, false, false), None);
    assert_eq!(NotifyConfig::locate(None, true, false), Some("notify.yml".to_string()));
    assert_eq!(NotifyConfig::locate(None, false, true), Some("notify.yaml".to_string()));
    assert_eq!(NotifyConfig::locate(Some("n.yml".to_string()), false, false), Some("n.yml".to_string()));
    assert_eq!(pick_settings_file(None, "a", false, "b", true), Some("b".to_string()));
}

#[test]
fn whole_numbers_are_written_and_read_in_decimal() {
    assert_eq!(decimal(0), "0");
    assert_eq!(decimal(7), "7");
    assert_eq!(decimal(1234567890), "1234567890");
    assert_eq!(decimal(-42), "-42");
    assert_eq!(decimal(i64::MAX), "9223372036854775807");
    assert_eq!(decimal(i64::MIN), "-9223372036854775808");
    for i in [0, 1, -1, 10, 99, -100, 604800, i64::MAX, i64::MIN] {
        assert_eq!(parsed(&decimal(i)), Some(i));
        assert_eq!(decimal(i), i.to_string());
    }
    assert_eq!(parsed("+15"), Some(15));
    assert_eq!(parsed("-0"), Some(0));
    assert_eq!(parsed("0007"), Some(7));
    assert_eq!(parsed("00000000000000000000000000000000000001"), Some(1));
    for text in ["", "+", "-", "--1", "1-", " 1", "1 ", "1.0", "0x10", "9223372036854775808", "-9223372036854775809", "99999999999999999999999"] {
        assert_eq!(parsed(text), None);
        assert!(text.parse::<i64>().is_err());
    }
}

#[test]
fn texts_are_compared_and_searched_by_character() {
    assert!(same_text("chat", "chat"));
    assert!(!same_text("chat", "chat "));
    let chars = chars_of("a/b\u{e9}/c");
    assert_eq!(chars, vec!['a', '/', 'b', '\u{e9}', '/', 'c']);
    assert_eq!(find(&chars, '/', 0), 1);
    assert_eq!(find(&chars, '/', 2), 4);
    assert_eq!(find(&chars, '/', 5), 6);
    assert_eq!(find(&chars, '/', 9), 6);
    assert_eq!(find_last(&chars, '/'), Some(4));
    assert_eq!(find_last(&chars, 'x'), None);
}
