use chat_dump::config::{plan_command, CommandError, DiscordCommands, PlatformCommands, Task, TelegramCommands};
use chat_dump::headers::{parse_header_line, parse_headers};
use chat_dump::input::{
    check_date_point, check_direction, check_extension, crawl_limit, parse_targets, progress_length,
    UNBOUNDED_PROGRESS,
};
use chat_dump::persist::{discord_dump_name, execution_stamp, resolved_peers_name, telegram_dump_name};
use chat_dump::text::{contains, decimal, eq_ignore_ascii_case, path_safe, signed_decimal, split_lines, trim_by, Strip};

#[test]
fn decimal_rendering() {
    assert_eq!(decimal(0), "0");
    assert_eq!(decimal(7), "7");
    assert_eq!(decimal(1234567890), "1234567890");
    assert_eq!(decimal(u64::MAX), "18446744073709551615");
    assert_eq!(signed_decimal(-42), "-42");
    assert_eq!(signed_decimal(i64::MIN), "-9223372036854775808");
}

#[test]
fn lines_split_like_text_files() {
    assert_eq!(split_lines("alice\nbob\n"), vec!["alice", "bob"]);
    assert_eq!(split_lines("alice\r\nbob"), vec!["alice", "bob"]);
    assert_eq!(split_lines("a\n\nb"), vec!["a", "", "b"]);
    assert_eq!(split_lines("\n"), vec![""]);
    assert!(split_lines("").is_empty());
}

#[test]
fn trimming_and_searching() {
    assert_eq!(trim_by("  \t key \u{3000}", Strip::Whitespace), "key");
    assert_eq!(trim_by("\"\"quoted\"", Strip::Char('"')), "quoted");
    assert_eq!(trim_by("   ", Strip::Whitespace), "");
    assert!(contains("abc$session=1", "$session"));
    assert!(!contains("abc", "abcd"));
    assert!(contains("abc", ""));
    assert!(eq_ignore_ascii_case("TXT", "txt"));
    assert!(!eq_ignore_ascii_case("txt", "json"));
    assert!(!eq_ignore_ascii_case("Ä", "ä"));
}

#[test]
fn stamps_are_path_safe() {
    assert_eq!(path_safe("2024-01-01T10:20:30+02:00"), "2024-01-01T10_20_30_02_00");
    assert_eq!(execution_stamp(0).unwrap(), "1970-01-01T00_00_00Z");
    assert_eq!(execution_stamp(1_704_067_200).unwrap(), "2024-01-01T00_00_00Z");
    assert!(execution_stamp(i64::MAX).is_none());
}

#[test]
fn artifact_names() {
    assert_eq!(discord_dump_name(2, "S"), "discord_dumped_peers_2_S.json");
    assert_eq!(resolved_peers_name(3, "S"), "telegram_resolved_peers_3_S.json");
    assert_eq!(telegram_dump_name("alice", Some(50), "S"), "telegram_alice_50_S.json");
    assert_eq!(telegram_dump_name("bob", None, "S"), "telegram_bob_S.json");
}

#[test]
fn target_lists_decode() {
    let ok = parse_targets(&b"alice\nbob\n".to_vec(), "t.txt".to_string()).ok().unwrap();
    assert_eq!(ok, vec!["alice", "bob"]);
    match parse_targets(&vec![0x61, 0xff, 0x0a], "t.txt".to_string()) {
        Err(e) => assert_eq!(e.filepath, "t.txt"),
        Ok(_) => panic!("malformed UTF-8 must be refused"),
    }
    let bom = parse_targets(&vec![0xef, 0xbb, 0xbf, b'x'], "b.txt".to_string()).ok().unwrap();
    assert_eq!(bom, vec!["x"]);
}

#[test]
fn extension_checks() {
    assert!(check_extension(Some("TXT".to_string()), "txt").is_ok());
    match check_extension(Some("csv".to_string()), "txt") {
        Err(e) => {
            assert_eq!(e.expected, "txt");
            assert_eq!(e.found, "csv");
        }
        Ok(_) => panic!("wrong extension"),
    }
    match check_extension(None, "json") {
        Err(e) => assert_eq!(e.found, "UNKNOWN_EXTENSION"),
        Ok(_) => panic!("no extension"),
    }
}

#[test]
fn date_point_and_direction_checks() {
    assert_eq!(check_date_point(0).ok(), Some(0));
    assert_eq!(check_date_point(-86_400).ok(), Some(-86_400));
    match check_date_point(i64::MAX) {
        Err(e) => {
            assert_eq!(e.datestring, i64::MAX.to_string());
            assert_eq!(e.error_object, "NO DATE_POINT FOUND AFTER PARSE");
        }
        Ok(_) => panic!("out of range"),
    }
    assert!(check_direction("telegram".to_string(), false).is_ok());
    match check_direction("discord".to_string(), true) {
        Err(e) => assert_eq!(e.platform, "discord"),
        Ok(_) => panic!("reverse is refused"),
    }
    assert_eq!(progress_length(Some(9)), 9);
    assert_eq!(progress_length(None), UNBOUNDED_PROGRESS);
    assert_eq!(crawl_limit(Some(9)), Some(9));
    assert_eq!(crawl_limit(None), None);
}

#[test]
fn header_snippet_parsing() {
    let snippet = "$session = New-Object Microsoft.PowerShell.Commands.WebRequestSession\n\
                   Invoke-WebRequest -UseBasicParsing -Uri \"https://x\" `\n\
                   \"authority\"=\"discord.com\"\n\
                   \"authorization\"=\"SECRET-REDACTED\"\n\
                   \n\
                   no equals sign here\n\
                   \"x-super-properties\"=\"a=b\" `\n\
                   \"Path\"=\"/api\"\n";
    let headers = parse_headers(snippet);
    assert_eq!(
        headers,
        vec![
            ("authorization".to_string(), "SECRET-REDACTED".to_string()),
            ("x-super-properties".to_string(), "a=b\" ".to_string()),
        ]
    );
    assert_eq!(parse_header_line("  key = `value` "), Some(("key".to_string(), "value".to_string())));
    assert_eq!(parse_header_line("METHOD=GET"), None);
}

#[test]
fn command_planning() {
    let resolve = PlatformCommands::Telegram { method: TelegramCommands::ResolveUsers { usernames: "u.txt".to_string() } };
    assert!(matches!(plan_command(resolve, Some("txt".to_string())), Ok(Task::ResolveUsers { .. })));
    let dump = |reverse: bool, date_point: i64| PlatformCommands::Telegram {
        method: TelegramCommands::DumpMessages { users_file: "p.json".to_string(), limit: Some(5), date_point, reverse },
    };
    match plan_command(dump(false, 10), Some("json".to_string())) {
        Ok(Task::DumpTelegram { users_file, limit, date_point }) => {
            assert_eq!(users_file, "p.json");
            assert_eq!(limit, Some(5));
            assert_eq!(date_point, 10);
        }
        _ => panic!("valid command"),
    }
    assert!(matches!(plan_command(dump(false, 10), Some("txt".to_string())), Err(CommandError::Extension(_))));
    assert!(matches!(plan_command(dump(true, 10), Some("json".to_string())), Err(CommandError::Direction(_))));
    assert!(matches!(plan_command(dump(false, i64::MIN), Some("json".to_string())), Err(CommandError::DateTime(_))));
    let discord = PlatformCommands::Discord {
        method: DiscordCommands::DumpMessages { targets_file: "c.txt".to_string(), limit: None, date_point: 0, reverse: false },
    };
    assert!(matches!(plan_command(discord, None), Err(CommandError::Extension(_))));
}
