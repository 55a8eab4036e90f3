//! The shell's command grammar, exercised on concrete lines.

use proton::repl::{
    classify_command, completion_candidates, matching_commands, parse_repeat, parse_u32_dec,
    parse_u64_dec, rfind_str, split_commands, str_eq, str_starts_with, trim_str, Completion,
    RepeatParse, ReplCommand,
};

#[test]
fn trims_whitespace() {
    assert_eq!(trim_str("  help  "), "help");
    assert_eq!(trim_str("\t connect 5 \r\n"), "connect 5");
    assert_eq!(trim_str(""), "");
    assert_eq!(trim_str("   "), "");
    assert_eq!(trim_str("x"), "x");
}

#[test]
fn string_helpers() {
    assert!(str_eq("help", "help"));
    assert!(!str_eq("help", "hel"));
    assert!(str_starts_with("connect 5", "connect"));
    assert!(!str_starts_with("con", "connect"));
}

#[test]
fn parses_decimals() {
    assert_eq!(parse_u64_dec("0"), Some(0));
    assert_eq!(parse_u64_dec("42"), Some(42));
    assert_eq!(parse_u64_dec("18446744073709551615"), Some(u64::MAX));
    assert_eq!(parse_u64_dec("18446744073709551616"), None);
    assert_eq!(parse_u64_dec(""), None);
    assert_eq!(parse_u64_dec("12a"), None);
    assert_eq!(parse_u64_dec("-1"), None);
    assert_eq!(parse_u32_dec("4294967295"), Some(u32::MAX));
    assert_eq!(parse_u32_dec("4294967296"), None);
    assert_eq!(parse_u32_dec("7"), Some(7));
}

#[test]
fn classifies_plain_commands() {
    assert_eq!(classify_command("help"), ReplCommand::Help);
    assert_eq!(classify_command("  help  "), ReplCommand::Help);
    assert_eq!(classify_command("reset"), ReplCommand::Reset);
    assert_eq!(classify_command("send_event"), ReplCommand::SendEvent);
    assert_eq!(classify_command("read_action"), ReplCommand::ReadAction);
    assert_eq!(classify_command("close"), ReplCommand::Close);
    assert_eq!(classify_command("exit"), ReplCommand::Exit);
    assert_eq!(classify_command(""), ReplCommand::Empty);
    assert_eq!(classify_command("   "), ReplCommand::Empty);
    assert_eq!(classify_command("frobnicate"), ReplCommand::Unknown);
}

#[test]
fn classifies_connect() {
    assert_eq!(classify_command("connect"), ReplCommand::Connect(None));
    assert_eq!(classify_command("connect 5"), ReplCommand::Connect(Some(5)));
    assert_eq!(classify_command("connect 0"), ReplCommand::Connect(Some(0)));
    assert_eq!(classify_command("connect soon"), ReplCommand::Connect(None));
    assert_eq!(classify_command("connection"), ReplCommand::Connect(None));
}

#[test]
fn classifies_commit() {
    assert_eq!(classify_command("commit 7"), ReplCommand::Commit(7));
    assert_eq!(classify_command("commit 0"), ReplCommand::Commit(0));
    assert_eq!(classify_command("commit abc"), ReplCommand::CommitInvalid);
    assert_eq!(classify_command("commit 4294967296"), ReplCommand::CommitInvalid);
    assert_eq!(classify_command("commit"), ReplCommand::Unknown);
}

#[test]
fn classifies_sleep() {
    assert_eq!(classify_command("sleep 2"), ReplCommand::Sleep(2));
    assert_eq!(classify_command("sleep soon"), ReplCommand::SleepInvalid);
    assert_eq!(classify_command("sleep -1"), ReplCommand::SleepInvalid);
    assert_eq!(classify_command("sleep"), ReplCommand::Unknown);
}

#[test]
fn splits_chains() {
    assert_eq!(split_commands("a;b;c"), vec!["a", "b", "c"]);
    assert_eq!(split_commands("a;"), vec!["a", ""]);
    assert_eq!(split_commands(""), vec![""]);
    assert_eq!(
        split_commands("connect 5; sleep 2; send_event"),
        vec!["connect 5", " sleep 2", " send_event"]
    );
}

#[test]
fn parses_repeat_counts() {
    assert_eq!(
        parse_repeat("5 connect"),
        RepeatParse::Counted(5, String::from("connect"))
    );
    assert_eq!(
        parse_repeat("3 send_event"),
        RepeatParse::Counted(3, String::from("send_event"))
    );
    assert_eq!(parse_repeat("5"), RepeatParse::MissingCommand);
    assert_eq!(parse_repeat("connect"), RepeatParse::Single);
    assert_eq!(parse_repeat("connect 5"), RepeatParse::Single);
    assert_eq!(parse_repeat("4294967296 connect"), RepeatParse::Single);
    assert_eq!(parse_repeat(""), RepeatParse::Single);
}

#[test]
fn finds_last_occurrence() {
    assert_eq!(rfind_str("ab ab", "ab"), Some(3));
    assert_eq!(rfind_str("abab", "abab"), Some(0));
    assert_eq!(rfind_str("abc", "z"), None);
    assert_eq!(rfind_str("a", "ab"), None);
}

#[test]
fn completes_commands() {
    assert_eq!(completion_candidates("", true), Completion::AllCommands);
    assert_eq!(completion_candidates("  ", true), Completion::AllCommands);
    assert_eq!(completion_candidates("5", true), Completion::ConnectSuffix);
    assert_eq!(completion_candidates("12", true), Completion::ConnectSuffix);
    assert_eq!(
        completion_candidates("con", true),
        Completion::Words(0, vec!["connect"])
    );
    assert_eq!(
        completion_candidates("co", true),
        Completion::Words(0, vec!["connect", "commit"])
    );
    assert_eq!(
        completion_candidates("5 con", true),
        Completion::Words(2, vec!["connect"])
    );
    assert_eq!(completion_candidates("5", false), Completion::Words(0, vec![]));
    assert_eq!(
        completion_candidates("se", true),
        Completion::Words(0, vec!["send_event"])
    );
}

#[test]
fn matches_command_prefixes() {
    assert_eq!(matching_commands("re"), vec!["read_action", "reset"]);
    assert_eq!(matching_commands("zzz"), Vec::<&str>::new());
    assert_eq!(
        matching_commands(""),
        vec![
            "connect",
            "send_event",
            "commit",
            "read_action",
            "close",
            "sleep",
            "reset",
            "help",
            "exit"
        ]
    );
}
