use argusx::text::{parse_u64, split_lines, str_contains, str_starts_with, trim_str, u64_to_decimal};
use argusx::transcript::{TranscriptItem, TranscriptJournal};
use argusx::turn_cli::{prompt_from_argument, prompt_from_stdin, run_builtin_tool, PromptError};

#[test]
fn trim_matches_std() {
    for s in ["", "  ", " a ", "\t\nx y\u{3000}", "\u{85}z\u{2028}", "no-space"] {
        assert_eq!(trim_str(s), s.trim());
    }
}

#[test]
fn lines_match_std() {
    for s in ["", "\n", "a", "a\n", "a\r\nb", "foo\nbar\n\r\nbaz\r", "x\n\ny", "\r\n"] {
        let ours = split_lines(s);
        let theirs: Vec<&str> = s.lines().collect();
        assert_eq!(ours, theirs, "for {:?}", s);
    }
}

#[test]
fn search_helpers() {
    assert!(str_contains("hello world", "o w"));
    assert!(str_contains("abc", ""));
    assert!(!str_contains("abc", "abcd"));
    assert!(str_starts_with("gitolite x", "gitolite"));
    assert!(!str_starts_with("git", "gitolite"));
}

#[test]
fn decimal_round_trip() {
    for n in [0u64, 7, 10, 999, u64::MAX] {
        assert_eq!(parse_u64(&u64_to_decimal(n)), Some(n));
        assert_eq!(u64_to_decimal(n), n.to_string());
    }
    assert_eq!(parse_u64("18446744073709551616"), None);
    assert_eq!(parse_u64("+"), None);
}

#[test]
fn prompt_resolution() {
    assert_eq!(prompt_from_argument(Some("  hi  ")).as_deref(), Some("hi"));
    assert_eq!(prompt_from_argument(Some("   ")), None);
    assert_eq!(prompt_from_argument(None), None);
    assert_eq!(prompt_from_stdin(" from stdin \n").unwrap(), "from stdin");
    assert_eq!(prompt_from_stdin(" \n ").unwrap_err(), PromptError::EmptyStdin);
    assert_eq!(PromptError::EmptyStdin.message(), "stdin prompt is empty");
    assert_eq!(PromptError::MissingPrompt.message(), "missing prompt: pass text arg or pipe stdin");
}

#[test]
fn builtin_tools() {
    assert_eq!(run_builtin_tool("echo", "{\"a\":1}".to_string()).unwrap(), "{\"a\":1}");
    assert_eq!(
        run_builtin_tool("ls", "{}".to_string()).unwrap_err(),
        "unsupported tool 'ls' in agent-turn-cli; built-in tools: echo"
    );
}

#[test]
fn journal_keeps_items_in_order() {
    let mut journal = TranscriptJournal::new();
    assert!(journal.all().is_empty());
    journal.append(&[]);
    journal.append(&[TranscriptItem::assistant_message("a"), TranscriptItem::reasoning("b")]);
    journal.append(&[TranscriptItem::assistant_message("c")]);
    let all = journal.all();
    assert_eq!(all.len(), 3);
    assert!(matches!(&all[0], TranscriptItem::AssistantMessage { text, .. } if text == "a"));
    assert!(matches!(&all[1], TranscriptItem::Reasoning { text, .. } if text == "b"));
    assert!(matches!(&all[2], TranscriptItem::AssistantMessage { text, .. } if text == "c"));
}
