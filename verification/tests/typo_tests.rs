use portly::typo::{levenshtein_distance, suggest_command};

#[test]
fn test_levenshtein_distance_identical() {
    assert_eq!(levenshtein_distance("list", "list"), 0);
    assert_eq!(levenshtein_distance("kill", "kill"), 0);
    assert_eq!(levenshtein_distance("watch", "watch"), 0);
}

#[test]
fn test_levenshtein_distance_single_edit() {
    assert_eq!(levenshtein_distance("list", "lst"), 1);
    assert_eq!(levenshtein_distance("kill", "kil"), 1);
    assert_eq!(levenshtein_distance("lst", "list"), 1);
    assert_eq!(levenshtein_distance("kil", "kill"), 1);
    assert_eq!(levenshtein_distance("watch", "wach"), 1);
    assert_eq!(levenshtein_distance("list", "lust"), 1);
}

#[test]
fn test_levenshtein_distance_two_edits() {
    assert_eq!(levenshtein_distance("details", "detals"), 1);
    assert_eq!(levenshtein_distance("config", "confg"), 1);
    assert_eq!(levenshtein_distance("clean", "clen"), 1);
}

#[test]
fn test_levenshtein_distance_empty_strings() {
    assert_eq!(levenshtein_distance("", "test"), 4);
    assert_eq!(levenshtein_distance("test", ""), 4);
    assert_eq!(levenshtein_distance("", ""), 0);
}

#[test]
fn test_levenshtein_distance_completely_different() {
    assert_eq!(levenshtein_distance("abc", "xyz"), 3);
    assert_eq!(levenshtein_distance("list", "watch"), 5);
}

#[test]
fn test_suggest_command_close_match() {
    assert_eq!(suggest_command("lst"), Some("Did you mean 'list'?".to_string()));
    assert_eq!(suggest_command("kil"), Some("Did you mean 'kill'?".to_string()));
    assert_eq!(suggest_command("wach"), Some("Did you mean 'watch'?".to_string()));
    assert_eq!(suggest_command("detals"), Some("Did you mean 'details'?".to_string()));
    assert_eq!(suggest_command("clen"), Some("Did you mean 'clean'?".to_string()));
    assert_eq!(suggest_command("confg"), Some("Did you mean 'config'?".to_string()));
}

#[test]
fn test_suggest_command_no_match() {
    assert_eq!(suggest_command("xyz"), None);
    assert_eq!(suggest_command("abcdef"), None);
    assert_eq!(suggest_command("verylongcommand"), None);
}

#[test]
fn test_suggest_command_exact_match() {
    assert_eq!(suggest_command("list"), None);
    assert_eq!(suggest_command("kill"), None);
    assert_eq!(suggest_command("watch"), None);
    assert_eq!(suggest_command("details"), None);
    assert_eq!(suggest_command("clean"), None);
    assert_eq!(suggest_command("ps"), None);
    assert_eq!(suggest_command("config"), None);
}

#[test]
fn test_suggest_command_distance_threshold() {
    assert_eq!(suggest_command("lis"), Some("Did you mean 'list'?".to_string()));
    assert_eq!(suggest_command("lst"), Some("Did you mean 'list'?".to_string()));
    assert_eq!(suggest_command("abcd"), None);
}

#[test]
fn test_suggest_command_picks_closest() {
    assert_eq!(suggest_command("kil"), Some("Did you mean 'kill'?".to_string()));
    assert_eq!(suggest_command("wat"), Some("Did you mean 'watch'?".to_string()));
}

#[test]
fn test_suggest_command_case_sensitive() {
    assert_eq!(suggest_command("List"), Some("Did you mean 'list'?".to_string()));
}

#[test]
fn levenshtein_counts_characters_not_bytes() {
    assert_eq!(levenshtein_distance("日本", "日"), 1);
    assert_eq!(levenshtein_distance("ünï", "uni"), 2);
}

#[test]
fn levenshtein_is_symmetric_on_samples() {
    let pairs = [("kitten", "sitting"), ("flaw", "lawn"), ("", "abc"), ("ps", "ls")];
    for (a, b) in pairs {
        assert_eq!(levenshtein_distance(a, b), levenshtein_distance(b, a));
    }
    assert_eq!(levenshtein_distance("kitten", "sitting"), 3);
}

#[test]
fn suggest_command_ls_is_nearest_to_ps() {
    assert_eq!(suggest_command("ls"), Some("Did you mean 'ps'?".to_string()));
}
