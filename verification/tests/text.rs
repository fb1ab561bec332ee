use well_known::text::{chars_of, find_first, split_str};

fn chars(text: &str) -> Vec<char> {
    text.chars().collect()
}

#[test]
fn chars_of_lists_the_characters() {
    assert_eq!(chars_of(""), Vec::<char>::new());
    assert_eq!(chars_of("a@b"), vec!['a', '@', 'b']);
    assert_eq!(chars_of("åb→"), vec!['å', 'b', '→']);
}

#[test]
fn find_first_gives_the_leftmost_position() {
    assert_eq!(find_first(&chars("acct:alice"), &chars("acct:")), Some(0));
    assert_eq!(find_first(&chars("xx acct:acct:"), &chars("acct:")), Some(3));
    assert_eq!(find_first(&chars("åå acct:"), &chars("acct:")), Some(3));
    assert_eq!(find_first(&chars("aaab"), &chars("ab")), Some(2));
    assert_eq!(find_first(&chars("alice"), &chars("alice")), Some(0));
}

#[test]
fn find_first_gives_nothing_where_the_pattern_is_absent() {
    assert_eq!(find_first(&chars("alice@example.com"), &chars("acct:")), None);
    assert_eq!(find_first(&chars("acct"), &chars("acct:")), None);
    assert_eq!(find_first(&chars(""), &chars("acct:")), None);
    assert_eq!(find_first(&chars("acc:t"), &chars("acct:")), None);
}

#[test]
fn find_first_finds_the_empty_pattern_at_the_start() {
    assert_eq!(find_first(&chars("abc"), &chars("")), Some(0));
    assert_eq!(find_first(&chars(""), &chars("")), Some(0));
}

#[test]
fn split_cuts_at_every_separator() {
    assert_eq!(split_str("alice@example.com", '@'), vec!["alice", "example.com"]);
    assert_eq!(split_str("a@b@c", '@'), vec!["a", "b", "c"]);
    assert_eq!(split_str("ålice@bücher", '@'), vec!["ålice", "bücher"]);
}

#[test]
fn split_keeps_empty_pieces() {
    assert_eq!(split_str("", '@'), vec![""]);
    assert_eq!(split_str("alice", '@'), vec!["alice"]);
    assert_eq!(split_str("@", '@'), vec!["", ""]);
    assert_eq!(split_str("alice@", '@'), vec!["alice", ""]);
    assert_eq!(split_str("@example.com", '@'), vec!["", "example.com"]);
    assert_eq!(split_str("a@@b", '@'), vec!["a", "", "b"]);
}
