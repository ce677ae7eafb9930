//! Byte strings, command lines, templates and desktop entries.

use webbrowser::desktop_entry::fill_exec_arguments;
use webbrowser::desktop_entry::parse_desktop_entry;
use webbrowser::desktop_entry::DesktopEntryRecord;
use webbrowser::template::expand;
use webbrowser::template::expand_template;
use webbrowser::template::has_url_code;
use webbrowser::text;
use webbrowser::token::for_each_token;

fn strs(v: Vec<Vec<u8>>) -> Vec<String> {
    v.into_iter().map(|b| String::from_utf8(b).unwrap()).collect()
}

#[test]
fn tokens_split_at_spaces() {
    assert_eq!(strs(for_each_token(b"a bc  def ")), vec!["a", "bc", "def"]);
    assert!(for_each_token(b"").is_empty());
    assert!(for_each_token(b"   ").is_empty());
}

#[test]
fn quoted_tokens_keep_their_spaces() {
    assert_eq!(
        strs(for_each_token(b"\"C:\\Program Files\\b.exe\" -url \"%1\"")),
        vec!["C:\\Program Files\\b.exe", "-url", "%1"]
    );
    assert_eq!(strs(for_each_token(b"\"a b")), vec!["a b"]);
    assert_eq!(strs(for_each_token(b"x \"\" y")), vec!["x", "", "y"]);
    assert_eq!(strs(for_each_token(b"ab\"cd ef\"")), vec!["ab", "cd", "ef"]);
    assert_eq!(strs(for_each_token(b"a \"")), vec!["a", ""]);
    assert_eq!(strs(for_each_token(b"a\tb")), vec!["a\tb"]);
}

#[test]
fn template_with_url_code_is_not_given_the_url_again() {
    let line = expand_template(b"firefox --new-tab %s", b"http://example.com/");
    assert_eq!(strs(line), vec!["firefox", "--new-tab", "http://example.com/"]);
    let line = expand_template(b"open --url=%s --again=%s", b"http://a/");
    assert_eq!(strs(line), vec!["open", "--url=http://a/", "--again=http://a/"]);
}

#[test]
fn template_without_url_code_gets_the_url_last() {
    let line = expand_template(b"  firefox\t-P  default ", b"http://example.com/");
    assert_eq!(strs(line), vec!["firefox", "-P", "default", "http://example.com/"]);
    assert_eq!(strs(expand_template(b"", b"http://a/")), vec!["http://a/"]);
}

#[test]
fn codes_are_read_once() {
    // What a code is replaced by is not read again.
    assert_eq!(expand(b"%s", b"http://a/%s%c%%"), b"http://a/%s%c%%".to_vec());
    assert_eq!(expand(b"a%cb%%c", b"u"), b"a:b%c".to_vec());
    assert_eq!(expand(b"%%s", b"URL"), b"%s".to_vec());
    assert_eq!(expand(b"%%%s", b"URL"), b"%URL".to_vec());
    assert_eq!(expand(b"100%", b"URL"), b"100%".to_vec());
    assert_eq!(expand(b"%x%", b"URL"), b"%x%".to_vec());
    assert!(has_url_code(b"x %s"));
    assert!(has_url_code(b"%%%s"));
    assert!(!has_url_code(b"%%s"));
    assert!(!has_url_code(b"% s"));
    assert_eq!(
        strs(expand_template(b"browser %%s", b"http://a/")),
        vec!["browser", "%s", "http://a/"]
    );
}

#[test]
fn desktop_entry_reads_its_own_group_only() {
    let entry = parse_desktop_entry(
        b"# comment\nExec=/bin/before\n[Desktop Entry]\nName=Browser\n#Exec=/bin/comment\nExec=/usr/bin/b %u\nTerminal=true\nnot a key\n[Another Entry]\nExec=/bin/ls\nHidden=true\nTerminal=false\n",
    );
    assert_eq!(
        entry,
        DesktopEntryRecord {
            exec_template: Some(b"/usr/bin/b %u".to_vec()),
            hidden: false,
            requires_terminal: true,
        }
    );
}

#[test]
fn desktop_entry_last_exec_wins_and_hidden_sticks() {
    let entry = parse_desktop_entry(
        b"[Desktop Entry]\nExec=one\nHidden=true\nExec=two=three\nHidden=false\nTerminal=true\nTerminal=yes",
    );
    assert_eq!(
        entry,
        DesktopEntryRecord {
            exec_template: Some(b"two=three".to_vec()),
            hidden: true,
            requires_terminal: false,
        }
    );
}

#[test]
fn desktop_entry_group_may_come_back() {
    let entry =
        parse_desktop_entry(b"[Desktop Entry]\n[Other]\nExec=a\n[Desktop Entry]\nExec=b\r\n");
    assert_eq!(entry.exec_template, Some(b"b".to_vec()));
    let entry = parse_desktop_entry(b"");
    assert_eq!(
        entry,
        DesktopEntryRecord { exec_template: None, hidden: false, requires_terminal: false }
    );
    let entry = parse_desktop_entry(b" [Desktop Entry]\nExec=a\n");
    assert_eq!(entry.exec_template, None);
}

#[test]
fn exec_arguments_replace_field_codes() {
    let tokens = for_each_token(b"%u p1 %u %F p3");
    assert_eq!(strs(fill_exec_arguments(&tokens, b"T")), vec!["p1", "T", "T", "p3"]);
    let tokens = for_each_token(b"app p1 %x");
    assert_eq!(strs(fill_exec_arguments(&tokens, b"T")), vec!["p1", "%x", "T"]);
    let tokens = for_each_token(b"app");
    assert_eq!(strs(fill_exec_arguments(&tokens, b"T")), vec!["T"]);
    for code in ["%u", "%U", "%f", "%F"] {
        let tokens = for_each_token(format!("app {}", code).as_bytes());
        assert_eq!(strs(fill_exec_arguments(&tokens, b"T")), vec!["T"]);
    }
}

#[test]
fn splitting_keeps_empty_pieces() {
    assert_eq!(strs(text::split(b"a::b:", b':')), vec!["a", "", "b", ""]);
    assert_eq!(strs(text::split(b"", b':')), vec![""]);
    assert_eq!(strs(text::split(b"abc", b':')), vec!["abc"]);
}

#[test]
fn words_and_lines() {
    assert_eq!(strs(text::split_words(b" a\tb\r\nc\x0cd ")), vec!["a", "b", "c", "d"]);
    assert!(text::split_words(b" \n").is_empty());
    assert_eq!(strs(text::split_lines(b"a\r\n\nb\rc\r")), vec!["a", "", "b\rc\r"]);
    assert_eq!(strs(text::split_lines(b"a\n")), vec!["a"]);
    assert!(text::split_lines(b"").is_empty());
}

#[test]
fn trimming() {
    assert_eq!(text::trim(b" \t a b \r\n"), b"a b".to_vec());
    assert_eq!(text::trim(b"  "), b"".to_vec());
    assert_eq!(text::trim(b"ab"), b"ab".to_vec());
    assert_eq!(text::trim_end_matches(b"a\\b\\\\", b'\\'), b"a\\b".to_vec());
    assert_eq!(text::trim_end_matches(b"///", b'/'), b"".to_vec());
}

#[test]
fn searching_in_bytes() {
    assert!(text::starts_with(b"abc", b"ab"));
    assert!(!text::starts_with(b"a", b"ab"));
    assert!(text::ends_with(b"abc", b"bc"));
    assert!(text::ends_with(b"abc", b""));
    assert!(!text::ends_with(b"abc", b"ab"));
    assert_eq!(text::find(b"xxabab", b"ab"), Some(2));
    assert_eq!(text::find(b"xxabab", b""), Some(0));
    assert_eq!(text::find(b"ab", b"abc"), None);
    assert!(text::contains(b"kde-plasma", b"kde"));
    assert!(!text::contains(b"kd-e", b"kde"));
    assert!(text::contains_byte(b"a/b", b'/'));
    assert!(!text::contains_byte(b"ab", b'/'));
    assert_eq!(text::scan(b"ab cd", 0, text::Stop::Space), 2);
    assert_eq!(text::scan(b"ab cd", 3, text::Stop::Space), 5);
    assert_eq!(text::scan_back(b"a/b/cd", text::Stop::Byte(b'/')), 4);
}

#[test]
fn changing_bytes() {
    assert_eq!(text::to_ascii_lowercase(b"KDE-Plasma_5 \xc3\x84"), b"kde-plasma_5 \xc3\x84".to_vec());
    assert!(text::eq_ignore_ascii_case(b"FlatPak", b"flatpak"));
    assert!(!text::eq_ignore_ascii_case(b"flatpack", b"flatpak"));
    assert_eq!(text::replace(b"a&b&", b'&', b"^&"), b"a^&b^&".to_vec());
    assert_eq!(text::replace(b"a-b", b'-', b""), b"ab".to_vec());
    assert_eq!(text::concat(b"ab", b"cd"), b"abcd".to_vec());
    assert_eq!(text::part(b"abcdef", 2, 4), b"cd".to_vec());
    assert!(text::same(b"ab", b"ab"));
    assert!(!text::same(b"ab", b"ac"));
    assert!(text::is(b"Exec", "Exec"));
    assert!(!text::is(b"exec", "Exec"));
}

#[test]
fn joining_paths() {
    assert_eq!(text::join(b"/usr/bin", b"ls"), b"/usr/bin/ls".to_vec());
    assert_eq!(text::join(b"/usr/bin/", b"ls"), b"/usr/bin/ls".to_vec());
    assert_eq!(text::join(b"", b"ls"), b"ls".to_vec());
    assert_eq!(text::join(b"/usr", b"/bin/ls"), b"/bin/ls".to_vec());
    assert_eq!(text::join(b"/usr", b""), b"/usr/".to_vec());
    assert_eq!(text::file_name(b"/usr/bin/ls"), b"ls".to_vec());
    assert_eq!(text::file_name(b"ls"), b"ls".to_vec());
    assert_eq!(text::file_name(b"/usr/"), b"".to_vec());
}
