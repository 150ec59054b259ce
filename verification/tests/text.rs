use minicycle::git::{branch_name, check_git, check_ref, check_url};
use minicycle::text::{
    chars_of, decimal, ends_with, push_decimal, starts_with, strip_prefix, trim_start,
};

#[test]
fn writes_numbers_in_decimal() {
    assert_eq!(decimal(0), "0");
    assert_eq!(decimal(7), "7");
    assert_eq!(decimal(10), "10");
    assert_eq!(decimal(1700000000), "1700000000");
    assert_eq!(decimal(u64::MAX), "18446744073709551615");
}

#[test]
fn appends_numbers_in_decimal() {
    let mut text = String::from("n=");
    push_decimal(&mut text, 409);
    assert_eq!(text, "n=409");
}

#[test]
fn lists_the_characters_of_a_string() {
    assert_eq!(chars_of(""), Vec::<char>::new());
    assert_eq!(chars_of("a/\u{e9}"), vec!['a', '/', '\u{e9}']);
}

#[test]
fn reads_the_branch_out_of_a_ref() {
    assert_eq!(branch_name("refs/heads/main"), Some("main".to_string()));
    assert_eq!(branch_name("refs/heads/dev"), Some("dev".to_string()));
    assert_eq!(branch_name("refs/tags/v1"), Some("v1".to_string()));
    assert_eq!(branch_name("a/b/c"), Some("c".to_string()));
}

#[test]
fn keeps_slashes_inside_the_branch() {
    assert_eq!(branch_name("refs/heads/feature/login"), Some("feature/login".to_string()));
    assert_eq!(branch_name("refs/heads/a/b/c"), Some("a/b/c".to_string()));
    assert_eq!(branch_name("///"), Some("/".to_string()));
}

#[test]
fn reads_an_empty_branch_behind_two_slashes() {
    assert_eq!(branch_name("refs/heads/"), Some(String::new()));
    assert_eq!(branch_name("//"), Some(String::new()));
}

#[test]
fn reads_no_branch_out_of_a_short_ref() {
    assert_eq!(branch_name(""), None);
    assert_eq!(branch_name("main"), None);
    assert_eq!(branch_name("refs/main"), None);
    assert_eq!(branch_name("/"), None);
    assert_eq!(branch_name("refs\\heads\\main"), None);
}

#[test]
fn reads_branches_outside_ascii() {
    assert_eq!(branch_name("r\u{e9}fs/h\u{e9}ads/\u{fc}ber"), Some("\u{fc}ber".to_string()));
    assert_eq!(branch_name("\u{e9}/\u{e9}"), None);
}

#[test]
fn recognizes_git_by_its_banner() {
    assert!(check_git(true, "git version 2.39.2\n"));
    assert!(check_git(true, "git version"));
    assert!(check_git(true, "  \n\tgit version 2.0"));
    assert!(check_git(true, "\u{a0}git version 2.0"));
}

#[test]
fn recognizes_no_git_without_the_banner() {
    assert!(!check_git(false, "git version 2.39.2\n"));
    assert!(!check_git(true, ""));
    assert!(!check_git(true, "git"));
    assert!(!check_git(true, "Git version 2.39.2"));
    assert!(!check_git(true, "hg version 6"));
    assert!(!check_git(true, "x git version 2.39.2"));
}

#[test]
fn tells_how_a_string_begins() {
    assert!(starts_with("git version 2", "git version"));
    assert!(starts_with("git", "git"));
    assert!(starts_with("git", ""));
    assert!(starts_with("", ""));
    assert!(!starts_with("gi", "git"));
    assert!(!starts_with("", "g"));
    assert!(!starts_with("xgit", "git"));
    assert!(!starts_with("gix", "git"));
    assert!(starts_with("\u{e9}t\u{e9}", "\u{e9}t"));
    assert!(!starts_with("\u{e9}t\u{e9}", "e"));
}

#[test]
fn tells_how_a_string_ends() {
    assert!(ends_with("refs/heads/main", "main"));
    assert!(ends_with("main", "main"));
    assert!(ends_with("main", ""));
    assert!(ends_with("", ""));
    assert!(!ends_with("ain", "main"));
    assert!(!ends_with("", "n"));
    assert!(!ends_with("mainx", "main"));
    assert!(!ends_with("refs/heads/maim", "main"));
    assert!(ends_with("\u{e9}t\u{e9}", "t\u{e9}"));
}

#[test]
fn takes_a_prefix_away() {
    assert_eq!(strip_prefix("sha256=abc", "sha256="), Some("abc"));
    assert_eq!(strip_prefix("sha256=", "sha256="), Some(""));
    assert_eq!(strip_prefix("abc", ""), Some("abc"));
    assert_eq!(strip_prefix("\u{e9}t\u{e9}", "\u{e9}"), Some("t\u{e9}"));
    assert_eq!(strip_prefix("sha256", "sha256="), None);
    assert_eq!(strip_prefix("sha1=abc", "sha256="), None);
    assert_eq!(strip_prefix("", "s"), None);
}

#[test]
fn takes_leading_white_space_away() {
    assert_eq!(trim_start("  \n\tgit version"), "git version");
    assert_eq!(trim_start("\u{a0}\u{2003}x y "), "x y ");
    assert_eq!(trim_start("x  "), "x  ");
    assert_eq!(trim_start(" \r\n "), "");
    assert_eq!(trim_start(""), "");
    assert_eq!(trim_start("\u{e9} "), "\u{e9} ");
}

#[test]
fn finds_a_plain_ref_fit_for_git() {
    assert_eq!(check_ref("refs/heads/main"), Some("main".to_string()));
    assert_eq!(check_ref("refs/heads/feature/login"), Some("feature/login".to_string()));
    assert_eq!(check_ref("refs/heads/fix-1"), Some("fix-1".to_string()));
    assert_eq!(check_ref("refs/tags/v1.0"), Some("v1.0".to_string()));
    assert_eq!(check_ref("r\u{e9}fs/heads/\u{fc}ber"), Some("\u{fc}ber".to_string()));
    assert_eq!(check_ref("a/b/!"), Some("!".to_string()));
}

#[test]
fn finds_a_ref_unfit_that_names_no_branch() {
    assert_eq!(check_ref(""), None);
    assert_eq!(check_ref("main"), None);
    assert_eq!(check_ref("refs/main"), None);
    assert_eq!(check_ref("refs/heads/"), None);
    assert_eq!(check_ref("//"), None);
}

#[test]
fn finds_a_ref_unfit_that_reads_as_an_option() {
    assert_eq!(check_ref("refs/heads/--upload-pack=x"), None);
    assert_eq!(check_ref("refs/heads/-"), None);
    assert_eq!(check_ref("-refs/heads/main"), None);
    assert_eq!(check_ref("--force/heads/main"), None);
}

#[test]
fn finds_a_ref_unfit_by_its_characters() {
    for bad in [' ', '~', '^', ':', '?', '*', '[', '\\', '\n', '\t', '\u{0}', '\u{1f}', '\u{7f}'] {
        assert_eq!(check_ref(&format!("refs/heads/ma{}in", bad)), None, "{:?}", bad);
        assert_eq!(check_ref(&format!("re{}fs/heads/main", bad)), None, "{:?}", bad);
        assert_eq!(check_ref(&format!("refs/heads/main{}", bad)), None, "{:?}", bad);
    }
    for good in ['!', '"', '}', ']', '@', '+', '\u{80}', '\u{a0}', '\u{10ffff}'] {
        let git_ref = format!("refs/heads/ma{}in", good);
        assert_eq!(check_ref(&git_ref), Some(format!("ma{}in", good)), "{:?}", good);
    }
}

#[test]
fn tells_whether_an_address_is_fit_for_git() {
    assert!(check_url("https://example.org/site.git"));
    assert!(check_url("git@example.org:site.git"));
    assert!(check_url("/srv/git/site-1"));
    assert!(check_url(""));
    assert!(!check_url("-u"));
    assert!(!check_url("--upload-pack=touch x"));
    assert!(!check_url("-"));
    assert!(!check_url("https://example.org/a b"));
    assert!(!check_url("https://example.org/\n"));
    assert!(!check_url("https://example.org/\u{7f}"));
    assert!(!check_url(" https://example.org/"));
}

fn has_white_space_property(c: char) -> bool {
    matches!(
        c as u32,
        0x09..=0x0d
            | 0x20
            | 0x85
            | 0xa0
            | 0x1680
            | 0x2000..=0x200a
            | 0x2028
            | 0x2029
            | 0x202f
            | 0x205f
            | 0x3000
    )
}

#[test]
fn takes_exactly_the_white_space_of_unicode_away() {
    let mut text = String::new();
    for code in 0..=0x10ffffu32 {
        if let Some(c) = char::from_u32(code) {
            text.clear();
            text.push(c);
            text.push('x');
            let kept = trim_start(&text);
            if has_white_space_property(c) {
                assert_eq!(kept, "x", "{:?}", c);
            } else {
                assert_eq!(kept, text, "{:?}", c);
            }
        }
    }
}
