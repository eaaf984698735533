use tumu::permission::{
    has_parent_step, host_is_covered, is_covered, is_covered_by_any, is_decimal, path_is_covered,
    port_start,
    Access, Category, CategoryState, Flags, Permissions, Reply, Verdict,
};
use tumu::text::{chars_of, chars_of_all, copy_text, same_text, starts_with};

fn perm_list(patterns: &[&str]) -> CategoryState {
    CategoryState::AllowList(patterns.iter().map(|p| chars_of(p)).collect())
}

fn perm_with(category: Category, state: CategoryState) -> Permissions {
    let mut states = vec![
        CategoryState::Deny,
        CategoryState::Deny,
        CategoryState::Deny,
        CategoryState::Deny,
        CategoryState::Deny,
        CategoryState::Deny,
        CategoryState::Deny,
    ];
    let at = match category {
        Category::Read => 0,
        Category::Write => 1,
        Category::Net => 2,
        Category::Env => 3,
        Category::Run => 4,
        Category::Plugin => 5,
        Category::HighResTime => 6,
    };
    states[at] = state;
    let mut it = states.into_iter();
    Permissions::new(
        it.next().unwrap(),
        it.next().unwrap(),
        it.next().unwrap(),
        it.next().unwrap(),
        it.next().unwrap(),
        it.next().unwrap(),
        it.next().unwrap(),
    )
}

#[test]
fn text_helpers_compare_characters() {
    assert_eq!(chars_of("a/b"), vec!['a', '/', 'b']);
    assert_eq!(chars_of(""), Vec::<char>::new());
    assert_eq!(chars_of("é€"), vec!['é', '€']);
    assert_eq!(
        chars_of_all(&vec!["ab".to_string(), "".to_string(), "c".to_string()]),
        vec![vec!['a', 'b'], vec![], vec!['c']]
    );
    assert!(same_text(&chars_of("abc"), &chars_of("abc")));
    assert!(!same_text(&chars_of("abc"), &chars_of("abd")));
    assert!(!same_text(&chars_of("abc"), &chars_of("ab")));
    assert!(starts_with(&chars_of("abc"), &chars_of("ab")));
    assert!(starts_with(&chars_of("abc"), &chars_of("")));
    assert!(starts_with(&chars_of("abc"), &chars_of("abc")));
    assert!(!starts_with(&chars_of("abc"), &chars_of("abcd")));
    assert!(!starts_with(&chars_of("abc"), &chars_of("b")));
    assert_eq!(copy_text(&chars_of("xyz")), chars_of("xyz"));
}

#[test]
fn path_patterns_cover_what_lies_below_them() {
    let covered = |pattern: &str, path: &str| path_is_covered(&chars_of(pattern), &chars_of(path));
    assert!(covered("/tmp", "/tmp"));
    assert!(covered("/tmp", "/tmp/a"));
    assert!(covered("/tmp", "/tmp/a/b.txt"));
    assert!(covered("/tmp/", "/tmp/a"));
    assert!(covered("/", "/etc/hosts"));
    assert!(!covered("/tmp", "/tmpfile"));
    assert!(!covered("/tmp", "/tm"));
    assert!(!covered("/tmp/a", "/tmp"));
    assert!(!covered("/tmp", "/etc/hosts"));
    assert!(!covered("", "/etc/hosts"));
    assert!(!covered("", ""));
}

#[test]
fn a_path_that_steps_upward_is_covered_by_nothing() {
    let covered = |pattern: &str, path: &str| path_is_covered(&chars_of(pattern), &chars_of(path));
    assert!(!covered("/tmp", "/tmp/../etc/passwd"));
    assert!(!covered("/tmp", "/tmp/a/.."));
    assert!(!covered("/tmp", "/tmp/a/../b"));
    assert!(!covered("/", "/.."));
    assert!(!covered("..", ".."));
    assert!(!covered("../a", "../a/b"));
    assert!(covered("/tmp", "/tmp/..a"));
    assert!(covered("/tmp", "/tmp/a.."));
    assert!(covered("/tmp", "/tmp/..."));
    assert!(covered("/tmp", "/tmp/./a"));
    assert!(covered("/tmp", "/tmp/a..b/c"));
    for (path, up) in [
        ("..", true),
        ("../x", true),
        ("x/..", true),
        ("/x/../y", true),
        ("", false),
        (".", false),
        ("...", false),
        ("x..", false),
        ("..x", false),
        ("x/..y/z", false),
        ("x/y../z", false),
        ("/a/b", false),
    ] {
        assert_eq!(has_parent_step(&chars_of(path)), up, "{}", path);
    }
}

#[test]
fn port_start_finds_the_colon_before_trailing_digits() {
    assert_eq!(port_start(&chars_of("example.com:80")), Some(11));
    assert_eq!(port_start(&chars_of("example.com")), None);
    assert_eq!(port_start(&chars_of("example.com:")), None);
    assert_eq!(port_start(&chars_of("example.com:8a")), None);
    assert_eq!(port_start(&chars_of(":80")), Some(0));
    assert_eq!(port_start(&chars_of("80")), None);
    assert_eq!(port_start(&chars_of("")), None);
    assert_eq!(port_start(&chars_of("[::1]:8080")), Some(5));
    assert_eq!(port_start(&chars_of("[::1]")), None);
    assert!(is_decimal('0'));
    assert!(is_decimal('9'));
    assert!(!is_decimal('a'));
    assert!(!is_decimal(':'));
    assert!(!is_decimal('/'));
}

#[test]
fn host_patterns_cover_the_host_with_any_port_or_one_port() {
    let covered =
        |pattern: &str, target: &str| host_is_covered(&chars_of(pattern), &chars_of(target));
    assert!(covered("example.com:80", "example.com:80"));
    assert!(covered("example.com", "example.com"));
    assert!(covered("example.com", "example.com:80"));
    assert!(covered("example.com", "example.com:443"));
    assert!(!covered("example.com:80", "example.com:443"));
    assert!(!covered("example.com:80", "example.com"));
    assert!(!covered("example.com:80", "other.com:80"));
    assert!(!covered("example.com", "example.community:80"));
    assert!(!covered("example.com", "example.com.evil.org"));
    assert!(!covered("example.com", "example.com:80:90x"));
    assert!(!covered("", "example.com"));
    assert!(!covered("", ""));
}

#[test]
fn each_category_has_its_matching_rule() {
    let covered = |category: Category, pattern: &str, target: &str| {
        is_covered(category, &chars_of(pattern), &chars_of(target))
    };
    assert!(covered(Category::Read, "/data", "/data/x"));
    assert!(covered(Category::Write, "/data", "/data/x"));
    assert!(!covered(Category::Net, "/data", "/data/x"));
    assert!(covered(Category::Net, "localhost", "localhost:8000"));
    assert!(!covered(Category::Read, "localhost", "localhost:8000"));
    assert!(covered(Category::Env, "HOME", "HOME"));
    assert!(!covered(Category::Env, "HOME", "HOME/x"));
    assert!(covered(Category::Run, "ls", "ls"));
    assert!(covered(Category::Plugin, "/lib/p.so", "/lib/p.so"));
    assert!(!covered(Category::Plugin, "/lib", "/lib/p.so"));
    assert!(covered(Category::HighResTime, "now", "now"));
    assert!(!covered(Category::Env, "", ""));
    let patterns = vec![chars_of("/a"), chars_of("/b")];
    assert!(is_covered_by_any(Category::Read, &patterns, &chars_of("/b/c")));
    assert!(!is_covered_by_any(Category::Read, &patterns, &chars_of("/c")));
    assert!(!is_covered_by_any(Category::Read, &Vec::new(), &chars_of("/a")));
}

#[test]
fn allow_grants_everything() {
    let mut p = perm_with(Category::Env, CategoryState::Allow);
    assert_eq!(p.decide(Category::Env, "HOME"), Verdict::Granted);
    assert_eq!(p.check(Category::Env, "HOME", Reply::Refuse), Access::Granted);
    assert_eq!(p.check(Category::Env, "", Reply::Unavailable), Access::Granted);
    assert_eq!(p.decide_call(Category::Env, &None), Ok(Verdict::Granted));
}

#[test]
fn deny_refuses_everything_whatever_the_reply() {
    let mut p = perm_with(Category::Net, CategoryState::Allow);
    assert_eq!(p.decide(Category::Read, "/etc/hosts"), Verdict::Denied);
    assert_eq!(p.check(Category::Read, "/etc/hosts", Reply::Confirm), Access::Denied);
    assert_eq!(p.check(Category::Read, "/etc/hosts", Reply::Refuse), Access::Denied);
    assert_eq!(p.check(Category::Read, "/etc/hosts", Reply::Unavailable), Access::Denied);
    assert_eq!(p.decide(Category::Read, "/etc/hosts"), Verdict::Denied);
    assert_eq!(p.decide_call(Category::Read, &None), Ok(Verdict::Denied));
    assert!(matches!(p.state(Category::Read), CategoryState::Deny));
}

#[test]
fn allow_list_grants_what_a_pattern_covers() {
    let mut p = perm_with(Category::Net, perm_list(&["example.com:80", "localhost"]));
    assert_eq!(p.check(Category::Net, "example.com:80", Reply::Unavailable), Access::Granted);
    assert_eq!(p.check(Category::Net, "other.com:80", Reply::Confirm), Access::Denied);
    assert_eq!(p.check(Category::Net, "example.com:81", Reply::Confirm), Access::Denied);
    assert_eq!(p.check(Category::Net, "localhost:4500", Reply::Refuse), Access::Granted);
    assert_eq!(p.decide(Category::Net, "other.com:80"), Verdict::Denied);
    assert_eq!(
        p.decide_call(Category::Net, &None),
        Err(tumu::error::ErrorKind::InvalidInput)
    );
    assert_eq!(
        p.decide_call(Category::Net, &Some(chars_of("localhost"))),
        Ok(Verdict::Granted)
    );
    let mut files = perm_with(Category::Read, perm_list(&["/srv/data"]));
    assert_eq!(files.check(Category::Read, "/srv/data/a.txt", Reply::Refuse), Access::Granted);
    assert_eq!(files.check(Category::Read, "/srv/database", Reply::Confirm), Access::Denied);
    assert_eq!(files.check(Category::Write, "/srv/data/a.txt", Reply::Confirm), Access::Denied);
}

#[test]
fn prompt_remembers_a_confirmation_for_that_resource_alone() {
    let mut p = perm_with(Category::Read, CategoryState::Prompt);
    assert_eq!(p.decide(Category::Read, "/a"), Verdict::Ask);
    assert_eq!(p.decide(Category::Read, "/b"), Verdict::Ask);
    assert_eq!(p.check(Category::Read, "/a", Reply::Confirm), Access::Granted);
    assert_eq!(p.decide(Category::Read, "/a"), Verdict::Granted);
    assert_eq!(p.decide(Category::Read, "/b"), Verdict::Ask);
    assert_eq!(p.decide(Category::Read, "/a/below"), Verdict::Ask);
    assert_eq!(p.check(Category::Read, "/a", Reply::Refuse), Access::Granted);
    assert_eq!(p.check(Category::Read, "/b", Reply::Refuse), Access::Denied);
    assert_eq!(p.decide(Category::Read, "/b"), Verdict::Ask);
    assert_eq!(p.check(Category::Read, "/b", Reply::Unavailable), Access::Denied);
    assert_eq!(p.decide(Category::Read, "/b"), Verdict::Ask);
    assert_eq!(p.decide_call(Category::Read, &None), Err(tumu::error::ErrorKind::InvalidInput));
}

#[test]
fn a_confirmation_does_not_cross_categories() {
    let mut p = Permissions::new(
        CategoryState::Prompt,
        CategoryState::Prompt,
        CategoryState::Deny,
        CategoryState::Deny,
        CategoryState::Deny,
        CategoryState::Deny,
        CategoryState::Deny,
    );
    assert_eq!(p.check(Category::Read, "/a", Reply::Confirm), Access::Granted);
    assert_eq!(p.decide(Category::Write, "/a"), Verdict::Ask);
    assert_eq!(p.decide(Category::Read, "/a"), Verdict::Granted);
}

#[test]
fn flags_configure_each_category() {
    let mut flags = Flags::deny_all();
    flags.allow_env = true;
    flags.net_allowlist = vec!["example.com:80".to_string()];
    flags.read_allowlist = vec!["/srv".to_string(), "/tmp".to_string()];
    let p = Permissions::from_flags(&flags, false);
    assert!(matches!(p.state(Category::Env), CategoryState::Allow));
    assert!(matches!(p.state(Category::Write), CategoryState::Deny));
    assert!(matches!(p.state(Category::Run), CategoryState::Deny));
    assert!(matches!(p.state(Category::Plugin), CategoryState::Deny));
    assert!(matches!(p.state(Category::HighResTime), CategoryState::Deny));
    match p.state(Category::Net) {
        CategoryState::AllowList(list) => assert_eq!(list, &vec![chars_of("example.com:80")]),
        _ => panic!("the network should have its list"),
    }
    match p.state(Category::Read) {
        CategoryState::AllowList(list) => {
            assert_eq!(list, &vec![chars_of("/srv"), chars_of("/tmp")])
        }
        _ => panic!("reading should have its list"),
    }
    let q = Permissions::from_flags(&flags, true);
    assert!(matches!(q.state(Category::Env), CategoryState::Allow));
    assert!(matches!(q.state(Category::Write), CategoryState::Prompt));
    assert!(matches!(q.state(Category::Run), CategoryState::Prompt));
    assert!(matches!(q.state(Category::Net), CategoryState::AllowList(_)));
}

#[test]
fn an_allow_flag_wins_over_a_list() {
    let mut flags = Flags::deny_all();
    flags.allow_net = true;
    flags.net_allowlist = vec!["example.com".to_string()];
    let p = Permissions::from_flags(&flags, false);
    assert!(matches!(p.state(Category::Net), CategoryState::Allow));
    assert_eq!(p.decide(Category::Net, "other.com:1"), Verdict::Granted);
}

#[test]
fn deny_all_allows_nothing() {
    let flags = Flags::deny_all();
    assert!(!flags.allow_read && !flags.allow_write && !flags.allow_net && !flags.allow_env);
    assert!(!flags.allow_run && !flags.allow_plugin && !flags.allow_hrtime);
    assert!(flags.read_allowlist.is_empty());
    assert!(flags.write_allowlist.is_empty());
    assert!(flags.net_allowlist.is_empty());
    let p = Permissions::from_flags(&flags, false);
    for category in [
        Category::Read,
        Category::Write,
        Category::Net,
        Category::Env,
        Category::Run,
        Category::Plugin,
        Category::HighResTime,
    ] {
        assert_eq!(p.decide(category, "anything"), Verdict::Denied);
    }
}
