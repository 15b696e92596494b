use rldyour_cleaner::os::linux::{link_within, maps_mention, proc_pid};
use rldyour_cleaner::os::unix_lsof::{parse_u32_chars, pids_using};
use rldyour_cleaner::os::{exe_names, path_components, components_prefix};

fn chars(s: &str) -> Vec<char> {
    s.chars().collect()
}

#[test]
fn proc_entries_name_processes() {
    assert_eq!(proc_pid("1234"), Some(1234));
    assert_eq!(proc_pid("0"), Some(0));
    assert_eq!(proc_pid("self"), None);
    assert_eq!(proc_pid("12a"), None);
    assert_eq!(proc_pid("+12"), None);
    assert_eq!(proc_pid(""), None);
    assert_eq!(proc_pid("4294967295"), Some(4294967295));
    assert_eq!(proc_pid("4294967296"), None);
}

#[test]
fn parse_follows_str_parse() {
    assert_eq!(parse_u32_chars(&chars("p42"), 1), Some(42));
    assert_eq!(parse_u32_chars(&chars("p+7"), 1), Some(7));
    assert_eq!(parse_u32_chars(&chars("p+"), 1), None);
    assert_eq!(parse_u32_chars(&chars("p"), 1), None);
    assert_eq!(parse_u32_chars(&chars("p-1"), 1), None);
    assert_eq!(parse_u32_chars(&chars("p99999999999"), 1), None);
    for s in ["0", "17", "+3", "4294967295", "4294967296", "", "+", "x1"] {
        let v: Vec<char> = s.chars().collect();
        assert_eq!(parse_u32_chars(&v, 0), s.parse::<u32>().ok(), "{s}");
    }
}

#[test]
fn links_match_by_components() {
    assert!(link_within("/home/u/proj/target/debug/app", "/home/u/proj/target"));
    assert!(link_within("/home/u/proj/target", "/home/u/proj/target"));
    assert!(link_within("/home/u//proj/./target/x", "/home/u/proj/target/"));
    assert!(!link_within("/home/u/proj/target2/x", "/home/u/proj/target"));
    assert!(!link_within("/home/u/proj", "/home/u/proj/target"));
    assert!(!link_within("socket:[1234]", "/home/u"));
}

#[test]
fn maps_match_by_substring() {
    let maps = "7f00-7f10 r--p 00000000 08:01 1 /usr/lib/libc.so\n\
                7f20-7f30 r--p 00000000 08:01 2 /home/u/.gradle/caches/x.jar\n";
    assert!(maps_mention(maps, "/home/u/.gradle"));
    assert!(!maps_mention(maps, "/home/u/.m2"));
    assert!(!maps_mention("", "/x"));
}

#[test]
fn components_follow_path_semantics() {
    let c = path_components(&chars("/a//b/./c/"));
    let want: Vec<Vec<char>> = vec![chars("/"), chars("a"), chars("b"), chars("c")];
    assert_eq!(c, want);
    let r = path_components(&chars("./x/y"));
    assert_eq!(r, vec![chars("."), chars("x"), chars("y")]);
    assert!(components_prefix(&path_components(&chars("/a/b")), &path_components(&chars("/a/b/c"))));
    assert!(!components_prefix(&path_components(&chars("/a/bc")), &path_components(&chars("/a/b/c"))));
}

#[test]
fn lsof_listing_gives_sorted_users() {
    let text = "p300\nn/home/u/proj/target/debug/app\nn/usr/lib/dyld\n\
                p12\ncwd\nn/home/u/proj/target\n\
                p55\nn/home/u/other\nnsocket\n\
                p99\nn/home/u/proj/target/x\n\
                pbad\nn/home/u/proj/target/y\n\
                p12\nn/home/u/proj/target/z\n";
    assert_eq!(pids_using(text, "/home/u/proj/target", 99), vec![12, 300]);
    assert_eq!(pids_using(text, "/home/u/proj/target", 1), vec![12, 99, 300]);
    assert_eq!(pids_using(text, "/nowhere", 1), Vec::<u32>::new());
    assert_eq!(pids_using("", "/home", 1), Vec::<u32>::new());
}

#[test]
fn windows_tries_pathext_spellings() {
    assert_eq!(exe_names("cargo", false, None), vec!["cargo".to_string()]);
    assert_eq!(
        exe_names("cargo", true, None),
        vec!["cargo", "cargo.COM", "cargo.EXE", "cargo.BAT", "cargo.CMD"]
    );
    assert_eq!(exe_names("go", true, Some(" .exe ;; .cmd".to_string())), vec!["go", "go.exe", "go.cmd"]);
}
