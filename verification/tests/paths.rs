use nino::paths::{normalize_lowered, normalize_path};

#[test]
fn test_normalize_path() {
    assert_eq!(
        normalize_path(String::from("///////remove//duplicate/////slashes")),
        String::from("remove/duplicate/slashes"),
    );
    assert_eq!(
        normalize_path(String::from("/remove/leading/slash")),
        String::from("remove/leading/slash")
    );
    assert_eq!(
        normalize_path(String::from("this/one/should/not/change")),
        String::from("this/one/should/not/change"),
    );
    assert_eq!(
        normalize_path(String::from("/this/one_____should/not.......duplicate")),
        String::from("this/one_should/not.duplicate"),
    );
    assert_eq!(
        normalize_path(String::from("////...../.exploits/.should.get.normalized/")),
        String::from("exploits/should.get.normalized"),
    );
    assert_eq!(normalize_path(String::from("")), String::from("/"),);
}

#[test]
fn normalize_path_lowers_its_input() {
    assert_eq!(normalize_path(String::from("/Admin/INDEX.Html")), "admin/index.html");
    assert_eq!(normalize_lowered("/Admin"), "Admin");
}

#[test]
fn normalize_path_of_slashes_is_one_slash() {
    assert_eq!(normalize_path(String::from("/")), "/");
    assert_eq!(normalize_path(String::from("////")), "/");
    assert_eq!(normalize_path(String::from("/./")), "/");
}

#[test]
fn normalize_path_twice_is_once() {
    for s in ["a/b", "/x__y//z/", "", "UP/down", "a.b/c_d", "..", "a..b", "a/./b", "a/././/b"] {
        let once = normalize_path(String::from(s));
        let twice = normalize_path(once.clone());
        assert_eq!(once, twice);
        assert!(!once.contains(".."));
        assert!(!once.contains("/."));
        assert!(!once.contains("//"));
    }
}

#[test]
fn dot_between_slashes_leaves_one_slash() {
    assert_eq!(normalize_path(String::from("a/./b")), "a/b");
    assert_eq!(normalize_path(String::from("a/././/b")), "a/b");
    assert_eq!(normalize_path(String::from("a/../b")), "a/b");
    assert_eq!(normalize_path(String::from("a/._/b")), "a/_/b");
    assert_eq!(normalize_path(String::from("a_._")), "a_._");
    assert_eq!(normalize_lowered("/./x/."), "x");
}

#[test]
fn every_normal_form_is_its_own() {
    let alphabet = ['a', 'B', '/', '.', '_'];
    let mut all: Vec<String> = vec![String::new()];
    let mut last: Vec<String> = vec![String::new()];
    for _ in 0..6 {
        let mut next = Vec::new();
        for s in &last {
            for c in alphabet {
                let mut t = s.clone();
                t.push(c);
                next.push(t);
            }
        }
        all.extend(next.iter().cloned());
        last = next;
    }
    for s in all {
        let once = normalize_path(s.clone());
        let twice = normalize_path(once.clone());
        assert_eq!(once, twice, "{:?}", s);
        assert!(!once.is_empty(), "{:?}", s);
        assert!(
            !once.contains("//")
                && !once.contains("..")
                && !once.contains("/.")
                && !once.contains("__"),
            "{:?}",
            s
        );
        assert!(once == "/" || !(once.starts_with('/') || once.ends_with('/')), "{:?}", s);
        assert_eq!(once, once.to_lowercase(), "{:?}", s);
    }
}
