use jk_editor::util::{join_str, join_string, join_string_prefix, parse_usize_exec, split_path_exec};

#[test]
fn it_works() {}

fn strings(v: &[&str]) -> Vec<String> {
    v.iter().map(|s| s.to_string()).collect()
}

#[test]
fn join_string_puts_slash_between_parts() {
    let v = vec!["transform".to_string(), "position".to_string(), "x".to_string()];
    assert_eq!(join_string(&v), "transform/position/x");
    assert_eq!(join_string(&[]), "");
    assert_eq!(join_str(&["a"]), "a");
    assert_eq!(join_str(&["a", "", "b"]), "a//b");
}

#[test]
fn join_string_prefix_joins_the_first_parts() {
    let v = strings(&["a", "b", "c"]);
    assert_eq!(join_string_prefix(&v, 0), "");
    assert_eq!(join_string_prefix(&v, 2), "a/b");
    assert_eq!(join_string_prefix(&v, 3), "a/b/c");
}

#[test]
fn split_path_cuts_at_each_slash() {
    assert_eq!(split_path_exec("a/b/c"), strings(&["a", "b", "c"]));
    assert_eq!(split_path_exec(""), strings(&[""]));
    assert_eq!(split_path_exec("a//b"), strings(&["a", "", "b"]));
    assert_eq!(split_path_exec("/a/"), strings(&["", "a", ""]));
    assert_eq!(split_path_exec("comps/0"), strings(&["comps", "0"]));
}

#[test]
fn split_path_agrees_with_str_split() {
    for s in ["", "/", "x", "a/b", "//", "é/ß/", "transform/position/x"] {
        let expected: Vec<String> = s.split('/').map(|p| p.to_string()).collect();
        assert_eq!(split_path_exec(s), expected);
    }
}

#[test]
fn join_after_split_gives_back_the_path() {
    for s in ["", "/", "a/b/c", "a//b", "/lead", "trail/"] {
        assert_eq!(join_string(&split_path_exec(s)), s);
    }
}

#[test]
fn split_after_join_gives_back_the_parts() {
    let parts = strings(&["components", "3", "name"]);
    assert_eq!(split_path_exec(&join_string(&parts)), parts);
    let one = strings(&["single"]);
    assert_eq!(split_path_exec(&join_string(&one)), one);
}

#[test]
fn parse_usize_accepts_decimal_numbers() {
    assert_eq!(parse_usize_exec("0"), Some(0));
    assert_eq!(parse_usize_exec("12"), Some(12));
    assert_eq!(parse_usize_exec("007"), Some(7));
    assert_eq!(parse_usize_exec("+5"), Some(5));
    assert_eq!(parse_usize_exec(&usize::MAX.to_string()), Some(usize::MAX));
}

#[test]
fn parse_usize_refuses_what_str_parse_refuses() {
    assert_eq!(parse_usize_exec(""), None);
    assert_eq!(parse_usize_exec("+"), None);
    assert_eq!(parse_usize_exec("-1"), None);
    assert_eq!(parse_usize_exec("1a"), None);
    assert_eq!(parse_usize_exec(" 1"), None);
    assert_eq!(parse_usize_exec("++1"), None);
    let too_big = format!("{}0", usize::MAX);
    assert_eq!(parse_usize_exec(&too_big), None);
}

#[test]
fn parse_usize_agrees_with_str_parse() {
    let max = usize::MAX.to_string();
    let cases = ["", "0", "+0", "42", "+42", "-0", "4 2", "x", "99999999999999999999999", max.as_str()];
    for s in cases {
        assert_eq!(parse_usize_exec(s), s.parse::<usize>().ok(), "input {:?}", s);
    }
}
