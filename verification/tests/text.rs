use p2p_camera::cam_test::{parse_args, LoopStep, SnapshotLoop, TestCommand};
use p2p_camera::sorting::sort_texts;
use p2p_camera::text::{
    bytes_eq, parse_u32, push_byte_list, push_decimal, push_signed_decimal, str_contains,
    str_ends_with, str_eq,
};
use p2p_camera::text_map::TextMap;

fn args(words: &[&str]) -> Vec<String> {
    words.iter().map(|w| w.to_string()).collect()
}

#[test]
fn numbers_in_decimal() {
    for n in [0u64, 9, 10, 12345, u64::MAX] {
        let mut s = "n=".to_string();
        push_decimal(&mut s, n);
        assert_eq!(s, format!("n={}", n));
    }
    for n in [0i64, -1, 7, i64::MIN, i64::MAX] {
        let mut s = String::new();
        push_signed_decimal(&mut s, n);
        assert_eq!(s, n.to_string());
    }
    let mut s = String::new();
    push_byte_list(&mut s, &[1, 20, 255]);
    assert_eq!(s, format!("{:?}", [1, 20, 255]));
}

#[test]
fn texts_are_compared_and_searched() {
    assert!(str_eq("a签b", "a签b") && !str_eq("ab", "abc"));
    assert!(bytes_eq(&[1, 2], &[1, 2]) && !bytes_eq(&[1], &[2]));
    for (w, p) in [("hello", "ell"), ("hello", "elo"), ("", ""), ("x", ""), ("a", "ab"), ("签名", "名")]
    {
        assert_eq!(str_contains(w, p), w.contains(p));
        assert_eq!(str_ends_with(w, p), w.ends_with(p));
    }
}

#[test]
fn numbers_are_read_as_std_does() {
    for s in
        ["0", "5", "007", "+7", "-7", "", "+", "++1", "4294967295", "4294967296", "99999999999", "1a", " 1"]
    {
        assert_eq!(parse_u32(s), s.parse::<u32>().ok());
    }
}

#[test]
fn texts_are_sorted_as_std_does() {
    let mut words = args(&["b", "a", "签", "ab", "", "B", "a", "é"]);
    let sorted = sort_texts(&words);
    words.sort();
    assert_eq!(sorted, words);
}

#[test]
fn text_map_gives_the_last_text() {
    let mut m = TextMap::new();
    m.insert("a", "1");
    m.insert("b", "2");
    m.insert("a", "3");
    let n = m.clone();
    assert_eq!((n.get("a"), n.get("b"), n.get("c")), (Some("3"), Some("2"), None));
}

#[test]
fn test_program_arguments() {
    assert_eq!(parse_args(&args(&[])), TestCommand::Usage);
    assert_eq!(parse_args(&args(&["x"])), TestCommand::Unknown);
    assert_eq!(parse_args(&args(&["snapshot"])), TestCommand::Snapshot);
    assert_eq!(parse_args(&args(&["compose"])), TestCommand::Compose { fps: 5 });
    assert_eq!(parse_args(&args(&["compose", "12"])), TestCommand::Compose { fps: 12 });
    assert_eq!(parse_args(&args(&["compose", "-1"])), TestCommand::Compose { fps: 5 });
    assert_eq!(parse_args(&args(&["loop"])), TestCommand::Loop { count: 5, fps: 5 });
    assert_eq!(
        parse_args(&args(&["loop", "2", "30", "0.5"])),
        TestCommand::Loop { count: 2, fps: 30 }
    );
}

#[test]
fn loop_takes_pictures_then_composes() {
    let mut l = SnapshotLoop::new(2, 9);
    assert_eq!(l.next_step(), LoopStep::Snapshot { number: 1, wait: true });
    assert_eq!(l.next_step(), LoopStep::Snapshot { number: 2, wait: false });
    assert_eq!(l.next_step(), LoopStep::Compose { fps: 9 });
    assert_eq!(l.next_step(), LoopStep::Finished);
    let mut none = SnapshotLoop::new(0, 1);
    assert_eq!(none.next_step(), LoopStep::Compose { fps: 1 });
}
