use readline4k::split::{delimiter_bytes, mark_at, split, split_candidates};

fn texts(pieces: Vec<Vec<u8>>) -> Vec<String> {
    pieces.into_iter().map(|piece| String::from_utf8(piece).unwrap()).collect()
}

fn by_the_standard_library(text: &str, mark: &str) -> Vec<String> {
    text.split(mark).filter(|piece| !piece.is_empty()).map(String::from).collect()
}

#[test]
fn the_delimiter_is_five_bytes() {
    assert_eq!(delimiter_bytes(), b"_*#*_".to_vec());
}

#[test]
fn candidates_come_out_in_order() {
    assert_eq!(texts(split_candidates(b"foo_*#*_bar_*#*_baz")), vec!["foo", "bar", "baz"]);
}

#[test]
fn a_reply_without_delimiter_is_one_candidate() {
    assert_eq!(texts(split_candidates(b"only")), vec!["only"]);
    assert_eq!(texts(split_candidates(b"_*#_*")), vec!["_*#_*"]);
}

#[test]
fn an_empty_reply_holds_no_candidate() {
    assert_eq!(split_candidates(b"").len(), 0);
}

#[test]
fn a_reply_of_delimiters_holds_no_candidate() {
    assert_eq!(split_candidates(b"_*#*_").len(), 0);
    assert_eq!(split_candidates(b"_*#*__*#*__*#*_").len(), 0);
}

#[test]
fn empty_pieces_are_dropped() {
    assert_eq!(texts(split_candidates(b"_*#*_a_*#*__*#*_b_*#*_")), vec!["a", "b"]);
}

#[test]
fn occurrences_are_taken_from_the_left_and_do_not_overlap() {
    assert_eq!(texts(split_candidates(b"x_*#*_*#*_y")), vec!["x", "*#*_y"]);
    assert_eq!(texts(split(b"aaa", b"aa")), vec!["a"]);
    assert_eq!(texts(split(b"aaaa", b"aa")).len(), 0);
    assert_eq!(texts(split(b"baaab", b"aa")), vec!["b", "ab"]);
}

#[test]
fn any_mark_can_cut() {
    assert_eq!(texts(split(b"a,b,,c", b",")), vec!["a", "b", "c"]);
    assert_eq!(texts(split(b"one--two", b"--")), vec!["one", "two"]);
    assert_eq!(texts(split(b"short", b"much longer")), vec!["short"]);
}

#[test]
fn an_empty_mark_cuts_nowhere() {
    assert_eq!(texts(split(b"abc", b"")), vec!["abc"]);
    assert_eq!(split(b"", b"").len(), 0);
}

#[test]
fn the_mark_is_found_where_it_stands() {
    assert!(mark_at(b"ab_*#*_cd", b"_*#*_", 2));
    assert!(!mark_at(b"ab_*#*_cd", b"_*#*_", 1));
    assert!(!mark_at(b"ab_*#*_cd", b"_*#*_", 5));
    assert!(mark_at(b"abc", b"", 3));
    assert!(mark_at(b"abc", b"c", 2));
    assert!(!mark_at(b"abc", b"c", 3));
    assert!(!mark_at(b"abc", b"", 4));
    assert!(!mark_at(b"abc", b"c", usize::MAX));
}

#[test]
fn splitting_agrees_with_the_standard_library() {
    let alphabet = ["a", "_", "*", "#", "_*#*_", "b"];
    let mut inputs = vec![String::new()];
    for _ in 0..5 {
        let mut longer = Vec::new();
        for input in &inputs {
            for letter in alphabet {
                longer.push(format!("{}{}", input, letter));
            }
        }
        inputs.extend(longer);
        inputs.sort();
        inputs.dedup();
    }
    assert!(inputs.len() > 1000);
    for input in &inputs {
        assert_eq!(
            texts(split_candidates(input.as_bytes())),
            by_the_standard_library(input, "_*#*_"),
            "{:?}",
            input
        );
    }
}

#[test]
fn pieces_joined_with_the_mark_give_the_text_back() {
    let text = b"left_*#*_middle_*#*_right";
    let joined = split_candidates(text).join(&b"_*#*_"[..]);
    assert_eq!(joined, text.to_vec());
}
