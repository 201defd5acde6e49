use smartgrid_iot_security::util::{bare_text, split_at, split_tuples, stands_at};

fn bytes(text: &str) -> Vec<u8> {
    text.as_bytes().to_vec()
}

fn fields(tuples: &[&[&str]]) -> Vec<Vec<Vec<u8>>> {
    tuples.iter().map(|tuple| tuple.iter().map(|field| bytes(field)).collect()).collect()
}

#[test]
fn a_list_of_pairs_is_split_into_its_fields() {
    assert_eq!(split_tuples(&bytes("[(1,2),(3,4)]"), 2), Ok(fields(&[&["1", "2"], &["3", "4"]])));
    assert_eq!(
        split_tuples(&bytes("[(49_800,50_200),(-3,4.5)]"), 2),
        Ok(fields(&[&["49_800", "50_200"], &["-3", "4.5"]]))
    );
    assert_eq!(split_tuples(&bytes("(7,8)"), 2), Ok(fields(&[&["7", "8"]])));
    assert_eq!(split_tuples(&bytes("7,8"), 2), Ok(fields(&[&["7", "8"]])));
}

#[test]
fn a_list_of_attack_windows_is_split_into_its_fields() {
    assert_eq!(
        split_tuples(&bytes("[(0,10,0.5,2.0),(10,20,1,1)]"), 4),
        Ok(fields(&[&["0", "10", "0.5", "2.0"], &["10", "20", "1", "1"]]))
    );
}

#[test]
fn spaces_are_dropped_wherever_they_stand() {
    assert_eq!(
        split_tuples(&bytes("[(1, 2) , ( 3 ,4)]"), 2),
        Ok(fields(&[&["1", "2"], &["3", "4"]]))
    );
    // the brackets are dropped before the spaces are: a space beside an outer
    // bracket keeps the bracket of the tuple
    assert_eq!(
        split_tuples(&bytes("[ (1, 2) , ( 3 ,4) ]"), 2),
        Ok(fields(&[&["(1", "2"], &["3", "4)"]]))
    );
    assert_eq!(split_tuples(&bytes("[(1 0,2)]"), 2), Ok(fields(&[&["10", "2"]])));
    // other white space stays
    assert_eq!(split_tuples(&bytes("[(1,\t2)]"), 2), Ok(fields(&[&["1", "\t2"]])));
}

#[test]
fn the_first_tuple_that_is_too_short_tells_how_many_fields_it_has() {
    assert_eq!(split_tuples(&bytes("[(1,2,3,4),(5,6),(7)]"), 4), Err(2));
    assert_eq!(split_tuples(&bytes("[(1,2,3,4),(5),(6,7)]"), 4), Err(1));
    assert_eq!(split_tuples(&bytes("[(1,2,3),(5,6,7,8)]"), 4), Err(3));
    assert_eq!(split_tuples(&bytes("[(1,2),(3)]"), 2), Err(1));
    assert_eq!(split_tuples(&bytes(""), 4), Err(1));
    assert_eq!(split_tuples(&bytes("[]"), 4), Err(1));
    assert_eq!(split_tuples(&bytes("[(1,2),(3,4)]"), 3), Err(2));
}

#[test]
fn a_tuple_may_have_more_fields_than_the_arity() {
    assert_eq!(split_tuples(&bytes("[(1,2,3),(4,5)]"), 2), Ok(fields(&[&["1", "2", "3"], &["4", "5"]])));
    assert_eq!(split_tuples(&bytes("[(1),(2,3)]"), 0), Ok(fields(&[&["1"], &["2", "3"]])));
    assert_eq!(split_tuples(&bytes("[(1),(2,3)]"), 1), Ok(fields(&[&["1"], &["2", "3"]])));
}

#[test]
fn an_empty_list_holds_one_tuple_with_one_empty_field() {
    assert_eq!(split_tuples(&bytes(""), 0), Ok(fields(&[&[""]])));
    assert_eq!(split_tuples(&bytes("[]"), 1), Ok(fields(&[&[""]])));
    assert_eq!(split_tuples(&bytes("[()]"), 1), Ok(fields(&[&[""]])));
    assert_eq!(split_tuples(&bytes("   "), 1), Ok(fields(&[&[""]])));
    assert_eq!(split_tuples(&bytes("[(,)]"), 2), Ok(fields(&[&["", ""]])));
    assert_eq!(split_tuples(&bytes("[(1,2),(,)]"), 2), Ok(fields(&[&["1", "2"], &["", ""]])));
}

#[test]
fn only_the_brackets_at_the_ends_are_dropped() {
    assert_eq!(bare_text(&bytes("[[((1,2))]]")), bytes("1,2"));
    assert_eq!(bare_text(&bytes("[(1,(2),3)]")), bytes("1,(2),3"));
    assert_eq!(bare_text(&bytes("][)(")), bytes(""));
    assert_eq!(bare_text(&bytes("")), bytes(""));
    // a space at an end keeps the brackets behind it
    assert_eq!(bare_text(&bytes(" [(1,2)]")), bytes("[(1,2"));
    assert_eq!(bare_text(&bytes("[(1,2)] ")), bytes("1,2)]"));
    assert_eq!(bare_text(&bytes("[(1, 2) ,(3, 4)]")), bytes("1,2),(3,4"));
    assert_eq!(split_tuples(&bytes("[(1,(2),3)]"), 3), Ok(fields(&[&["1", "(2)", "3"]])));
    assert_eq!(split_tuples(&bytes(" [(1,2)]"), 2), Ok(fields(&[&["[(1", "2"]])));
}

#[test]
fn a_text_is_split_at_every_separator_from_the_left() {
    let split = |text: &str, separator: &str| split_at(&bytes(text), &bytes(separator));
    let pieces = |pieces: &[&str]| pieces.iter().map(|piece| bytes(piece)).collect::<Vec<_>>();
    assert_eq!(split("a),(b),(c", "),("), pieces(&["a", "b", "c"]));
    assert_eq!(split("a,b", "),("), pieces(&["a,b"]));
    assert_eq!(split("", ","), pieces(&[""]));
    assert_eq!(split(",", ","), pieces(&["", ""]));
    assert_eq!(split(",a,,b,", ","), pieces(&["", "a", "", "b", ""]));
    assert_eq!(split("),(),(", "),("), pieces(&["", "", ""]));
    assert_eq!(split("),),(", "),("), pieces(&["),", ""]));
    // occurrences do not overlap: the second starts after the first
    assert_eq!(split("aaa", "aa"), pieces(&["", "a"]));
    assert_eq!(split("aaaa", "aa"), pieces(&["", "", ""]));
    assert_eq!(split("abc", ""), pieces(&["abc"]));
    assert_eq!(split("ab", "abc"), pieces(&["ab"]));
    // the pieces are what the standard library splits a string into
    for text in ["a),(b),(c", "),(),(", "x),", "),),(", "1,2),(3,4", ""] {
        let expected: Vec<Vec<u8>> = text.split("),(").map(bytes).collect();
        assert_eq!(split(text, "),("), expected);
        let expected: Vec<Vec<u8>> = text.split(',').map(bytes).collect();
        assert_eq!(split(text, ","), expected);
    }
}

#[test]
fn a_separator_stands_where_its_bytes_stand() {
    let text = bytes("1),(2");
    let separator = bytes("),(");
    assert!(!stands_at(&text, 0, &separator));
    assert!(stands_at(&text, 1, &separator));
    assert!(!stands_at(&text, 2, &separator));
    assert!(!stands_at(&text, 3, &separator));
    assert!(!stands_at(&text, 5, &separator));
    assert!(!stands_at(&text, 6, &separator));
    assert!(!stands_at(&text, usize::MAX, &separator));
    assert!(stands_at(&text, 5, &bytes("")));
    assert!(!stands_at(&text, 6, &bytes("")));
    assert!(stands_at(&text, 4, &bytes("2")));
}
