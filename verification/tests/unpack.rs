use order_service::unpack::{unpack_string, UnpackError};

#[test]
fn test1() {
    assert_eq!(unpack_string("a4bc2d5e").unwrap(), "aaaabccddddde");
}

#[test]
fn test2() {
    assert_eq!(unpack_string("abcd").unwrap(), "abcd");
}

#[test]
fn test3() {
    assert_eq!(unpack_string("").unwrap(), "");
}

#[test]
fn test4() {
    assert_eq!(
        unpack_string("45").unwrap_err(),
        UnpackError::InvalidInput("Leading digit".to_string())
    );
}

#[test]
fn test5() {
    assert_eq!(unpack_string("qwe\\4\\5").unwrap(), "qwe45");
}

#[test]
fn test6() {
    assert_eq!(unpack_string("qwe\\45").unwrap(), "qwe44444");
}

#[test]
fn test7() {
    assert_eq!(unpack_string("qwe\\\\5").unwrap(), "qwe\\\\\\\\\\");
}

#[test]
fn test8() {
    assert_eq!(unpack_string("a\\bc\\d").unwrap(), "abcd");
}

#[test]
fn test9() {
    assert_eq!(
        unpack_string("qwe\\").unwrap_err(),
        UnpackError::InvalidInput("Trailing backslash".to_string())
    );
}

#[test]
fn count_of_one_keeps_a_single_character() {
    assert_eq!(unpack_string("a1b1").unwrap(), "ab");
}

#[test]
fn count_of_several_digits_is_read_whole() {
    assert_eq!(unpack_string("x12y").unwrap(), "xxxxxxxxxxxxy");
    assert_eq!(unpack_string("z010").unwrap(), "zzzzzzzzzz");
}

#[test]
fn count_repeats_an_escaped_digit() {
    assert_eq!(unpack_string("\\33").unwrap(), "333");
}

#[test]
fn count_after_a_count_repeats_the_same_character() {
    assert_eq!(unpack_string("a2\\\\3").unwrap(), "aa\\\\\\");
}

#[test]
fn characters_beyond_ascii_are_repeated_whole() {
    assert_eq!(unpack_string("é3ß").unwrap(), "éééß");
}

#[test]
fn first_fault_from_the_left_decides() {
    assert_eq!(
        unpack_string("7\\").unwrap_err(),
        UnpackError::InvalidInput("Leading digit".to_string())
    );
    assert_eq!(
        unpack_string("a3\\").unwrap_err(),
        UnpackError::InvalidInput("Trailing backslash".to_string())
    );
}

#[test]
fn lone_backslash_is_trailing() {
    assert_eq!(
        unpack_string("\\").unwrap_err(),
        UnpackError::InvalidInput("Trailing backslash".to_string())
    );
}
