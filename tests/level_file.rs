use asteroids::{Level, LevelLoader, LevelLoaderError};

fn load(text: &str) -> Result<Level, LevelLoaderError> {
    LevelLoader.load(text)
}

#[test]
fn four_lines_give_the_level_in_order() {
    assert_eq!(
        load("1000\n800\n4\n3"),
        Ok(Level { width: 1000, height: 800, asteroids: 4, lives: 3 })
    );
}

#[test]
fn trailing_newline_and_extra_lines_are_ignored() {
    assert_eq!(
        load("1\n2\n3\n4\nnot a number\n"),
        Ok(Level { width: 1, height: 2, asteroids: 3, lives: 4 })
    );
}

#[test]
fn carriage_returns_before_line_feeds_are_dropped() {
    assert_eq!(
        load("10\r\n20\r\n0\r\n1\r\n"),
        Ok(Level { width: 10, height: 20, asteroids: 0, lives: 1 })
    );
}

#[test]
fn a_plus_sign_and_leading_zeros_are_accepted() {
    assert_eq!(
        load("+5\n007\n+0\n1"),
        Ok(Level { width: 5, height: 7, asteroids: 0, lives: 1 })
    );
}

#[test]
fn largest_values_fit() {
    assert_eq!(
        load("4294967295\n4294967295\n4294967295\n4294967295"),
        Ok(Level { width: u32::MAX, height: u32::MAX, asteroids: u32::MAX, lives: u32::MAX })
    );
}

#[test]
fn a_value_past_u32_is_a_format_error() {
    assert_eq!(load("4294967296\n1\n1\n1"), Err(LevelLoaderError::FormatError));
}

#[test]
fn three_lines_are_a_format_error() {
    assert_eq!(load("1000\n800\n4\n"), Err(LevelLoaderError::FormatError));
    assert_eq!(load("1000\n800\n4"), Err(LevelLoaderError::FormatError));
}

#[test]
fn empty_text_is_a_format_error() {
    assert_eq!(load(""), Err(LevelLoaderError::FormatError));
}

#[test]
fn non_numeric_line_is_a_format_error() {
    assert_eq!(load("10\nabc\n3\n1"), Err(LevelLoaderError::FormatError));
    assert_eq!(load("10\n20\n3\n"), Err(LevelLoaderError::FormatError));
    assert_eq!(load("10\n\n3\n1"), Err(LevelLoaderError::FormatError));
}

#[test]
fn signs_and_spaces_are_format_errors() {
    assert_eq!(load("-1\n2\n3\n4"), Err(LevelLoaderError::FormatError));
    assert_eq!(load("+\n2\n3\n4"), Err(LevelLoaderError::FormatError));
    assert_eq!(load(" 1\n2\n3\n4"), Err(LevelLoaderError::FormatError));
    assert_eq!(load("1 \n2\n3\n4"), Err(LevelLoaderError::FormatError));
}

#[test]
fn bare_carriage_return_at_the_end_is_kept() {
    assert_eq!(load("1\n2\n3\n4\r"), Err(LevelLoaderError::FormatError));
}

#[test]
fn non_ascii_text_is_a_format_error() {
    assert_eq!(load("1\n2\n3\n4é"), Err(LevelLoaderError::FormatError));
    assert_eq!(
        load("1\n2\n3\n4\né"),
        Ok(Level { width: 1, height: 2, asteroids: 3, lives: 4 })
    );
}

#[test]
fn level_files_end_in_bw() {
    assert_eq!(LevelLoader.extensions(), &["bw"]);
}
