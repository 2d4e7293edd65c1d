use service_cli::text::split_on;

fn owned(pieces: &[&str]) -> Vec<String> {
    pieces.iter().map(|piece| piece.to_string()).collect()
}

#[test]
fn two_arguments_make_two_pieces() {
    assert_eq!(split_on("-a -b", ' '), owned(&["-a", "-b"]));
}

#[test]
fn empty_line_is_one_empty_piece() {
    assert_eq!(split_on("", ' '), owned(&[""]));
}

#[test]
fn line_without_separator_is_one_piece() {
    assert_eq!(split_on("--verbose", ' '), owned(&["--verbose"]));
}

#[test]
fn two_spaces_in_a_row_leave_an_empty_piece() {
    assert_eq!(split_on("a  b", ' '), owned(&["a", "", "b"]));
}

#[test]
fn spaces_at_the_ends_leave_empty_pieces() {
    assert_eq!(split_on(" a ", ' '), owned(&["", "a", ""]));
}

#[test]
fn lone_space_is_two_empty_pieces() {
    assert_eq!(split_on(" ", ' '), owned(&["", ""]));
}

#[test]
fn quotes_do_not_group() {
    assert_eq!(
        split_on("--name \"John Smith\"", ' '),
        owned(&["--name", "\"John", "Smith\""])
    );
}

#[test]
fn other_white_space_does_not_separate() {
    assert_eq!(split_on("a\tb\nc d", ' '), owned(&["a\tb\nc", "d"]));
}

#[test]
fn characters_of_several_bytes_are_kept_whole() {
    assert_eq!(
        split_on("héllo wörld ✓", ' '),
        owned(&["héllo", "wörld", "✓"])
    );
}

#[test]
fn pieces_are_one_more_than_separators() {
    let line = "one two  three   four ";
    let spaces = line.chars().filter(|c| *c == ' ').count();
    assert_eq!(spaces, 7);
    assert_eq!(split_on(line, ' ').len(), 8);
}

#[test]
fn joining_the_pieces_gives_the_line_back() {
    for line in ["", " ", "a", "a b", " a  b ", "--flag value", "x.y z"] {
        assert_eq!(split_on(line, ' ').join(" "), line);
    }
}

#[test]
fn no_piece_holds_the_separator() {
    for piece in split_on(" -a  -b c ", ' ') {
        assert!(!piece.contains(' '));
    }
}

#[test]
fn splitting_agrees_with_the_standard_library() {
    for line in ["", ".", "a.b", "a..b", ".a.", "com.example.app", "no dots"] {
        let expected: Vec<String> = line.split('.').map(|piece| piece.to_string()).collect();
        assert_eq!(split_on(line, '.'), expected);
    }
}
