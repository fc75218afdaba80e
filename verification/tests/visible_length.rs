use sketch::visible_length;

#[test]
fn test_no_ansi_codes() {
    let input = "Hello, world!";
    let result = visible_length(input);
    assert_eq!(result, 13);
}

#[test]
fn test_simple_ansi_code() {
    let input = "\x1b[31mHello\x1b[0m, world!";
    let result = visible_length(input);
    assert_eq!(result, 13);
}

#[test]
fn test_multiple_ansi_codes() {
    let input = "\x1b[31mHello\x1b[0m, \x1b[1mworld\x1b[0m!";
    let result = visible_length(input);
    assert_eq!(result, 13);
}

#[test]
fn test_only_ansi_codes() {
    let input = "\x1b[31m\x1b[1m\x1b[0m";
    let result = visible_length(input);
    assert_eq!(result, 0);
}

#[test]
fn test_empty_string() {
    let input = "";
    let result = visible_length(input);
    assert_eq!(result, 0);
}

#[test]
fn test_ansi_codes_in_the_middle() {
    let input = "Hello, \x1b[31mworld\x1b[0m!";
    let result = visible_length(input);
    assert_eq!(result, 13);
}

#[test]
fn test_ansi_codes_at_the_end() {
    let input = "Hello, world\x1b[31m!\x1b[0m";
    let result = visible_length(input);
    assert_eq!(result, 13);
}
