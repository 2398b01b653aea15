use echo::escape::{decode_escapes, escape_char};
use echo::options::{process_args, unknown_option_message, EchoOptions};
use echo::render::{echo, print_help_info, print_version_info, render, BuildInfo};
use echo::text::starts_with_dash;

fn info() -> BuildInfo {
    BuildInfo {
        name: "echo".to_string(),
        version: "1.2.3".to_string(),
        author: "Jo Doe".to_string(),
    }
}

fn tokens(ts: &[&str]) -> Vec<String> {
    ts.iter().map(|t| t.to_string()).collect()
}

fn run(ts: &[&str]) -> String {
    echo(&tokens(ts), &info())
}

#[test]
fn new_options_have_defaults() {
    let o = EchoOptions::new();
    assert!(o.add_newline_at_end);
    assert!(!o.interpret_escaped_characters);
    assert!(!o.show_help_info);
    assert!(!o.show_version_info);
}

#[test]
fn version_line() {
    assert_eq!(print_version_info(&info()), "Version 1.2.3");
}

#[test]
fn help_text_fills_in_build_info() {
    let h = print_help_info(&info());
    assert!(h.starts_with("\n        DESCRIPTION:\n"));
    assert!(h.contains("        echo [OPTION] ... [STRING] ...\n"));
    assert!(h.contains("VERSION:\n        Version 1.2.3\n"));
    assert!(h.contains("AUTHOR:\n        Jo Doe\n"));
    assert!(h.contains("            \\\\      backslash\n"));
    assert!(h.ends_with("(1 to 2 digits)\n        "));
}

#[test]
fn plain_operands_joined_by_spaces() {
    assert_eq!(run(&["hello", "world"]), "hello world\n");
    assert_eq!(run(&["a", "b", "c"]), "a b c\n");
    assert_eq!(run(&[" a ", "b"]), " a  b\n");
}

#[test]
fn no_tokens_give_a_newline() {
    assert_eq!(run(&[]), "\n");
}

#[test]
fn render_with_default_options() {
    let ops = tokens(&["x\\ny", "z"]);
    assert_eq!(render(&EchoOptions::new(), &ops, &info()), "x\\ny z\n");
}

#[test]
fn dash_n_removes_only_the_newline() {
    let with = run(&["one", "two"]);
    let without = run(&["-n", "one", "two"]);
    assert_eq!(without, "one two");
    assert_eq!(format!("{}\n", without), with);
    assert_eq!(run(&["one", "-n", "two"]), "one two");
}

#[test]
fn version_flags_agree() {
    let long = run(&["-e", "x", "--version", "y"]);
    let short = run(&["-e", "x", "-v", "y"]);
    assert_eq!(long, short);
    assert_eq!(long, "Version 1.2.3\n");
    assert_eq!(run(&["-n", "--version"]), "Version 1.2.3");
    assert_eq!(run(&["--version", "-n", "-h"]), "Version 1.2.3\n");
}

#[test]
fn help_flags_agree() {
    let long = run(&["--help"]);
    let short = run(&["-h", "-v"]);
    assert_eq!(long, short);
    for heading in ["DESCRIPTION:", "USAGE:", "OPTIONS:", "ESCAPED SEQUENCES:"] {
        assert!(long.contains(heading));
    }
    assert_eq!(long, format!("{}\n", print_help_info(&info())));
}

#[test]
fn escapes_decode_to_single_characters() {
    assert_eq!(decode_escapes("\\n"), "\n");
    assert_eq!(decode_escapes("\\\\"), "\\");
    assert_eq!(decode_escapes("\\t"), "\t");
    assert_eq!(run(&["-e", "\\n"]), "\n\n");
}

#[test]
fn escape_table() {
    let pairs = [
        ('\\', '\\'),
        ('a', '\u{7}'),
        ('b', '\u{8}'),
        ('c', '\u{4}'),
        ('e', '\u{1b}'),
        ('f', '\u{c}'),
        ('n', '\n'),
        ('r', '\r'),
        ('t', '\t'),
        ('v', '\u{b}'),
        ('q', '\0'),
    ];
    for (c, want) in pairs {
        assert_eq!(escape_char(c), want);
    }
    assert_eq!(decode_escapes("x\\ay\\rz"), "x\u{7}y\rz");
}

#[test]
fn unknown_escape_gives_nul() {
    assert_eq!(decode_escapes("\\q"), "\0");
    assert_eq!(decode_escapes("\\0123"), "\0123");
    assert_eq!(decode_escapes("\\x41"), "\u{0}41");
}

#[test]
fn trailing_backslash_gives_zero_digit() {
    assert_eq!(decode_escapes("ab\\"), "ab0");
    assert_eq!(run(&["-e", "ab\\", "c"]), "ab0 c\n");
}

#[test]
fn escapes_left_alone_without_dash_e() {
    assert_eq!(run(&["a\\tb"]), "a\\tb\n");
    assert_eq!(run(&["-e", "a\\tb"]), "a\tb\n");
}

#[test]
fn unknown_flag_is_reported_and_skipped() {
    let args = tokens(&["--bogus", "hello"]);
    let (o, operands, unknown) = process_args(&args);
    assert_eq!(o, EchoOptions::new());
    assert_eq!(operands, vec!["hello".to_string()]);
    assert_eq!(unknown, vec!["--bogus".to_string()]);
    assert_eq!(unknown_option_message(&unknown[0]), "Ignoring unknown option: --bogus");
    assert_eq!(echo(&args, &info()), "hello\n");
}

#[test]
fn classification_stops_at_help() {
    let args = tokens(&["-n", "a", "-x", "--help", "b", "-y"]);
    let (o, operands, unknown) = process_args(&args);
    assert!(!o.add_newline_at_end);
    assert!(o.show_help_info);
    assert!(!o.show_version_info);
    assert_eq!(operands, vec!["a".to_string()]);
    assert_eq!(unknown, vec!["-x".to_string()]);
}

#[test]
fn lone_dash_is_an_unknown_option() {
    assert_eq!(run(&["-", "a"]), "a\n");
    assert!(starts_with_dash("-"));
    assert!(!starts_with_dash(""));
    assert!(!starts_with_dash("a-"));
}

#[test]
fn grouped_flags_are_not_split() {
    assert_eq!(run(&["-ne", "a\\n"]), "a\\n\n");
}

#[test]
fn rendering_twice_is_identical() {
    let ops = tokens(&["p", "\\q"]);
    let mut o = EchoOptions::new();
    o.interpret_escaped_characters = true;
    let first = render(&o, &ops, &info());
    let second = render(&o, &ops, &info());
    assert_eq!(first, second);
    assert_eq!(first, "p \0\n");
}
