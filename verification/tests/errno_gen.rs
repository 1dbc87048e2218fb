use linux_stat::errno_gen::{comment, number, parse_file, parse_line, Errno};

fn define(name: &str, value: i32, text: Option<&str>) -> Option<Errno> {
    Some(Errno::Define(
        name.as_bytes().to_vec(),
        value,
        text.map(|t| t.as_bytes().to_vec()),
    ))
}

fn alias(name: &str, target: &str, text: Option<&str>) -> Option<Errno> {
    Some(Errno::Alias(
        name.as_bytes().to_vec(),
        target.as_bytes().to_vec(),
        text.map(|t| t.as_bytes().to_vec()),
    ))
}

#[test]
fn definition_with_number_and_comment() {
    assert_eq!(
        parse_line(b"#define\tENOENT\t\t 2\t/* No such file or directory */"),
        define("ENOENT", 2, Some("No such file or directory"))
    );
    assert_eq!(
        parse_line(b"  #  define EPERM 1 /* Operation not permitted */  \r\n"),
        define("EPERM", 1, Some("Operation not permitted"))
    );
    assert_eq!(
        parse_line(b"#define ENOTSUPP 524 /*Operation is not supported*/"),
        define("ENOTSUPP", 524, Some("Operation is not supported"))
    );
}

#[test]
fn definition_without_comment() {
    assert_eq!(parse_line(b"#define ERESTARTSYS 512"), define("ERESTARTSYS", 512, None));
    assert_eq!(parse_line(b"#define E 7 trailing words"), define("E", 7, None));
    assert_eq!(parse_line(b"#define EX 7 /* open"), define("EX", 7, None));
    assert_eq!(parse_line(b"#define EX 7 /*/"), define("EX", 7, None));
    assert_eq!(parse_line(b"#define EX 7 /**/"), define("EX", 7, Some("")));
    assert_eq!(parse_line(b"#define EX 0042abc"), define("EX", 42, None));
}

#[test]
fn alias_of_another_code() {
    assert_eq!(
        parse_line(b"#define\tEWOULDBLOCK\tEAGAIN\t/* Operation would block */"),
        alias("EWOULDBLOCK", "EAGAIN", Some("Operation would block"))
    );
    assert_eq!(parse_line(b"#define EDEADLOCK EDEADLK x"), alias("EDEADLOCK", "EDEADLK", None));
}

#[test]
fn alias_needs_white_space_after_it() {
    assert_eq!(parse_line(b"#define EDEADLOCK EDEADLK"), None);
    assert_eq!(parse_line(b"#define EDEADLOCK EDEADLK  \n"), None);
}

#[test]
fn lines_that_define_no_error_code() {
    assert_eq!(parse_line(b""), None);
    assert_eq!(parse_line(b"   "), None);
    assert_eq!(parse_line(b"/* comment */"), None);
    assert_eq!(parse_line(b"#ifndef _ASM_GENERIC_ERRNO_H"), None);
    assert_eq!(parse_line(b"#define _ASM_GENERIC_ERRNO_H"), None);
    assert_eq!(parse_line(b"#define MAX_ERRNO 4095"), None);
    assert_eq!(parse_line(b"#defineENOENT 2"), None);
    assert_eq!(parse_line(b"#define ENOENT"), None);
    assert_eq!(parse_line(b"#define ENOENT (2)"), None);
    assert_eq!(parse_line(b"#define ENOENT -2"), None);
    assert_eq!(parse_line(b"define ENOENT 2"), None);
    assert_eq!(parse_line(b"#include <asm-generic/errno-base.h>"), None);
    assert_eq!(parse_line(b"#define EX other"), None);
}

#[test]
fn number_has_to_fit_32_bits() {
    assert_eq!(parse_line(b"#define EBIG 2147483647"), define("EBIG", 2147483647, None));
    assert_eq!(parse_line(b"#define EBIG 2147483648"), None);
    assert_eq!(parse_line(b"#define EBIG 99999999999999999999999999"), None);
    assert_eq!(parse_line(b"#define EBIG 000000000000000000000007"), define("EBIG", 7, None));
}

#[test]
fn number_is_read_up_to_the_first_other_byte() {
    assert_eq!(number(b"42 is the answer", 0, 16), Some((42, 2)));
    assert_eq!(number(b"x42y", 1, 4), Some((42, 3)));
    assert_eq!(number(b"x42y", 1, 2), Some((4, 2)));
    assert_eq!(number(b"0042", 0, 4), Some((42, 4)));
    assert_eq!(number(b"-42", 0, 3), None);
    assert_eq!(number(b"abc", 0, 3), None);
    assert_eq!(number(b"", 0, 0), None);
    assert_eq!(number(b"2147483647", 0, 10), Some((i32::MAX, 10)));
    assert_eq!(number(b"2147483648", 0, 10), None);
}

#[test]
fn comment_loses_its_marks_and_white_space() {
    assert_eq!(comment(b"  /*  text here  */  ", 0, 21), Some(b"text here".to_vec()));
    assert_eq!(comment(b"/**/", 0, 4), Some(Vec::new()));
    assert_eq!(comment(b"/*/", 0, 3), None);
    assert_eq!(comment(b"text", 0, 4), None);
    assert_eq!(comment(b"/* a */ b", 0, 9), None);
    assert_eq!(comment(b"x /* a */", 1, 9), Some(b"a".to_vec()));
    assert_eq!(comment(b"", 0, 0), None);
}

#[test]
fn file_gives_its_definitions_in_order() {
    let header = b"/* SPDX */\n#ifndef _H\n#define _H\n\n#define\tEPERM\t\t 1\t/* Operation not permitted */\n#define\tENOENT\t\t 2\t/* No such file or directory */\r\n#define\tEWOULDBLOCK\tEAGAIN\t/* Operation would block */\n\n#endif\n";
    let entries = parse_file(header);
    assert_eq!(entries.len(), 3);
    assert_eq!(Some(&entries[0]), define("EPERM", 1, Some("Operation not permitted")).as_ref());
    assert_eq!(
        Some(&entries[1]),
        define("ENOENT", 2, Some("No such file or directory")).as_ref()
    );
    assert_eq!(
        Some(&entries[2]),
        alias("EWOULDBLOCK", "EAGAIN", Some("Operation would block")).as_ref()
    );
}

#[test]
fn file_without_final_line_feed() {
    assert_eq!(parse_file(b"#define EIO 5 /* I/O error */").len(), 1);
    assert_eq!(parse_file(b"\n\n#define EIO 5 /* I/O error */").len(), 1);
    assert_eq!(parse_file(b"").len(), 0);
    assert_eq!(parse_file(b"\n").len(), 0);
    assert_eq!(parse_file(b"#define EIO 5\n#define EIO 5").len(), 2);
}
