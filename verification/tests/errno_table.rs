use linux_stat::errno_gen::{parse_file, Errno};
use linux_stat::errno_table::{bytes_eq, describe, Alias, Definition, Table, TableError};

fn define(name: &str, value: i32, text: Option<&str>) -> Errno {
    Errno::Define(name.as_bytes().to_vec(), value, text.map(|t| t.as_bytes().to_vec()))
}

fn alias(name: &str, target: &str) -> Errno {
    Errno::Alias(name.as_bytes().to_vec(), target.as_bytes().to_vec(), None)
}

fn def(name: &str, value: i32, text: &str) -> Definition {
    Definition {
        name: name.as_bytes().to_vec(),
        value,
        description: text.as_bytes().to_vec(),
    }
}

#[test]
fn table_keeps_the_order_of_the_definitions() {
    let entries = [
        define("EPERM", 1, Some("Operation not permitted")),
        define("ENOENT", 2, Some("No such file or directory")),
        alias("EWOULDBLOCK", "EAGAIN"),
        define("EAGAIN", 11, Some("Try again")),
    ];
    let table = Table::from_entries(&entries).unwrap();
    assert_eq!(
        table.definitions(),
        &[
            def("EPERM", 1, "Operation not permitted"),
            def("ENOENT", 2, "No such file or directory"),
            def("EAGAIN", 11, "Try again"),
        ]
    );
    assert_eq!(
        table.aliases(),
        &[Alias { name: b"EWOULDBLOCK".to_vec(), target: b"EAGAIN".to_vec() }]
    );
    assert_eq!(table.check_aliases(), Ok(()));
}

#[test]
fn codes_without_description_get_the_provided_one() {
    let entries = [define("ERESTARTSYS", 512, None), define("ERESTARTNOINTR", 513, None)];
    let table = Table::from_entries(&entries).unwrap();
    assert_eq!(
        table.definitions(),
        &[
            def("ERESTARTSYS", 512, "Restart syscall"),
            def("ERESTARTNOINTR", 513, "Restart if no interrupt"),
        ]
    );
    assert_eq!(describe(b"ERESTARTSYS", &None), Some(b"Restart syscall".to_vec()));
    assert_eq!(describe(b"ERESTARTSYS", &Some(b"own".to_vec())), Some(b"own".to_vec()));
    assert_eq!(describe(b"ERESTARTSY", &None), None);
    assert_eq!(describe(b"", &None), None);
}

#[test]
fn code_without_any_description_is_refused() {
    let entries = [define("EPERM", 1, Some("x")), define("EIO", 5, None), define("E2BIG", 7, None)];
    assert_eq!(
        Table::from_entries(&entries).unwrap_err(),
        TableError::NoDescription(b"EIO".to_vec())
    );
}

#[test]
fn same_name_with_another_number_is_refused() {
    let entries = [define("EIO", 5, Some("I/O error")), define("EIO", 6, Some("I/O error"))];
    assert_eq!(Table::from_entries(&entries).unwrap_err(), TableError::DefinedTwice(5));
}

#[test]
fn same_name_with_the_same_number_takes_the_later_description() {
    let entries = [
        define("EIO", 5, Some("first")),
        define("EPERM", 1, Some("p")),
        define("EIO", 5, Some("second")),
    ];
    let table = Table::from_entries(&entries).unwrap();
    assert_eq!(table.definitions(), &[def("EIO", 5, "second"), def("EPERM", 1, "p")]);
}

#[test]
fn later_alias_of_a_name_replaces_the_earlier() {
    let entries = [alias("EA", "EB"), alias("EC", "ED"), alias("EA", "EZ")];
    let table = Table::from_entries(&entries).unwrap();
    assert_eq!(
        table.aliases(),
        &[
            Alias { name: b"EA".to_vec(), target: b"EZ".to_vec() },
            Alias { name: b"EC".to_vec(), target: b"ED".to_vec() },
        ]
    );
}

#[test]
fn alias_of_an_undefined_name_is_found() {
    let entries = [
        define("EAGAIN", 11, Some("Try again")),
        alias("EWOULDBLOCK", "EAGAIN"),
        alias("EDEADLOCK", "EDEADLK"),
        alias("EOTHER", "ENONE"),
    ];
    let table = Table::from_entries(&entries).unwrap();
    assert_eq!(
        table.check_aliases(),
        Err(TableError::UnknownAlias(b"EDEADLOCK".to_vec(), b"EDEADLK".to_vec()))
    );
}

#[test]
fn table_grows_one_definition_at_a_time() {
    let mut table = Table::new();
    assert!(table.definitions().is_empty());
    assert!(table.aliases().is_empty());
    assert_eq!(table.add(&define("EIO", 5, Some("I/O error"))), Ok(()));
    assert_eq!(table.add(&define("EIO", 9, Some("other"))), Err(TableError::DefinedTwice(5)));
    assert_eq!(table.add(&define("EX", 1, None)), Err(TableError::NoDescription(b"EX".to_vec())));
    assert_eq!(table.definitions(), &[def("EIO", 5, "I/O error")]);
    assert_eq!(table.check_aliases(), Ok(()));
}

#[test]
fn header_becomes_a_table() {
    let header = b"#define\tEPERM\t\t 1\t/* Operation not permitted */\n#define\tEAGAIN\t\t11\t/* Try again */\n#define\tEWOULDBLOCK\tEAGAIN\t/* Operation would block */\n#define ERESTARTSYS\t512\n";
    let table = Table::from_entries(&parse_file(header)).unwrap();
    assert_eq!(table.definitions().len(), 3);
    assert_eq!(table.definitions()[2], def("ERESTARTSYS", 512, "Restart syscall"));
    assert_eq!(table.aliases().len(), 1);
    assert_eq!(table.check_aliases(), Ok(()));
}

#[test]
fn texts_compare_byte_by_byte() {
    assert!(bytes_eq(b"", b""));
    assert!(bytes_eq(b"abc", b"abc"));
    assert!(!bytes_eq(b"abc", b"abd"));
    assert!(!bytes_eq(b"abc", b"ab"));
    assert!(!bytes_eq(b"", b"a"));
}
