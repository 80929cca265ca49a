use system_calls::seed::{parse_table_line, seed_items, SeedTable, TableLine};

fn entry(line: &str) -> (u32, String, String, String) {
    match parse_table_line(line) {
        TableLine::Entry(e) => (e.number, e.abi, e.name, e.entry),
        other => panic!("not an entry: {other:?}"),
    }
}

#[test]
fn reads_syscall_lines() {
    assert_eq!(entry("0\tcommon\tread\t\t\tsys_read"), (0, "common".into(), "read".into(), "sys_read".into()));
    assert_eq!(entry("  60  64  exit  sys_exit  extra"), (60, "64".into(), "exit".into(), "sys_exit".into()));
    assert_eq!(entry("1 common write"), (1, "common".into(), "write".into(), "".into()));
}

#[test]
fn skips_x32_lines() {
    assert!(matches!(parse_table_line("512\tx32\trt_sigaction\t\tcompat_sys_rt_sigaction"), TableLine::X32));
}

#[test]
fn ignores_what_is_not_a_syscall() {
    for line in ["", "   \t", "# the syscall table", "   # indented comment", "0 common", "abc common read", "-1 common read", "4294967296 common read", "x32 x32 x32"] {
        assert!(matches!(parse_table_line(line), TableLine::Ignored), "{line:?}");
    }
}

#[test]
fn bad_number_is_ignored_even_on_x32() {
    assert!(matches!(parse_table_line("n x32 foo"), TableLine::Ignored));
}

#[test]
fn seed_table_counts_and_keeps_order() {
    let mut table = SeedTable::new();
    for line in ["# header", "0\tcommon\tread\tsys_read", "512\tx32\trt_sigaction", "", "1\tcommon\twrite\tsys_write", "513\tx32\trt_sigreturn"] {
        table.absorb_line(line);
    }
    assert_eq!(table.skipped_x32(), 2);
    let entries = table.into_entries();
    let names: Vec<&str> = entries.iter().map(|e| e.name.as_str()).collect();
    assert_eq!(names, ["read", "write"]);
}

#[test]
fn each_entry_seeds_a_by_name_and_a_by_number_item() {
    let e = match parse_table_line("59\t64\texecve\t\t\tsys_execve") {
        TableLine::Entry(e) => e,
        _ => unreachable!(),
    };
    let items = seed_items("linux", "x86_64", &e);
    assert_eq!(items.len(), 2);
    assert_eq!(items[0].pk, "LINUX#x86_64");
    assert_eq!(items[0].sk, "SYSCALL#NAME#execve");
    assert_eq!(items[1].pk, "LINUX#x86_64");
    assert_eq!(items[1].sk, "SYSCALL#NR#59");
    for item in &items {
        assert_eq!(item.os, "linux");
        assert_eq!(item.arch, "x86_64");
        assert_eq!(item.number, 59);
        assert_eq!(item.abi, "64");
        assert_eq!(item.name, "execve");
        assert_eq!(item.entry, "sys_execve");
        assert_eq!(item.entity_type, "syscall");
        assert!(item.args.is_empty());
    }
}

#[test]
fn seeded_number_is_found_from_the_path() {
    let e = match parse_table_line("231 common exit_group sys_exit_group") {
        TableLine::Entry(e) => e,
        _ => unreachable!(),
    };
    let items = seed_items("linux", "x86_64", &e);
    let n = system_calls::parse_syscall_number("231").unwrap();
    let key = system_calls::repository::keys::syscall_by_number_key("linux", "x86_64", n);
    assert_eq!(key.sk, items[1].sk);
    assert_eq!(key.pk, items[1].pk);
}
