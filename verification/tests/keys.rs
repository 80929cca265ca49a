use system_calls::repository::keys::{
    name_key, number_key, partition_key, partition_key_from_upper, register_convention_key,
    registers_key, registers_key_from_upper, syscall_by_name_key, syscall_by_number_key,
    syscall_list_query,
};
use system_calls::repository::listing::{ListStep, SyscallListing};
use system_calls::text::{parse_u32, split_whitespace, u32_to_decimal};
use system_calls::Syscall;

#[test]
fn partition_key_upper_cases_the_os() {
    assert_eq!(partition_key("linux", "x86_64"), "LINUX#x86_64");
    assert_eq!(partition_key("Linux", "aarch64"), "LINUX#aarch64");
    assert_eq!(partition_key_from_upper("FREEBSD", "amd64"), "FREEBSD#amd64");
}

#[test]
fn sort_keys() {
    assert_eq!(name_key("write"), "SYSCALL#NAME#write");
    assert_eq!(number_key(0), "SYSCALL#NR#0");
    assert_eq!(number_key(1), "SYSCALL#NR#1");
    assert_eq!(number_key(334), "SYSCALL#NR#334");
    assert_eq!(number_key(u32::MAX), "SYSCALL#NR#4294967295");
    assert_eq!(registers_key("syscall"), "REGISTERS#SYSCALL");
    assert_eq!(registers_key_from_upper("SVC"), "REGISTERS#SVC");
}

#[test]
fn item_keys() {
    let k = syscall_by_name_key("linux", "x86_64", "read");
    assert_eq!((k.pk.as_str(), k.sk.as_str()), ("LINUX#x86_64", "SYSCALL#NAME#read"));
    let k = syscall_by_number_key("linux", "x86_64", 60);
    assert_eq!((k.pk.as_str(), k.sk.as_str()), ("LINUX#x86_64", "SYSCALL#NR#60"));
    let k = register_convention_key("linux", "x86_64", "syscall");
    assert_eq!((k.pk.as_str(), k.sk.as_str()), ("LINUX#x86_64", "REGISTERS#SYSCALL"));
    let q = syscall_list_query("linux", "x86_64");
    assert_eq!((q.pk.as_str(), q.sk_prefix.as_str()), ("LINUX#x86_64", "SYSCALL#NAME#"));
}

#[test]
fn listing_reads_only_name_items() {
    let prefix = syscall_list_query("linux", "x86_64").sk_prefix;
    assert!(name_key("read").starts_with(&prefix));
    assert!(!number_key(0).starts_with(&prefix));
    assert!(!registers_key("syscall").starts_with(&prefix));
    assert_ne!(name_key("0"), number_key(0));
}

#[test]
fn decimal_writing_reads_back() {
    for n in [0u32, 1, 9, 10, 99, 100, 547, 65535, 1_000_000, u32::MAX] {
        let s = u32_to_decimal(n);
        assert_eq!(s, n.to_string());
        assert_eq!(parse_u32(&s), Some(n));
    }
}

#[test]
fn split_whitespace_matches_std() {
    for s in ["", "   ", "a", " a  b\tc\n", "0\tcommon\tread\t\t\tsys_read", "x\u{3000}y\u{a0}z", "é ü"] {
        let ours: Vec<&str> = split_whitespace(s);
        let std_: Vec<&str> = s.split_whitespace().collect();
        assert_eq!(ours, std_, "{s:?}");
    }
}

fn syscall(os: &str, name: &str, number: u32) -> Syscall {
    Syscall {
        os: os.into(),
        arch: "x86_64".into(),
        number,
        abi: "common".into(),
        name: name.into(),
        entry: String::new(),
        man_url: None,
    }
}

#[test]
fn listing_collects_pages_in_order() {
    let mut listing = SyscallListing::new();
    let step = listing.absorb_page(Some(vec![syscall("linux", "read", 0), syscall("linux", "write", 1)]), Some("after-write"));
    assert!(matches!(step, ListStep::FetchAfter("after-write")));
    let step = listing.absorb_page::<&str>(None, Some("empty-page"));
    assert!(matches!(step, ListStep::FetchAfter("empty-page")));
    let step = listing.absorb_page::<&str>(Some(vec![syscall("linux", "open", 2)]), None);
    assert!(matches!(step, ListStep::Finished));
    let items = listing.into_items();
    let names: Vec<&str> = items.iter().map(|s| s.name.as_str()).collect();
    assert_eq!(names, ["read", "write", "open"]);
    assert_eq!(items[2].man_url.as_deref(), Some("https://man7.org/linux/man-pages/man2/open.2.html"));
}

#[test]
fn empty_listing() {
    let mut listing = SyscallListing::new();
    let step = listing.absorb_page::<u8>(Some(vec![]), None);
    assert!(matches!(step, ListStep::Finished));
    assert!(listing.into_items().is_empty());
}
