use system_calls::domain::man_url_for_lowercase_os;
use system_calls::{enrich, man_url, Config, Syscall};

fn stored(os: &str, name: &str) -> Syscall {
    Syscall {
        os: os.into(),
        arch: "x86_64".into(),
        number: 0,
        abi: "common".into(),
        name: name.into(),
        entry: "sys_read".into(),
        man_url: None,
    }
}

#[test]
fn linux_syscalls_link_to_man7() {
    assert_eq!(man_url("linux", "read").as_deref(), Some("https://man7.org/linux/man-pages/man2/read.2.html"));
    assert_eq!(man_url("LINUX", "write").as_deref(), Some("https://man7.org/linux/man-pages/man2/write.2.html"));
    assert_eq!(man_url("Linux", "").as_deref(), Some("https://man7.org/linux/man-pages/man2/.2.html"));
}

#[test]
fn other_systems_have_no_link() {
    assert_eq!(man_url("freebsd", "read"), None);
    assert_eq!(man_url("linux ", "read"), None);
    assert_eq!(man_url("", "read"), None);
}

#[test]
fn link_from_lowercase_os() {
    assert_eq!(man_url_for_lowercase_os("linux", "open").as_deref(), Some("https://man7.org/linux/man-pages/man2/open.2.html"));
    assert_eq!(man_url_for_lowercase_os("LINUX", "open"), None);
}

#[test]
fn enrich_sets_the_link_and_keeps_the_rest() {
    let s = enrich(stored("linux", "read"));
    assert_eq!(s.man_url.as_deref(), Some("https://man7.org/linux/man-pages/man2/read.2.html"));
    assert_eq!(s.os, "linux");
    assert_eq!(s.arch, "x86_64");
    assert_eq!(s.number, 0);
    assert_eq!(s.abi, "common");
    assert_eq!(s.name, "read");
    assert_eq!(s.entry, "sys_read");
}

#[test]
fn enrich_replaces_a_stale_link() {
    let mut s = stored("darwin", "read");
    s.man_url = Some("stale".into());
    assert_eq!(enrich(s).man_url, None);
}

#[test]
fn enrich_twice_is_enrich_once() {
    let once = enrich(stored("Linux", "close"));
    let twice = enrich(once.clone());
    assert_eq!(once.man_url, twice.man_url);
    assert_eq!(once.name, twice.name);
}

#[test]
fn config_defaults_to_the_system_calls_table() {
    let c = Config::from_settings(None, None);
    assert_eq!(c.table_name, "system-calls");
    assert_eq!(c.ddb_endpoint, None);
    let c = Config::from_settings(Some("system-calls-dev".into()), Some("http://localhost:8000".into()));
    assert_eq!(c.table_name, "system-calls-dev");
    assert_eq!(c.ddb_endpoint.as_deref(), Some("http://localhost:8000"));
}
