use vstd::prelude::*;

use crate::text::{lowercase_of, to_lowercase};

verus! {

/// One system call of an OS/architecture. `man_url` is not stored: it is
/// derived from `os` and `name` when a syscall is served (see `enrich`).
#[derive(Debug, Clone)]
pub struct Syscall {
    pub os: String,
    pub arch: String,
    pub number: u32,
    pub abi: String,
    pub name: String,
    pub entry: String,
    pub man_url: Option<String>,
}

/// A syscall seen as text.
pub struct SyscallView {
    pub os: Seq<char>,
    pub arch: Seq<char>,
    pub number: u32,
    pub abi: Seq<char>,
    pub name: Seq<char>,
    pub entry: Seq<char>,
    pub man_url: Option<Seq<char>>,
}

impl View for Syscall {
    type V = SyscallView;

    open spec fn view(&self) -> SyscallView {
        SyscallView {
            os: self.os@,
            arch: self.arch@,
            number: self.number,
            abi: self.abi@,
            name: self.name@,
            entry: self.entry@,
            man_url: self.man_url.deep_view(),
        }
    }
}

/// The section-2 manual page of `name` on man7.org.
pub open spec fn man_page_url(name: Seq<char>) -> Seq<char> {
    "https://man7.org/linux/man-pages/man2/"@ + name + ".2.html"@
}

/// The manual page link for an OS name already in lower case: only Linux
/// has one.
pub open spec fn linux_man_url(os_lower: Seq<char>, name: Seq<char>) -> Option<Seq<char>> {
    if os_lower == "linux"@ {
        Some(man_page_url(name))
    } else {
        None
    }
}

/// The manual page link of syscall `name` on OS `os`, whatever the case
/// of `os`.
pub open spec fn spec_man_url(os: Seq<char>, name: Seq<char>) -> Option<Seq<char>> {
    linux_man_url(lowercase_of(os), name)
}

/// A syscall with its manual page link set from its OS and name; every
/// other field is kept.
pub open spec fn enriched(s: SyscallView) -> SyscallView {
    SyscallView {
        os: s.os,
        arch: s.arch,
        number: s.number,
        abi: s.abi,
        name: s.name,
        entry: s.entry,
        man_url: spec_man_url(s.os, s.name),
    }
}

/// The manual page link for `name` given the OS name in lower case.
pub fn man_url_for_lowercase_os(os_lower: &str, name: &str) -> (r: Option<String>)
    ensures
        r.deep_view() == linux_man_url(os_lower@, name@),
{
    let os = os_lower.to_owned();
    let linux = "linux".to_owned();
    if os == linux {
        let mut url = "https://man7.org/linux/man-pages/man2/".to_owned();
        url.append(name);
        url.append(".2.html");
        Some(url)
    } else {
        None
    }
}

/// The manual page link of syscall `name` on OS `os`: a man7.org link for
/// Linux (in any letter case), none for any other OS.
pub fn man_url(os: &str, name: &str) -> (r: Option<String>)
    ensures
        r.deep_view() == spec_man_url(os@, name@),
{
    let os_lower = to_lowercase(os);
    man_url_for_lowercase_os(os_lower.as_str(), name)
}

/// Sets the manual page link of a syscall read from the table.
pub fn enrich(s: Syscall) -> (r: Syscall)
    ensures
        r@ == enriched(s@),
{
    let mut s = s;
    s.man_url = man_url(s.os.as_str(), s.name.as_str());
    s
}

/// Enriching twice is enriching once.
pub proof fn lemma_enrich_idempotent(s: SyscallView)
    ensures
        enriched(enriched(s)) == enriched(s),
{
}

/// For Linux (its name lowercased is `linux`) the link is the man7.org
/// section-2 prefix, then the syscall name character for character, then
/// `.2.html`; any other OS has no link.
pub proof fn lemma_man_url_spells_the_name(os: Seq<char>, name: Seq<char>)
    ensures
        lowercase_of(os) != "linux"@ ==> spec_man_url(os, name) is None,
        lowercase_of(os) == "linux"@ ==> ({
            let p = "https://man7.org/linux/man-pages/man2/"@;
            let url = spec_man_url(os, name)->0;
            &&& spec_man_url(os, name) is Some
            &&& url.len() == p.len() + name.len() + ".2.html"@.len()
            &&& url.subrange(0, p.len() as int) == p
            &&& forall|i: int| 0 <= i < name.len() ==> #[trigger] url[p.len() + i] == name[i]
            &&& url.subrange((p.len() + name.len()) as int, url.len() as int) == ".2.html"@
        }),
{
    if lowercase_of(os) == "linux"@ {
        let p = "https://man7.org/linux/man-pages/man2/"@;
        let url = spec_man_url(os, name)->0;
        assert(url == p + name + ".2.html"@);
        assert(url.subrange(0, p.len() as int) =~= p);
        assert(url.subrange((p.len() + name.len()) as int, url.len() as int) =~= ".2.html"@);
        assert forall|i: int| 0 <= i < name.len() implies #[trigger] url[p.len() + i] == name[i] by {
            assert((p + name)[p.len() + i] == name[i]);
        }
    }
}

/// A served syscall keeps every stored field, and its link depends on
/// its OS and name only, whatever its entry point: the man7.org page of
/// its name for Linux in any letter case, none for any other OS.
pub proof fn lemma_enriched_link(s: SyscallView)
    ensures
        enriched(s).os == s.os,
        enriched(s).arch == s.arch,
        enriched(s).number == s.number,
        enriched(s).abi == s.abi,
        enriched(s).name == s.name,
        enriched(s).entry == s.entry,
        lowercase_of(s.os) == "linux"@ ==> enriched(s).man_url == Some(
            "https://man7.org/linux/man-pages/man2/"@ + s.name + ".2.html"@,
        ),
        lowercase_of(s.os) != "linux"@ ==> enriched(s).man_url is None,
{
}

/// Two syscalls with the same OS and name are served with the same link,
/// whatever their other fields.
pub proof fn lemma_link_depends_on_os_and_name_only(a: SyscallView, b: SyscallView)
    requires
        a.os == b.os,
        a.name == b.name,
    ensures
        enriched(a).man_url == enriched(b).man_url,
{
}

} // verus!
