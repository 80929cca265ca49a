use vstd::prelude::*;

use crate::domain::syscall::{enrich, enriched, Syscall, SyscallView};
use crate::text::lowercase_of;

verus! {

/// The syscalls of a page, as served: each with its manual page link set.
pub open spec fn enriched_page(page: Seq<SyscallView>) -> Seq<SyscallView> {
    page.map_values(|s: SyscallView| enriched(s))
}

/// The views of a vector of syscalls.
pub open spec fn syscall_views(v: Seq<Syscall>) -> Seq<SyscallView> {
    v.map_values(|s: Syscall| s@)
}

/// What to do after a page of a listing has been read.
pub enum ListStep<K> {
    /// Read the next page, starting after this key.
    FetchAfter(K),
    /// The listing is complete.
    Finished,
}

/// A syscall listing being read page by page: the syscalls of the pages
/// read so far, in order, enriched.
pub struct SyscallListing {
    items: Vec<Syscall>,
}

impl View for SyscallListing {
    type V = Seq<SyscallView>;

    closed spec fn view(&self) -> Seq<SyscallView> {
        syscall_views(self.items@)
    }
}

impl SyscallListing {
    /// A listing before its first page.
    pub fn new() -> (r: SyscallListing)
        ensures
            r@ == Seq::<SyscallView>::empty(),
    {
        SyscallListing { items: Vec::new() }
    }

    /// Takes in one page of the query: its syscalls (if it had any items)
    /// are appended, enriched and in order; the listing goes on from the
    /// page's last evaluated key if it has one, and is complete otherwise.
    pub fn absorb_page<K>(&mut self, page: Option<Vec<Syscall>>, last_evaluated_key: Option<K>) -> (r: ListStep<K>)
        ensures
            final(self)@ == old(self)@ + match page {
                Some(p) => enriched_page(syscall_views(p@)),
                None => Seq::<SyscallView>::empty(),
            },
            match last_evaluated_key {
                Some(k) => r == ListStep::FetchAfter(k),
                None => r == ListStep::<K>::Finished,
            },
    {
        if let Some(p) = page {
            let ghost start = self.items@;
            let ghost pv = p@;
            for s in it: p
                invariant
                    it.seq() == pv,
                    syscall_views(self.items@) == syscall_views(start) + enriched_page(
                        syscall_views(pv.take(it.index() as int)),
                    ),
            {
                let ghost before = self.items@;
                self.items.push(enrich(s));
                proof {
                    assert(syscall_views(self.items@) =~= syscall_views(before).push(enriched(s@)));
                    assert(pv.take(it.index() + 1) =~= pv.take(it.index() as int).push(s));
                    assert(enriched_page(syscall_views(pv.take(it.index() + 1))) =~= enriched_page(
                        syscall_views(pv.take(it.index() as int)),
                    ).push(enriched(s@)));
                }
            }
            assert(pv.take(pv.len() as int) =~= pv);
        }
        match last_evaluated_key {
            Some(k) => ListStep::FetchAfter(k),
            None => ListStep::Finished,
        }
    }

    /// The syscalls read, in order.
    pub fn into_items(self) -> (r: Vec<Syscall>)
        ensures
            syscall_views(r@) == self@,
    {
        self.items
    }
}

/// Every syscall of a page is served, at its own place, as it was stored
/// but with its own link: the man7.org page of its name when its OS is
/// Linux (in any letter case), none otherwise.
pub proof fn lemma_every_listed_syscall_gets_its_link(page: Seq<SyscallView>)
    ensures
        enriched_page(page).len() == page.len(),
        forall|i: int|
            0 <= i < page.len() ==> {
                let out = #[trigger] enriched_page(page)[i];
                let s = page[i];
                &&& out.os == s.os
                &&& out.arch == s.arch
                &&& out.number == s.number
                &&& out.abi == s.abi
                &&& out.name == s.name
                &&& out.entry == s.entry
                &&& out.man_url == if lowercase_of(s.os) == "linux"@ {
                    Some("https://man7.org/linux/man-pages/man2/"@ + s.name + ".2.html"@)
                } else {
                    None
                }
            },
{
}

} // verus!
