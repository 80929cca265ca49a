//! Reading the kernel's syscall table (`syscall_64.tbl`) into the items
//! that seed the store: one line per syscall, `<number> <abi> <name>
//! [<entry point>]`, with blank lines and `#` comments.

use vstd::prelude::*;

use crate::repository::keys::{
    by_name_lookup_key, by_number_lookup_key, has_prefix, lemma_listing_reads_name_items_only,
    name_key, name_key_prefix, number_key, number_key_prefix, partition_key, spec_name_key,
    spec_number_key, spec_partition_key,
};
use crate::domain::syscall::{enriched, SyscallView};
use crate::text::{
    char_is_whitespace, decimal_digits, is_whitespace, lemma_parse_decimal_roundtrip, parse_u32,
    spec_parse_u32, split_whitespace, str_views, uppercase_of, words,
};

verus! {

/// A syscall as the table gives it.
#[derive(Debug, Clone)]
pub struct TableEntry {
    pub number: u32,
    pub abi: String,
    pub name: String,
    pub entry: String,
}

/// A table entry seen as text.
pub struct TableEntryView {
    pub number: u32,
    pub abi: Seq<char>,
    pub name: Seq<char>,
    pub entry: Seq<char>,
}

impl View for TableEntry {
    type V = TableEntryView;

    open spec fn view(&self) -> TableEntryView {
        TableEntryView { number: self.number, abi: self.abi@, name: self.name@, entry: self.entry@ }
    }
}

/// What one line of the table holds.
#[derive(Debug, Clone)]
pub enum TableLine {
    /// Nothing to seed: a blank line, a comment, or a line that is not a
    /// syscall (fewer than three fields, or a number that does not read).
    Ignored,
    /// A syscall of the x32 ABI, which is not seeded.
    X32,
    /// A syscall to seed.
    Entry(TableEntry),
}

/// A table line seen as text.
pub enum TableLineView {
    Ignored,
    X32,
    Entry(TableEntryView),
}

impl View for TableLine {
    type V = TableLineView;

    open spec fn view(&self) -> TableLineView {
        match self {
            TableLine::Ignored => TableLineView::Ignored,
            TableLine::X32 => TableLineView::X32,
            TableLine::Entry(e) => TableLineView::Entry(e@),
        }
    }
}

/// The line is empty once trimmed: only white space.
pub open spec fn is_blank(line: Seq<char>) -> bool {
    forall|i: int| 0 <= i < line.len() ==> #[trigger] is_whitespace(line[i])
}

/// The line trimmed begins with `#`.
pub open spec fn is_comment(line: Seq<char>) -> bool {
    exists|k: int|
        0 <= k < line.len() && line[k] == '#' && forall|j: int| 0 <= j < k ==> #[trigger] is_whitespace(line[j])
}

/// What a line of the table holds: lines that are blank, comments, have
/// fewer than three fields or a first field that is not a 32-bit number
/// are ignored; the x32 ABI is told apart; any other line is a syscall
/// whose entry point is its fourth field, or empty without one.
pub open spec fn spec_table_line(line: Seq<char>) -> TableLineView {
    let w = words(line);
    if is_blank(line) || is_comment(line) || w.len() < 3 {
        TableLineView::Ignored
    } else {
        match spec_parse_u32(w[0]) {
            None => TableLineView::Ignored,
            Some(number) => if w[1] == "x32"@ {
                TableLineView::X32
            } else {
                TableLineView::Entry(
                    TableEntryView {
                        number,
                        abi: w[1],
                        name: w[2],
                        entry: if w.len() > 3 {
                            w[3]
                        } else {
                            ""@
                        },
                    },
                )
            },
        }
    }
}

/// Reads one line of the table.
pub fn parse_table_line(line: &str) -> (r: TableLine)
    ensures
        r@ == spec_table_line(line@),
{
    let len: usize = line.unicode_len();
    let mut k: usize = 0;
    while k < len
        invariant_except_break
            k <= len,
            len == line@.len(),
            forall|j: int| 0 <= j < k ==> #[trigger] is_whitespace(line@[j]),
        ensures
            k <= len,
            len == line@.len(),
            forall|j: int| 0 <= j < k ==> #[trigger] is_whitespace(line@[j]),
            k < len ==> !is_whitespace(line@[k as int]),
        decreases len - k,
    {
        if !char_is_whitespace(line.get_char(k)) {
            break;
        }
        k = k + 1;
    }
    if k == len {
        return TableLine::Ignored;
    }
    if line.get_char(k) == '#' {
        return TableLine::Ignored;
    }
    assert(!is_blank(line@));
    assert(!is_comment(line@)) by {
        if is_comment(line@) {
            let w: int = choose|w: int|
                0 <= w < line@.len() && line@[w] == '#' && forall|j: int| 0 <= j < w ==> #[trigger] is_whitespace(line@[j]);
            if w < k {
                assert(is_whitespace(line@[w]));
            } else if w > k {
                assert(is_whitespace(line@[k as int]));
            }
        }
    }
    let parts = split_whitespace(line);
    proof {
        assert(str_views(parts@).len() == parts@.len());
    }
    if parts.len() < 3 {
        return TableLine::Ignored;
    }
    assert(str_views(parts@)[0] == parts@[0]@);
    assert(str_views(parts@)[1] == parts@[1]@);
    assert(str_views(parts@)[2] == parts@[2]@);
    let number: u32 = match parse_u32(parts[0]) {
        Some(n) => n,
        None => {
            return TableLine::Ignored;
        },
    };
    let abi = parts[1].to_owned();
    let x32 = "x32".to_owned();
    if abi == x32 {
        return TableLine::X32;
    }
    let entry = if parts.len() > 3 {
        assert(str_views(parts@)[3] == parts@[3]@);
        parts[3].to_owned()
    } else {
        "".to_owned()
    };
    TableLine::Entry(TableEntry { number, abi, name: parts[2].to_owned(), entry })
}

/// The entries of a table and the number of x32 lines it skipped, read
/// line by line.
pub struct SeedTable {
    entries: Vec<TableEntry>,
    skipped_x32: usize,
}

/// The views of a vector of table entries.
pub open spec fn entry_views(v: Seq<TableEntry>) -> Seq<TableEntryView> {
    v.map_values(|e: TableEntry| e@)
}

impl SeedTable {
    /// The entries read so far, in table order.
    pub closed spec fn spec_entries(&self) -> Seq<TableEntryView> {
        entry_views(self.entries@)
    }

    /// How many x32 lines were skipped so far.
    pub closed spec fn spec_skipped_x32(&self) -> nat {
        self.skipped_x32 as nat
    }

    /// A table before its first line.
    pub fn new() -> (r: SeedTable)
        ensures
            r.spec_entries() == Seq::<TableEntryView>::empty(),
            r.spec_skipped_x32() == 0,
    {
        SeedTable { entries: Vec::new(), skipped_x32: 0 }
    }

    /// Reads one more line: an entry is appended, an x32 line is counted,
    /// anything else leaves the table as it was.
    pub fn absorb_line(&mut self, line: &str)
        requires
            old(self).spec_skipped_x32() < usize::MAX,
        ensures
            match spec_table_line(line@) {
                TableLineView::Entry(e) => {
                    &&& final(self).spec_entries() == old(self).spec_entries().push(e)
                    &&& final(self).spec_skipped_x32() == old(self).spec_skipped_x32()
                },
                TableLineView::X32 => {
                    &&& final(self).spec_entries() == old(self).spec_entries()
                    &&& final(self).spec_skipped_x32() == old(self).spec_skipped_x32() + 1
                },
                TableLineView::Ignored => {
                    &&& final(self).spec_entries() == old(self).spec_entries()
                    &&& final(self).spec_skipped_x32() == old(self).spec_skipped_x32()
                },
            },
    {
        match parse_table_line(line) {
            TableLine::Entry(e) => {
                let ghost before = self.entries@;
                let ghost ev = e@;
                self.entries.push(e);
                assert(entry_views(self.entries@) =~= entry_views(before).push(ev));
            },
            TableLine::X32 => {
                self.skipped_x32 = self.skipped_x32 + 1;
            },
            TableLine::Ignored => {},
        }
    }

    /// How many x32 lines were skipped.
    pub fn skipped_x32(&self) -> (r: usize)
        ensures
            r == self.spec_skipped_x32(),
    {
        self.skipped_x32
    }

    /// The entries read, in table order.
    pub fn into_entries(self) -> (r: Vec<TableEntry>)
        ensures
            entry_views(r@) == self.spec_entries(),
    {
        self.entries
    }
}

/// One item written to the store for a table entry.
#[derive(Debug, Clone)]
pub struct SeedItem {
    pub pk: String,
    pub sk: String,
    pub os: String,
    pub arch: String,
    pub number: u32,
    pub abi: String,
    pub name: String,
    pub entry: String,
    pub entity_type: String,
    pub args: Vec<String>,
}

/// A seed item seen as text.
pub struct SeedItemView {
    pub pk: Seq<char>,
    pub sk: Seq<char>,
    pub os: Seq<char>,
    pub arch: Seq<char>,
    pub number: u32,
    pub abi: Seq<char>,
    pub name: Seq<char>,
    pub entry: Seq<char>,
    pub entity_type: Seq<char>,
    pub args: Seq<Seq<char>>,
}

impl View for SeedItem {
    type V = SeedItemView;

    open spec fn view(&self) -> SeedItemView {
        SeedItemView {
            pk: self.pk@,
            sk: self.sk@,
            os: self.os@,
            arch: self.arch@,
            number: self.number,
            abi: self.abi@,
            name: self.name@,
            entry: self.entry@,
            entity_type: self.entity_type@,
            args: self.args@.map_values(|a: String| a@),
        }
    }
}

/// The kind of item that a seed item is.
pub open spec fn syscall_entity_type() -> Seq<char> {
    "syscall"@
}

/// The views of a vector of seed items.
pub open spec fn seed_item_views(v: Seq<SeedItem>) -> Seq<SeedItemView> {
    v.map_values(|i: SeedItem| i@)
}

/// The item holding entry `e` of an OS/architecture under sort key `sk`.
pub open spec fn spec_seed_item(os: Seq<char>, arch: Seq<char>, e: TableEntryView, sk: Seq<char>) -> SeedItemView {
    SeedItemView {
        pk: spec_partition_key(uppercase_of(os), arch),
        sk,
        os,
        arch,
        number: e.number,
        abi: e.abi,
        name: e.name,
        entry: e.entry,
        entity_type: syscall_entity_type(),
        args: Seq::empty(),
    }
}

/// The two items that seed entry `e`: by name, then by number.
pub open spec fn spec_seed_items(os: Seq<char>, arch: Seq<char>, e: TableEntryView) -> Seq<SeedItemView> {
    seq![
        spec_seed_item(os, arch, e, spec_name_key(e.name)),
        spec_seed_item(os, arch, e, spec_number_key(e.number)),
    ]
}

/// The syscall a seed item stores, as the store reads it back: its
/// fields, with no manual page link (that is never stored).
pub open spec fn stored_syscall(item: SeedItemView) -> SyscallView {
    SyscallView {
        os: item.os,
        arch: item.arch,
        number: item.number,
        abi: item.abi,
        name: item.name,
        entry: item.entry,
        man_url: None,
    }
}

/// The items that seed one table entry of an OS/architecture: the same
/// syscall under its by-name key, then under its by-number key.
pub fn seed_items(os: &str, arch: &str, e: &TableEntry) -> (r: Vec<SeedItem>)
    ensures
        seed_item_views(r@) == spec_seed_items(os@, arch@, e@),
{
    let pk = partition_key(os, arch);
    let by_name = SeedItem {
        pk: pk.clone(),
        sk: name_key(e.name.as_str()),
        os: os.to_owned(),
        arch: arch.to_owned(),
        number: e.number,
        abi: e.abi.clone(),
        name: e.name.clone(),
        entry: e.entry.clone(),
        entity_type: "syscall".to_owned(),
        args: Vec::new(),
    };
    let by_number = SeedItem {
        pk,
        sk: number_key(e.number),
        os: os.to_owned(),
        arch: arch.to_owned(),
        number: e.number,
        abi: e.abi.clone(),
        name: e.name.clone(),
        entry: e.entry.clone(),
        entity_type: "syscall".to_owned(),
        args: Vec::new(),
    };
    let mut items = Vec::new();
    items.push(by_name);
    items.push(by_number);
    assert(items@[0].args@.map_values(|a: String| a@) =~= Seq::<Seq<char>>::empty());
    assert(items@[1].args@.map_values(|a: String| a@) =~= Seq::<Seq<char>>::empty());
    assert(seed_item_views(items@) =~= spec_seed_items(os@, arch@, e@));
    items
}

/// A syscall line's entry holds the line's own fields: its number is
/// what `str::parse::<u32>` reads from the first field, its ABI (never
/// x32), name and entry point are the second, third and fourth fields,
/// the entry point empty when there is no fourth; such a line is neither
/// blank nor a comment.
pub proof fn lemma_entry_holds_the_line_fields(line: Seq<char>)
    requires
        spec_table_line(line) is Entry,
    ensures
        ({
            let e = spec_table_line(line)->Entry_0;
            let w = words(line);
            &&& !is_blank(line) && !is_comment(line)
            &&& w.len() >= 3
            &&& spec_parse_u32(w[0]) == Some(e.number)
            &&& e.abi == w[1]
            &&& e.abi != "x32"@
            &&& e.name == w[2]
            &&& e.entry == if w.len() > 3 {
                w[3]
            } else {
                ""@
            }
        }),
{
}

/// An entry is seeded as two items, one read by name and one by number,
/// each in the partition of its OS (upper case) and architecture, each
/// a `syscall` with no arguments and the entry's own fields.
pub proof fn lemma_seed_items_layout(os: Seq<char>, arch: Seq<char>, e: TableEntryView)
    ensures
        ({
            let items = spec_seed_items(os, arch, e);
            &&& items.len() == 2
            &&& (items[0].pk, items[0].sk) == by_name_lookup_key(os, arch, e.name)
            &&& (items[1].pk, items[1].sk) == by_number_lookup_key(os, arch, e.number)
            &&& items[0].sk == "SYSCALL#NAME#"@ + e.name
            &&& items[1].sk == "SYSCALL#NR#"@ + decimal_digits(e.number as nat)
            &&& forall|i: int|
                0 <= i < 2 ==> {
                    let it = #[trigger] items[i];
                    &&& it.pk == uppercase_of(os) + "#"@ + arch
                    &&& it.os == os && it.arch == arch
                    &&& it.number == e.number && it.abi == e.abi
                    &&& it.name == e.name && it.entry == e.entry
                    &&& it.entity_type == "syscall"@
                    &&& it.args.len() == 0
                }
        }),
{
}

/// A syscall seeded from a line of the table is served by the API: the
/// listing of its partition reads its by-name item and not its by-number
/// item, and the digits of its by-number key read back as its number.
pub proof fn lemma_seeded_syscall_is_served(line: Seq<char>)
    requires
        spec_table_line(line) is Entry,
    ensures
        ({
            let e = spec_table_line(line)->Entry_0;
            &&& has_prefix(spec_name_key(e.name), name_key_prefix())
            &&& !has_prefix(spec_number_key(e.number), name_key_prefix())
            &&& spec_number_key(e.number) == number_key_prefix() + decimal_digits(e.number as nat)
            &&& spec_parse_u32(decimal_digits(e.number as nat)) == Some(e.number)
        }),
{
    let e = spec_table_line(line)->Entry_0;
    lemma_listing_reads_name_items_only(e.name, e.number, Seq::empty());
    lemma_parse_decimal_roundtrip(e.number);
}

/// A syscall seeded from a line of the table reads the same by name and
/// by number. The lookup by the syscall's name, and the lookup by any
/// path segment that reads as its number, use the keys of its two seed
/// items (by name, by number). So in a table that holds those two items,
/// unchanged between the reads, both reads find the same stored syscall,
/// and both are answered with that syscall enriched.
pub proof fn lemma_seeded_syscall_reads_the_same(
    line: Seq<char>,
    os: Seq<char>,
    arch: Seq<char>,
    segment: Seq<char>,
    table: Map<(Seq<char>, Seq<char>), SyscallView>,
)
    requires
        spec_table_line(line) is Entry,
        spec_parse_u32(segment) == Some(spec_table_line(line)->Entry_0.number),
        forall|i: int|
            0 <= i < 2 ==> {
                let item = #[trigger] spec_seed_items(os, arch, spec_table_line(line)->Entry_0)[i];
                &&& table.contains_key((item.pk, item.sk))
                &&& table[(item.pk, item.sk)] == stored_syscall(item)
            },
    ensures
        ({
            let e = spec_table_line(line)->Entry_0;
            let items = spec_seed_items(os, arch, e);
            let by_number = by_number_lookup_key(os, arch, spec_parse_u32(segment)->0);
            let by_name = by_name_lookup_key(os, arch, e.name);
            &&& by_number == (items[1].pk, items[1].sk)
            &&& by_name == (items[0].pk, items[0].sk)
            &&& table.contains_key(by_number) && table.contains_key(by_name)
            &&& table[by_number] == table[by_name]
            &&& enriched(table[by_number]) == enriched(stored_syscall(items[0]))
        }),
{
    let e = spec_table_line(line)->Entry_0;
    let items = spec_seed_items(os, arch, e);
    assert(table[(items[0].pk, items[0].sk)] == stored_syscall(items[0]));
    assert(table[(items[1].pk, items[1].sk)] == stored_syscall(items[1]));
}

} // verus!
