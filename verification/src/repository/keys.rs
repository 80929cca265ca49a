use vstd::prelude::*;

use crate::text::{
    decimal_digits, lemma_decimal_digits_shortest, lemma_parse_decimal_roundtrip, spec_parse_u32, to_uppercase, u32_to_decimal,
    uppercase_of,
};

verus! {

/// The partition key of an OS/architecture, given the OS name in upper case.
pub open spec fn spec_partition_key(os_upper: Seq<char>, arch: Seq<char>) -> Seq<char> {
    os_upper + "#"@ + arch
}

/// The sort key prefix of the by-name copies of syscalls; a listing reads
/// the items under it.
pub open spec fn name_key_prefix() -> Seq<char> {
    "SYSCALL#NAME#"@
}

/// The sort key prefix of the by-number copies of syscalls.
pub open spec fn number_key_prefix() -> Seq<char> {
    "SYSCALL#NR#"@
}

/// The sort key prefix of register conventions.
pub open spec fn registers_key_prefix() -> Seq<char> {
    "REGISTERS#"@
}

/// The sort key of a syscall by name.
pub open spec fn spec_name_key(name: Seq<char>) -> Seq<char> {
    name_key_prefix() + name
}

/// The sort key of a syscall by number: the number in decimal.
pub open spec fn spec_number_key(number: u32) -> Seq<char> {
    number_key_prefix() + decimal_digits(number as nat)
}

/// The sort key of a register convention, given the instruction in upper
/// case.
pub open spec fn spec_registers_key(instruction_upper: Seq<char>) -> Seq<char> {
    registers_key_prefix() + instruction_upper
}

/// `prefix` begins `s`.
pub open spec fn has_prefix(s: Seq<char>, prefix: Seq<char>) -> bool {
    prefix.len() <= s.len() && s.subrange(0, prefix.len() as int) == prefix
}

/// The key (partition, sort) under which a syscall is read by name.
pub open spec fn by_name_lookup_key(os: Seq<char>, arch: Seq<char>, name: Seq<char>) -> (Seq<char>, Seq<char>) {
    (spec_partition_key(uppercase_of(os), arch), spec_name_key(name))
}

/// The key (partition, sort) under which a syscall is read by number.
pub open spec fn by_number_lookup_key(os: Seq<char>, arch: Seq<char>, number: u32) -> (Seq<char>, Seq<char>) {
    (spec_partition_key(uppercase_of(os), arch), spec_number_key(number))
}

/// The primary key of one item: partition key and sort key.
pub struct ItemKey {
    pub pk: String,
    pub sk: String,
}

/// The condition of the query that lists the syscalls of an
/// OS/architecture: this partition, sort keys beginning with the prefix.
pub struct ListQuery {
    pub pk: String,
    pub sk_prefix: String,
}

/// The partition key for an OS name already in upper case.
pub fn partition_key_from_upper(os_upper: &str, arch: &str) -> (r: String)
    ensures
        r@ == spec_partition_key(os_upper@, arch@),
{
    let mut key = os_upper.to_owned();
    key.append("#");
    key.append(arch);
    key
}

/// The partition key `"{OS}#{arch}"` of an OS/architecture, with the OS
/// name in upper case.
pub fn partition_key(os: &str, arch: &str) -> (r: String)
    ensures
        r@ == spec_partition_key(uppercase_of(os@), arch@),
{
    let os_upper = to_uppercase(os);
    partition_key_from_upper(os_upper.as_str(), arch)
}

/// `"SYSCALL#NAME#{name}"`.
pub fn name_key(name: &str) -> (r: String)
    ensures
        r@ == spec_name_key(name@),
{
    let mut key = "SYSCALL#NAME#".to_owned();
    key.append(name);
    key
}

/// `"SYSCALL#NR#{number}"`, the number in decimal.
pub fn number_key(number: u32) -> (r: String)
    ensures
        r@ == spec_number_key(number),
{
    let mut key = "SYSCALL#NR#".to_owned();
    let digits = u32_to_decimal(number);
    key.append(digits.as_str());
    key
}

/// The sort key for an instruction name already in upper case.
pub fn registers_key_from_upper(instruction_upper: &str) -> (r: String)
    ensures
        r@ == spec_registers_key(instruction_upper@),
{
    let mut key = "REGISTERS#".to_owned();
    key.append(instruction_upper);
    key
}

/// `"REGISTERS#{INSTRUCTION}"`, the instruction in upper case.
pub fn registers_key(instruction: &str) -> (r: String)
    ensures
        r@ == spec_registers_key(uppercase_of(instruction@)),
{
    let upper = to_uppercase(instruction);
    registers_key_from_upper(upper.as_str())
}

/// The key of syscall `name` of an OS/architecture.
pub fn syscall_by_name_key(os: &str, arch: &str, name: &str) -> (r: ItemKey)
    ensures
        r.pk@ == spec_partition_key(uppercase_of(os@), arch@),
        r.sk@ == spec_name_key(name@),
        (r.pk@, r.sk@) == by_name_lookup_key(os@, arch@, name@),
{
    ItemKey { pk: partition_key(os, arch), sk: name_key(name) }
}

/// The key of syscall number `number` of an OS/architecture.
pub fn syscall_by_number_key(os: &str, arch: &str, number: u32) -> (r: ItemKey)
    ensures
        r.pk@ == spec_partition_key(uppercase_of(os@), arch@),
        r.sk@ == spec_number_key(number),
        (r.pk@, r.sk@) == by_number_lookup_key(os@, arch@, number),
{
    ItemKey { pk: partition_key(os, arch), sk: number_key(number) }
}

/// The key of the register convention of `instruction` on an
/// OS/architecture.
pub fn register_convention_key(os: &str, arch: &str, instruction: &str) -> (r: ItemKey)
    ensures
        r.pk@ == spec_partition_key(uppercase_of(os@), arch@),
        r.sk@ == spec_registers_key(uppercase_of(instruction@)),
{
    ItemKey { pk: partition_key(os, arch), sk: registers_key(instruction) }
}

/// The query that lists the syscalls of an OS/architecture: its partition,
/// by-name sort keys only.
pub fn syscall_list_query(os: &str, arch: &str) -> (r: ListQuery)
    ensures
        r.pk@ == spec_partition_key(uppercase_of(os@), arch@),
        r.sk_prefix@ == name_key_prefix(),
{
    ListQuery { pk: partition_key(os, arch), sk_prefix: "SYSCALL#NAME#".to_owned() }
}

/// A listing reads every by-name copy of a syscall, and neither the
/// by-number copies nor the register conventions of the same partition.
pub proof fn lemma_listing_reads_name_items_only(name: Seq<char>, number: u32, instruction_upper: Seq<char>)
    ensures
        has_prefix(spec_name_key(name), name_key_prefix()),
        !has_prefix(spec_number_key(number), name_key_prefix()),
        !has_prefix(spec_registers_key(instruction_upper), name_key_prefix()),
{
    reveal_strlit("SYSCALL#NAME#");
    reveal_strlit("SYSCALL#NR#");
    reveal_strlit("REGISTERS#");
    assert(spec_name_key(name).subrange(0, name_key_prefix().len() as int) =~= name_key_prefix());
    assert(spec_number_key(number)[9] == 'R');
    assert(spec_registers_key(instruction_upper)[0] == 'R');
    if has_prefix(spec_number_key(number), name_key_prefix()) {
        assert(spec_number_key(number).subrange(0, 13)[9] == name_key_prefix()[9]);
    }
    if has_prefix(spec_registers_key(instruction_upper), name_key_prefix()) {
        assert(spec_registers_key(instruction_upper).subrange(0, 13)[0] == name_key_prefix()[0]);
    }
}

/// The three kinds of items of a partition never share a sort key.
pub proof fn lemma_item_kinds_have_distinct_keys(name: Seq<char>, number: u32, instruction_upper: Seq<char>)
    ensures
        spec_name_key(name) != spec_number_key(number),
        spec_name_key(name) != spec_registers_key(instruction_upper),
        spec_number_key(number) != spec_registers_key(instruction_upper),
{
    lemma_listing_reads_name_items_only(name, number, instruction_upper);
    reveal_strlit("SYSCALL#NR#");
    reveal_strlit("REGISTERS#");
    assert(spec_number_key(number)[0] == 'S');
    assert(spec_registers_key(instruction_upper)[0] == 'R');
}

/// Different numbers have different keys, and the number of a by-number
/// key is read back from its digits.
pub proof fn lemma_number_keys_are_unique(a: u32, b: u32)
    ensures
        spec_number_key(a) == spec_number_key(b) ==> a == b,
        spec_parse_u32(spec_number_key(a).subrange(number_key_prefix().len() as int, spec_number_key(a).len() as int)) == Some(a),
{
    let p: int = number_key_prefix().len() as int;
    assert(spec_number_key(a).subrange(p, spec_number_key(a).len() as int) =~= decimal_digits(a as nat));
    assert(spec_number_key(b).subrange(p, spec_number_key(b).len() as int) =~= decimal_digits(b as nat));
    lemma_parse_decimal_roundtrip(a);
    lemma_parse_decimal_roundtrip(b);
}

/// The key layout of the table: the partition is the OS in upper case,
/// `#`, the architecture; a syscall is read under `SYSCALL#NAME#` and its
/// name, or `SYSCALL#NR#` and its number in decimal without leading zero
/// (which reads back as the number); a register convention under
/// `REGISTERS#` and the instruction in upper case.
pub proof fn lemma_key_layout(os: Seq<char>, arch: Seq<char>, name: Seq<char>, number: u32, instruction: Seq<char>)
    ensures
        by_name_lookup_key(os, arch, name) == (uppercase_of(os) + "#"@ + arch, "SYSCALL#NAME#"@ + name),
        by_number_lookup_key(os, arch, number).0 == uppercase_of(os) + "#"@ + arch,
        ({
            let sk = by_number_lookup_key(os, arch, number).1;
            let p = "SYSCALL#NR#"@;
            &&& sk.subrange(0, p.len() as int) == p
            &&& spec_parse_u32(sk.subrange(p.len() as int, sk.len() as int)) == Some(number)
            &&& number > 0 ==> sk[p.len() as int] != '0'
        }),
        spec_registers_key(uppercase_of(instruction)) == "REGISTERS#"@ + uppercase_of(instruction),
{
    let sk = by_number_lookup_key(os, arch, number).1;
    let p = "SYSCALL#NR#"@;
    assert(sk.subrange(0, p.len() as int) =~= p);
    assert(sk.subrange(p.len() as int, sk.len() as int) =~= decimal_digits(number as nat));
    lemma_parse_decimal_roundtrip(number);
    lemma_decimal_digits_shortest(number as nat);
    if number > 0 {
        assert(sk[p.len() as int] == decimal_digits(number as nat)[0]);
    }
}

} // verus!
