pub mod rate_limiter;
pub mod retry;

use vstd::prelude::*;

use crate::models::errors::IndexerError;
use crate::models::types::BlockTime;
use crate::text::{chars_of, lower_hex, nibble_char, str_eq};

verus! {

/// A dataset that the indexer can write: one table of its storage.
#[derive(Debug, Clone, Copy, PartialEq, Eq, Structural)]
pub enum Table {
    Blocks,
    Logs,
    Transactions,
    Traces,
}

/// The name of a table, as it is configured and stored.
pub open spec fn table_name(t: Table) -> Seq<char> {
    match t {
        Table::Blocks => "blocks"@,
        Table::Logs => "logs"@,
        Table::Transactions => "transactions"@,
        Table::Traces => "traces"@,
    }
}

/// The table that a name stands for, if any.
pub open spec fn table_of_name(name: Seq<char>) -> Option<Table> {
    if name == "blocks"@ {
        Some(Table::Blocks)
    } else if name == "logs"@ {
        Some(Table::Logs)
    } else if name == "transactions"@ {
        Some(Table::Transactions)
    } else if name == "traces"@ {
        Some(Table::Traces)
    } else {
        None
    }
}

/// Whether every name in a list names a table.
pub open spec fn all_table_names(names: Seq<String>) -> bool {
    forall|i: int| 0 <= i < names.len() ==> (#[trigger] table_of_name(names[i]@)) is Some
}

/// The position of the first name in a list that names no table (the list's length if none).
pub open spec fn first_invalid_name(names: Seq<String>) -> int
    decreases names.len(),
{
    if names.len() == 0 {
        0
    } else if table_of_name(names[0]@) is None {
        0
    } else {
        1 + first_invalid_name(names.drop_first())
    }
}

impl Table {
    /// The table that `table` names; an error for any other name.
    pub fn from_string(table: &String) -> (r: Result<Table, IndexerError>)
        ensures
            match table_of_name(table@) {
                Some(t) => r == Ok::<Table, IndexerError>(t),
                None => r == Err::<Table, IndexerError>((IndexerError::InvalidTableName { name: *table })),
            },
    {
        let s = table.as_str();
        if str_eq(s, "blocks") {
            Ok(Table::Blocks)
        } else if str_eq(s, "logs") {
            Ok(Table::Logs)
        } else if str_eq(s, "transactions") {
            Ok(Table::Transactions)
        } else if str_eq(s, "traces") {
            Ok(Table::Traces)
        } else {
            Err(IndexerError::InvalidTableName { name: table.clone() })
        }
    }

    /// The tables that a list of names stands for, in order; the error of the first name that
    /// names no table.
    pub fn from_vec(tables: Vec<String>) -> (r: Result<Vec<Table>, IndexerError>)
        ensures
            all_table_names(tables@) <==> r is Ok,
            r matches Ok(v) ==> v@.len() == tables@.len() && forall|i: int| 0 <= i < v@.len()
                ==> Some(#[trigger] v@[i]) == table_of_name(tables@[i]@),
            r matches Err(e) ==> e == (IndexerError::InvalidTableName {
                name: tables@[first_invalid_name(tables@)],
            }),
    {
        let mut out: Vec<Table> = Vec::new();
        let mut i: usize = 0;
        while i < tables.len()
            invariant
                i <= tables@.len(),
                out@.len() == i,
                forall|k: int| 0 <= k < i ==> Some(#[trigger] out@[k]) == table_of_name(tables@[k]@),
            decreases tables@.len() - i,
        {
            match Table::from_string(&tables[i]) {
                Ok(t) => out.push(t),
                Err(e) => {
                    proof {
                        assert forall|k: int| 0 <= k < i implies (#[trigger] table_of_name(tables@[k]@)) is Some by {
                            assert(Some(out@[k]) == table_of_name(tables@[k]@));
                        }
                        lemma_first_invalid(tables@, i as int);
                    }
                    return Err(e);
                },
            }
            i = i + 1;
        }
        proof {
            assert forall|k: int| 0 <= k < tables@.len() implies (#[trigger] table_of_name(tables@[k]@)) is Some by {
                assert(Some(out@[k]) == table_of_name(tables@[k]@));
            }
        }
        Ok(out)
    }

    /// The names of a list of tables, in order.
    pub fn to_vec(tables: &[Table]) -> (r: Vec<String>)
        ensures
            r@.len() == tables@.len(),
            forall|i: int| 0 <= i < r@.len() ==> (#[trigger] r@[i])@ == table_name(tables@[i]),
    {
        let mut out: Vec<String> = Vec::new();
        let mut i: usize = 0;
        while i < tables.len()
            invariant
                i <= tables@.len(),
                out@.len() == i,
                forall|k: int| 0 <= k < i ==> (#[trigger] out@[k])@ == table_name(tables@[k]),
            decreases tables@.len() - i,
        {
            out.push(tables[i].to_string());
            i = i + 1;
        }
        out
    }

    /// The name of the table.
    pub fn to_string(&self) -> (r: String)
        ensures
            r@ == table_name(*self),
    {
        match self {
            Table::Blocks => String::from_str("blocks"),
            Table::Logs => String::from_str("logs"),
            Table::Transactions => String::from_str("transactions"),
            Table::Traces => String::from_str("traces"),
        }
    }
}

proof fn lemma_first_invalid(names: Seq<String>, i: int)
    requires
        0 <= i < names.len(),
        table_of_name(names[i]@) is None,
        forall|k: int| 0 <= k < i ==> (#[trigger] table_of_name(names[k]@)) is Some,
    ensures
        first_invalid_name(names) == i,
        !all_table_names(names),
    decreases i,
{
    if i > 0 {
        assert(table_of_name(names[0]@) is Some);
        lemma_first_invalid(names.drop_first(), i - 1);
    }
}

/// The four table names differ from each other.
pub proof fn lemma_table_literals_distinct()
    ensures
        "blocks"@ != "logs"@,
        "blocks"@ != "transactions"@,
        "blocks"@ != "traces"@,
        "logs"@ != "transactions"@,
        "logs"@ != "traces"@,
        "transactions"@ != "traces"@,
{
    reveal_strlit("blocks");
    reveal_strlit("logs");
    reveal_strlit("transactions");
    reveal_strlit("traces");
    assert("blocks"@[0] != "logs"@[0]);
    assert("blocks"@[0] != "transactions"@[0]);
    assert("blocks"@[0] != "traces"@[0]);
    assert("logs"@[0] != "transactions"@[0]);
    assert("logs"@[0] != "traces"@[0]);
    assert("transactions"@.len() != "traces"@.len());
}

/// Every table's name reads back as that table: parsing what `to_string` writes gives the
/// table again.
pub proof fn lemma_table_name_roundtrip(t: Table)
    ensures
        table_of_name(table_name(t)) == Some(t),
{
    lemma_table_literals_distinct();
}

/// Every name that parses as a table is that table's name: writing what `from_string`
/// reads gives the name again, so `to_vec` undoes `from_vec`.
pub proof fn lemma_table_of_name_inverse(name: Seq<char>)
    requires
        table_of_name(name) is Some,
    ensures
        table_name(table_of_name(name).unwrap()) == name,
{
}

//////////////////////////////////////// Hexadecimal numbers ////////////////////////////////////////

/// The value of a hexadecimal digit (either case), if the character is one.
pub open spec fn hex_digit(c: char) -> Option<nat> {
    if '0' <= c && c <= '9' {
        Some((c as nat - '0' as nat) as nat)
    } else if 'a' <= c && c <= 'f' {
        Some((c as nat - 'a' as nat + 10) as nat)
    } else if 'A' <= c && c <= 'F' {
        Some((c as nat - 'A' as nat + 10) as nat)
    } else {
        None
    }
}

/// Whether every character is a hexadecimal digit.
pub open spec fn all_hex_digits(s: Seq<char>) -> bool {
    forall|i: int| 0 <= i < s.len() ==> (#[trigger] hex_digit(s[i])) is Some
}

/// The number that a run of hexadecimal digits spells, most significant first.
pub open spec fn hex_value(s: Seq<char>) -> nat
    decreases s.len(),
{
    if s.len() == 0 {
        0
    } else {
        hex_value(s.drop_last()) * 16 + match hex_digit(s.last()) {
            Some(d) => d,
            None => 0,
        }
    }
}

/// A string with every leading `0x` removed, as `trim_start_matches("0x")` leaves it.
pub open spec fn without_hex_prefix(s: Seq<char>) -> Seq<char>
    decreases s.len(),
{
    if s.len() >= 2 && s[0] == '0' && s[1] == 'x' {
        without_hex_prefix(s.subrange(2, s.len() as int))
    } else {
        s
    }
}

/// The digits of an unsigned number's text, after the optional leading `+`; `None` for an
/// empty text or a lone sign.
pub open spec fn unsigned_digits(s: Seq<char>) -> Option<Seq<char>> {
    if s.len() == 0 {
        None
    } else if (s[0] == '+' || s[0] == '-') && s.len() == 1 {
        None
    } else if s[0] == '+' {
        Some(s.drop_first())
    } else {
        Some(s)
    }
}

/// The value of an unsigned hexadecimal text below `bound`, as `from_str_radix(s, 16)`
/// reads it: an optional `+` and at least one hexadecimal digit, nothing else.
pub open spec fn parse_hex(s: Seq<char>, bound: nat) -> Option<nat> {
    match unsigned_digits(s) {
        Some(d) => if all_hex_digits(d) && hex_value(d) < bound {
            Some(hex_value(d))
        } else {
            None
        },
        None => None,
    }
}

pub open spec fn pow2_64() -> nat {
    0x1_0000_0000_0000_0000
}

pub open spec fn pow2_128() -> nat {
    0x1_0000_0000_0000_0000 * 0x1_0000_0000_0000_0000
}

/// The value of `hex` read as a hexadecimal number after dropping its leading `0x`s.
pub open spec fn hex_number(hex: Seq<char>, bound: nat) -> Option<nat> {
    parse_hex(without_hex_prefix(hex), bound)
}

fn hex_digit_exec(c: char) -> (r: Option<u8>)
    ensures
        match hex_digit(c) {
            Some(d) => r == Some(d as u8),
            None => r is None,
        },
{
    if '0' <= c && c <= '9' {
        Some(((c as u32) - ('0' as u32)) as u8)
    } else if 'a' <= c && c <= 'f' {
        Some(((c as u32) - ('a' as u32) + 10) as u8)
    } else if 'A' <= c && c <= 'F' {
        Some(((c as u32) - ('A' as u32) + 10) as u8)
    } else {
        None
    }
}

proof fn lemma_hex_value_prefix(s: Seq<char>, j: int)
    requires
        all_hex_digits(s),
        0 <= j <= s.len(),
    ensures
        hex_value(s.take(j)) <= hex_value(s),
    decreases s.len(),
{
    if j < s.len() {
        assert(all_hex_digits(s.drop_last()));
        assert(s.drop_last().take(j) =~= s.take(j));
        lemma_hex_value_prefix(s.drop_last(), j);
    } else {
        assert(s.take(j) =~= s);
    }
}

/// Reads the hexadecimal digits `c[start..]` as a number below 2^128.
fn parse_hex_digits_u128(c: &Vec<char>, start: usize) -> (r: Option<u128>)
    requires
        start <= c@.len(),
    ensures
        ({
            let d = c@.subrange(start as int, c@.len() as int);
            match r {
                Some(v) => all_hex_digits(d) && hex_value(d) < pow2_128() && v as nat == hex_value(d),
                None => !(all_hex_digits(d) && hex_value(d) < pow2_128()),
            }
        }),
{
    let ghost d = c@.subrange(start as int, c@.len() as int);
    let mut acc: u128 = 0;
    let mut j: usize = start;
    while j < c.len()
        invariant
            start <= j <= c@.len(),
            d == c@.subrange(start as int, c@.len() as int),
            all_hex_digits(d.take(j - start)),
            acc as nat == hex_value(d.take(j - start)),
        decreases c@.len() - j,
    {
        let ghost k = (j - start) as int;
        let digit = match hex_digit_exec(c[j]) {
            Some(v) => v,
            None => {
                assert(d[k] == c@[j as int]);
                return None;
            },
        };
        proof {
            let t = d.take(k + 1);
            assert(t.drop_last() =~= d.take(k));
            assert(t.last() == d[k]);
            assert(hex_value(t) == hex_value(d.take(k)) * 16 + digit);
            assert(all_hex_digits(t)) by {
                assert forall|i: int| 0 <= i < t.len() implies (#[trigger] hex_digit(t[i])) is Some by {
                    if i < k {
                        assert(t[i] == d.take(k)[i]);
                    }
                }
            }
        }
        let mul = acc.checked_mul(16);
        match mul {
            Some(m) => {
                match m.checked_add(digit as u128) {
                    Some(next) => {
                        acc = next;
                    },
                    None => {
                        proof {
                            if all_hex_digits(d) {
                                lemma_hex_value_prefix(d, k + 1);
                            }
                        }
                        return None;
                    },
                }
            },
            None => {
                proof {
                    if all_hex_digits(d) {
                        lemma_hex_value_prefix(d, k + 1);
                        assert(acc as nat * 16 >= pow2_128());
                    }
                }
                return None;
            },
        }
        j = j + 1;
    }
    proof {
        assert(d.take(d.len() as int) =~= d);
    }
    Some(acc)
}

/// Reads `hex` (after its leading `0x`s) as an unsigned hexadecimal number below 2^128.
fn parse_hex_u128(hex: &str) -> (r: Option<u128>)
    ensures
        match hex_number(hex@, pow2_128()) {
            Some(v) => r == Some(v as u128),
            None => r is None,
        },
{
    let c = chars_of(hex);
    let mut i: usize = 0;
    assert(c@.subrange(0, c@.len() as int) =~= c@);
    while c.len() - i >= 2 && c[i] == '0' && c[i + 1] == 'x'
        invariant
            c@ == hex@,
            i <= c@.len(),
            without_hex_prefix(hex@) == without_hex_prefix(c@.subrange(i as int, c@.len() as int)),
        decreases c@.len() - i,
    {
        proof {
            let s = c@.subrange(i as int, c@.len() as int);
            assert(s.subrange(2, s.len() as int) =~= c@.subrange(i + 2, c@.len() as int));
        }
        i = i + 2;
    }
    let ghost s = c@.subrange(i as int, c@.len() as int);
    proof {
        assert(without_hex_prefix(s) == s);
    }
    if i == c.len() {
        return None;
    }
    let start = if c[i] == '+' || c[i] == '-' {
        if i + 1 == c.len() {
            return None;
        }
        if c[i] == '+' {
            assert(s.drop_first() =~= c@.subrange(i + 1, c@.len() as int));
            i + 1
        } else {
            i
        }
    } else {
        i
    };
    parse_hex_digits_u128(&c, start)
}

proof fn lemma_hex_digit_of_nibble(d: nat)
    requires
        d < 16,
    ensures
        hex_digit(nibble_char(d)) == Some(d),
        nibble_char(d) != 'x',
        nibble_char(d) != '+',
        nibble_char(d) != '-',
{
}

proof fn lemma_lower_hex_digits(n: nat)
    ensures
        lower_hex(n).len() >= 1,
        all_hex_digits(lower_hex(n)),
        hex_value(lower_hex(n)) == n,
        forall|i: int| 0 <= i < lower_hex(n).len() ==> {
            let c = #[trigger] lower_hex(n)[i];
            c != 'x' && c != '+' && c != '-'
        },
    decreases n,
{
    let s = lower_hex(n);
    if n < 16 {
        lemma_hex_digit_of_nibble(n);
        assert(s.drop_last() =~= Seq::<char>::empty());
        assert(hex_value(Seq::<char>::empty()) == 0);
    } else {
        lemma_lower_hex_digits(n / 16);
        lemma_hex_digit_of_nibble(n % 16);
        let p = lower_hex(n / 16);
        assert(s =~= p.push(nibble_char(n % 16)));
        assert(s.drop_last() =~= p);
        assert((n / 16) * 16 + n % 16 == n) by (nonlinear_arith);
        assert forall|i: int| 0 <= i < s.len() implies (#[trigger] hex_digit(s[i])) is Some by {
            if i < p.len() {
                assert(s[i] == p[i]);
            }
        }
    }
}

/// Reading hexadecimal undoes lower-case hexadecimal formatting: a `u64` written as its
/// hexadecimal digits (`format!("{:x}", n)`), or with the `0x` prefix (`format!("{:#x}", n)`),
/// reads back as itself.
pub proof fn lemma_hex_round_trip(n: u64)
    ensures
        hex_number(lower_hex(n as nat), pow2_64()) == Some(n as nat),
        hex_number(seq!['0', 'x'] + lower_hex(n as nat), pow2_64()) == Some(n as nat),
{
    let s = lower_hex(n as nat);
    lemma_lower_hex_digits(n as nat);
    if s.len() >= 2 {
        assert(s[1] != 'x');
    }
    assert(without_hex_prefix(s) == s);
    assert(s[0] != '+' && s[0] != '-');
    assert(unsigned_digits(s) == Some(s));
    let t = seq!['0', 'x'] + s;
    assert(t.subrange(2, t.len() as int) =~= s);
    assert(without_hex_prefix(t) == without_hex_prefix(s));
}

/// The number that a hexadecimal text spells, as `u64::from_str_radix` reads it after every
/// leading `0x` is dropped; an error for any other text or a value beyond `u64::MAX`.
pub fn hex_to_u64(hex: String) -> (r: Result<u64, IndexerError>)
    ensures
        match hex_number(hex@, pow2_64()) {
            Some(v) => r == Ok::<u64, IndexerError>(v as u64),
            None => r == Err::<u64, IndexerError>(IndexerError::InvalidHex),
        },
{
    match parse_hex_u128(hex.as_str()) {
        Some(v) => {
            if v <= 0xffff_ffff_ffff_ffff {
                Ok(v as u64)
            } else {
                Err(IndexerError::InvalidHex)
            }
        },
        None => Err(IndexerError::InvalidHex),
    }
}

/// The number that a hexadecimal text spells, as `u128::from_str_radix` reads it after every
/// leading `0x` is dropped; an error for any other text or a value beyond `u128::MAX`.
pub fn hex_to_u128(hex: String) -> (r: Result<u128, IndexerError>)
    ensures
        match hex_number(hex@, pow2_128()) {
            Some(v) => r == Ok::<u128, IndexerError>(v as u128),
            None => r == Err::<u128, IndexerError>(IndexerError::InvalidHex),
        },
{
    match parse_hex_u128(hex.as_str()) {
        Some(v) => Ok(v),
        None => Err(IndexerError::InvalidHex),
    }
}


/// The value of a decimal digit, if the character is one.
pub open spec fn dec_digit(c: char) -> Option<nat> {
    if '0' <= c && c <= '9' {
        Some((c as nat - '0' as nat) as nat)
    } else {
        None
    }
}

/// Whether every character is a decimal digit.
pub open spec fn all_dec_digits(s: Seq<char>) -> bool {
    forall|i: int| 0 <= i < s.len() ==> (#[trigger] dec_digit(s[i])) is Some
}

/// The number that a run of decimal digits spells, most significant first.
pub open spec fn dec_value(s: Seq<char>) -> nat
    decreases s.len(),
{
    if s.len() == 0 {
        0
    } else {
        dec_value(s.drop_last()) * 10 + match dec_digit(s.last()) {
            Some(d) => d,
            None => 0,
        }
    }
}

/// The value of an unsigned decimal text below `bound`, as `str::parse` reads it: an
/// optional `+` and at least one decimal digit, nothing else.
pub open spec fn parse_decimal(s: Seq<char>, bound: nat) -> Option<nat> {
    match unsigned_digits(s) {
        Some(d) => if all_dec_digits(d) && dec_value(d) < bound {
            Some(dec_value(d))
        } else {
            None
        },
        None => None,
    }
}

proof fn lemma_dec_value_prefix(s: Seq<char>, j: int)
    requires
        all_dec_digits(s),
        0 <= j <= s.len(),
    ensures
        dec_value(s.take(j)) <= dec_value(s),
    decreases s.len(),
{
    if j < s.len() {
        assert(all_dec_digits(s.drop_last()));
        assert(s.drop_last().take(j) =~= s.take(j));
        lemma_dec_value_prefix(s.drop_last(), j);
    } else {
        assert(s.take(j) =~= s);
    }
}

/// Reads a decimal text as a `u64` (see `parse_decimal`), as `str::parse::<u64>` does.
pub fn parse_u64_decimal(text: &str) -> (r: Option<u64>)
    ensures
        match parse_decimal(text@, pow2_64()) {
            Some(v) => r == Some(v as u64),
            None => r is None,
        },
{
    let c = chars_of(text);
    if c.len() == 0 {
        return None;
    }
    let start: usize = if c[0] == '+' || c[0] == '-' {
        if c.len() == 1 {
            return None;
        }
        if c[0] == '+' { 1 } else { 0 }
    } else {
        0
    };
    let ghost d = c@.subrange(start as int, c@.len() as int);
    proof {
        assert(unsigned_digits(text@) == Some(d)) by {
            if c@[0] == '+' {
                assert(text@.drop_first() =~= d);
            } else {
                assert(text@ =~= d);
            }
        }
    }
    let mut acc: u64 = 0;
    let mut j: usize = start;
    while j < c.len()
        invariant
            start <= j <= c@.len(),
            d == c@.subrange(start as int, c@.len() as int),
            c@ == text@,
            unsigned_digits(text@) == Some(d),
            all_dec_digits(d.take(j - start)),
            acc as nat == dec_value(d.take(j - start)),
        decreases c@.len() - j,
    {
        let ghost k = (j - start) as int;
        let ch = c[j];
        if !('0' <= ch && ch <= '9') {
            assert(d[k] == c@[j as int]);
            assert(dec_digit(d[k]) is None);
            return None;
        }
        let digit: u64 = (ch as u32 - '0' as u32) as u64;
        proof {
            let t = d.take(k + 1);
            assert(t.drop_last() =~= d.take(k));
            assert(t.last() == d[k]);
            assert(dec_value(t) == dec_value(d.take(k)) * 10 + digit);
            assert(all_dec_digits(t)) by {
                assert forall|i: int| 0 <= i < t.len() implies (#[trigger] dec_digit(t[i])) is Some by {
                    if i < k {
                        assert(t[i] == d.take(k)[i]);
                    }
                }
            }
        }
        match acc.checked_mul(10) {
            Some(m) => match m.checked_add(digit) {
                Some(next) => {
                    acc = next;
                },
                None => {
                    proof {
                        if all_dec_digits(d) {
                            lemma_dec_value_prefix(d, k + 1);
                        }
                    }
                    return None;
                },
            },
            None => {
                proof {
                    if all_dec_digits(d) {
                        lemma_dec_value_prefix(d, k + 1);
                        assert(acc as nat * 10 >= pow2_64());
                    }
                }
                return None;
            },
        }
        j = j + 1;
    }
    proof {
        assert(d.take(d.len() as int) =~= d);
    }
    Some(acc)
}

/// The value of an optional hexadecimal field: none when the field is missing, the number
/// when it reads as one below `bound` (see `hex_number`), else an `InvalidHex` error.
pub open spec fn optional_hex(s: Option<String>, bound: nat) -> Result<Option<nat>, IndexerError> {
    match s {
        None => Ok(None),
        Some(t) => match hex_number(t@, bound) {
            Some(v) => Ok(Some(v)),
            None => Err(IndexerError::InvalidHex),
        },
    }
}

/// Reads an optional hexadecimal field as a `u64` (see `optional_hex`).
pub fn optional_hex_u64(s: &Option<String>) -> (r: Result<Option<u64>, IndexerError>)
    ensures
        match optional_hex(*s, pow2_64()) {
            Ok(None) => r == Ok::<Option<u64>, IndexerError>(None),
            Ok(Some(v)) => r == Ok::<Option<u64>, IndexerError>(Some(v as u64)),
            Err(e) => r == Err::<Option<u64>, IndexerError>(e),
        },
{
    match s {
        None => Ok(None),
        Some(t) => match hex_to_u64(t.clone()) {
            Ok(v) => Ok(Some(v)),
            Err(e) => Err(e),
        },
    }
}

/// Reads an optional hexadecimal field as a `u128` (see `optional_hex`).
pub fn optional_hex_u128(s: &Option<String>) -> (r: Result<Option<u128>, IndexerError>)
    ensures
        match optional_hex(*s, pow2_128()) {
            Ok(None) => r == Ok::<Option<u128>, IndexerError>(None),
            Ok(Some(v)) => r == Ok::<Option<u128>, IndexerError>(Some(v as u128)),
            Err(e) => r == Err::<Option<u128>, IndexerError>(e),
        },
{
    match s {
        None => Ok(None),
        Some(t) => match hex_to_u128(t.clone()) {
            Ok(v) => Ok(Some(v)),
            Err(e) => Err(e),
        },
    }
}

/// The `u64` value of an optional field that is known to read as a hexadecimal `u64`.
pub open spec fn optional_hex_value(s: Option<String>) -> Option<u64> {
    match optional_hex(s, pow2_64()) {
        Ok(Some(v)) => Some(v as u64),
        _ => None,
    }
}

//////////////////////////////////////// Block times ////////////////////////////////////////

/// The earliest Unix timestamp that a UTC date-time can hold: January 1 of year -262143.
pub open spec fn min_timestamp() -> int {
    -8_334_601_228_800
}

/// The latest Unix timestamp that a UTC date-time can hold: December 31 of year 262142, 23:59:59.
pub open spec fn max_timestamp() -> int {
    8_210_266_876_799
}

/// Whether `chrono::DateTime::<Utc>::from_timestamp(secs, 0)` gives a date-time.
///
/// The contract claims that chrono accepts exactly the timestamps from `min_timestamp()` to
/// `max_timestamp()`: the seconds of the first and the last day of the years
/// `(i32::MIN >> 13) + 1` and `(i32::MAX >> 13) - 1` that `NaiveDate` is built to hold.
#[verifier::external_body]
pub fn is_valid_timestamp(secs: i64) -> (r: bool)
    ensures
        r == (min_timestamp() <= secs <= max_timestamp()),
{
    chrono::DateTime::<chrono::Utc>::from_timestamp(secs, 0).is_some()
}

/// A `u64` read as an `i64` with the same bits (as `as i64` converts it).
pub open spec fn wrapped_i64(x: u64) -> i64 {
    if x <= 0x7fff_ffff_ffff_ffff {
        x as i64
    } else {
        (x - 0x1_0000_0000_0000_0000) as i64
    }
}

/// Converts a `u64` to the `i64` with the same bits.
pub fn to_wrapped_i64(x: u64) -> (r: i64)
    ensures
        r == wrapped_i64(x),
{
    if x <= 0x7fff_ffff_ffff_ffff {
        x as i64
    } else {
        let below: u64 = 0xffff_ffff_ffff_ffff - x;
        let b: i64 = below as i64;
        -b - 1
    }
}

/// The point in time of a Unix timestamp, if a UTC date-time can hold it.
pub open spec fn time_of_timestamp(secs: i64) -> Option<BlockTime> {
    if min_timestamp() <= secs <= max_timestamp() {
        Some(BlockTime { secs })
    } else {
        None
    }
}

/// The point in time of a Unix timestamp, as `DateTime::from_timestamp(secs, 0)` makes it.
pub fn datetime_from_timestamp(secs: i64) -> (r: Option<BlockTime>)
    ensures
        r == time_of_timestamp(secs),
{
    if is_valid_timestamp(secs) {
        Some(BlockTime { secs })
    } else {
        None
    }
}

/// The first second of 2020-01-01 (UTC).
pub open spec fn fallback_day_start() -> int {
    1_577_836_800
}

/// Whether a point in time lies in the year 1970 (UTC): from the Unix epoch up to, not
/// including, 1971-01-01.
pub open spec fn in_year_1970(t: BlockTime) -> bool {
    0 <= t.secs < 31_536_000
}

/// The time that block `block_number` is stored with: the genesis block's time, when it falls
/// in 1970, moves to the same time of day on 2020-01-01, so that date partitions stay within
/// the ten years that storage accepts; every other time stays as it is.
pub open spec fn sanitized_time(block_number: u64, t: BlockTime) -> BlockTime {
    if block_number == 0 && in_year_1970(t) {
        BlockTime { secs: (fallback_day_start() + t.secs % 86_400) as i64 }
    } else {
        t
    }
}

/// The time to store for a block (see `sanitized_time`); this never fails.
pub fn sanitize_block_time(block_number: u64, datetime: BlockTime) -> (r: Result<BlockTime, IndexerError>)
    ensures
        r == Ok::<BlockTime, IndexerError>(sanitized_time(block_number, datetime)),
{
    if block_number == 0 && 0 <= datetime.secs && datetime.secs < 31_536_000 {
        Ok(BlockTime { secs: 1_577_836_800 + datetime.secs % 86_400 })
    } else {
        Ok(datetime)
    }
}

/// Sanitizing a block time twice changes nothing more than sanitizing it once.
pub proof fn lemma_sanitize_idempotent(block_number: u64, t: BlockTime)
    ensures
        sanitized_time(block_number, sanitized_time(block_number, t)) == sanitized_time(block_number, t),
{
}

/// The genesis block's time in 1970 moves to 2020-01-01 at the same time of day; every
/// other block's time, and a genesis time outside 1970, is kept.
pub proof fn lemma_sanitized_genesis_time(block_number: u64, t: BlockTime)
    ensures
        block_number == 0 && in_year_1970(t) ==> {
            let s = sanitized_time(block_number, t);
            &&& fallback_day_start() <= s.secs < fallback_day_start() + 86_400
            &&& s.secs % 86_400 == t.secs % 86_400
        },
        !(block_number == 0 && in_year_1970(t)) ==> sanitized_time(block_number, t) == t,
{
    if block_number == 0 && in_year_1970(t) {
        assert((fallback_day_start() + t.secs % 86_400) % 86_400 == t.secs % 86_400) by (nonlinear_arith)
            requires
                fallback_day_start() == 18_262 * 86_400,
        ;
    }
}

} // verus!
