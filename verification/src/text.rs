use vstd::prelude::*;
use vstd::string::*;

use crate::models::types::{limbs_value, U256Limbs};

verus! {

/// The character that stands for a value below sixteen in lower-case hexadecimal.
pub open spec fn nibble_char(d: nat) -> char {
    if d == 0 { '0' } else if d == 1 { '1' } else if d == 2 { '2' } else if d == 3 { '3' }
    else if d == 4 { '4' } else if d == 5 { '5' } else if d == 6 { '6' } else if d == 7 { '7' }
    else if d == 8 { '8' } else if d == 9 { '9' } else if d == 10 { 'a' } else if d == 11 { 'b' }
    else if d == 12 { 'c' } else if d == 13 { 'd' } else if d == 14 { 'e' } else { 'f' }
}

/// The decimal representation of a natural number, without sign or leading zeros.
pub open spec fn decimal(n: nat) -> Seq<char>
    decreases n,
{
    if n < 10 {
        seq![nibble_char(n)]
    } else {
        decimal(n / 10).push(nibble_char(n % 10))
    }
}

/// The lower-case hexadecimal representation of a natural number, without prefix or
/// leading zeros, as `format!("{:x}", n)` writes it.
pub open spec fn lower_hex(n: nat) -> Seq<char>
    decreases n,
{
    if n < 16 {
        seq![nibble_char(n)]
    } else {
        lower_hex(n / 16).push(nibble_char(n % 16))
    }
}

/// Different values below sixteen have different characters.
pub proof fn lemma_nibble_char_injective(a: nat, b: nat)
    requires
        a < 16,
        b < 16,
        nibble_char(a) == nibble_char(b),
    ensures
        a == b,
{
}

/// A decimal representation is never empty.
pub proof fn lemma_decimal_nonempty(n: nat)
    ensures
        decimal(n).len() >= 1,
    decreases n,
{
    if n >= 10 {
        lemma_decimal_nonempty(n / 10);
    }
}

/// Different numbers have different decimal representations.
pub proof fn lemma_decimal_injective(a: nat, b: nat)
    requires
        decimal(a) == decimal(b),
    ensures
        a == b,
    decreases a,
{
    if a < 10 && b < 10 {
        assert(decimal(a) == seq![nibble_char(a)]);
        assert(decimal(b) == seq![nibble_char(b)]);
        assert(seq![nibble_char(a)][0] == nibble_char(a));
        assert(seq![nibble_char(b)][0] == nibble_char(b));
        lemma_nibble_char_injective(a, b);
    } else if a < 10 {
        lemma_decimal_nonempty(b / 10);
        assert(decimal(b).len() >= 2);
    } else if b < 10 {
        lemma_decimal_nonempty(a / 10);
        assert(decimal(a).len() >= 2);
    } else {
        let da = decimal(a);
        let db = decimal(b);
        assert(da.last() == db.last());
        lemma_nibble_char_injective(a % 10, b % 10);
        assert(da.drop_last() =~= decimal(a / 10));
        assert(db.drop_last() =~= decimal(b / 10));
        lemma_decimal_injective(a / 10, b / 10);
    }
}

/// Every character of a decimal representation is a digit.
pub proof fn lemma_decimal_digits(n: nat)
    ensures
        forall|i: int| 0 <= i < decimal(n).len() ==> '0' <= #[trigger] decimal(n)[i] <= '9',
    decreases n,
{
    if n >= 10 {
        lemma_decimal_digits(n / 10);
        assert forall|i: int| 0 <= i < decimal(n).len() implies '0' <= #[trigger] decimal(n)[i] <= '9' by {
            if i < decimal(n / 10).len() {
                assert(decimal(n)[i] == decimal(n / 10)[i]);
            }
        }
    } else {
        assert(decimal(n) == seq![nibble_char(n)]);
    }
}

/// A decimal number followed by a separator that is not a digit can be read back from the
/// front: equal texts of that shape have equal numbers and equal rests.
pub proof fn lemma_split_after_decimal(a: nat, c: nat, sep: char, r1: Seq<char>, r2: Seq<char>)
    requires
        !('0' <= sep <= '9'),
        decimal(a) + seq![sep] + r1 == decimal(c) + seq![sep] + r2,
    ensures
        a == c,
        r1 == r2,
{
    let da = decimal(a);
    let dc = decimal(c);
    let x = da + seq![sep] + r1;
    let y = dc + seq![sep] + r2;
    lemma_decimal_digits(a);
    lemma_decimal_digits(c);
    if da.len() < dc.len() {
        assert(x[da.len() as int] == sep);
        assert(y[da.len() as int] == dc[da.len() as int]);
    } else if dc.len() < da.len() {
        assert(y[dc.len() as int] == sep);
        assert(x[dc.len() as int] == da[dc.len() as int]);
    } else {
        assert(da =~= x.subrange(0, da.len() as int));
        assert(dc =~= y.subrange(0, dc.len() as int));
        lemma_decimal_injective(a, c);
        assert(r1 =~= x.subrange(da.len() as int + 1, x.len() as int));
        assert(r2 =~= y.subrange(dc.len() as int + 1, y.len() as int));
    }
}

/// A separator that is not a digit followed by a decimal number can be read back from the
/// end: equal texts of that shape have equal numbers and equal beginnings.
pub proof fn lemma_split_before_decimal(r1: Seq<char>, r2: Seq<char>, sep: char, a: nat, c: nat)
    requires
        !('0' <= sep <= '9'),
        r1 + seq![sep] + decimal(a) == r2 + seq![sep] + decimal(c),
    ensures
        a == c,
        r1 == r2,
{
    let da = decimal(a);
    let dc = decimal(c);
    let x = r1 + seq![sep] + da;
    let y = r2 + seq![sep] + dc;
    lemma_decimal_digits(a);
    lemma_decimal_digits(c);
    let n = x.len() as int;
    if da.len() < dc.len() {
        assert(x[n - da.len() - 1] == sep);
        assert(y[n - da.len() - 1] == dc[dc.len() - da.len() - 1]);
    } else if dc.len() < da.len() {
        assert(y[n - dc.len() - 1] == sep);
        assert(x[n - dc.len() - 1] == da[da.len() - dc.len() - 1]);
    } else {
        assert(da =~= x.subrange(n - da.len(), n));
        assert(dc =~= y.subrange(n - dc.len(), n));
        lemma_decimal_injective(a, c);
        assert(r1 =~= x.subrange(0, n - da.len() - 1));
        assert(r2 =~= y.subrange(0, n - dc.len() - 1));
    }
}

/// A byte sequence has two hex digits per byte.
pub proof fn lemma_hex_lower_len(b: Seq<u8>)
    ensures
        hex_lower(b).len() == 2 * b.len(),
    decreases b.len(),
{
    if b.len() > 0 {
        lemma_hex_lower_len(b.drop_last());
    }
}

/// Different byte sequences of one length have different hex digits.
pub proof fn lemma_hex_lower_injective(a: Seq<u8>, b: Seq<u8>)
    requires
        a.len() == b.len(),
        hex_lower(a) == hex_lower(b),
    ensures
        a == b,
    decreases a.len(),
{
    if a.len() > 0 {
        let ha = hex_lower(a);
        let hb = hex_lower(b);
        lemma_hex_lower_len(a.drop_last());
        lemma_hex_lower_len(b.drop_last());
        let n = ha.len() as int;
        assert(ha[n - 2] == hb[n - 2] && ha[n - 1] == hb[n - 1]);
        assert(ha[n - 2] == nibble_char((a.last() / 16) as nat));
        assert(hb[n - 2] == nibble_char((b.last() / 16) as nat));
        assert(ha[n - 1] == nibble_char((a.last() % 16) as nat));
        assert(hb[n - 1] == nibble_char((b.last() % 16) as nat));
        lemma_nibble_char_injective((a.last() / 16) as nat, (b.last() / 16) as nat);
        lemma_nibble_char_injective((a.last() % 16) as nat, (b.last() % 16) as nat);
        assert(ha.subrange(0, n - 2) =~= hex_lower(a.drop_last()));
        assert(hb.subrange(0, n - 2) =~= hex_lower(b.drop_last()));
        lemma_hex_lower_injective(a.drop_last(), b.drop_last());
        assert(a =~= a.drop_last().push(a.last()));
        assert(b =~= b.drop_last().push(b.last()));
    }
}

/// A one-character string holding the digit `d` (below sixteen).
fn digit_str(d: u8) -> (r: &'static str)
    requires
        d < 16,
    ensures
        r@ == seq![nibble_char(d as nat)],
{
    if d == 0 {
        proof { reveal_strlit("0"); }
        "0"
    } else if d == 1 {
        proof { reveal_strlit("1"); }
        "1"
    } else if d == 2 {
        proof { reveal_strlit("2"); }
        "2"
    } else if d == 3 {
        proof { reveal_strlit("3"); }
        "3"
    } else if d == 4 {
        proof { reveal_strlit("4"); }
        "4"
    } else if d == 5 {
        proof { reveal_strlit("5"); }
        "5"
    } else if d == 6 {
        proof { reveal_strlit("6"); }
        "6"
    } else if d == 7 {
        proof { reveal_strlit("7"); }
        "7"
    } else if d == 8 {
        proof { reveal_strlit("8"); }
        "8"
    } else if d == 9 {
        proof { reveal_strlit("9"); }
        "9"
    } else if d == 10 {
        proof { reveal_strlit("a"); }
        "a"
    } else if d == 11 {
        proof { reveal_strlit("b"); }
        "b"
    } else if d == 12 {
        proof { reveal_strlit("c"); }
        "c"
    } else if d == 13 {
        proof { reveal_strlit("d"); }
        "d"
    } else if d == 14 {
        proof { reveal_strlit("e"); }
        "e"
    } else {
        proof { reveal_strlit("f"); }
        "f"
    }
}

/// Copies the characters of a string into a vector.
pub fn chars_of(s: &str) -> (r: Vec<char>)
    ensures
        r@ == s@,
{
    let mut r: Vec<char> = Vec::new();
    for c in it: s.chars()
        invariant
            r@ == it.seq().take(it.index() as int),
    {
        r.push(c);
    }
    r
}


/// The lower-case hexadecimal digits of a byte sequence, two per byte, most significant first.
pub open spec fn hex_lower(b: Seq<u8>) -> Seq<char>
    decreases b.len(),
{
    if b.len() == 0 {
        Seq::empty()
    } else {
        hex_lower(b.drop_last()) + seq![
            nibble_char((b.last() / 16) as nat),
            nibble_char((b.last() % 16) as nat),
        ]
    }
}

/// How a fixed-size byte string (a hash or an address) is displayed: `0x` and its hex digits.
pub open spec fn prefixed_hex(b: Seq<u8>) -> Seq<char> {
    seq!['0', 'x'] + hex_lower(b)
}

/// The decimal text of an optional 256-bit value.
pub open spec fn optional_decimal_matches(text: Option<String>, v: Option<U256Limbs>) -> bool {
    match v {
        Some(n) => text is Some && text.unwrap()@ == decimal(limbs_value(n@)),
        None => text is None,
    }
}

/// Whether `needle` occurs in `hay` as a contiguous run of characters.
pub open spec fn occurs_in(hay: Seq<char>, needle: Seq<char>) -> bool {
    exists|i: int| 0 <= i <= hay.len() - needle.len() && #[trigger] hay.subrange(i, i + needle.len()) == needle
}

/// Appends the decimal digits of `n` to `s`.
pub fn append_decimal(s: &mut String, n: u64)
    ensures
        final(s)@ == old(s)@ + decimal(n as nat),
    decreases n,
{
    if n >= 10 {
        append_decimal(s, n / 10);
    }
    let d = (n % 10) as u8;
    s.append(digit_str(d));
    proof {
        assert(decimal(n as nat) == if n < 10 { seq![nibble_char(n as nat)] } else {
            decimal((n / 10) as nat).push(nibble_char((n % 10) as nat))
        });
    }
}

/// The decimal representation of `n`, as `n.to_string()` gives it.
pub fn u64_to_decimal(n: u64) -> (r: String)
    ensures
        r@ == decimal(n as nat),
{
    let mut s = String::new();
    append_decimal(&mut s, n);
    s
}

/// Appends the lower-case hex digits of `b` to `s`.
pub fn append_hex(s: &mut String, b: &[u8])
    ensures
        final(s)@ == old(s)@ + hex_lower(b@),
{
    let ghost start = s@;
    let mut i: usize = 0;
    while i < b.len()
        invariant
            i <= b@.len(),
            s@ == start + hex_lower(b@.take(i as int)),
        decreases b@.len() - i,
    {
        let byte = b[i];
        s.append(digit_str(byte / 16));
        s.append(digit_str(byte % 16));
        proof {
            let t = b@.take(i as int + 1);
            assert(t.drop_last() =~= b@.take(i as int));
            assert(t.last() == byte);
        }
        i = i + 1;
    }
    proof {
        assert(b@.take(b@.len() as int) =~= b@);
    }
}

/// Appends `0x` and the lower-case hex digits of `b` to `s`.
pub fn append_prefixed_hex(s: &mut String, b: &[u8])
    ensures
        final(s)@ == old(s)@ + prefixed_hex(b@),
{
    proof { reveal_strlit("0x"); }
    s.append("0x");
    append_hex(s, b);
    proof {
        assert(final(s)@ =~= old(s)@ + prefixed_hex(b@)) by {
            assert(seq!['0', 'x'] + hex_lower(b@) == prefixed_hex(b@));
        }
    }
}

/// Whether `needle` occurs in `hay`, as `str::contains` answers for a string pattern.
pub fn str_contains(hay: &str, needle: &str) -> (r: bool)
    ensures
        r == occurs_in(hay@, needle@),
{
    let h = chars_of(hay);
    let n = chars_of(needle);
    if n.len() > h.len() {
        return false;
    }
    let last = h.len() - n.len();
    let mut i: usize = 0;
    loop
        invariant
            h@ == hay@,
            n@ == needle@,
            last == h@.len() - n@.len(),
            n@.len() <= h@.len(),
            h@.len() <= usize::MAX,
            i <= last,
            forall|k: int| 0 <= k < i ==> #[trigger] h@.subrange(k, k + n@.len()) != n@,
        decreases last - i,
    {
        let mut j: usize = 0;
        let mut same = true;
        while j < n.len()
            invariant
                h@ == hay@,
                n@ == needle@,
                i <= last,
                last == h@.len() - n@.len(),
                n@.len() <= h@.len(),
                h@.len() <= usize::MAX,
                j <= n@.len(),
                same == (forall|m: int| 0 <= m < j ==> h@[i + m] == n@[m]),
            decreases n@.len() - j,
        {
            if h[i + j] != n[j] {
                same = false;
            }
            j = j + 1;
        }
        if same {
            assert(h@.subrange(i as int, i + n@.len()) =~= n@);
            return true;
        }
        proof {
            if h@.subrange(i as int, i + n@.len()) == n@ {
                let m = choose|m: int| 0 <= m < n@.len() && h@[i + m] != n@[m];
                assert(h@.subrange(i as int, i + n@.len())[m] == h@[i + m]);
            }
        }
        if i == last {
            proof {
                assert forall|k: int| 0 <= k <= hay@.len() - needle@.len() implies
                    #[trigger] hay@.subrange(k, k + needle@.len()) != needle@ by {
                    if k < i {
                        assert(h@.subrange(k, k + n@.len()) != n@);
                    }
                }
            }
            return false;
        }
        i = i + 1;
    }
}


/// Whether two strings hold the same characters, as `==` on strings answers.
pub fn str_eq(a: &str, b: &str) -> (r: bool)
    ensures
        r == (a@ == b@),
{
    let x = chars_of(a);
    let y = chars_of(b);
    if x.len() != y.len() {
        return false;
    }
    let mut i: usize = 0;
    while i < x.len()
        invariant
            x@ == a@,
            y@ == b@,
            x@.len() == y@.len(),
            i <= x@.len(),
            forall|k: int| 0 <= k < i ==> x@[k] == y@[k],
        decreases x@.len() - i,
    {
        if x[i] != y[i] {
            return false;
        }
        i = i + 1;
    }
    assert(x@ =~= y@);
    true
}


/// What `str::to_lowercase` makes of a string: each character's Unicode lower-case mapping.
pub uninterp spec fn lowercase(s: Seq<char>) -> Seq<char>;

/// The decimal text of an optional 256-bit value.
pub fn optional_u256_to_decimal(v: &Option<U256Limbs>) -> (r: Option<String>)
    ensures
        optional_decimal_matches(r, *v),
{
    match v {
        Some(n) => Some(u256_to_decimal(*n)),
        None => None,
    }
}

/// Calls `str::to_lowercase`; the contract names its result `lowercase(s@)` and claims
/// nothing more of it.
#[verifier::external_body]
pub(crate) fn to_lowercase(s: &str) -> (r: String)
    ensures
        r@ == lowercase(s@),
{
    s.to_lowercase()
}

/// Calls `alloy_primitives::U256::from_limbs(v).to_string()`. The contract claims that the
/// result is the decimal representation, without sign, padding or leading zeros, of the
/// number that the four little-endian 64-bit limbs stand for, as `Display` for ruint's `Uint`
/// writes it.
#[verifier::external_body]
pub(crate) fn u256_to_decimal(v: U256Limbs) -> (r: String)
    ensures
        r@ == decimal(limbs_value(v@)),
{
    alloy_primitives::U256::from_limbs(v).to_string()
}

} // verus!
