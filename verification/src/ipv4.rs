//! Syntax of dotted-quad IPv4 addresses.

use crate::text::{chars_of, split_on, split_ranges, pieces};
use vstd::prelude::*;

verus! {

/// Whether `c` is one of the ten ASCII digits.
pub open spec fn is_digit(c: char) -> bool {
    0x30 <= c as u32 <= 0x39
}

/// The number that the digit `c` stands for; 0 for any other character.
pub open spec fn digit_value(c: char) -> nat {
    if is_digit(c) {
        (c as u32 - 0x30) as nat
    } else {
        0
    }
}

/// Whether `ds` holds digits only.
pub open spec fn all_digits(ds: Seq<char>) -> bool {
    forall|i: int| 0 <= i < ds.len() ==> is_digit(#[trigger] ds[i])
}

/// The number that the digits `ds` spell in base ten.
pub open spec fn decimal_value(ds: Seq<char>) -> nat
    decreases ds.len(),
{
    if ds.len() == 0 {
        0
    } else {
        10 * decimal_value(ds.drop_last()) + digit_value(ds.last())
    }
}

/// `p` without the one plus sign that may stand before a number's digits.
pub open spec fn unsigned_part(p: Seq<char>) -> Seq<char> {
    if p.len() > 0 && p[0] == '+' {
        p.drop_first()
    } else {
        p
    }
}

/// Whether `p` spells a number from 0 to 255: an optional plus sign, then at
/// least one digit and nothing else. Leading zeros are allowed.
pub open spec fn is_octet(p: Seq<char>) -> bool {
    let ds = unsigned_part(p);
    &&& ds.len() > 0
    &&& all_digits(ds)
    &&& decimal_value(ds) <= 255
}

/// Whether `s` is a dotted quad: exactly four octets with dots between them.
pub open spec fn is_ipv4(s: Seq<char>) -> bool {
    let parts = split_on(s, '.');
    &&& parts.len() == 4
    &&& forall|k: int| 0 <= k < 4 ==> is_octet(#[trigger] parts[k])
}

/// The digit that stands for `d`, for `d` below ten.
pub open spec fn digit_char(d: nat) -> char {
    ((0x30 + d) as u8) as char
}

/// The shortest decimal spelling of `n`.
pub open spec fn decimal_text(n: nat) -> Seq<char>
    decreases n,
{
    if n < 10 {
        seq![digit_char(n)]
    } else {
        decimal_text(n / 10).push(digit_char(n % 10))
    }
}

/// The usual spelling of the address with the octets `a`, `b`, `c`, `d`.
pub open spec fn dotted_quad(a: u8, b: u8, c: u8, d: u8) -> Seq<char> {
    decimal_text(a as nat) + seq!['.'] + decimal_text(b as nat) + seq!['.'] + decimal_text(
        c as nat,
    ) + seq!['.'] + decimal_text(d as nat)
}

/// A number spelled by digits is at least the number spelled by any prefix
/// of them.
proof fn lemma_decimal_value_prefix(ds: Seq<char>, k: int)
    requires
        0 <= k <= ds.len(),
    ensures
        decimal_value(ds.take(k)) <= decimal_value(ds),
    decreases ds.len(),
{
    if k == ds.len() {
        assert(ds.take(k) =~= ds);
    } else {
        lemma_decimal_value_prefix(ds.drop_last(), k);
        assert(ds.drop_last().take(k) =~= ds.take(k));
    }
}

/// Text without a separator stays in the piece that was open before it.
pub proof fn lemma_split_on_append_plain(s: Seq<char>, t: Seq<char>, sep: char)
    requires
        !t.contains(sep),
    ensures
        split_on(s, sep).len() >= 1,
        split_on(s + t, sep) == split_on(s, sep).drop_last().push(split_on(s, sep).last() + t),
    decreases t.len(),
{
    crate::text::lemma_split_on_nonempty(s, sep);
    let parts = split_on(s, sep);
    if t.len() == 0 {
        assert(s + t =~= s);
        assert(parts.drop_last().push(parts.last() + t) =~~= parts);
    } else {
        let t0 = t.drop_last();
        assert(!t0.contains(sep)) by {
            if t0.contains(sep) {
                let i = choose|i: int| 0 <= i < t0.len() && t0[i] == sep;
                assert(t[i] == sep);
            }
        }
        lemma_split_on_append_plain(s, t0, sep);
        assert((s + t).drop_last() =~= s + t0);
        assert(t.last() != sep) by {
            if t.last() == sep {
                assert(t[t.len() - 1] == sep);
            }
        }
        assert((s + t).last() == t.last());
        assert((parts.last() + t0).push(t.last()) =~= parts.last() + t);
        assert(split_on(s + t, sep) =~~= parts.drop_last().push(parts.last() + t));
    }
}

/// A separator closes the open piece and opens an empty one.
pub proof fn lemma_split_on_push_separator(s: Seq<char>, sep: char)
    ensures
        split_on(s.push(sep), sep) == split_on(s, sep).push(Seq::<char>::empty()),
{
    assert(s.push(sep).drop_last() =~= s);
}

/// The decimal spelling of a number holds digits only, and spells it.
pub proof fn lemma_decimal_text(n: nat)
    ensures
        decimal_text(n).len() > 0,
        all_digits(decimal_text(n)),
        decimal_value(decimal_text(n)) == n,
    decreases n,
{
    let t = decimal_text(n);
    if n < 10 {
        assert(t.drop_last() =~= Seq::<char>::empty());
        assert(decimal_value(t.drop_last()) == 0);
        assert(is_digit(t[0]));
    } else {
        lemma_decimal_text(n / 10);
        assert(t.drop_last() =~= decimal_text(n / 10));
        assert(is_digit(t.last()));
        assert forall|i: int| 0 <= i < t.len() implies is_digit(#[trigger] t[i]) by {
            if i < t.len() - 1 {
                assert(t[i] == decimal_text(n / 10)[i]);
            }
        }
    }
}

/// The decimal spelling of a number below 256 is an octet without a dot.
pub proof fn lemma_decimal_text_is_octet(n: u8)
    ensures
        is_octet(decimal_text(n as nat)),
        !decimal_text(n as nat).contains('.'),
{
    let t = decimal_text(n as nat);
    lemma_decimal_text(n as nat);
    assert(is_digit(t[0]));
    assert(unsigned_part(t) == t);
    if t.contains('.') {
        let i = choose|i: int| 0 <= i < t.len() && t[i] == '.';
        assert(is_digit(t[i]));
    }
}

/// Every address written in the usual way, four numbers from 0 to 255 in
/// their shortest decimal spelling with dots between them, is a valid
/// dotted quad.
pub proof fn lemma_dotted_quad_is_ipv4(a: u8, b: u8, c: u8, d: u8)
    ensures
        is_ipv4(dotted_quad(a, b, c, d)),
{
    let ta = decimal_text(a as nat);
    let tb = decimal_text(b as nat);
    let tc = decimal_text(c as nat);
    let td = decimal_text(d as nat);
    lemma_decimal_text_is_octet(a);
    lemma_decimal_text_is_octet(b);
    lemma_decimal_text_is_octet(c);
    lemma_decimal_text_is_octet(d);
    let e = Seq::<char>::empty();
    let s1 = e + ta;
    lemma_split_on_append_plain(e, ta, '.');
    assert(split_on(e, '.') =~~= seq![e]);
    assert(split_on(s1, '.') =~~= seq![ta]);
    let s2 = s1.push('.');
    lemma_split_on_push_separator(s1, '.');
    assert(split_on(s2, '.') =~~= seq![ta, e]);
    let s3 = s2 + tb;
    lemma_split_on_append_plain(s2, tb, '.');
    assert(split_on(s3, '.') =~~= seq![ta, tb]);
    let s4 = s3.push('.');
    lemma_split_on_push_separator(s3, '.');
    assert(split_on(s4, '.') =~~= seq![ta, tb, e]);
    let s5 = s4 + tc;
    lemma_split_on_append_plain(s4, tc, '.');
    assert(split_on(s5, '.') =~~= seq![ta, tb, tc]);
    let s6 = s5.push('.');
    lemma_split_on_push_separator(s5, '.');
    assert(split_on(s6, '.') =~~= seq![ta, tb, tc, e]);
    let s7 = s6 + td;
    lemma_split_on_append_plain(s6, td, '.');
    assert(split_on(s7, '.') =~~= seq![ta, tb, tc, td]);
    assert(s7 =~= dotted_quad(a, b, c, d));
}

/// Whether `v[a..b]` spells a number from 0 to 255.
fn is_octet_range(v: &Vec<char>, a: usize, b: usize) -> (r: bool)
    requires
        a <= b <= v.len(),
    ensures
        r == is_octet(v@.subrange(a as int, b as int)),
{
    let ghost p = v@.subrange(a as int, b as int);
    let mut i: usize = a;
    if i < b && v[i] == '+' {
        i = i + 1;
    }
    let ghost ds = v@.subrange(i as int, b as int);
    assert(ds =~= unsigned_part(p));
    if i == b {
        return false;
    }
    let mut acc: u32 = 0;
    let mut k: usize = i;
    assert(ds.take(0) =~= Seq::<char>::empty());
    while k < b
        invariant
            i <= k <= b <= v.len(),
            ds == v@.subrange(i as int, b as int),
            ds == unsigned_part(v@.subrange(a as int, b as int)),
            all_digits(ds.take(k - i)),
            acc == decimal_value(ds.take(k - i)),
            acc <= 255,
        decreases b - k,
    {
        let n: u32 = v[k] as u32;
        if n < 0x30 || n > 0x39 {
            assert(!is_digit(ds[k - i]));
            return false;
        }
        assert(ds.take(k - i + 1).drop_last() =~= ds.take(k - i));
        assert(ds.take(k - i + 1).last() == ds[k - i]);
        acc = acc * 10 + (n - 0x30);
        if acc > 255 {
            proof {
                lemma_decimal_value_prefix(ds, k - i + 1);
            }
            return false;
        }
        assert forall|j: int| 0 <= j < k - i + 1 implies is_digit(#[trigger] ds.take(k - i + 1)[j]) by {
            if j < k - i {
                assert(ds.take(k - i + 1)[j] == ds.take(k - i)[j]);
            }
        }
        k = k + 1;
    }
    assert(ds.take(b - i) =~= ds);
    true
}

/// Whether `s` is a syntactically valid dotted-quad address: exactly four
/// parts between dots, each a number from 0 to 255. Malformed text is never
/// an error, only `false`.
pub fn is_valid_ip(s: &str) -> (b: bool)
    ensures
        b == is_ipv4(s@),
{
    let v = chars_of(s);
    let ranges = split_ranges(&v, '.');
    assert(pieces(v@, ranges@).len() == ranges.len());
    if ranges.len() != 4 {
        return false;
    }
    let ghost parts = split_on(v@, '.');
    let mut k: usize = 0;
    while k < 4
        invariant
            k <= 4,
            ranges.len() == 4,
            v@ == s@,
            parts == split_on(v@, '.'),
            pieces(v@, ranges@) == parts,
            forall|j: int| 0 <= j < ranges.len() ==> (#[trigger] ranges[j]).0 <= ranges[j].1 <= v.len(),
            forall|j: int| 0 <= j < k ==> is_octet(#[trigger] parts[j]),
        decreases 4 - k,
    {
        let (a, b) = ranges[k];
        assert(parts[k as int] == v@.subrange(a as int, b as int));
        if !is_octet_range(&v, a, b) {
            return false;
        }
        k = k + 1;
    }
    true
}

} // verus!
