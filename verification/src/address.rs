//! IPv4 and MAC addresses, read from text and written as text.

use vstd::prelude::*;
use vstd::string::*;
use vstd::utf8::encode_utf8;

verus! {


/// The fields of `text` between the separators `sep`: one more field than there are separators.
pub open spec fn fields(text: Seq<u8>, sep: u8) -> Seq<Seq<u8>>
    decreases text.len(),
{
    if text.len() == 0 {
        seq![Seq::<u8>::empty()]
    } else {
        let init = fields(text.drop_last(), sep);
        if text.last() == sep {
            init.push(Seq::<u8>::empty())
        } else {
            init.update(init.len() - 1, init.last().push(text.last()))
        }
    }
}

/// The value of the character `c` as a digit in base `radix`: `0`-`9`, then letters in either
/// case from 10 on; `None` where that value is not below `radix`.
pub open spec fn digit_value(c: u8, radix: nat) -> Option<nat> {
    let v: int = if 48 <= c <= 57 {
        c - 48
    } else if 97 <= c <= 122 {
        c - 97 + 10
    } else if 65 <= c <= 90 {
        c - 65 + 10
    } else {
        radix as int
    };
    if v < radix {
        Some(v as nat)
    } else {
        None
    }
}

/// The number that the digits `digits` write in base `radix`, most significant first; `None`
/// if one of them is no digit of that base.
pub open spec fn digits_value(digits: Seq<u8>, radix: nat) -> Option<nat>
    decreases digits.len(),
{
    if digits.len() == 0 {
        Some(0)
    } else {
        match (digits_value(digits.drop_last(), radix), digit_value(digits.last(), radix)) {
            (Some(v), Some(d)) => Some(v * radix + d),
            _ => None,
        }
    }
}

/// A byte written in base `radix`: an optional `+`, then at least one digit, with a value
/// below 256.
pub open spec fn parse_byte(text: Seq<u8>, radix: nat) -> Option<u8> {
    let digits = if text.len() > 0 && text[0] == 43 {
        text.drop_first()
    } else {
        text
    };
    if digits.len() == 0 {
        None
    } else {
        match digits_value(digits, radix) {
            Some(v) => if v < 256 {
                Some(v as u8)
            } else {
                None
            },
            None => None,
        }
    }
}

/// The `count` bytes of an address written as fields separated by `sep`, each a byte in base
/// `radix`. The first `count` fields are read; fields past them are not looked at. Where the
/// text has fewer fields, the bytes past them are zero. `None` if one of the fields read is no
/// byte.
pub open spec fn parse_address(text: Seq<u8>, sep: u8, count: nat, radix: nat) -> Option<Seq<u8>> {
    let fs = fields(text, sep);
    let n = if fs.len() < count {
        fs.len()
    } else {
        count
    };
    if forall|i: int| 0 <= i < n ==> #[trigger] parse_byte(fs[i], radix) is Some {
        Some(
            Seq::new(
                count,
                |i: int|
                    if i < n {
                        parse_byte(fs[i], radix)->0
                    } else {
                        0u8
                    },
            ),
        )
    } else {
        None
    }
}

/// Character code of `.`, between the fields of an IPv4 address.
pub const DOT: u8 = 46;

/// Character code of `:`, between the fields of a MAC address.
pub const COLON: u8 = 58;

/// Character code of `+`, which may open a field.
const PLUS: u8 = 43;

proof fn lemma_fields_nonempty(text: Seq<u8>, sep: u8)
    ensures
        fields(text, sep).len() >= 1,
    decreases text.len(),
{
    if text.len() > 0 {
        lemma_fields_nonempty(text.drop_last(), sep);
    }
}

/// The fields of a prefix of `text`, but its last, which may still grow, are fields of `text`.
proof fn lemma_fields_prefix(text: Seq<u8>, sep: u8, m: int)
    requires
        0 <= m <= text.len(),
    ensures
        fields(text.take(m), sep).len() <= fields(text, sep).len(),
        forall|j: int|
            0 <= j < fields(text.take(m), sep).len() - 1 ==> #[trigger] fields(text, sep)[j]
                == fields(text.take(m), sep)[j],
    decreases text.len() - m,
{
    if m < text.len() {
        lemma_fields_prefix(text, sep, m + 1);
        assert(text.take(m + 1).drop_last() =~= text.take(m));
        lemma_fields_nonempty(text.take(m), sep);
    } else {
        assert(text.take(m) =~= text);
    }
}

/// A digit string that fails, or whose value passes a bound, cannot be mended by more digits.
proof fn lemma_digits_prefix(digits: Seq<u8>, radix: nat, m: int)
    requires
        0 <= m <= digits.len(),
        radix > 0,
    ensures
        digits_value(digits.take(m), radix) is None ==> digits_value(digits, radix) is None,
        digits_value(digits.take(m), radix) is Some && digits_value(digits, radix) is Some
            ==> digits_value(digits.take(m), radix)->0 <= digits_value(digits, radix)->0,
    decreases digits.len() - m,
{
    if m < digits.len() {
        lemma_digits_prefix(digits, radix, m + 1);
        assert(digits.take(m + 1).drop_last() =~= digits.take(m));
        let a = digits_value(digits.take(m), radix);
        let b = digits_value(digits.take(m + 1), radix);
        if a is Some && b is Some {
            assert(a->0 <= a->0 * radix) by (nonlinear_arith)
                requires
                    radix > 0,
            ;
        }
    } else {
        assert(digits.take(m) =~= digits);
    }
}

fn digit_of(c: u8, radix: u8) -> (d: Option<u8>)
    requires
        radix == 10 || radix == 16,
    ensures
        d matches Some(v) ==> digit_value(c, radix as nat) == Some(v as nat),
        d is None ==> digit_value(c, radix as nat) is None,
{
    let v: u8 = if 48 <= c && c <= 57 {
        c - 48
    } else if 97 <= c && c <= 122 {
        c - 97 + 10
    } else if 65 <= c && c <= 90 {
        c - 65 + 10
    } else {
        radix
    };
    if v < radix {
        Some(v)
    } else {
        None
    }
}

/// Reads the byte that `text[start..end]` writes in base `radix`.
fn parse_field(text: &[u8], start: usize, end: usize, radix: u8) -> (value: Option<u8>)
    requires
        start <= end <= text@.len(),
        radix == 10 || radix == 16,
    ensures
        value == parse_byte(text@.subrange(start as int, end as int), radix as nat),
{
    let ghost field = text@.subrange(start as int, end as int);
    let mut i = start;
    if i < end && text[i] == PLUS {
        i = i + 1;
    }
    let ghost first = i;
    let ghost digits = text@.subrange(first as int, end as int);
    assert(digits =~= (if field.len() > 0 && field[0] == 43 {
        field.drop_first()
    } else {
        field
    }));
    if i == end {
        return None;
    }
    let mut acc: u32 = 0;
    while i < end
        invariant
            start <= first <= i <= end <= text@.len(),
            radix == 10 || radix == 16,
            digits == text@.subrange(first as int, end as int),
            field == text@.subrange(start as int, end as int),
            digits =~= (if field.len() > 0 && field[0] == 43 {
                field.drop_first()
            } else {
                field
            }),
            digits.len() > 0,
            acc <= 255,
            digits_value(digits.take(i - first), radix as nat) == Some(acc as nat),
        decreases end - i,
    {
        let ghost k = i - first;
        assert(digits.take(k + 1).drop_last() =~= digits.take(k));
        assert(digits.take(k + 1).last() == text@[i as int]);
        match digit_of(text[i], radix) {
            None => {
                proof {
                    lemma_digits_prefix(digits, radix as nat, k + 1);
                }
                return None;
            },
            Some(d) => {
                acc = acc * (radix as u32) + d as u32;
                assert(digits_value(digits.take(k + 1), radix as nat) == Some(acc as nat));
                if acc > 255 {
                    proof {
                        lemma_digits_prefix(digits, radix as nat, k + 1);
                    }
                    return None;
                }
            },
        }
        i = i + 1;
    }
    assert(digits.take(end - first) =~= digits);
    Some(acc as u8)
}

/// Reads the `count` bytes of an address written as fields separated by `sep`, in base
/// `radix`, as `parse_address` describes.
fn parse_fields(text: &[u8], sep: u8, count: usize, radix: u8) -> (parsed: Option<Vec<u8>>)
    requires
        0 < count <= 6,
        radix == 10 || radix == 16,
    ensures
        parsed matches Some(v) ==> parse_address(text@, sep, count as nat, radix as nat) == Some(
            v@,
        ),
        parsed is None ==> parse_address(text@, sep, count as nat, radix as nat) is None,
{
    let mut values: Vec<u8> = Vec::new();
    let mut start: usize = 0;
    let mut i: usize = 0;
    let ghost mut done: Seq<Seq<u8>> = seq![];
    assert(text@.take(0) =~= Seq::<u8>::empty());
    while i < text.len()
        invariant
            0 < count <= 6,
            radix == 10 || radix == 16,
            start <= i <= text@.len(),
            values@.len() == done.len(),
            done.len() < count,
            fields(text@.take(i as int), sep) =~= done.push(
                text@.subrange(start as int, i as int),
            ),
            forall|j: int|
                0 <= j < done.len() ==> parse_byte(#[trigger] done[j], radix as nat) == Some(
                    values@[j],
                ),
        decreases text@.len() - i,
    {
        let ghost prefix = text@.take(i + 1);
        assert(prefix.drop_last() =~= text@.take(i as int));
        if text[i] == sep {
            let field = parse_field(text, start, i, radix);
            let ghost f = text@.subrange(start as int, i as int);
            proof {
                assert(fields(prefix, sep) =~= done.push(f).push(Seq::<u8>::empty()));
                lemma_fields_prefix(text@, sep, i + 1);
                assert(fields(text@, sep)[done.len() as int] == f);
            }
            match field {
                None => {
                    proof {
                        let fs = fields(text@, sep);
                        assert(parse_byte(fs[done.len() as int], radix as nat) is None);
                    }
                    return None;
                },
                Some(v) => {
                    values.push(v);
                    proof {
                        done = done.push(f);
                    }
                    start = i + 1;
                    if values.len() == count {
                        proof {
                            let fs = fields(text@, sep);
                            assert forall|j: int| 0 <= j < count implies #[trigger] fs[j]
                                == done[j] by {}
                            let expected = parse_address(text@, sep, count as nat, radix as nat);
                            assert(expected is Some);
                            assert(expected->0 =~= values@);
                        }
                        return Some(values);
                    }
                    proof {
                        assert(text@.subrange(start as int, i + 1) =~= Seq::<u8>::empty());
                    }
                },
            }
        } else {
            proof {
                assert(text@.subrange(start as int, i + 1) =~= text@.subrange(
                    start as int,
                    i as int,
                ).push(text@[i as int]));
            }
        }
        i = i + 1;
    }
    assert(text@.take(text@.len() as int) =~= text@);
    let last = parse_field(text, start, text.len(), radix);
    let ghost f = text@.subrange(start as int, text@.len() as int);
    let ghost fs = fields(text@, sep);
    assert(fs =~= done.push(f));
    match last {
        None => {
            assert(parse_byte(fs[done.len() as int], radix as nat) is None);
            None
        },
        Some(v) => {
            values.push(v);
            let ghost filled = values@.len();
            while values.len() < count
                invariant
                    filled <= values@.len() <= count,
                    forall|j: int| filled <= j < values@.len() ==> values@[j] == 0,
                    forall|j: int|
                        0 <= j < filled ==> values@[j] == parse_byte(fs[j], radix as nat)->0,
                decreases count - values@.len(),
            {
                values.push(0);
            }
            proof {
                assert(filled == fs.len());
                let expected = parse_address(text@, sep, count as nat, radix as nat);
                assert forall|j: int| 0 <= j < fs.len() implies #[trigger] parse_byte(
                    fs[j],
                    radix as nat,
                ) is Some by {
                    if j < done.len() {
                        assert(parse_byte(done[j], radix as nat) == Some(values@[j]));
                    }
                }
                assert(expected is Some);
                assert(expected->0 =~= values@);
            }
            Some(values)
        },
    }
}

/// The character of digit `d` (0 to 15), with lowercase letters past 9.
pub open spec fn digit_char(d: int) -> char {
    if d < 10 {
        (48 + d) as char
    } else {
        (87 + d) as char
    }
}

fn digit_text(d: u8) -> (text: &'static str)
    requires
        d < 16,
    ensures
        text@ == seq![digit_char(d as int)],
{
    proof {
        reveal_strlit("0");
        reveal_strlit("1");
        reveal_strlit("2");
        reveal_strlit("3");
        reveal_strlit("4");
        reveal_strlit("5");
        reveal_strlit("6");
        reveal_strlit("7");
        reveal_strlit("8");
        reveal_strlit("9");
        reveal_strlit("a");
        reveal_strlit("b");
        reveal_strlit("c");
        reveal_strlit("d");
        reveal_strlit("e");
        reveal_strlit("f");
    }
    match d {
        0 => "0",
        1 => "1",
        2 => "2",
        3 => "3",
        4 => "4",
        5 => "5",
        6 => "6",
        7 => "7",
        8 => "8",
        9 => "9",
        10 => "a",
        11 => "b",
        12 => "c",
        13 => "d",
        14 => "e",
        _ => "f",
    }
}


/// The decimal text of `n`, without leading zeros.
pub open spec fn decimal_text(n: u8) -> Seq<char> {
    if n >= 100 {
        seq![digit_char((n / 100) as int), digit_char(((n / 10) % 10) as int), digit_char((n % 10) as int)]
    } else if n >= 10 {
        seq![digit_char((n / 10) as int), digit_char((n % 10) as int)]
    } else {
        seq![digit_char(n as int)]
    }
}

/// The two lowercase hexadecimal digits of `n`.
pub open spec fn hex_text(n: u8) -> Seq<char> {
    seq![digit_char((n / 16) as int), digit_char((n % 16) as int)]
}

/// An IPv4 address as text: four decimal bytes separated by dots.
pub open spec fn ip_text(a: Seq<u8>) -> Seq<char> {
    decimal_text(a[0]) + seq!['.'] + decimal_text(a[1]) + seq!['.'] + decimal_text(a[2]) + seq![
        '.',
    ] + decimal_text(a[3])
}

/// A MAC address as text: six bytes of two lowercase hexadecimal digits, separated by colons.
pub open spec fn mac_text(a: Seq<u8>) -> Seq<char> {
    hex_text(a[0]) + seq![':'] + hex_text(a[1]) + seq![':'] + hex_text(a[2]) + seq![':'] + hex_text(
        a[3],
    ) + seq![':'] + hex_text(a[4]) + seq![':'] + hex_text(a[5])
}

fn push_decimal(text: &mut String, n: u8)
    ensures
        final(text)@ == old(text)@ + decimal_text(n),
{
    if n >= 100 {
        text.append(digit_text(n / 100));
    }
    if n >= 10 {
        text.append(digit_text((n / 10) % 10));
    }
    text.append(digit_text(n % 10));
    proof {
        assert(final(text)@ =~= old(text)@ + decimal_text(n));
    }
}

fn push_hex(text: &mut String, n: u8)
    ensures
        final(text)@ == old(text)@ + hex_text(n),
{
    text.append(digit_text(n / 16));
    text.append(digit_text(n % 16));
    proof {
        assert(final(text)@ =~= old(text)@ + hex_text(n));
    }
}

/// An IPv4 address.
#[derive(Copy, Clone, PartialOrd, PartialEq, Default, Debug)]
pub struct IpAddress {
    pub address: [u8; 4],
}

impl IpAddress {
    /// The address `a0.a1.a2.a3`.
    pub fn new(a0: u8, a1: u8, a2: u8, a3: u8) -> (ip: IpAddress)
        ensures
            ip.address@ == seq![a0, a1, a2, a3],
    {
        IpAddress { address: [a0, a1, a2, a3] }
    }

    /// The address as text, four decimal bytes separated by dots, such as `192.168.0.1`.
    pub fn to_string(&self) -> (text: String)
        ensures
            text@ == ip_text(self.address@),
    {
        let mut text = String::new();
        push_decimal(&mut text, self.address[0]);
        text.append(".");
        push_decimal(&mut text, self.address[1]);
        text.append(".");
        push_decimal(&mut text, self.address[2]);
        text.append(".");
        push_decimal(&mut text, self.address[3]);
        proof {
            reveal_strlit(".");
            assert(text@ =~= ip_text(self.address@));
        }
        text
    }
}

/// The address that `string` writes, as `try_from` reads it.
pub open spec fn spec_ip_from(string: &str) -> Result<IpAddress, ()> {
    match parse_address(string.spec_bytes(), DOT, 4, 10) {
        Some(a) => Ok(IpAddress { address: [a[0], a[1], a[2], a[3]] }),
        None => Err(()),
    }
}

impl<'a> vstd::std_specs::convert::TryFromSpecImpl<&'a str> for IpAddress {
    open spec fn obeys_try_from_spec() -> bool {
        true
    }

    open spec fn try_from_spec(string: &'a str) -> Result<IpAddress, ()> {
        spec_ip_from(string)
    }
}

impl<'a> TryFrom<&'a str> for IpAddress {
    type Error = ();

    /// Reads an address from up to four dot-separated decimal bytes; missing bytes are zero,
    /// and text past the fourth byte is not read.
    fn try_from(string: &'a str) -> (ip: Result<IpAddress, ()>)
        ensures
            ip is Ok <==> parse_address(string.spec_bytes(), DOT, 4, 10) is Some,
            ip matches Ok(ip) ==> parse_address(string.spec_bytes(), DOT, 4, 10) == Some(
                ip.address@,
            ),
    {
        match parse_fields(string.as_bytes(), DOT, 4, 10) {
            Some(v) => {
                let ip = IpAddress { address: [v[0], v[1], v[2], v[3]] };
                assert(ip.address@ =~= v@);
                Ok(ip)
            },
            None => Err(()),
        }
    }
}

/// A MAC address.
#[derive(Copy, Clone, PartialOrd, PartialEq, Default, Debug)]
pub struct MacAddress {
    pub address: [u8; 6],
}

impl MacAddress {
    /// The address `a0:a1:a2:a3:a4:a5`.
    pub fn new(a0: u8, a1: u8, a2: u8, a3: u8, a4: u8, a5: u8) -> (mac: MacAddress)
        ensures
            mac.address@ == seq![a0, a1, a2, a3, a4, a5],
    {
        MacAddress { address: [a0, a1, a2, a3, a4, a5] }
    }

    /// The address as text, six bytes of two lowercase hexadecimal digits separated by colons,
    /// such as `02:00:00:ab:cd:ef`.
    pub fn to_string(&self) -> (text: String)
        ensures
            text@ == mac_text(self.address@),
    {
        let mut text = String::new();
        push_hex(&mut text, self.address[0]);
        text.append(":");
        push_hex(&mut text, self.address[1]);
        text.append(":");
        push_hex(&mut text, self.address[2]);
        text.append(":");
        push_hex(&mut text, self.address[3]);
        text.append(":");
        push_hex(&mut text, self.address[4]);
        text.append(":");
        push_hex(&mut text, self.address[5]);
        proof {
            reveal_strlit(":");
            assert(text@ =~= mac_text(self.address@));
        }
        text
    }
}

/// The address that `string` writes, as `try_from` reads it.
pub open spec fn spec_mac_from(string: &str) -> Result<MacAddress, ()> {
    match parse_address(string.spec_bytes(), COLON, 6, 16) {
        Some(a) => Ok(MacAddress { address: [a[0], a[1], a[2], a[3], a[4], a[5]] }),
        None => Err(()),
    }
}

impl<'a> vstd::std_specs::convert::TryFromSpecImpl<&'a str> for MacAddress {
    open spec fn obeys_try_from_spec() -> bool {
        true
    }

    open spec fn try_from_spec(string: &'a str) -> Result<MacAddress, ()> {
        spec_mac_from(string)
    }
}

impl<'a> TryFrom<&'a str> for MacAddress {
    type Error = ();

    /// Reads an address from up to six colon-separated hexadecimal bytes; missing bytes are
    /// zero, and text past the sixth byte is not read.
    fn try_from(string: &'a str) -> (mac: Result<MacAddress, ()>)
        ensures
            mac is Ok <==> parse_address(string.spec_bytes(), COLON, 6, 16) is Some,
            mac matches Ok(mac) ==> parse_address(string.spec_bytes(), COLON, 6, 16) == Some(
                mac.address@,
            ),
    {
        match parse_fields(string.as_bytes(), COLON, 6, 16) {
            Some(v) => {
                let mac = MacAddress { address: [v[0], v[1], v[2], v[3], v[4], v[5]] };
                assert(mac.address@ =~= v@);
                Ok(mac)
            },
            None => Err(()),
        }
    }
}


/// Text without separators is a single field.
proof fn lemma_fields_without_separator(q: Seq<u8>, sep: u8)
    requires
        forall|i: int| 0 <= i < q.len() ==> q[i] != sep,
    ensures
        fields(q, sep) == seq![q],
    decreases q.len(),
{
    if q.len() > 0 {
        lemma_fields_without_separator(q.drop_last(), sep);
        assert(q.drop_last().push(q.last()) =~= q);
        assert(fields(q, sep) =~= seq![q]);
    } else {
        assert(q =~= Seq::<u8>::empty());
    }
}

/// The fields of two texts joined by a separator are the fields of the one, then those of the
/// other.
proof fn lemma_fields_join(p: Seq<u8>, q: Seq<u8>, sep: u8)
    ensures
        fields(p + seq![sep] + q, sep) == fields(p, sep) + fields(q, sep),
    decreases q.len(),
{
    let t = p + seq![sep] + q;
    if q.len() == 0 {
        assert(t.drop_last() =~= p);
        assert(fields(t, sep) =~= fields(p, sep) + fields(q, sep));
    } else {
        lemma_fields_join(p, q.drop_last(), sep);
        assert(t.drop_last() =~= p + seq![sep] + q.drop_last());
        lemma_fields_nonempty(q.drop_last(), sep);
        assert(fields(t, sep) =~= fields(p, sep) + fields(q, sep));
    }
}

/// The bytes of an ASCII character sequence.
spec fn ascii_bytes(t: Seq<char>) -> Seq<u8> {
    t.map_values(|c: char| c as u8)
}

proof fn lemma_ascii_encoding(t: Seq<char>)
    requires
        vstd::utf8::is_ascii_chars(t),
    ensures
        encode_utf8(t) == ascii_bytes(t),
{
    vstd::utf8::is_ascii_chars_encode_utf8(t);
    assert(encode_utf8(t) =~= ascii_bytes(t));
}

proof fn lemma_decimal_text_reads_back(n: u8)
    ensures
        parse_byte(ascii_bytes(decimal_text(n)), 10) == Some(n),
        vstd::utf8::is_ascii_chars(decimal_text(n)),
        forall|i: int|
            0 <= i < decimal_text(n).len() ==> #[trigger] ascii_bytes(decimal_text(n))[i] != DOT,
{
    let b = ascii_bytes(decimal_text(n));
    let (h, t, o) = ((n / 100) as int, ((n / 10) % 10) as int, (n % 10) as int);
    if n >= 100 {
        assert(b[0] == 48 + h && b[1] == 48 + t && b[2] == 48 + o);
        assert(b.take(1).drop_last() =~= Seq::<u8>::empty());
        assert(b.take(2).drop_last() =~= b.take(1));
        assert(b.take(3).drop_last() =~= b.take(2));
        assert(b.take(3) =~= b);
        assert(digits_value(Seq::<u8>::empty(), 10) == Some(0nat));
        assert(b.take(1).last() == b[0] && b.take(2).last() == b[1] && b.take(3).last() == b[2]);
        assert(digit_value(b[0], 10) == Some(h as nat));
        assert(digit_value(b[1], 10) == Some(t as nat));
        assert(digit_value(b[2], 10) == Some(o as nat));
        assert(digits_value(b.take(1), 10) == Some(h as nat));
        assert(digits_value(b.take(2), 10) == Some((h * 10 + t) as nat));
        assert(digits_value(b, 10) == Some(((h * 10 + t) * 10 + o) as nat));
    } else if n >= 10 {
        let (t, o) = ((n / 10) as int, (n % 10) as int);
        assert(b[0] == 48 + t && b[1] == 48 + o);
        assert(b.take(1).drop_last() =~= Seq::<u8>::empty());
        assert(b.take(2).drop_last() =~= b.take(1));
        assert(b.take(2) =~= b);
        assert(digits_value(Seq::<u8>::empty(), 10) == Some(0nat));
        assert(b.take(1).last() == b[0] && b.take(2).last() == b[1]);
        assert(digit_value(b[0], 10) == Some(t as nat));
        assert(digit_value(b[1], 10) == Some(o as nat));
        assert(digits_value(b.take(1), 10) == Some(t as nat));
        assert(digits_value(b, 10) == Some((t * 10 + o) as nat));
    } else {
        assert(b[0] == 48 + n);
        assert(b.drop_last() =~= Seq::<u8>::empty());
        assert(digits_value(Seq::<u8>::empty(), 10) == Some(0nat));
        assert(digit_value(b[0], 10) == Some(n as nat));
        assert(digits_value(b, 10) == Some(n as nat));
    }
}

proof fn lemma_hex_text_reads_back(n: u8)
    ensures
        parse_byte(ascii_bytes(hex_text(n)), 16) == Some(n),
        vstd::utf8::is_ascii_chars(hex_text(n)),
        forall|i: int| 0 <= i < hex_text(n).len() ==> #[trigger] ascii_bytes(hex_text(n))[i] != COLON,
{
    let b = ascii_bytes(hex_text(n));
    let (h, l) = ((n / 16) as int, (n % 16) as int);
    assert(b.take(1).drop_last() =~= Seq::<u8>::empty());
    assert(b.take(2).drop_last() =~= b.take(1));
    assert(b.take(2) =~= b);
    assert(digit_value(b[0], 16) == Some(h as nat));
    assert(digit_value(b[1], 16) == Some(l as nat));
    assert(digits_value(Seq::<u8>::empty(), 16) == Some(0nat));
    assert(b.take(1).last() == b[0] && b.take(2).last() == b[1]);
    assert(digits_value(b.take(1), 16) == Some(h as nat));
    assert(digits_value(b, 16) == Some((h * 16 + l) as nat));
}

/// Reading the text of an IPv4 address gives the address back.
pub proof fn lemma_ip_text_reads_back(ip: IpAddress)
    ensures
        vstd::utf8::is_ascii_chars(ip_text(ip.address@)),
        parse_address(encode_utf8(ip_text(ip.address@)), DOT, 4, 10) == Some(ip.address@),
{
    let a = ip.address@;
    let d = |i: int| ascii_bytes(decimal_text(a[i]));
    lemma_decimal_text_reads_back(a[0]);
    lemma_decimal_text_reads_back(a[1]);
    lemma_decimal_text_reads_back(a[2]);
    lemma_decimal_text_reads_back(a[3]);
    let t = ip_text(a);
    assert(vstd::utf8::is_ascii_chars(t));
    lemma_ascii_encoding(t);
    let dot = seq![DOT];
    assert(ascii_bytes(t) =~= d(0) + dot + d(1) + dot + d(2) + dot + d(3));
    lemma_fields_without_separator(d(0), DOT);
    lemma_fields_without_separator(d(1), DOT);
    lemma_fields_without_separator(d(2), DOT);
    lemma_fields_without_separator(d(3), DOT);
    lemma_fields_join(d(0), d(1), DOT);
    lemma_fields_join(d(0) + dot + d(1), d(2), DOT);
    lemma_fields_join(d(0) + dot + d(1) + dot + d(2), d(3), DOT);
    let fs = fields(ascii_bytes(t), DOT);
    assert(fs =~= seq![d(0), d(1), d(2), d(3)]);
    assert(parse_address(ascii_bytes(t), DOT, 4, 10)->0 =~= a);
}

/// Reading the text of a MAC address gives the address back.
pub proof fn lemma_mac_text_reads_back(mac: MacAddress)
    ensures
        vstd::utf8::is_ascii_chars(mac_text(mac.address@)),
        parse_address(encode_utf8(mac_text(mac.address@)), COLON, 6, 16) == Some(mac.address@),
{
    let a = mac.address@;
    let d = |i: int| ascii_bytes(hex_text(a[i]));
    lemma_hex_text_reads_back(a[0]);
    lemma_hex_text_reads_back(a[1]);
    lemma_hex_text_reads_back(a[2]);
    lemma_hex_text_reads_back(a[3]);
    lemma_hex_text_reads_back(a[4]);
    lemma_hex_text_reads_back(a[5]);
    let t = mac_text(a);
    assert(vstd::utf8::is_ascii_chars(t));
    lemma_ascii_encoding(t);
    let c = seq![COLON];
    assert(ascii_bytes(t) =~= d(0) + c + d(1) + c + d(2) + c + d(3) + c + d(4) + c + d(5));
    lemma_fields_without_separator(d(0), COLON);
    lemma_fields_without_separator(d(1), COLON);
    lemma_fields_without_separator(d(2), COLON);
    lemma_fields_without_separator(d(3), COLON);
    lemma_fields_without_separator(d(4), COLON);
    lemma_fields_without_separator(d(5), COLON);
    lemma_fields_join(d(0), d(1), COLON);
    lemma_fields_join(d(0) + c + d(1), d(2), COLON);
    lemma_fields_join(d(0) + c + d(1) + c + d(2), d(3), COLON);
    lemma_fields_join(d(0) + c + d(1) + c + d(2) + c + d(3), d(4), COLON);
    lemma_fields_join(d(0) + c + d(1) + c + d(2) + c + d(3) + c + d(4), d(5), COLON);
    let fs = fields(ascii_bytes(t), COLON);
    assert(fs =~= seq![d(0), d(1), d(2), d(3), d(4), d(5)]);
    assert(parse_address(ascii_bytes(t), COLON, 6, 16)->0 =~= a);
}
} // verus!
