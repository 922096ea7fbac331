//! Address value types and their canonical text forms.
//!
//! A MAC address is exactly six octets; its text form is six colon-separated
//! two-digit hexadecimal octets.  An IPv4 address in text is four
//! dot-separated decimal octets.  Both parsers state exactly which texts
//! they accept and what value each accepted text denotes, and parsing the
//! canonical text of an address gives the address back.

use crate::PacketError;
use vstd::prelude::*;

verus! {

/// Whether a character is a decimal digit.
pub open spec fn dec_digit(c: char) -> bool {
    48 <= c as u32 <= 57
}

/// The value of a decimal digit.
pub open spec fn dec_val(c: char) -> int {
    c as u32 - 48
}

/// Whether a character is a hexadecimal digit, either case.
pub open spec fn hex_digit(c: char) -> bool {
    dec_digit(c) || 97 <= c as u32 <= 102 || 65 <= c as u32 <= 70
}

/// The value of a hexadecimal digit.
pub open spec fn hex_val(c: char) -> int {
    if dec_digit(c) {
        c as u32 - 48
    } else if 97 <= c as u32 <= 102 {
        c as u32 - 87
    } else {
        c as u32 - 55
    }
}

/// The lower-case hexadecimal digit of a value below sixteen.
pub open spec fn hex_char_of(v: int) -> char {
    if v == 0 {
        '0'
    } else if v == 1 {
        '1'
    } else if v == 2 {
        '2'
    } else if v == 3 {
        '3'
    } else if v == 4 {
        '4'
    } else if v == 5 {
        '5'
    } else if v == 6 {
        '6'
    } else if v == 7 {
        '7'
    } else if v == 8 {
        '8'
    } else if v == 9 {
        '9'
    } else if v == 10 {
        'a'
    } else if v == 11 {
        'b'
    } else if v == 12 {
        'c'
    } else if v == 13 {
        'd'
    } else if v == 14 {
        'e'
    } else {
        'f'
    }
}

/// Rendering a value below sixteen gives a hexadecimal digit that reads
/// back as the same value.
pub proof fn lemma_hex_char_of_reads_back(v: int)
    requires
        0 <= v < 16,
    ensures
        hex_digit(hex_char_of(v)),
        hex_val(hex_char_of(v)) == v,
{
}

/// Whether a character sequence is a valid MAC address text: six
/// colon-separated two-digit hexadecimal octets.
pub open spec fn mac_text_valid(s: Seq<char>) -> bool {
    &&& s.len() == 17
    &&& forall|i: int| i == 2 || i == 5 || i == 8 || i == 11 || i == 14 ==> s[i] == ':'
    &&& forall|i: int| 0 <= i < 17 && i % 3 != 2 ==> hex_digit(#[trigger] s[i])
}

/// The octet denoted by the two hexadecimal digits at a MAC text's octet
/// position.
pub open spec fn mac_octet_of(s: Seq<char>, t: int) -> u8 {
    (hex_val(s[3 * t]) * 16 + hex_val(s[3 * t + 1])) as u8
}

/// The six octets denoted by a valid MAC address text.
pub open spec fn mac_value_of(s: Seq<char>) -> Seq<u8> {
    Seq::new(6, |t: int| mac_octet_of(s, t))
}

/// The two lower-case hexadecimal digits of one octet.
pub open spec fn octet_text(b: u8) -> Seq<char> {
    seq![hex_char_of(b as int / 16), hex_char_of(b as int % 16)]
}

/// The canonical text of six octets: lower-case hexadecimal, colon-separated.
pub open spec fn mac_text_of(bs: Seq<u8>) -> Seq<char>
    recommends
        bs.len() == 6,
{
    octet_text(bs[0]) + seq![':'] + octet_text(bs[1]) + seq![':'] + octet_text(bs[2]) + seq![':']
        + octet_text(bs[3]) + seq![':'] + octet_text(bs[4]) + seq![':'] + octet_text(bs[5])
}

/// A MAC address: exactly six octets.
#[derive(Clone, Copy, Debug, PartialEq, Eq)]
pub struct Mac {
    pub address: [u8; 6],
}

impl From<[u8; 6]> for Mac {
    fn from(address: [u8; 6]) -> (r: Mac) {
        Mac { address }
    }
}

impl vstd::std_specs::convert::FromSpecImpl<[u8; 6]> for Mac {
    open spec fn obeys_from_spec() -> bool {
        true
    }

    open spec fn from_spec(address: [u8; 6]) -> Mac {
        Mac { address }
    }
}

/// Reads one hexadecimal digit, either case.
fn read_hex_digit(c: char) -> (r: Option<u8>)
    ensures
        r is Some <==> hex_digit(c),
        r matches Some(v) ==> v == hex_val(c),
{
    let u = c as u32;
    if 48 <= u && u <= 57 {
        Some((u - 48) as u8)
    } else if 97 <= u && u <= 102 {
        Some((u - 87) as u8)
    } else if 65 <= u && u <= 70 {
        Some((u - 55) as u8)
    } else {
        None
    }
}

/// Reads the two-digit hexadecimal octet at a position of a MAC text.
fn read_mac_octet(s: &str, at: usize) -> (r: Option<u8>)
    requires
        at + 2 <= s@.len(),
        at + 2 <= usize::MAX,
    ensures
        r is Some <==> hex_digit(s@[at as int]) && hex_digit(s@[at as int + 1]),
        r matches Some(v) ==> v == hex_val(s@[at as int]) * 16 + hex_val(s@[at as int + 1]),
{
    let hi = match read_hex_digit(s.get_char(at)) {
        Some(v) => v,
        None => {
            return None;
        },
    };
    let lo = match read_hex_digit(s.get_char(at + 1)) {
        Some(v) => v,
        None => {
            return None;
        },
    };
    Some(hi * 16 + lo)
}

/// The one-character string of a lower-case hexadecimal digit.
fn hex_digit_str(v: u8) -> (r: &'static str)
    requires
        v < 16,
    ensures
        r@ == seq![hex_char_of(v as int)],
{
    proof {
        reveal_strlit("0");
        reveal_strlit("1");
        reveal_strlit("2");
        reveal_strlit("3");
        reveal_strlit("4");
        reveal_strlit("5");
        reveal_strlit("6");
        reveal_strlit("7");
        reveal_strlit("8");
        reveal_strlit("9");
        reveal_strlit("a");
        reveal_strlit("b");
        reveal_strlit("c");
        reveal_strlit("d");
        reveal_strlit("e");
        reveal_strlit("f");
    }
    let r = match v {
        0 => "0",
        1 => "1",
        2 => "2",
        3 => "3",
        4 => "4",
        5 => "5",
        6 => "6",
        7 => "7",
        8 => "8",
        9 => "9",
        10 => "a",
        11 => "b",
        12 => "c",
        13 => "d",
        14 => "e",
        _ => "f",
    };
    assert(r@ =~= seq![hex_char_of(v as int)]);
    r
}

impl Mac {
    /// Builds a MAC address from its six octets.
    pub fn new(address: [u8; 6]) -> (r: Mac)
        ensures
            r == (Mac { address }),
    {
        Mac { address }
    }

    /// Resolves a MAC address that was not supplied explicitly from what
    /// the interface collaborator reported: the hardware address of the
    /// first enumerated interface, or nothing when none was available.
    pub fn resolve_default(hardware: Option<[u8; 6]>) -> (r: Result<Mac, PacketError>)
        ensures
            match hardware {
                Some(address) => r == Ok::<Mac, PacketError>(Mac { address }),
                None => r == Err::<Mac, PacketError>(PacketError::NoInterfaceAvailable),
            },
    {
        match hardware {
            Some(address) => Ok(Mac { address }),
            None => Err(PacketError::NoInterfaceAvailable),
        }
    }

    /// Parses the text form of a MAC address: six colon-separated
    /// two-digit hexadecimal octets, either case.  Accepts a text if and
    /// only if it has that shape, and returns exactly the octets the text
    /// denotes.
    pub fn parse(s: &str) -> (r: Result<Mac, PacketError>)
        ensures
            r is Ok <==> mac_text_valid(s@),
            r matches Ok(m) ==> m.address@ == mac_value_of(s@),
            r matches Err(e) ==> e == PacketError::MalformedAddress,
    {
        let n = s.unicode_len();
        if n != 17 {
            return Err(PacketError::MalformedAddress);
        }
        if s.get_char(2) != ':' || s.get_char(5) != ':' || s.get_char(8) != ':' || s.get_char(11)
            != ':' || s.get_char(14) != ':' {
            return Err(PacketError::MalformedAddress);
        }
        let b0 = match read_mac_octet(s, 0) {
            Some(v) => v,
            None => {
                return Err(PacketError::MalformedAddress);
            },
        };
        let b1 = match read_mac_octet(s, 3) {
            Some(v) => v,
            None => {
                return Err(PacketError::MalformedAddress);
            },
        };
        let b2 = match read_mac_octet(s, 6) {
            Some(v) => v,
            None => {
                return Err(PacketError::MalformedAddress);
            },
        };
        let b3 = match read_mac_octet(s, 9) {
            Some(v) => v,
            None => {
                return Err(PacketError::MalformedAddress);
            },
        };
        let b4 = match read_mac_octet(s, 12) {
            Some(v) => v,
            None => {
                return Err(PacketError::MalformedAddress);
            },
        };
        let b5 = match read_mac_octet(s, 15) {
            Some(v) => v,
            None => {
                return Err(PacketError::MalformedAddress);
            },
        };
        let m = Mac { address: [b0, b1, b2, b3, b4, b5] };
        proof {
            assert forall|i: int| 0 <= i < 17 && i % 3 != 2 implies hex_digit(#[trigger] s@[i]) by {
            }
            assert(m.address@ =~= mac_value_of(s@));
        }
        Ok(m)
    }

    /// Renders the canonical text form: lower-case hexadecimal octets,
    /// colon-separated.
    pub fn to_text(&self) -> (r: String)
        ensures
            r@ == mac_text_of(self.address@),
    {
        proof {
            reveal_strlit(":");
        }
        let mut out = String::new();
        out.append(hex_digit_str(self.address[0] / 16));
        out.append(hex_digit_str(self.address[0] % 16));
        out.append(":");
        out.append(hex_digit_str(self.address[1] / 16));
        out.append(hex_digit_str(self.address[1] % 16));
        out.append(":");
        out.append(hex_digit_str(self.address[2] / 16));
        out.append(hex_digit_str(self.address[2] % 16));
        out.append(":");
        out.append(hex_digit_str(self.address[3] / 16));
        out.append(hex_digit_str(self.address[3] % 16));
        out.append(":");
        out.append(hex_digit_str(self.address[4] / 16));
        out.append(hex_digit_str(self.address[4] % 16));
        out.append(":");
        out.append(hex_digit_str(self.address[5] / 16));
        out.append(hex_digit_str(self.address[5] % 16));
        assert(out@ =~= mac_text_of(self.address@));
        out
    }
}

/// Rendering the value of a lower-case hexadecimal digit gives the same
/// character back.
pub proof fn lemma_hex_char_of_inverse(c: char)
    requires
        dec_digit(c) || 97 <= c as u32 <= 102,
    ensures
        hex_char_of(hex_val(c)) == c,
{
}

/// Parsing a valid MAC text written in the canonical lower case and
/// rendering the parsed octets gives the identical text back.
pub proof fn lemma_mac_parse_text_round_trip(s: Seq<char>)
    requires
        mac_text_valid(s),
        forall|i: int|
            0 <= i < 17 && i % 3 != 2 ==> (dec_digit(#[trigger] s[i]) || 97 <= s[i] as u32 <= 102),
    ensures
        mac_text_of(mac_value_of(s)) == s,
{
    let bs = mac_value_of(s);
    assert forall|t: int| 0 <= t < 6 implies octet_text(bs[t]) =~= seq![s[3 * t], s[3 * t + 1]] by {
        let hi = s[3 * t];
        let lo = s[3 * t + 1];
        assert(hex_digit(hi) && hex_digit(lo));
        assert(bs[t] == mac_octet_of(s, t));
        assert(bs[t] as int / 16 == hex_val(hi) && bs[t] as int % 16 == hex_val(lo));
        lemma_hex_char_of_inverse(hi);
        lemma_hex_char_of_inverse(lo);
    }
    assert(mac_text_of(bs) =~= s);
}

/// Whether every character of a sequence is a decimal digit.
pub open spec fn all_dec_digits(s: Seq<char>) -> bool {
    forall|i: int| 0 <= i < s.len() ==> dec_digit(#[trigger] s[i])
}

/// The number denoted by a sequence of decimal digits.
pub open spec fn dec_value(s: Seq<char>) -> int
    decreases s.len(),
{
    if s.len() == 0 {
        0
    } else {
        dec_value(s.drop_last()) * 10 + dec_val(s.last())
    }
}

/// A run of decimal digits denotes a number below ten to its length.
pub proof fn lemma_dec_value_bounds(s: Seq<char>)
    requires
        all_dec_digits(s),
    ensures
        0 <= dec_value(s),
        s.len() <= 1 ==> dec_value(s) <= 9,
        s.len() <= 2 ==> dec_value(s) <= 99,
        s.len() <= 3 ==> dec_value(s) <= 999,
    decreases s.len(),
{
    if s.len() > 0 {
        lemma_dec_value_bounds(s.drop_last());
    }
}

/// Whether a character sequence is a valid text for one IPv4 octet: one
/// to three decimal digits denoting a value at most 255.
pub open spec fn valid_octet_text(s: Seq<char>) -> bool {
    1 <= s.len() <= 3 && all_dec_digits(s) && dec_value(s) <= 255
}

/// Whether dots at three given positions split a text into four valid
/// octets: the shape of a dotted-decimal IPv4 address.
pub open spec fn ipv4_split_at(s: Seq<char>, i: int, j: int, k: int) -> bool {
    &&& 0 <= i < j < k < s.len()
    &&& s[i] == '.'
    &&& s[j] == '.'
    &&& s[k] == '.'
    &&& valid_octet_text(s.subrange(0, i))
    &&& valid_octet_text(s.subrange(i + 1, j))
    &&& valid_octet_text(s.subrange(j + 1, k))
    &&& valid_octet_text(s.subrange(k + 1, s.len() as int))
}

/// Whether a character sequence is a valid dotted-decimal IPv4 text.
pub open spec fn valid_ipv4_text(s: Seq<char>) -> bool {
    exists|i: int, j: int, k: int| ipv4_split_at(s, i, j, k)
}

/// The four octets read off a split.
pub open spec fn ipv4_octets_at(s: Seq<char>, i: int, j: int, k: int) -> Seq<u8> {
    seq![
        dec_value(s.subrange(0, i)) as u8,
        dec_value(s.subrange(i + 1, j)) as u8,
        dec_value(s.subrange(j + 1, k)) as u8,
        dec_value(s.subrange(k + 1, s.len() as int)) as u8,
    ]
}

/// The four octets denoted by a valid IPv4 text.
pub open spec fn ipv4_value_of(s: Seq<char>) -> Seq<u8> {
    let (i, j, k) = choose|i: int, j: int, k: int| ipv4_split_at(s, i, j, k);
    ipv4_octets_at(s, i, j, k)
}

/// In a split text, dots stand only at the three split positions: every
/// other character belongs to an all-digit octet.
pub proof fn lemma_dot_positions(s: Seq<char>, i: int, j: int, k: int, x: int)
    requires
        ipv4_split_at(s, i, j, k),
        0 <= x < s.len(),
        s[x] == '.',
    ensures
        x == i || x == j || x == k,
{
    if x < i {
        assert(s.subrange(0, i)[x] == s[x]);
        assert(false);
    } else if i < x < j {
        assert(s.subrange(i + 1, j)[x - i - 1] == s[x]);
        assert(false);
    } else if j < x < k {
        assert(s.subrange(j + 1, k)[x - j - 1] == s[x]);
        assert(false);
    } else if k < x {
        assert(s.subrange(k + 1, s.len() as int)[x - k - 1] == s[x]);
        assert(false);
    }
}

/// A text splits at one position triple at most: the dots determine it.
pub proof fn lemma_ipv4_split_unique(
    s: Seq<char>,
    i: int,
    j: int,
    k: int,
    i2: int,
    j2: int,
    k2: int,
)
    requires
        ipv4_split_at(s, i, j, k),
        ipv4_split_at(s, i2, j2, k2),
    ensures
        i == i2,
        j == j2,
        k == k2,
{
    lemma_dot_positions(s, i, j, k, i2);
    lemma_dot_positions(s, i, j, k, j2);
    lemma_dot_positions(s, i, j, k, k2);
    lemma_dot_positions(s, i2, j2, k2, i);
    lemma_dot_positions(s, i2, j2, k2, j);
    lemma_dot_positions(s, i2, j2, k2, k);
}

/// Whether no character of a half-open range is a dot.
pub open spec fn no_dots(s: Seq<char>, lo: int, hi: int) -> bool {
    forall|x: int| lo <= x < hi ==> #[trigger] s[x] != '.'
}

/// Reads the decimal octet standing between two positions of a text.
fn read_dec_octet(s: &str, start: usize, end: usize) -> (r: Option<u8>)
    requires
        start <= end <= s@.len(),
    ensures
        r is Some <==> valid_octet_text(s@.subrange(start as int, end as int)),
        r matches Some(v) ==> v == dec_value(s@.subrange(start as int, end as int)),
{
    let len = end - start;
    if len < 1 || len > 3 {
        return None;
    }
    let mut acc: u32 = 0;
    let mut x = start;
    while x < end
        invariant
            start <= x <= end <= s@.len(),
            end - start <= 3,
            all_dec_digits(s@.subrange(start as int, x as int)),
            acc == dec_value(s@.subrange(start as int, x as int)),
        decreases end - x,
    {
        let c = s.get_char(x);
        let u = c as u32;
        if !(48 <= u && u <= 57) {
            proof {
                assert(s@.subrange(start as int, end as int)[x - start] == s@[x as int]);
            }
            return None;
        }
        proof {
            assert(s@.subrange(start as int, x + 1).drop_last() =~= s@.subrange(
                start as int,
                x as int,
            ));
            assert forall|y: int| 0 <= y < x + 1 - start implies dec_digit(
                #[trigger] s@.subrange(start as int, x + 1)[y],
            ) by {
                assert(s@.subrange(start as int, x + 1)[y] == s@[start + y]);
                if y < x - start {
                    assert(s@.subrange(start as int, x as int)[y] == s@[start + y]);
                }
            }
            lemma_dec_value_bounds(s@.subrange(start as int, x as int));
        }
        acc = acc * 10 + (u - 48);
        x = x + 1;
    }
    proof {
        assert(s@.subrange(start as int, x as int) =~= s@.subrange(start as int, end as int));
    }
    if acc > 255 {
        return None;
    }
    Some(acc as u8)
}

/// Parses a dotted-decimal IPv4 address text: four dot-separated octets,
/// each one to three decimal digits valued at most 255.  Accepts a text
/// if and only if it has that shape, and returns exactly the four octets
/// the text denotes.
pub fn parse_ipv4(s: &str) -> (r: Result<[u8; 4], PacketError>)
    ensures
        r is Ok <==> valid_ipv4_text(s@),
        r matches Ok(o) ==> o@ == ipv4_value_of(s@),
        r matches Err(e) ==> e == PacketError::MalformedAddress,
{
    let n = s.unicode_len();
    let mut count: usize = 0;
    let mut d1: usize = 0;
    let mut d2: usize = 0;
    let mut d3: usize = 0;
    let mut x: usize = 0;
    while x < n
        invariant
            0 <= x <= n,
            n == s@.len(),
            count <= 3,
            count == 0 ==> no_dots(s@, 0, x as int),
            count >= 1 ==> 0 <= d1 < x && s@[d1 as int] == '.' && no_dots(s@, 0, d1 as int),
            count == 1 ==> no_dots(s@, d1 + 1, x as int),
            count >= 2 ==> d1 < d2 < x && s@[d2 as int] == '.' && no_dots(s@, d1 + 1, d2 as int),
            count == 2 ==> no_dots(s@, d2 + 1, x as int),
            count == 3 ==> d2 < d3 < x && s@[d3 as int] == '.' && no_dots(s@, d2 + 1, d3 as int)
                && no_dots(s@, d3 + 1, x as int),
        decreases n - x,
    {
        let c = s.get_char(x);
        if c == '.' {
            if count == 0 {
                d1 = x;
            } else if count == 1 {
                d2 = x;
            } else if count == 2 {
                d3 = x;
            } else {
                proof {
                    assert forall|a: int, b: int, cc: int| !ipv4_split_at(s@, a, b, cc) by {
                        if ipv4_split_at(s@, a, b, cc) {
                            lemma_dot_positions(s@, a, b, cc, d1 as int);
                            lemma_dot_positions(s@, a, b, cc, d2 as int);
                            lemma_dot_positions(s@, a, b, cc, d3 as int);
                            lemma_dot_positions(s@, a, b, cc, x as int);
                        }
                    }
                }
                return Err(PacketError::MalformedAddress);
            }
            count = count + 1;
        }
        x = x + 1;
    }
    if count != 3 {
        proof {
            assert forall|a: int, b: int, cc: int| !ipv4_split_at(s@, a, b, cc) by {
                if ipv4_split_at(s@, a, b, cc) {
                    assert(s@[a] == '.');
                    assert(s@[b] == '.');
                    assert(s@[cc] == '.');
                }
            }
        }
        return Err(PacketError::MalformedAddress);
    }
    proof {
        assert forall|y: int| 0 <= y < s@.len() && s@[y] == '.' implies y == d1 || y == d2 || y
            == d3 by {
        }
    }
    let o0 = match read_dec_octet(s, 0, d1) {
        Some(v) => v,
        None => {
            proof {
                lemma_no_split_with_bad_octet(s@, d1 as int, d2 as int, d3 as int);
            }
            return Err(PacketError::MalformedAddress);
        },
    };
    let o1 = match read_dec_octet(s, d1 + 1, d2) {
        Some(v) => v,
        None => {
            proof {
                lemma_no_split_with_bad_octet(s@, d1 as int, d2 as int, d3 as int);
            }
            return Err(PacketError::MalformedAddress);
        },
    };
    let o2 = match read_dec_octet(s, d2 + 1, d3) {
        Some(v) => v,
        None => {
            proof {
                lemma_no_split_with_bad_octet(s@, d1 as int, d2 as int, d3 as int);
            }
            return Err(PacketError::MalformedAddress);
        },
    };
    let o3 = match read_dec_octet(s, d3 + 1, n) {
        Some(v) => v,
        None => {
            proof {
                lemma_no_split_with_bad_octet(s@, d1 as int, d2 as int, d3 as int);
            }
            return Err(PacketError::MalformedAddress);
        },
    };
    let r = [o0, o1, o2, o3];
    proof {
        assert(ipv4_split_at(s@, d1 as int, d2 as int, d3 as int));
        let (ci, cj, ck) = choose|i: int, j: int, k: int| ipv4_split_at(s@, i, j, k);
        lemma_ipv4_split_unique(s@, ci, cj, ck, d1 as int, d2 as int, d3 as int);
        assert(r@ =~= ipv4_value_of(s@));
    }
    Ok(r)
}

/// When the dots of a text stand exactly at three known positions, any
/// split of the text is at those positions; so if one of the four
/// segments they bound is no valid octet, the text is not a valid
/// IPv4 address.
proof fn lemma_no_split_with_bad_octet(s: Seq<char>, d1: int, d2: int, d3: int)
    requires
        0 <= d1 < d2 < d3 < s.len(),
        s[d1] == '.',
        s[d2] == '.',
        s[d3] == '.',
        forall|y: int| 0 <= y < s.len() && #[trigger] s[y] == '.' ==> y == d1 || y == d2 || y == d3,
        !(valid_octet_text(s.subrange(0, d1)) && valid_octet_text(s.subrange(d1 + 1, d2))
            && valid_octet_text(s.subrange(d2 + 1, d3)) && valid_octet_text(
            s.subrange(d3 + 1, s.len() as int),
        )),
    ensures
        !valid_ipv4_text(s),
{
    assert forall|a: int, b: int, c: int| !ipv4_split_at(s, a, b, c) by {
        if ipv4_split_at(s, a, b, c) {
            lemma_dot_positions(s, a, b, c, d1);
            lemma_dot_positions(s, a, b, c, d2);
            lemma_dot_positions(s, a, b, c, d3);
            assert(a == d1 && b == d2 && c == d3);
        }
    }
}

/// The canonical text of any six octets is a valid MAC address text, and
/// parsing it gives the same six octets back.
pub proof fn lemma_mac_text_round_trip(bs: Seq<u8>)
    requires
        bs.len() == 6,
    ensures
        mac_text_valid(mac_text_of(bs)),
        mac_value_of(mac_text_of(bs)) == bs,
{
    let s = mac_text_of(bs);
    assert(s.len() == 17);
    assert forall|t: int| 0 <= t < 6 implies s[3 * t] == hex_char_of(bs[t] as int / 16) && s[3 * t
        + 1] == hex_char_of(bs[t] as int % 16) by {
    }
    assert forall|i: int| 0 <= i < 17 && i % 3 != 2 implies hex_digit(#[trigger] s[i]) by {
        let t = i / 3;
        assert(i == 3 * t || i == 3 * t + 1);
        lemma_hex_char_of_reads_back(bs[t] as int / 16);
        lemma_hex_char_of_reads_back(bs[t] as int % 16);
    }
    assert forall|t: int| 0 <= t < 6 implies mac_octet_of(s, t) == bs[t] by {
        lemma_hex_char_of_reads_back(bs[t] as int / 16);
        lemma_hex_char_of_reads_back(bs[t] as int % 16);
    }
    assert(mac_value_of(s) =~= bs);
}

} // verus!
