//! The syntax of IP address literals: dotted decimal IPv4, and IPv6 in its
//! full and abbreviated forms, with or without a dotted tail.

use crate::text::chars_of;
use vstd::prelude::*;

verus! {

/// A decimal digit, or with `hex` a hexadecimal digit of either case.
pub open spec fn is_digit(c: char, hex: bool) -> bool {
    let v = c as u32;
    ||| 48 <= v <= 57
    ||| hex && 97 <= v <= 102
    ||| hex && 65 <= v <= 70
}

/// How many digits stand at `from` in a row.
pub open spec fn digits_at(s: Seq<char>, from: int, hex: bool) -> nat
    decreases s.len() - from,
{
    if from < 0 || from >= s.len() || !is_digit(s[from], hex) {
        0
    } else {
        1 + digits_at(s, from + 1, hex)
    }
}

/// The value of a decimal digit.
pub open spec fn dec_value(c: char) -> int {
    c as u32 - 48
}

/// Where the octet that starts at `from` ends: one to three decimal digits,
/// without a leading zero before another digit, and at most 255.
pub open spec fn octet_end(s: Seq<char>, from: int) -> Option<int> {
    let n = digits_at(s, from, false);
    if n == 1 {
        Some(from + 1)
    } else if n == 2 && s[from] != '0' {
        Some(from + 2)
    } else if n == 3 && s[from] != '0' && 100 * dec_value(s[from]) + 10 * dec_value(s[from + 1])
        + dec_value(s[from + 2]) <= 255 {
        Some(from + 3)
    } else {
        None
    }
}

/// Where the octet ends that follows a dot at `at`.
pub open spec fn dot_octet_end(s: Seq<char>, at: Option<int>) -> Option<int> {
    match at {
        Some(p) => if 0 <= p < s.len() && s[p] == '.' {
            octet_end(s, p + 1)
        } else {
            None
        },
        None => None,
    }
}

/// Where the dotted address that starts at `from` ends: four octets with a
/// dot between each two.
pub open spec fn ipv4_end(s: Seq<char>, from: int) -> Option<int> {
    dot_octet_end(s, dot_octet_end(s, dot_octet_end(s, octet_end(s, from))))
}

/// Where the group that starts at `from` ends: one to four hexadecimal
/// digits.
pub open spec fn group_end(s: Seq<char>, from: int) -> Option<int> {
    let n = digits_at(s, from, true);
    if 1 <= n <= 4 {
        Some(from + n)
    } else {
        None
    }
}

/// Where the next piece starts when `count` pieces have been read up to
/// `pos`: at `pos` for the first, after a colon for the others.
pub open spec fn piece_start(s: Seq<char>, pos: int, count: nat) -> Option<int> {
    if count == 0 {
        Some(pos)
    } else if 0 <= pos < s.len() && s[pos] == ':' {
        Some(pos + 1)
    } else {
        None
    }
}

/// Reads colon-separated groups from `pos` on, as many as there are and at
/// most `limit`, `count` of which are already read. A dotted address counts
/// as two groups and ends the reading. Gives the number of groups, the
/// position after the last one, and whether a dotted address was the last.
pub open spec fn groups_from(s: Seq<char>, pos: int, count: nat, limit: nat) -> (nat, int, bool)
    decreases limit - count,
{
    if count >= limit {
        (count, pos, false)
    } else {
        match piece_start(s, pos, count) {
            None => (count, pos, false),
            Some(start) => {
                if count + 1 < limit && ipv4_end(s, start) is Some {
                    (count + 2, ipv4_end(s, start)->0, true)
                } else {
                    match group_end(s, start) {
                        Some(end) => groups_from(s, end, count + 1, limit),
                        None => (count, pos, false),
                    }
                }
            },
        }
    }
}

/// The whole text is a dotted IPv4 address.
pub open spec fn is_ipv4_address(s: Seq<char>) -> bool {
    ipv4_end(s, 0) == Some(s.len() as int)
}

/// The whole text is an IPv6 address: eight groups, or fewer with one
/// double colon that stands for the missing ones. A dotted address may only
/// stand at the very end.
pub open spec fn is_ipv6_address(s: Seq<char>) -> bool {
    let (head, pos, dotted) = groups_from(s, 0, 0, 8);
    if head == 8 {
        pos == s.len()
    } else if dotted {
        false
    } else if 0 <= pos && pos + 1 < s.len() && s[pos] == ':' && s[pos + 1] == ':' {
        groups_from(s, pos + 2, 0, (7 - head) as nat).1 == s.len()
    } else {
        false
    }
}

/// The text is an IP address literal of either family.
pub open spec fn is_ip_address(s: Seq<char>) -> bool {
    is_ipv4_address(s) || is_ipv6_address(s)
}

/// A dotted address has at least seven and at most fifteen characters.
pub proof fn ipv4_address_length(s: Seq<char>)
    requires
        is_ipv4_address(s),
    ensures
        7 <= s.len() <= 15,
{
}

/// A text that holds neither a dot nor a colon is no address.
pub proof fn address_has_a_separator(s: Seq<char>)
    requires
        forall|i: int| 0 <= i < s.len() ==> s[i] != '.' && s[i] != ':',
    ensures
        !is_ip_address(s),
{
    reveal_with_fuel(groups_from, 3);
}

/// A position seen as a mathematical integer.
pub open spec fn position(at: Option<usize>) -> Option<int> {
    match at {
        Some(p) => Some(p as int),
        None => None,
    }
}

fn digit_char(c: char, hex: bool) -> (r: bool)
    ensures
        r == is_digit(c, hex),
{
    let v: u32 = c as u32;
    (48 <= v && v <= 57) || (hex && 97 <= v && v <= 102) || (hex && 65 <= v && v <= 70)
}

fn count_digits(cs: &Vec<char>, from: usize, hex: bool) -> (n: usize)
    requires
        from <= cs@.len(),
    ensures
        n == digits_at(cs@, from as int, hex),
        from + n <= cs@.len() <= usize::MAX,
{
    let mut i: usize = from;
    while i < cs.len() && digit_char(cs[i], hex)
        invariant
            from <= i <= cs@.len(),
            digits_at(cs@, from as int, hex) == (i - from) + digits_at(cs@, i as int, hex),
        decreases cs@.len() - i,
    {
        i = i + 1;
    }
    i - from
}

fn read_octet(cs: &Vec<char>, from: usize) -> (end: Option<usize>)
    requires
        from <= cs@.len(),
    ensures
        position(end) == octet_end(cs@, from as int),
        end matches Some(e) ==> from < e <= cs@.len(),
{
    let n = count_digits(cs, from, false);
    if n == 1 {
        return Some(from + 1);
    }
    if n < 2 || n > 3 || cs[from] == '0' {
        return None;
    }
    if n == 2 {
        return Some(from + 2);
    }
    assert(digits_at(cs@, from as int, false) == 3);
    assert(is_digit(cs@[from as int], false));
    assert(digits_at(cs@, from + 1, false) == 2);
    assert(is_digit(cs@[from + 1], false));
    assert(digits_at(cs@, from + 2, false) == 1);
    assert(is_digit(cs@[from + 2], false));
    let d0: u32 = (cs[from] as u32) - 48;
    let d1: u32 = (cs[from + 1] as u32) - 48;
    let d2: u32 = (cs[from + 2] as u32) - 48;
    if 100 * d0 + 10 * d1 + d2 <= 255 {
        Some(from + 3)
    } else {
        None
    }
}

fn read_dot_octet(cs: &Vec<char>, at: Option<usize>) -> (end: Option<usize>)
    requires
        at matches Some(p) ==> p <= cs@.len(),
    ensures
        position(end) == dot_octet_end(cs@, position(at)),
        end matches Some(e) ==> e <= cs@.len(),
{
    match at {
        Some(p) => {
            if p < cs.len() && cs[p] == '.' {
                read_octet(cs, p + 1)
            } else {
                None
            }
        },
        None => None,
    }
}

fn read_ipv4(cs: &Vec<char>, from: usize) -> (end: Option<usize>)
    requires
        from <= cs@.len(),
    ensures
        position(end) == ipv4_end(cs@, from as int),
        end matches Some(e) ==> e <= cs@.len(),
{
    let first = read_octet(cs, from);
    let second = read_dot_octet(cs, first);
    let third = read_dot_octet(cs, second);
    read_dot_octet(cs, third)
}

fn read_group(cs: &Vec<char>, from: usize) -> (end: Option<usize>)
    requires
        from <= cs@.len(),
    ensures
        position(end) == group_end(cs@, from as int),
        end matches Some(e) ==> e <= cs@.len(),
{
    let n = count_digits(cs, from, true);
    if 1 <= n && n <= 4 {
        Some(from + n)
    } else {
        None
    }
}

fn read_groups(cs: &Vec<char>, from: usize, limit: usize) -> (r: (usize, usize, bool))
    requires
        from <= cs@.len(),
        limit <= 8,
    ensures
        (r.0 as nat, r.1 as int, r.2) == groups_from(cs@, from as int, 0, limit as nat),
        r.0 <= limit,
        r.1 <= cs@.len(),
{
    let mut count: usize = 0;
    let mut pos: usize = from;
    while count < limit
        invariant
            count <= limit <= 8,
            pos <= cs@.len(),
            groups_from(cs@, from as int, 0, limit as nat) == groups_from(
                cs@,
                pos as int,
                count as nat,
                limit as nat,
            ),
        decreases limit - count,
    {
        let start = if count == 0 {
            pos
        } else if pos < cs.len() && cs[pos] == ':' {
            pos + 1
        } else {
            return (count, pos, false);
        };
        assert(piece_start(cs@, pos as int, count as nat) == Some(start as int));
        if count + 1 < limit {
            match read_ipv4(cs, start) {
                Some(end) => {
                    return (count + 2, end, true);
                },
                None => {},
            }
        }
        match read_group(cs, start) {
            Some(end) => {
                pos = end;
                count = count + 1;
            },
            None => {
                return (count, pos, false);
            },
        }
    }
    (count, pos, false)
}

/// Whether the whole text is a dotted IPv4 address.
pub fn is_ipv4_literal(text: &str) -> (r: bool)
    ensures
        r == is_ipv4_address(text@),
{
    let cs = chars_of(text);
    match read_ipv4(&cs, 0) {
        Some(end) => end == cs.len(),
        None => false,
    }
}

/// Whether the whole text is an IPv6 address.
pub fn is_ipv6_literal(text: &str) -> (r: bool)
    ensures
        r == is_ipv6_address(text@),
{
    let cs = chars_of(text);
    let (head, pos, dotted) = read_groups(&cs, 0, 8);
    if head == 8 {
        return pos == cs.len();
    }
    if dotted {
        return false;
    }
    if pos < cs.len() && pos + 1 < cs.len() && cs[pos] == ':' && cs[pos + 1] == ':' {
        let (_, end, _) = read_groups(&cs, pos + 2, 7 - head);
        end == cs.len()
    } else {
        false
    }
}

/// Whether the text is an IP address literal of either family.
pub fn is_ip_literal(text: &str) -> (r: bool)
    ensures
        r == is_ip_address(text@),
{
    is_ipv4_literal(text) || is_ipv6_literal(text)
}

} // verus!
