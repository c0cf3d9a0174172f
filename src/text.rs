use vstd::prelude::*;
use vstd::string::StringSliceAdditionalSpecFns;

use crate::addr::{Ipv4Addr, Ipv6Addr};
use crate::socket::{SocketAddr, SocketAddrV4, SocketAddrV6};

verus! {

/// Text that is not an address literal of the expected family.
#[derive(Clone, Copy, PartialEq, Eq, Structural, Debug, Hash)]
pub struct FormatError;

pub open spec fn is_digit(c: u8) -> bool {
    48 <= c <= 57
}

/// The number written by a run of decimal digits.
pub open spec fn decimal_value(s: Seq<u8>) -> nat
    decreases s.len(),
{
    if s.len() == 0 {
        0
    } else {
        decimal_value(s.drop_last()) * 10 + (s.last() - 48) as nat
    }
}

/// One to three digits, no leading zero, at most 255.
pub open spec fn is_octet_field(s: Seq<u8>) -> bool {
    &&& 1 <= s.len() <= 3
    &&& forall|i: int| 0 <= i < s.len() ==> is_digit(#[trigger] s[i])
    &&& (s.len() == 1 || s[0] != 48u8)
    &&& decimal_value(s) <= 255
}

/// The pieces of `s` between occurrences of `sep`, in order; there is always
/// at least one.
pub open spec fn split_on(s: Seq<u8>, sep: u8) -> Seq<Seq<u8>>
    decreases s.len(),
{
    if s.len() == 0 {
        seq![Seq::empty()]
    } else {
        let init = split_on(s.drop_last(), sep);
        if s.last() == sep {
            init.push(Seq::empty())
        } else {
            init.update(init.len() - 1, init.last().push(s.last()))
        }
    }
}

/// The address written in dotted-decimal form by `s`: four octet fields
/// separated by three dots and nothing else.
pub open spec fn ipv4_from_text(s: Seq<u8>) -> Result<Ipv4Addr, FormatError> {
    let p = split_on(s, 46u8);
    if p.len() == 4 && (forall|k: int| 0 <= k < 4 ==> is_octet_field(#[trigger] p[k])) {
        Ok(
            Ipv4Addr::spec_from_octets(
                seq![
                    decimal_value(p[0]) as u8,
                    decimal_value(p[1]) as u8,
                    decimal_value(p[2]) as u8,
                    decimal_value(p[3]) as u8,
                ],
            ),
        )
    } else {
        Err(FormatError)
    }
}

proof fn lemma_split_nonempty(s: Seq<u8>, sep: u8)
    ensures
        split_on(s, sep).len() >= 1,
    decreases s.len(),
{
    if s.len() > 0 {
        lemma_split_nonempty(s.drop_last(), sep);
    }
}

/// The value of the octet field `s[start..end]`, if it is one.
fn octet_field(s: &[u8], start: usize, end: usize) -> (r: Option<u8>)
    requires
        start <= end <= s@.len(),
    ensures
        r is Some <==> is_octet_field(s@.subrange(start as int, end as int)),
        r matches Some(v) ==> v == decimal_value(s@.subrange(start as int, end as int)),
{
    let ghost f = s@.subrange(start as int, end as int);
    if end - start < 1 || end - start > 3 {
        return None;
    }
    if end - start > 1 && s[start] == 48u8 {
        return None;
    }
    let mut acc: u32 = 0;
    let mut j: usize = start;
    while j < end
        invariant
            start <= j <= end,
            end - start <= 3,
            f == s@.subrange(start as int, end as int),
            end <= s@.len(),
            forall|i: int| 0 <= i < j - start ==> is_digit(#[trigger] f[i]),
            acc == decimal_value(f.take(j - start)),
            acc < 1000,
            j - start == 0 ==> acc == 0,
            j - start == 1 ==> acc < 10,
            j - start == 2 ==> acc < 100,
        decreases end - j,
    {
        let c = s[j];
        if c < 48u8 || c > 57u8 {
            assert(!is_digit(f[j - start]));
            return None;
        }
        proof {
            assert(f.take(j - start + 1).drop_last() =~= f.take(j - start));
        }
        acc = acc * 10 + (c - 48u8) as u32;
        j += 1;
    }
    assert(f.take(end - start) =~= f);
    if acc > 255 {
        None
    } else {
        Some(acc as u8)
    }
}

/// Parses a dotted-decimal IPv4 address.
pub fn parse_ipv4(s: &[u8]) -> (r: Result<Ipv4Addr, FormatError>)
    ensures
        r == ipv4_from_text(s@),
{
    assert(s@.subrange(0, s@.len() as int) =~= s@);
    parse_ipv4_in(s, 0, s.len())
}

/// Parses the dotted-decimal IPv4 address written in `s[from..to]`.
fn parse_ipv4_in(s: &[u8], from: usize, to: usize) -> (r: Result<Ipv4Addr, FormatError>)
    requires
        from <= to <= s@.len(),
    ensures
        r == ipv4_from_text(s@.subrange(from as int, to as int)),
{
    let ghost t = s@.subrange(from as int, to as int);
    let mut vals: Vec<u8> = Vec::new();
    let mut all_ok = true;
    let mut start: usize = from;
    let mut i: usize = from;
    let ghost mut done: Seq<Seq<u8>> = Seq::empty();
    assert(t.take(0) =~= Seq::<u8>::empty());
    assert(done.push(s@.subrange(from as int, from as int)) =~~= split_on(Seq::<u8>::empty(), 46u8));
    while i < to
        invariant
            from <= start <= i <= to <= s@.len(),
            t == s@.subrange(from as int, to as int),
            split_on(t.take(i - from), 46u8) == done.push(s@.subrange(start as int, i as int)),
            vals@.len() == done.len(),
            all_ok <==> forall|k: int| 0 <= k < done.len() ==> is_octet_field(#[trigger] done[k]),
            forall|k: int|
                0 <= k < done.len() && is_octet_field(#[trigger] done[k]) ==> vals@[k]
                    == decimal_value(done[k]),
        decreases to - i,
    {
        proof {
            assert(t.take(i - from + 1).drop_last() =~= t.take(i - from));
            lemma_split_nonempty(t.take(i - from), 46u8);
        }
        if s[i] == 46u8 {
            let f = octet_field(s, start, i);
            let ghost old_done = done;
            proof {
                assert(split_on(t.take(i - from + 1), 46u8) =~= done.push(
                    s@.subrange(start as int, i as int),
                ).push(Seq::empty()));
                done = done.push(s@.subrange(start as int, i as int));
            }
            match f {
                Some(v) => vals.push(v),
                None => {
                    vals.push(0);
                    all_ok = false;
                },
            }
            assert(forall|k: int| 0 <= k < old_done.len() ==> done[k] == old_done[k]);
            assert(done[old_done.len() as int] == s@.subrange(start as int, i as int));
            start = i + 1;
            assert(s@.subrange(start as int, i + 1) =~= Seq::<u8>::empty());
        } else {
            proof {
                assert(s@.subrange(start as int, i as int).push(s@[i as int]) =~= s@.subrange(
                    start as int,
                    i + 1,
                ));
                assert(split_on(t.take(i - from + 1), 46u8) =~= done.push(
                    s@.subrange(start as int, i + 1),
                ));
            }
        }
        i += 1;
    }
    assert(t.take(to - from) =~= t);
    let last = octet_field(s, start, to);
    let ghost p = split_on(t, 46u8);
    if all_ok && vals.len() == 3 {
        if let Some(v) = last {
            assert(is_octet_field(p[0]) && is_octet_field(p[1]) && is_octet_field(p[2]));
            assert(seq![vals[0], vals[1], vals[2], v] =~= seq![
                decimal_value(p[0]) as u8,
                decimal_value(p[1]) as u8,
                decimal_value(p[2]) as u8,
                decimal_value(p[3]) as u8,
            ]);
            let r = Ipv4Addr::from_octets([vals[0], vals[1], vals[2], v]);
            return Ok(r);
        }
        assert(!is_octet_field(p[3]));
    } else if vals.len() == 3 {
        let ghost k = choose|k: int| 0 <= k < done.len() && !is_octet_field(#[trigger] done[k]);
        assert(!is_octet_field(p[k]));
    }
    Err(FormatError)
}

pub open spec fn is_hex_digit(c: u8) -> bool {
    is_digit(c) || (97 <= c <= 102) || (65 <= c <= 70)
}

pub open spec fn hex_digit_value(c: u8) -> nat {
    if is_digit(c) {
        (c - 48) as nat
    } else if 97 <= c <= 102 {
        (c - 87) as nat
    } else {
        (c - 55) as nat
    }
}

/// The number written by a run of hexadecimal digits.
pub open spec fn hex_value(s: Seq<u8>) -> nat
    decreases s.len(),
{
    if s.len() == 0 {
        0
    } else {
        hex_value(s.drop_last()) * 16 + hex_digit_value(s.last())
    }
}

/// One to four hexadecimal digits, either case.
pub open spec fn is_hex_group(s: Seq<u8>) -> bool {
    &&& 1 <= s.len() <= 4
    &&& forall|i: int| 0 <= i < s.len() ==> is_hex_digit(#[trigger] s[i])
}

/// The 16-bit groups written by `s`: nothing, or groups of hexadecimal digits
/// separated by colons, the last of which may instead be a dotted-decimal IPv4
/// address that stands for two groups.
pub open spec fn group_list(s: Seq<u8>) -> Option<Seq<u16>> {
    if s.len() == 0 {
        Some(Seq::empty())
    } else {
        let p = split_on(s, 58u8);
        let n = p.len();
        let init = Seq::new((n - 1) as nat, |k: int| hex_value(p[k]) as u16);
        if !(forall|k: int| 0 <= k < n - 1 ==> is_hex_group(#[trigger] p[k])) {
            None
        } else if is_hex_group(p[n - 1]) {
            Some(init.push(hex_value(p[n - 1]) as u16))
        } else {
            match ipv4_from_text(p[n - 1]) {
                Ok(a) => Some(init.push((a.bits >> 16u32) as u16).push(a.bits as u16)),
                Err(_) => None,
            }
        }
    }
}

/// Whether the last group of a group list is written as an IPv4 address.
pub open spec fn ends_in_ipv4(s: Seq<u8>) -> bool {
    s.len() > 0 && !is_hex_group(split_on(s, 58u8).last())
}

/// Where the first `::` at or after `i` starts.
pub open spec fn double_colon_at(s: Seq<u8>, i: int) -> Option<int>
    decreases s.len() - i,
{
    if i < 0 || i + 1 >= s.len() {
        None
    } else if s[i] == 58u8 && s[i + 1] == 58u8 {
        Some(i)
    } else {
        double_colon_at(s, i + 1)
    }
}

/// The address whose eight groups, most significant first, are `g`.
pub open spec fn from_segments(g: Seq<u16>) -> Ipv6Addr {
    Ipv6Addr { bits: (g[0] as u128) << 112u128 | (g[1] as u128) << 96u128 | (g[2] as u128) << 80u128 | (g[3] as u128) << 64u128 | (g[4] as u128) << 48u128 | (g[5] as u128) << 32u128 | (g[6] as u128) << 16u128 | (g[7] as u128) << 0u128 }
}

/// The address written by `s`: eight groups; or groups, `::`, groups, where
/// `::` stands for one or more zero groups, the groups before it do not end
/// in an IPv4 address, and `::` occurs once.
pub open spec fn ipv6_from_text(s: Seq<u8>) -> Result<Ipv6Addr, FormatError> {
    match double_colon_at(s, 0) {
        None => match group_list(s) {
            Some(g) => if g.len() == 8 {
                Ok(from_segments(g))
            } else {
                Err(FormatError)
            },
            None => Err(FormatError),
        },
        Some(p) => {
            let h = s.subrange(0, p);
            let t = s.subrange(p + 2, s.len() as int);
            match (group_list(h), group_list(t)) {
                (Some(hg), Some(tg)) => if !ends_in_ipv4(h) && hg.len() + tg.len() <= 7 {
                    Ok(
                        from_segments(
                            hg + Seq::new((8 - hg.len() - tg.len()) as nat, |k: int| 0u16) + tg,
                        ),
                    )
                } else {
                    Err(FormatError)
                },
                _ => Err(FormatError),
            }
        },
    }
}

/// The value of the hexadecimal group `s[start..end]`, if it is one.
fn hex_group(s: &[u8], start: usize, end: usize) -> (r: Option<u16>)
    requires
        start <= end <= s@.len(),
    ensures
        r is Some <==> is_hex_group(s@.subrange(start as int, end as int)),
        r matches Some(v) ==> v == hex_value(s@.subrange(start as int, end as int)),
{
    let ghost f = s@.subrange(start as int, end as int);
    if end - start < 1 || end - start > 4 {
        return None;
    }
    let mut acc: u32 = 0;
    let mut j: usize = start;
    while j < end
        invariant
            start <= j <= end,
            end - start <= 4,
            f == s@.subrange(start as int, end as int),
            end <= s@.len(),
            forall|i: int| 0 <= i < j - start ==> is_hex_digit(#[trigger] f[i]),
            acc == hex_value(f.take(j - start)),
            j - start == 0 ==> acc == 0,
            j - start == 1 ==> acc < 16,
            j - start == 2 ==> acc < 256,
            j - start == 3 ==> acc < 4096,
            acc < 65536,
        decreases end - j,
    {
        let c = s[j];
        let d: u32 = if 48u8 <= c && c <= 57u8 {
            (c - 48u8) as u32
        } else if 97u8 <= c && c <= 102u8 {
            (c - 87u8) as u32
        } else if 65u8 <= c && c <= 70u8 {
            (c - 55u8) as u32
        } else {
            assert(!is_hex_digit(f[j - start]));
            return None;
        };
        proof {
            assert(f.take(j - start + 1).drop_last() =~= f.take(j - start));
        }
        acc = acc * 16 + d;
        j += 1;
    }
    assert(f.take(end - start) =~= f);
    Some(acc as u16)
}

/// Reads the group list written in `s[from..to]`, and whether it ends in an
/// IPv4 address.
fn parse_groups(s: &[u8], from: usize, to: usize) -> (r: Option<(Vec<u16>, bool)>)
    requires
        from <= to <= s@.len(),
    ensures
        match r {
            Some((g, v4)) => group_list(s@.subrange(from as int, to as int)) == Some(g@) && v4
                == ends_in_ipv4(s@.subrange(from as int, to as int)),
            None => group_list(s@.subrange(from as int, to as int)) is None,
        },
{
    let ghost t = s@.subrange(from as int, to as int);
    if from == to {
        return Some((Vec::new(), false));
    }
    let mut vals: Vec<u16> = Vec::new();
    let mut all_ok = true;
    let mut start: usize = from;
    let mut i: usize = from;
    let ghost mut done: Seq<Seq<u8>> = Seq::empty();
    assert(t.take(0) =~= Seq::<u8>::empty());
    assert(done.push(s@.subrange(from as int, from as int)) =~~= split_on(Seq::<u8>::empty(), 58u8));
    while i < to
        invariant
            from <= start <= i <= to <= s@.len(),
            t == s@.subrange(from as int, to as int),
            split_on(t.take(i - from), 58u8) == done.push(s@.subrange(start as int, i as int)),
            vals@.len() == done.len(),
            all_ok <==> forall|k: int| 0 <= k < done.len() ==> is_hex_group(#[trigger] done[k]),
            forall|k: int|
                0 <= k < done.len() && is_hex_group(#[trigger] done[k]) ==> vals@[k] == hex_value(
                    done[k],
                ) as u16,
        decreases to - i,
    {
        proof {
            assert(t.take(i - from + 1).drop_last() =~= t.take(i - from));
            lemma_split_nonempty(t.take(i - from), 58u8);
        }
        if s[i] == 58u8 {
            let f = hex_group(s, start, i);
            let ghost old_done = done;
            proof {
                assert(split_on(t.take(i - from + 1), 58u8) =~= done.push(
                    s@.subrange(start as int, i as int),
                ).push(Seq::empty()));
                done = done.push(s@.subrange(start as int, i as int));
            }
            match f {
                Some(v) => vals.push(v),
                None => {
                    vals.push(0);
                    all_ok = false;
                },
            }
            assert(forall|k: int| 0 <= k < old_done.len() ==> done[k] == old_done[k]);
            assert(done[old_done.len() as int] == s@.subrange(start as int, i as int));
            start = i + 1;
            assert(s@.subrange(start as int, i + 1) =~= Seq::<u8>::empty());
        } else {
            proof {
                assert(s@.subrange(start as int, i as int).push(s@[i as int]) =~= s@.subrange(
                    start as int,
                    i + 1,
                ));
                assert(split_on(t.take(i - from + 1), 58u8) =~= done.push(
                    s@.subrange(start as int, i + 1),
                ));
            }
        }
        i += 1;
    }
    assert(t.take(to - from) =~= t);
    let ghost p = split_on(t, 58u8);
    let ghost n = p.len();
    assert(p =~= done.push(s@.subrange(start as int, to as int)));
    if !all_ok {
        let ghost k = choose|k: int| 0 <= k < done.len() && !is_hex_group(#[trigger] done[k]);
        assert(!is_hex_group(p[k]));
        return None;
    }
    let ghost init = Seq::new((n - 1) as nat, |k: int| hex_value(p[k]) as u16);
    assert(vals@ =~= init);
    match hex_group(s, start, to) {
        Some(v) => {
            vals.push(v);
            Some((vals, false))
        },
        None => match parse_ipv4_in(s, start, to) {
            Ok(a) => {
                vals.push((a.bits >> 16u32) as u16);
                vals.push(a.bits as u16);
                Some((vals, true))
            },
            Err(_) => None,
        },
    }
}

/// Where the first `::` in `s[from..to]` starts, if anywhere.
fn find_double_colon_in(s: &[u8], from: usize, to: usize) -> (r: Option<usize>)
    requires
        from <= to <= s@.len(),
    ensures
        r matches Some(p) ==> from <= p && p + 2 <= to && double_colon_at(
            s@.subrange(from as int, to as int),
            0,
        ) == Some(p - from),
        r is None ==> double_colon_at(s@.subrange(from as int, to as int), 0) is None,
{
    let ghost t = s@.subrange(from as int, to as int);
    let mut i: usize = from;
    while to > 1 && i < to - 1
        invariant
            from <= i <= to <= s@.len(),
            t == s@.subrange(from as int, to as int),
            double_colon_at(t, 0) == double_colon_at(t, i - from),
        decreases to - i,
    {
        if s[i] == 58u8 && s[i + 1] == 58u8 {
            return Some(i);
        }
        i += 1;
    }
    None
}

/// The address whose groups are `g`.
fn from_groups(g: &Vec<u16>) -> (r: Ipv6Addr)
    requires
        g@.len() == 8,
    ensures
        r == from_segments(g@),
{
    Ipv6Addr { bits: (g[0] as u128) << 112u128 | (g[1] as u128) << 96u128 | (g[2] as u128) << 80u128 | (g[3] as u128) << 64u128 | (g[4] as u128) << 48u128 | (g[5] as u128) << 32u128 | (g[6] as u128) << 16u128 | (g[7] as u128) << 0u128 }
}

/// Parses an IPv6 address in colon-hexadecimal form.
pub fn parse_ipv6(s: &[u8]) -> (r: Result<Ipv6Addr, FormatError>)
    ensures
        r == ipv6_from_text(s@),
{
    assert(s@.subrange(0, s@.len() as int) =~= s@);
    parse_ipv6_in(s, 0, s.len())
}

/// Parses the IPv6 address written in `s[from..to]`.
fn parse_ipv6_in(s: &[u8], from: usize, to: usize) -> (r: Result<Ipv6Addr, FormatError>)
    requires
        from <= to <= s@.len(),
    ensures
        r == ipv6_from_text(s@.subrange(from as int, to as int)),
{
    let ghost t = s@.subrange(from as int, to as int);
    match find_double_colon_in(s, from, to) {
        None => {
            match parse_groups(s, from, to) {
                Some((g, _)) => if g.len() == 8 {
                    Ok(from_groups(&g))
                } else {
                    Err(FormatError)
                },
                None => Err(FormatError),
            }
        },
        Some(p) => {
            assert(t.subrange(0, p - from) =~= s@.subrange(from as int, p as int));
            assert(t.subrange(p - from + 2, t.len() as int) =~= s@.subrange(p + 2, to as int));
            let head = parse_groups(s, from, p);
            let tail = parse_groups(s, p + 2, to);
            match (head, tail) {
                (Some((hg, hv4)), Some((tg, _))) => {
                    if hv4 || hg.len() > 7 || tg.len() > 7 - hg.len() {
                        return Err(FormatError);
                    }
                    let zeros: usize = 8 - hg.len() - tg.len();
                    let mut g: Vec<u16> = Vec::new();
                    let mut k: usize = 0;
                    while k < hg.len()
                        invariant
                            k <= hg@.len(),
                            g@ == hg@.take(k as int),
                        decreases hg@.len() - k,
                    {
                        g.push(hg[k]);
                        k += 1;
                        assert(g@ =~= hg@.take(k as int));
                    }
                    let ghost z = Seq::new(zeros as nat, |j: int| 0u16);
                    k = 0;
                    assert(g@ =~= hg@ + z.take(0));
                    while k < zeros
                        invariant
                            k <= zeros,
                            z == Seq::new(zeros as nat, |j: int| 0u16),
                            g@ == hg@ + z.take(k as int),
                        decreases zeros - k,
                    {
                        g.push(0);
                        k += 1;
                        assert(g@ =~= hg@ + z.take(k as int));
                    }
                    k = 0;
                    assert(g@ =~= hg@ + z + tg@.take(0));
                    while k < tg.len()
                        invariant
                            k <= tg@.len(),
                            g@ == hg@ + z + tg@.take(k as int),
                        decreases tg@.len() - k,
                    {
                        g.push(tg[k]);
                        k += 1;
                        assert(g@ =~= hg@ + z + tg@.take(k as int));
                    }
                    assert(tg@.take(tg@.len() as int) =~= tg@);
                    Ok(from_groups(&g))
                },
                _ => Err(FormatError),
            }
        },
    }
}

impl Ipv6Addr {
    /// Parses an IPv6 address from text.
    pub fn parse(s: &str) -> (r: Result<Ipv6Addr, FormatError>)
        ensures
            r == ipv6_from_text(s.spec_bytes()),
    {
        parse_ipv6(s.as_bytes())
    }
}

impl core::str::FromStr for Ipv6Addr {
    type Err = FormatError;

    fn from_str(s: &str) -> Result<Ipv6Addr, FormatError> {
        Ipv6Addr::parse(s)
    }
}

impl Ipv4Addr {
    /// Parses a dotted-decimal IPv4 address from text.
    pub fn parse(s: &str) -> (r: Result<Ipv4Addr, FormatError>)
        ensures
            r == ipv4_from_text(s.spec_bytes()),
    {
        parse_ipv4(s.as_bytes())
    }
}

impl core::str::FromStr for Ipv4Addr {
    type Err = FormatError;

    fn from_str(s: &str) -> Result<Ipv4Addr, FormatError> {
        Ipv4Addr::parse(s)
    }
}

/// One or more decimal digits, leading zeros allowed.
pub open spec fn is_decimal_run(s: Seq<u8>) -> bool {
    &&& s.len() >= 1
    &&& forall|i: int| 0 <= i < s.len() ==> is_digit(#[trigger] s[i])
}

/// Where the first `c` at or after `i` stands.
pub open spec fn index_of(s: Seq<u8>, c: u8, i: int) -> Option<int>
    decreases s.len() - i,
{
    if i < 0 || i >= s.len() {
        None
    } else if s[i] == c {
        Some(i)
    } else {
        index_of(s, c, i + 1)
    }
}

/// The port written by `s`: decimal digits whose value fits 16 bits.
pub open spec fn port_from_text(s: Seq<u8>) -> Option<u16> {
    if is_decimal_run(s) && decimal_value(s) <= 0xffff {
        Some(decimal_value(s) as u16)
    } else {
        None
    }
}

/// `address:port`, with a dotted-decimal address.
pub open spec fn socket_v4_from_text(s: Seq<u8>) -> Result<SocketAddrV4, FormatError> {
    match index_of(s, 58u8, 0) {
        Some(c) => match (ipv4_from_text(s.subrange(0, c)), port_from_text(s.subrange(c + 1, s.len() as int))) {
            (Ok(ip), Some(port)) => Ok(SocketAddrV4 { ip, port }),
            _ => Err(FormatError),
        },
        None => Err(FormatError),
    }
}

/// What stands between the brackets of a v6 socket address: an address, or an
/// address, `%` and a decimal scope id that fits 32 bits.
pub open spec fn scoped_ipv6_from_text(inner: Seq<u8>, port: u16) -> Result<SocketAddrV6, FormatError> {
    match index_of(inner, 37u8, 0) {
        None => match ipv6_from_text(inner) {
            Ok(ip) => Ok(SocketAddrV6 { ip, port, flowinfo: 0, scope_id: 0 }),
            Err(e) => Err(e),
        },
        Some(m) => {
            let scope = inner.subrange(m + 1, inner.len() as int);
            if is_decimal_run(scope) && decimal_value(scope) <= 0xffff_ffff {
                match ipv6_from_text(inner.subrange(0, m)) {
                    Ok(ip) => Ok(
                        SocketAddrV6 { ip, port, flowinfo: 0, scope_id: decimal_value(scope) as u32 },
                    ),
                    Err(e) => Err(e),
                }
            } else {
                Err(FormatError)
            }
        },
    }
}

/// `[address]:port` or `[address%scope]:port`; the flow label is zero.
pub open spec fn socket_v6_from_text(s: Seq<u8>) -> Result<SocketAddrV6, FormatError> {
    match index_of(s, 93u8, 0) {
        Some(q) => match port_from_text(s.subrange(q + 2, s.len() as int)) {
            Some(port) => if s[0] != 91u8 || q + 1 >= s.len() || s[q + 1] != 58u8 {
                Err(FormatError)
            } else {
                scoped_ipv6_from_text(s.subrange(1, q), port)
            },
            None => Err(FormatError),
        },
        None => Err(FormatError),
    }
}

/// Either form of socket address.
pub open spec fn socket_from_text(s: Seq<u8>) -> Result<SocketAddr, FormatError> {
    match socket_v4_from_text(s) {
        Ok(a) => Ok(SocketAddr::V4(a)),
        Err(_) => match socket_v6_from_text(s) {
            Ok(a) => Ok(SocketAddr::V6(a)),
            Err(e) => Err(e),
        },
    }
}

/// The value of the decimal run `s[from..to]` if it is one and at most `limit`.
fn decimal_in(s: &[u8], from: usize, to: usize, limit: u64) -> (r: Option<u64>)
    requires
        from <= to <= s@.len(),
        limit <= 0xffff_ffff,
    ensures
        r is Some <==> is_decimal_run(s@.subrange(from as int, to as int)) && decimal_value(
            s@.subrange(from as int, to as int),
        ) <= limit,
        r matches Some(v) ==> v == decimal_value(s@.subrange(from as int, to as int)),
{
    let ghost f = s@.subrange(from as int, to as int);
    if from == to {
        return None;
    }
    let mut acc: u64 = 0;
    let mut j: usize = from;
    while j < to
        invariant
            from <= j <= to <= s@.len(),
            limit <= 0xffff_ffff,
            f == s@.subrange(from as int, to as int),
            forall|i: int| 0 <= i < j - from ==> is_digit(#[trigger] f[i]),
            acc == if decimal_value(f.take(j - from)) <= limit {
                decimal_value(f.take(j - from)) as int
            } else {
                limit + 1
            },
        decreases to - j,
    {
        let c = s[j];
        if c < 48u8 || c > 57u8 {
            assert(!is_digit(f[j - from]));
            return None;
        }
        let ghost v = decimal_value(f.take(j - from));
        proof {
            assert(f.take(j - from + 1).drop_last() =~= f.take(j - from));
            assert(decimal_value(f.take(j - from + 1)) == v * 10 + (c - 48) as nat);
            if v > limit {
                assert(v * 10 + (c - 48) as nat > limit) by (nonlinear_arith)
                    requires
                        v > limit,
                ;
            }
        }
        let next: u64 = acc * 10 + (c - 48u8) as u64;
        acc = if next > limit {
            limit + 1
        } else {
            next
        };
        j += 1;
    }
    assert(f.take(to - from) =~= f);
    if acc > limit {
        None
    } else {
        Some(acc)
    }
}

/// Where the first `c` in `s[from..to]` stands, counted from `from`.
fn find_in(s: &[u8], c: u8, from: usize, to: usize) -> (r: Option<usize>)
    requires
        from <= to <= s@.len(),
    ensures
        r matches Some(k) ==> from <= k < to && s@[k as int] == c && index_of(
            s@.subrange(from as int, to as int),
            c,
            0,
        ) == Some(k - from),
        r is None ==> index_of(s@.subrange(from as int, to as int), c, 0) is None,
{
    let ghost t = s@.subrange(from as int, to as int);
    let mut i: usize = from;
    while i < to
        invariant
            from <= i <= to <= s@.len(),
            t == s@.subrange(from as int, to as int),
            index_of(t, c, 0) == index_of(t, c, i - from),
        decreases to - i,
    {
        if s[i] == c {
            return Some(i);
        }
        i += 1;
    }
    None
}

/// Parses `address:port` with a dotted-decimal address.
pub fn parse_socket_v4(s: &[u8]) -> (r: Result<SocketAddrV4, FormatError>)
    ensures
        r == socket_v4_from_text(s@),
{
    assert(s@.subrange(0, s@.len() as int) =~= s@);
    match find_in(s, 58u8, 0, s.len()) {
        None => Err(FormatError),
        Some(c) => {
            let ip = parse_ipv4_in(s, 0, c);
            let port = decimal_in(s, c + 1, s.len(), 0xffff);
            match (ip, port) {
                (Ok(ip), Some(port)) => Ok(SocketAddrV4 { ip, port: port as u16 }),
                _ => Err(FormatError),
            }
        },
    }
}

/// Reads `s[from..to]` as the bracketed part of a v6 socket address.
fn parse_scoped_ipv6(s: &[u8], from: usize, to: usize, port: u16) -> (r: Result<
    SocketAddrV6,
    FormatError,
>)
    requires
        from <= to <= s@.len(),
    ensures
        r == scoped_ipv6_from_text(s@.subrange(from as int, to as int), port),
{
    let ghost inner = s@.subrange(from as int, to as int);
    match find_in(s, 37u8, from, to) {
        None => match parse_ipv6_in(s, from, to) {
            Ok(ip) => Ok(SocketAddrV6 { ip, port, flowinfo: 0, scope_id: 0 }),
            Err(e) => Err(e),
        },
        Some(m) => {
            assert(inner.subrange(m - from + 1, inner.len() as int) =~= s@.subrange(
                m + 1,
                to as int,
            ));
            assert(inner.subrange(0, m - from) =~= s@.subrange(from as int, m as int));
            let scope = match decimal_in(s, m + 1, to, 0xffff_ffff) {
                None => {
                    return Err(FormatError);
                },
                Some(v) => v as u32,
            };
            match parse_ipv6_in(s, from, m) {
                Ok(ip) => Ok(SocketAddrV6 { ip, port, flowinfo: 0, scope_id: scope }),
                Err(e) => Err(e),
            }
        },
    }
}

/// Parses `[address]:port` or `[address%scope]:port`.
pub fn parse_socket_v6(s: &[u8]) -> (r: Result<SocketAddrV6, FormatError>)
    ensures
        r == socket_v6_from_text(s@),
{
    assert(s@.subrange(0, s@.len() as int) =~= s@);
    let q = match find_in(s, 93u8, 0, s.len()) {
        None => {
            return Err(FormatError);
        },
        Some(q) => q,
    };
    if q + 1 >= s.len() {
        return Err(FormatError);
    }
    let port = match decimal_in(s, q + 2, s.len(), 0xffff) {
        None => {
            return Err(FormatError);
        },
        Some(p) => p as u16,
    };
    if s[0] != 91u8 || s[q + 1] != 58u8 {
        return Err(FormatError);
    }
    parse_scoped_ipv6(s, 1, q, port)
}

/// Parses a socket address of either family.
pub fn parse_socket(s: &[u8]) -> (r: Result<SocketAddr, FormatError>)
    ensures
        r == socket_from_text(s@),
{
    match parse_socket_v4(s) {
        Ok(a) => Ok(SocketAddr::V4(a)),
        Err(_) => match parse_socket_v6(s) {
            Ok(a) => Ok(SocketAddr::V6(a)),
            Err(e) => Err(e),
        },
    }
}

impl SocketAddrV4 {
    pub fn parse(s: &str) -> (r: Result<SocketAddrV4, FormatError>)
        ensures
            r == socket_v4_from_text(s.spec_bytes()),
    {
        parse_socket_v4(s.as_bytes())
    }
}

impl SocketAddrV6 {
    pub fn parse(s: &str) -> (r: Result<SocketAddrV6, FormatError>)
        ensures
            r == socket_v6_from_text(s.spec_bytes()),
    {
        parse_socket_v6(s.as_bytes())
    }
}

impl SocketAddr {
    pub fn parse(s: &str) -> (r: Result<SocketAddr, FormatError>)
        ensures
            r == socket_from_text(s.spec_bytes()),
    {
        parse_socket(s.as_bytes())
    }
}

impl core::str::FromStr for SocketAddrV4 {
    type Err = FormatError;

    fn from_str(s: &str) -> Result<SocketAddrV4, FormatError> {
        SocketAddrV4::parse(s)
    }
}

impl core::str::FromStr for SocketAddrV6 {
    type Err = FormatError;

    fn from_str(s: &str) -> Result<SocketAddrV6, FormatError> {
        SocketAddrV6::parse(s)
    }
}

impl core::str::FromStr for SocketAddr {
    type Err = FormatError;

    fn from_str(s: &str) -> Result<SocketAddr, FormatError> {
        SocketAddr::parse(s)
    }
}

} // verus!
