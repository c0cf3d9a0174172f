use vstd::prelude::*;
use vstd::string::{StrSliceExecFns, StringExecFns};

use crate::addr::{IpAddr, Ipv4Addr, Ipv6Addr};
use crate::socket::{SocketAddr, SocketAddrV4, SocketAddrV6};

verus! {

/// The digits of base 16, lower case; base 10 uses the first ten.
pub open spec fn digit_chars() -> Seq<char> {
    seq!['0', '1', '2', '3', '4', '5', '6', '7', '8', '9', 'a', 'b', 'c', 'd', 'e', 'f']
}

/// `n` in decimal, without leading zeros.
pub open spec fn dec_text(n: nat) -> Seq<char>
    decreases n,
{
    if n < 10 {
        seq![digit_chars()[n as int]]
    } else {
        dec_text(n / 10).push(digit_chars()[(n % 10) as int])
    }
}

/// `n` in lower-case hexadecimal, without leading zeros.
pub open spec fn hex_text(n: nat) -> Seq<char>
    decreases n,
{
    if n < 16 {
        seq![digit_chars()[n as int]]
    } else {
        hex_text(n / 16).push(digit_chars()[(n % 16) as int])
    }
}

fn push_digit(out: &mut String, d: u32)
    requires
        d < 16,
    ensures
        final(out)@ == old(out)@.push(digit_chars()[d as int]),
{
    let digits = "0123456789abcdef";
    proof {
        reveal_strlit("0123456789abcdef");
        assert(digits@ =~= digit_chars());
    }
    let one = digits.substring_ascii(d as usize, d as usize + 1);
    assert(one@ =~= seq![digit_chars()[d as int]]);
    out.append(one);
}

/// Appends `n` in base 10 or 16.
fn push_number(out: &mut String, n: u32, hex: bool)
    ensures
        final(out)@ == old(out)@ + if hex {
            hex_text(n as nat)
        } else {
            dec_text(n as nat)
        },
    decreases n,
{
    let base: u32 = if hex {
        16
    } else {
        10
    };
    if n >= base {
        push_number(out, n / base, hex);
    }
    push_digit(out, n % base);
    proof {
        if hex {
            assert(old(out)@ + hex_text(n as nat) =~= final(out)@);
        } else {
            assert(old(out)@ + dec_text(n as nat) =~= final(out)@);
        }
    }
}

/// Dotted-decimal form: four decimal octets joined by dots.
pub open spec fn ipv4_text(a: Ipv4Addr) -> Seq<char> {
    let o = a.spec_octets();
    dec_text(o[0] as nat) + seq!['.'] + dec_text(o[1] as nat) + seq!['.'] + dec_text(o[2] as nat)
        + seq!['.'] + dec_text(o[3] as nat)
}

fn push_ipv4(out: &mut String, a: &Ipv4Addr)
    ensures
        final(out)@ == old(out)@ + ipv4_text(*a),
{
    let o = a.octets();
    proof {
        reveal_strlit(".");
    }
    push_number(out, o[0] as u32, false);
    out.append(".");
    push_number(out, o[1] as u32, false);
    out.append(".");
    push_number(out, o[2] as u32, false);
    out.append(".");
    push_number(out, o[3] as u32, false);
    assert(final(out)@ =~= old(out)@ + ipv4_text(*a));
}

impl Ipv4Addr {
    /// The dotted-decimal text of the address.
    pub fn to_text(&self) -> (r: String)
        ensures
            r@ == ipv4_text(*self),
    {
        let mut out = String::new();
        push_ipv4(&mut out, self);
        out
    }
}

/// The eight 16-bit groups of an IPv6 address, most significant first.
pub open spec fn segments(a: Ipv6Addr) -> Seq<u16> {
    Seq::new(8, |k: int| (a.bits >> ((112 - 16 * k) as u128)) as u16)
}

/// Groups in hexadecimal, joined by colons.
pub open spec fn join_hex(s: Seq<u16>) -> Seq<char>
    decreases s.len(),
{
    if s.len() == 0 {
        Seq::empty()
    } else if s.len() == 1 {
        hex_text(s[0] as nat)
    } else {
        join_hex(s.drop_last()) + seq![':'] + hex_text(s.last() as nat)
    }
}

/// How many zero groups start at `i`.
pub open spec fn zero_run_len(s: Seq<u16>, i: int) -> nat
    decreases s.len() - i,
{
    if 0 <= i < s.len() && s[i] == 0 {
        1 + zero_run_len(s, i + 1)
    } else {
        0
    }
}

/// Start and length of the longest run of zero groups that starts at `i` or
/// later; the leftmost of equally long runs.
pub open spec fn longest_zero_run(s: Seq<u16>, i: int) -> (int, nat)
    decreases s.len() - i,
{
    if i < 0 || i >= s.len() {
        (s.len() as int, 0)
    } else {
        let later = longest_zero_run(s, i + 1);
        if zero_run_len(s, i) >= later.1 {
            (i, zero_run_len(s, i))
        } else {
            later
        }
    }
}

/// The text of an IPv6 address: `::ffff:` and dotted decimal for an
/// IPv4-mapped address; otherwise the groups in hexadecimal with the longest
/// run of two or more zero groups (the leftmost of equals) written `::`.
pub open spec fn ipv6_text(a: Ipv6Addr) -> Seq<char> {
    let s = segments(a);
    let run = longest_zero_run(s, 0);
    if a.bits >> 32u128 == 0xffff {
        seq![':', ':', 'f', 'f', 'f', 'f', ':'] + ipv4_text(Ipv4Addr { bits: a.bits as u32 })
    } else if run.1 >= 2 {
        join_hex(s.subrange(0, run.0)) + seq![':', ':'] + join_hex(s.subrange(run.0 + run.1, 8))
    } else {
        join_hex(s)
    }
}

proof fn lemma_zero_run_bound(s: Seq<u16>, i: int)
    requires
        0 <= i <= s.len(),
    ensures
        i + zero_run_len(s, i) <= s.len(),
        forall|k: int| i <= k < i + zero_run_len(s, i) ==> s[k] == 0,
    decreases s.len() - i,
{
    if i < s.len() && s[i] == 0 {
        lemma_zero_run_bound(s, i + 1);
    }
}

proof fn lemma_longest_zero_run_bound(s: Seq<u16>, i: int)
    requires
        0 <= i <= s.len(),
    ensures
        longest_zero_run(s, i).0 + longest_zero_run(s, i).1 <= s.len(),
        0 <= longest_zero_run(s, i).0,
    decreases s.len() - i,
{
    if i < s.len() {
        lemma_longest_zero_run_bound(s, i + 1);
        lemma_zero_run_bound(s, i);
    }
}

impl Ipv6Addr {
    pub fn segments(&self) -> (r: [u16; 8])
        ensures
            r@ == segments(*self),
    {
        let x = self.bits;
        let r = [
            (x >> 112u128) as u16,
            (x >> 96u128) as u16,
            (x >> 80u128) as u16,
            (x >> 64u128) as u16,
            (x >> 48u128) as u16,
            (x >> 32u128) as u16,
            (x >> 16u128) as u16,
            (x >> 0u128) as u16,
        ];
        assert(r@ =~= segments(*self));
        r
    }
}

/// Appends `s[from..to]` in hexadecimal, joined by colons.
fn push_groups(out: &mut String, s: &[u16; 8], from: usize, to: usize)
    requires
        from <= to <= 8,
    ensures
        final(out)@ == old(out)@ + join_hex(s@.subrange(from as int, to as int)),
{
    let mut k: usize = from;
    proof {
        reveal_strlit(":");
        assert(s@.subrange(from as int, from as int) =~= Seq::<u16>::empty());
        assert(out@ =~= old(out)@ + join_hex(s@.subrange(from as int, from as int)));
    }
    while k < to
        invariant
            from <= k <= to <= 8,
            s@.len() == 8,
            out@ == old(out)@ + join_hex(s@.subrange(from as int, k as int)),
        decreases to - k,
    {
        proof {
            reveal_strlit(":");
        }
        if k > from {
            out.append(":");
        }
        push_number(out, s[k] as u32, true);
        proof {
            let t = s@.subrange(from as int, k + 1);
            assert(t.drop_last() =~= s@.subrange(from as int, k as int));
            assert(out@ =~= old(out)@ + join_hex(t));
        }
        k += 1;
    }
}

fn push_ipv6(out: &mut String, a: &Ipv6Addr)
    ensures
        final(out)@ == old(out)@ + ipv6_text(*a),
{
    proof {
        reveal_strlit("::ffff:");
        reveal_strlit("::");
    }
    if a.bits >> 32u128 == 0xffff {
        out.append("::ffff:");
        push_ipv4(out, &Ipv4Addr { bits: a.bits as u32 });
        assert(final(out)@ =~= old(out)@ + ipv6_text(*a));
        return;
    }
    let s = a.segments();
    let mut run: usize = 0;
    let mut best_start: usize = 8;
    let mut best_len: usize = 0;
    let mut i: usize = 8;
    while i > 0
        invariant
            i <= 8,
            s@ == segments(*a),
            run == zero_run_len(s@, i as int),
            (best_start as int, best_len as nat) == longest_zero_run(s@, i as int),
        decreases i,
    {
        i -= 1;
        if s[i] == 0 {
            proof {
                lemma_zero_run_bound(s@, i + 1);
            }
            run += 1;
        } else {
            run = 0;
        }
        if run >= best_len {
            best_start = i;
            best_len = run;
        }
    }
    proof {
        lemma_longest_zero_run_bound(s@, 0);
    }
    if best_len >= 2 {
        push_groups(out, &s, 0, best_start);
        out.append("::");
        push_groups(out, &s, best_start + best_len, 8);
    } else {
        push_groups(out, &s, 0, 8);
        assert(s@.subrange(0, 8) =~= s@);
    }
    assert(final(out)@ =~= old(out)@ + ipv6_text(*a));
}

impl Ipv6Addr {
    /// The text of the address, with the longest run of zero groups
    /// compressed and IPv4-mapped addresses in dotted form.
    pub fn to_text(&self) -> (r: String)
        ensures
            r@ == ipv6_text(*self),
    {
        let mut out = String::new();
        push_ipv6(&mut out, self);
        out
    }
}

pub open spec fn ip_text(a: IpAddr) -> Seq<char> {
    match a {
        IpAddr::V4(x) => ipv4_text(x),
        IpAddr::V6(x) => ipv6_text(x),
    }
}

/// `address:port`.
pub open spec fn socket_v4_text(s: SocketAddrV4) -> Seq<char> {
    ipv4_text(s.ip) + seq![':'] + dec_text(s.port as nat)
}

/// `[address]:port`, or `[address%scope]:port` where the scope id is not zero.
pub open spec fn socket_v6_text(s: SocketAddrV6) -> Seq<char> {
    seq!['['] + ipv6_text(s.ip) + (if s.scope_id != 0 {
        seq!['%'] + dec_text(s.scope_id as nat)
    } else {
        Seq::empty()
    }) + seq![']', ':'] + dec_text(s.port as nat)
}

pub open spec fn socket_text(s: SocketAddr) -> Seq<char> {
    match s {
        SocketAddr::V4(x) => socket_v4_text(x),
        SocketAddr::V6(x) => socket_v6_text(x),
    }
}

impl IpAddr {
    pub fn to_text(&self) -> (r: String)
        ensures
            r@ == ip_text(*self),
    {
        match self {
            IpAddr::V4(a) => a.to_text(),
            IpAddr::V6(a) => a.to_text(),
        }
    }
}

impl SocketAddrV4 {
    pub fn to_text(&self) -> (r: String)
        ensures
            r@ == socket_v4_text(*self),
    {
        let mut out = String::new();
        proof {
            reveal_strlit(":");
        }
        push_ipv4(&mut out, &self.ip);
        out.append(":");
        push_number(&mut out, self.port as u32, false);
        assert(out@ =~= socket_v4_text(*self));
        out
    }
}

impl SocketAddrV6 {
    pub fn to_text(&self) -> (r: String)
        ensures
            r@ == socket_v6_text(*self),
    {
        let mut out = String::new();
        proof {
            reveal_strlit("[");
            reveal_strlit("%");
            reveal_strlit("]:");
        }
        out.append("[");
        push_ipv6(&mut out, &self.ip);
        if self.scope_id != 0 {
            out.append("%");
            push_number(&mut out, self.scope_id, false);
        }
        out.append("]:");
        push_number(&mut out, self.port as u32, false);
        assert(out@ =~= socket_v6_text(*self));
        out
    }
}

impl SocketAddr {
    pub fn to_text(&self) -> (r: String)
        ensures
            r@ == socket_text(*self),
    {
        match self {
            SocketAddr::V4(s) => s.to_text(),
            SocketAddr::V6(s) => s.to_text(),
        }
    }
}

} // verus!
