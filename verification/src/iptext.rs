//! Parsing IP addresses from text, for fail-fast validation of host
//! entries.
//!
//! The accepted grammar is the usual one: an IPv4 address is four decimal
//! octets without leading zeros, joined by dots; an IPv6 address is
//! hexadecimal groups of at most four digits joined by colons, with at
//! most one `::` standing for one or more zero groups, and optionally an
//! IPv4 address in place of the last two groups.

use vstd::prelude::*;
use crate::digits::all_dec_digits;
use crate::digits::all_hex_digits;
use crate::digits::dec_value;
use crate::digits::hex_digit_val;
use crate::digits::hex_value;
use crate::digits::is_dec_digit;
use crate::digits::is_hex_digit;
use crate::digits::lemma_dec_value_bound;
use crate::digits::lemma_hex_value_bound;
use crate::ip4::RsIpv4Addr;
use crate::ip6::RsIpv6Addr;
use crate::ipaddr::RsIpAddr;

verus! {

// ---------------------------------------------------------------------------
// Splitting text at a separator.
// ---------------------------------------------------------------------------

/// Splitting the rest of the text, with `cur` the piece read so far.
pub open spec fn split_acc(s: Seq<char>, sep: char, cur: Seq<char>) -> Seq<Seq<char>>
    decreases s.len(),
{
    if s.len() == 0 {
        seq![cur]
    } else if s[0] == sep {
        seq![cur] + split_acc(s.drop_first(), sep, Seq::empty())
    } else {
        split_acc(s.drop_first(), sep, cur.push(s[0]))
    }
}

/// The pieces of the text between occurrences of the separator; empty
/// pieces are kept.
pub open spec fn split_on(s: Seq<char>, sep: char) -> Seq<Seq<char>> {
    split_acc(s, sep, Seq::empty())
}

/// The views of a list of character buffers.
pub open spec fn views_of(vs: Seq<Vec<char>>) -> Seq<Seq<char>> {
    vs.map_values(|v: Vec<char>| v@)
}

fn split_chars(s: &Vec<char>, sep: char) -> (r: Vec<Vec<char>>)
    ensures
        views_of(r@) == split_on(s@, sep),
{
    let n = s.len();
    let mut pieces: Vec<Vec<char>> = Vec::new();
    let mut cur: Vec<char> = Vec::new();
    let mut i: usize = 0;
    proof {
        assert(s@.skip(0) =~= s@);
        assert(views_of(pieces@) =~= Seq::<Seq<char>>::empty());
        assert(cur@ =~= Seq::<char>::empty());
    }
    while i < n
        invariant
            i <= n,
            n == s@.len(),
            split_on(s@, sep) == views_of(pieces@) + split_acc(s@.skip(i as int), sep, cur@),
        decreases n - i,
    {
        proof {
            assert(s@.skip(i as int)[0] == s@[i as int]);
            assert(s@.skip(i as int).drop_first() =~= s@.skip(i + 1));
        }
        let c = s[i];
        if c == sep {
            let ghost old_pieces = pieces@;
            let ghost old_cur = cur@;
            pieces.push(cur);
            cur = Vec::new();
            proof {
                assert(views_of(pieces@) =~= views_of(old_pieces).push(old_cur));
                assert(cur@ =~= Seq::<char>::empty());
                assert(views_of(old_pieces).push(old_cur) + split_acc(
                    s@.skip(i + 1),
                    sep,
                    Seq::empty(),
                ) =~= views_of(old_pieces) + (seq![old_cur] + split_acc(
                    s@.skip(i + 1),
                    sep,
                    Seq::empty(),
                )));
            }
        } else {
            cur.push(c);
        }
        i += 1;
    }
    proof {
        assert(s@.skip(n as int) =~= Seq::<char>::empty());
    }
    let ghost old_pieces = pieces@;
    let ghost old_cur = cur@;
    pieces.push(cur);
    proof {
        assert(views_of(pieces@) =~= views_of(old_pieces).push(old_cur));
        assert(views_of(old_pieces).push(old_cur) =~= views_of(old_pieces) + seq![old_cur]);
    }
    pieces
}

// ---------------------------------------------------------------------------
// IPv4 text.
// ---------------------------------------------------------------------------

/// A decimal octet: one to three digits, no leading zero, at most 255.
pub open spec fn spec_parse_octet(p: Seq<char>) -> Option<u8> {
    if 1 <= p.len() <= 3 && all_dec_digits(p) && (p.len() > 1 ==> p[0] != '0') && dec_value(p)
        <= 255 {
        Some(dec_value(p) as u8)
    } else {
        None
    }
}

/// The four octets of a dotted-quad text, when it is one.
pub open spec fn spec_parse_ipv4(s: Seq<char>) -> Option<Seq<u8>> {
    let pieces = split_on(s, '.');
    if pieces.len() == 4 && spec_parse_octet(pieces[0]) is Some && spec_parse_octet(
        pieces[1],
    ) is Some && spec_parse_octet(pieces[2]) is Some && spec_parse_octet(pieces[3]) is Some {
        Some(
            seq![
                spec_parse_octet(pieces[0]).unwrap(),
                spec_parse_octet(pieces[1]).unwrap(),
                spec_parse_octet(pieces[2]).unwrap(),
                spec_parse_octet(pieces[3]).unwrap(),
            ],
        )
    } else {
        None
    }
}

fn parse_octet(p: &Vec<char>) -> (r: Option<u8>)
    ensures
        r == spec_parse_octet(p@),
{
    let n = p.len();
    if n < 1 || n > 3 {
        return None;
    }
    if n > 1 && p[0] == '0' {
        return None;
    }
    let mut acc: u32 = 0;
    let mut i: usize = 0;
    while i < n
        invariant
            i <= n,
            n == p@.len(),
            n <= 3,
            forall|j: int| 0 <= j < i ==> is_dec_digit(#[trigger] p@[j]),
            acc == dec_value(p@.take(i as int)),
            acc <= 999,
        decreases n - i,
    {
        let c = p[i];
        let u = c as u32;
        if u < 48 || u > 57 {
            return None;
        }
        proof {
            assert(p@.take(i + 1).drop_last() =~= p@.take(i as int));
            assert(p@.take(i + 1).last() == p@[i as int]);
            assert(all_dec_digits(p@.take(i as int)));
            lemma_dec_value_bound(p@.take(i as int));
        }
        acc = acc * 10 + (u - 48);
        i += 1;
    }
    proof {
        assert(p@.take(n as int) =~= p@);
    }
    if acc <= 255 {
        Some(acc as u8)
    } else {
        None
    }
}

fn parse_ipv4_chars(s: &Vec<char>) -> (r: Option<RsIpv4Addr>)
    ensures
        r is Some <==> spec_parse_ipv4(s@) is Some,
        r matches Some(a) ==> spec_parse_ipv4(s@) matches Some(o) && a.octets@ == o,
{
    let pieces = split_chars(s, '.');
    if pieces.len() != 4 {
        return None;
    }
    proof {
        assert(split_on(s@, '.')[0] == pieces@[0]@);
        assert(split_on(s@, '.')[1] == pieces@[1]@);
        assert(split_on(s@, '.')[2] == pieces@[2]@);
        assert(split_on(s@, '.')[3] == pieces@[3]@);
    }
    let a = match parse_octet(&pieces[0]) {
        Some(v) => v,
        None => {
            return None;
        },
    };
    let b = match parse_octet(&pieces[1]) {
        Some(v) => v,
        None => {
            return None;
        },
    };
    let c = match parse_octet(&pieces[2]) {
        Some(v) => v,
        None => {
            return None;
        },
    };
    let d = match parse_octet(&pieces[3]) {
        Some(v) => v,
        None => {
            return None;
        },
    };
    let addr = RsIpv4Addr { octets: [a, b, c, d] };
    proof {
        assert(addr.octets@ =~= spec_parse_ipv4(s@).unwrap());
    }
    Some(addr)
}

// ---------------------------------------------------------------------------
// IPv6 text.
// ---------------------------------------------------------------------------

/// A hexadecimal group: one to four hex digits.
pub open spec fn spec_parse_group(p: Seq<char>) -> Option<u16> {
    if 1 <= p.len() <= 4 && all_hex_digits(p) {
        Some(hex_value(p) as u16)
    } else {
        None
    }
}

/// The group values of a list of pieces that must all be hex groups.
pub open spec fn spec_parse_groups(ps: Seq<Seq<char>>) -> Option<Seq<u16>>
    decreases ps.len(),
{
    if ps.len() == 0 {
        Some(Seq::empty())
    } else if spec_parse_group(ps[0]) is Some && spec_parse_groups(ps.drop_first()) is Some {
        Some(seq![spec_parse_group(ps[0]).unwrap()] + spec_parse_groups(ps.drop_first()).unwrap())
    } else {
        None
    }
}

/// The segments a trailing IPv4 address stands for.
pub open spec fn spec_v4_segments(o: Seq<u8>) -> Seq<u16> {
    seq![(o[0] * 0x100 + o[1]) as u16, (o[2] * 0x100 + o[3]) as u16]
}

/// The group values of a tail: hex groups, where the last piece may
/// instead be an IPv4 address standing for two groups.
pub open spec fn spec_parse_tail(ps: Seq<Seq<char>>) -> Option<Seq<u16>> {
    if ps.len() == 0 {
        Some(Seq::empty())
    } else {
        let init = ps.take(ps.len() - 1);
        let last = ps.last();
        if spec_parse_groups(init) is Some {
            if spec_parse_group(last) is Some {
                Some(spec_parse_groups(init).unwrap() + seq![spec_parse_group(last).unwrap()])
            } else if spec_parse_ipv4(last) is Some {
                Some(spec_parse_groups(init).unwrap() + spec_v4_segments(
                    spec_parse_ipv4(last).unwrap(),
                ))
            } else {
                None
            }
        } else {
            None
        }
    }
}

/// The position of the first `::`, or a negative number when there is
/// none.
pub open spec fn spec_dc(s: Seq<char>) -> int
    decreases s.len(),
{
    if s.len() < 2 {
        -1
    } else if s[0] == ':' && s[1] == ':' {
        0
    } else if spec_dc(s.drop_first()) < 0 {
        -1
    } else {
        spec_dc(s.drop_first()) + 1
    }
}

/// All zero groups.
pub open spec fn spec_zero_segments(n: int) -> Seq<u16> {
    Seq::new(n as nat, |i: int| 0u16)
}

/// The eight segments of an IPv6 text, when it is one.
pub open spec fn spec_parse_ipv6(s: Seq<char>) -> Option<Seq<u16>> {
    let i = spec_dc(s);
    if i < 0 {
        if spec_parse_tail(split_on(s, ':')) is Some && spec_parse_tail(
            split_on(s, ':'),
        ).unwrap().len() == 8 {
            spec_parse_tail(split_on(s, ':'))
        } else {
            None
        }
    } else {
        let left = s.take(i);
        let right = s.skip(i + 2);
        if spec_dc(right) >= 0 {
            None
        } else {
            let lp = if left.len() == 0 {
                Seq::<Seq<char>>::empty()
            } else {
                split_on(left, ':')
            };
            let rp = if right.len() == 0 {
                Seq::<Seq<char>>::empty()
            } else {
                split_on(right, ':')
            };
            if spec_parse_groups(lp) is Some && spec_parse_tail(rp) is Some && spec_parse_groups(
                lp,
            ).unwrap().len() + spec_parse_tail(rp).unwrap().len() <= 7 {
                Some(
                    spec_parse_groups(lp).unwrap() + spec_zero_segments(
                        8 - spec_parse_groups(lp).unwrap().len() - spec_parse_tail(
                            rp,
                        ).unwrap().len(),
                    ) + spec_parse_tail(rp).unwrap(),
                )
            } else {
                None
            }
        }
    }
}

fn parse_group(p: &Vec<char>) -> (r: Option<u16>)
    ensures
        r == spec_parse_group(p@),
{
    let n = p.len();
    if n < 1 || n > 4 {
        return None;
    }
    let mut acc: u32 = 0;
    let mut i: usize = 0;
    while i < n
        invariant
            i <= n,
            n == p@.len(),
            n <= 4,
            forall|j: int| 0 <= j < i ==> is_hex_digit(#[trigger] p@[j]),
            acc == hex_value(p@.take(i as int)),
            acc <= 0xffff,
        decreases n - i,
    {
        let c = p[i];
        let u = c as u32;
        let d: u32 = if 48 <= u && u <= 57 {
            u - 48
        } else if 97 <= u && u <= 102 {
            u - 87
        } else if 65 <= u && u <= 70 {
            u - 55
        } else {
            return None;
        };
        proof {
            assert(p@.take(i + 1).drop_last() =~= p@.take(i as int));
            assert(p@.take(i + 1).last() == p@[i as int]);
            assert(all_hex_digits(p@.take(i as int)));
            lemma_hex_value_bound(p@.take(i as int));
        }
        acc = acc * 16 + d;
        i += 1;
    }
    proof {
        assert(p@.take(n as int) =~= p@);
        lemma_hex_value_bound(p@);
    }
    Some(acc as u16)
}

/// Parses the pieces from `from` on as hex groups.
fn parse_groups_range(pieces: &Vec<Vec<char>>, from: usize, to: usize) -> (r: Option<Vec<u16>>)
    requires
        from <= to <= pieces@.len(),
    ensures
        r is Some <==> spec_parse_groups(views_of(pieces@).subrange(from as int, to as int))
            is Some,
        r matches Some(v) ==> spec_parse_groups(views_of(pieces@).subrange(from as int, to as int))
            == Some(v@),
{
    let ghost whole = views_of(pieces@).subrange(from as int, to as int);
    let mut acc: Vec<u16> = Vec::new();
    let mut i: usize = from;
    proof {
        assert(views_of(pieces@).subrange(from as int, to as int) =~= whole.subrange(
            0,
            whole.len() as int,
        ));
        assert(acc@ =~= Seq::<u16>::empty());
    }
    while i < to
        invariant
            from <= i <= to,
            to <= pieces@.len(),
            whole == views_of(pieces@).subrange(from as int, to as int),
            match spec_parse_groups(views_of(pieces@).subrange(i as int, to as int)) {
                Some(t) => spec_parse_groups(whole) == Some(acc@ + t),
                None => spec_parse_groups(whole) is None,
            },
        decreases to - i,
    {
        proof {
            assert(views_of(pieces@).subrange(i as int, to as int)[0] == pieces@[i as int]@);
            assert(views_of(pieces@).subrange(i as int, to as int).drop_first()
                =~= views_of(pieces@).subrange(i + 1, to as int));
        }
        match parse_group(&pieces[i]) {
            Some(v) => {
                let ghost old_acc = acc@;
                acc.push(v);
                proof {
                    let rest = spec_parse_groups(views_of(pieces@).subrange(i + 1, to as int));
                    if rest is Some {
                        assert(old_acc + (seq![v] + rest.unwrap()) =~= acc@ + rest.unwrap());
                    }
                }
            },
            None => {
                return None;
            },
        }
        i += 1;
    }
    proof {
        assert(views_of(pieces@).subrange(to as int, to as int) =~= Seq::<Seq<char>>::empty());
        assert(acc@ + Seq::<u16>::empty() =~= acc@);
    }
    Some(acc)
}

/// Parses all pieces as a tail: hex groups with an optional trailing
/// IPv4 address.
fn parse_tail_list(pieces: &Vec<Vec<char>>) -> (r: Option<Vec<u16>>)
    ensures
        r is Some <==> spec_parse_tail(views_of(pieces@)) is Some,
        r matches Some(v) ==> spec_parse_tail(views_of(pieces@)) == Some(v@),
{
    let n = pieces.len();
    if n == 0 {
        let empty: Vec<u16> = Vec::new();
        proof {
            assert(views_of(pieces@) =~= Seq::<Seq<char>>::empty());
            assert(empty@ =~= Seq::<u16>::empty());
        }
        return Some(empty);
    }
    proof {
        assert(views_of(pieces@).take(views_of(pieces@).len() - 1) =~= views_of(
            pieces@,
        ).subrange(0, n - 1));
        assert(views_of(pieces@).last() == pieces@[n - 1]@);
    }
    let mut head = match parse_groups_range(pieces, 0, n - 1) {
        Some(v) => v,
        None => {
            return None;
        },
    };
    let last = &pieces[n - 1];
    match parse_group(last) {
        Some(v) => {
            let ghost old_head = head@;
            head.push(v);
            proof {
                assert(old_head + seq![v] =~= head@);
            }
            Some(head)
        },
        None => match parse_ipv4_chars(last) {
            Some(a) => {
                let ghost old_head = head@;
                let hi: u16 = (a.octets[0] as u16) * 0x100 + (a.octets[1] as u16);
                let lo: u16 = (a.octets[2] as u16) * 0x100 + (a.octets[3] as u16);
                head.push(hi);
                head.push(lo);
                proof {
                    assert(old_head + spec_v4_segments(a.octets@) =~= head@);
                }
                Some(head)
            },
            None => None,
        },
    }
}

/// The position of the first `::`, when the text has one.
fn find_dc(s: &Vec<char>) -> (r: Option<usize>)
    ensures
        match r {
            Some(i) => spec_dc(s@) == i && i + 1 < s@.len() && s@[i as int] == ':' && s@[i + 1]
                == ':',
            None => spec_dc(s@) < 0,
        },
{
    let n = s.len();
    if n < 2 {
        return None;
    }
    let mut j: usize = 0;
    proof {
        assert(s@.skip(0) =~= s@);
    }
    while j < n - 1
        invariant
            j < n,
            n == s@.len(),
            spec_dc(s@) == if spec_dc(s@.skip(j as int)) < 0 {
                -1
            } else {
                j + spec_dc(s@.skip(j as int))
            },
        decreases n - j,
    {
        proof {
            assert(s@.skip(j as int)[0] == s@[j as int]);
            assert(s@.skip(j as int)[1] == s@[j + 1]);
            assert(s@.skip(j as int).drop_first() =~= s@.skip(j + 1));
        }
        if s[j] == ':' && s[j + 1] == ':' {
            return Some(j);
        }
        j += 1;
    }
    proof {
        assert(s@.skip(j as int).len() < 2);
    }
    None
}

fn parse_ipv6_chars(s: &Vec<char>) -> (r: Option<RsIpv6Addr>)
    ensures
        r is Some <==> spec_parse_ipv6(s@) is Some,
        r matches Some(a) ==> spec_parse_ipv6(s@) matches Some(t) && a.segments@ == t,
{
    let segs: Vec<u16> = match find_dc(s) {
        None => {
            let pieces = split_chars(s, ':');
            let t = match parse_tail_list(&pieces) {
                Some(t) => t,
                None => {
                    return None;
                },
            };
            if t.len() != 8 {
                return None;
            }
            t
        },
        Some(i) => {
            let n = s.len();
            let left = vstd::slice::slice_to_vec(vstd::slice::slice_subrange(s.as_slice(), 0, i));
            let right = vstd::slice::slice_to_vec(
                vstd::slice::slice_subrange(s.as_slice(), i + 2, n),
            );
            proof {
                assert(left@ =~= s@.take(i as int));
                assert(right@ =~= s@.skip(i + 2));
            }
            match find_dc(&right) {
                Some(_) => {
                    return None;
                },
                None => {},
            }
            let lp: Vec<Vec<char>> = if left.len() == 0 {
                Vec::new()
            } else {
                split_chars(&left, ':')
            };
            let rp: Vec<Vec<char>> = if right.len() == 0 {
                Vec::new()
            } else {
                split_chars(&right, ':')
            };
            proof {
                if left@.len() == 0 {
                    assert(views_of(lp@) =~= Seq::<Seq<char>>::empty());
                }
                if right@.len() == 0 {
                    assert(views_of(rp@) =~= Seq::<Seq<char>>::empty());
                }
                assert(views_of(lp@).subrange(0, views_of(lp@).len() as int) =~= views_of(lp@));
            }
            let h = match parse_groups_range(&lp, 0, lp.len()) {
                Some(h) => h,
                None => {
                    return None;
                },
            };
            let t = match parse_tail_list(&rp) {
                Some(t) => t,
                None => {
                    return None;
                },
            };
            if h.len() > 7 || t.len() > 7 || h.len() + t.len() > 7 {
                return None;
            }
            let fill = 8 - h.len() - t.len();
            let mut segs = h;
            let ghost head_view = segs@;
            let mut k: usize = 0;
            while k < fill
                invariant
                    k <= fill,
                    segs@ =~= head_view + spec_zero_segments(k as int),
                decreases fill - k,
            {
                segs.push(0);
                proof {
                    assert(head_view + spec_zero_segments(k as int) + seq![0u16] =~= head_view
                        + spec_zero_segments(k + 1));
                }
                k += 1;
            }
            let mut tail = t;
            let ghost tail_view = tail@;
            segs.append(&mut tail);
            proof {
                assert(segs@ =~= head_view + spec_zero_segments(fill as int) + tail_view);
            }
            segs
        },
    };
    let addr = RsIpv6Addr {
        segments: [
            segs[0],
            segs[1],
            segs[2],
            segs[3],
            segs[4],
            segs[5],
            segs[6],
            segs[7],
        ],
    };
    proof {
        assert(addr.segments@ =~= segs@);
    }
    Some(addr)
}

/// Parses an IP address of either family from text.
pub fn parse_ip(s: &String) -> (r: Option<RsIpAddr>)
    ensures
        r is Some <==> (spec_parse_ipv4(s@) is Some || spec_parse_ipv6(s@) is Some),
        r matches Some(RsIpAddr::V4 { addr }) ==> spec_parse_ipv4(s@) matches Some(o)
            && addr.octets@ == o,
        r matches Some(RsIpAddr::V6 { addr }) ==> spec_parse_ipv6(s@) matches Some(t)
            && addr.segments@ == t && spec_parse_ipv4(s@) is None,
{
    let chars = string_chars(s);
    match parse_ipv4_chars(&chars) {
        Some(a) => Some(RsIpAddr::V4 { addr: a }),
        None => match parse_ipv6_chars(&chars) {
            Some(a) => Some(RsIpAddr::V6 { addr: a }),
            None => None,
        },
    }
}

// ---------------------------------------------------------------------------
// IPv4 text formatting.
// ---------------------------------------------------------------------------

/// A piece without the separator contributes itself, closing the current
/// piece.
proof fn lemma_split_acc_no_sep(p: Seq<char>, sep: char, cur: Seq<char>)
    requires
        forall|i: int| 0 <= i < p.len() ==> p[i] != sep,
    ensures
        split_acc(p, sep, cur) == seq![cur + p],
    decreases p.len(),
{
    if p.len() == 0 {
        assert(cur + p =~= cur);
    } else {
        assert(forall|i: int| 0 <= i < p.drop_first().len() ==> p.drop_first()[i] != sep);
        lemma_split_acc_no_sep(p.drop_first(), sep, cur.push(p[0]));
        assert(cur.push(p[0]) + p.drop_first() =~= cur + p);
    }
}

/// A separator-free piece followed by a separator splits off exactly that
/// piece.
proof fn lemma_split_acc_piece(p: Seq<char>, rest: Seq<char>, sep: char, cur: Seq<char>)
    requires
        forall|i: int| 0 <= i < p.len() ==> p[i] != sep,
    ensures
        split_acc(p + seq![sep] + rest, sep, cur) == seq![cur + p] + split_acc(
            rest,
            sep,
            Seq::empty(),
        ),
    decreases p.len(),
{
    let s = p + seq![sep] + rest;
    if p.len() == 0 {
        assert(s[0] == sep);
        assert(s.drop_first() =~= rest);
        assert(cur + p =~= cur);
    } else {
        assert(s[0] == p[0]);
        assert(s.drop_first() =~= p.drop_first() + seq![sep] + rest);
        assert(forall|i: int| 0 <= i < p.drop_first().len() ==> p.drop_first()[i] != sep);
        lemma_split_acc_piece(p.drop_first(), rest, sep, cur.push(p[0]));
        assert(cur.push(p[0]) + p.drop_first() =~= cur + p);
    }
}

fn digit_char(d: u8) -> (c: char)
    requires
        d < 10,
    ensures
        is_dec_digit(c),
        c as u32 == d + 48,
{
    match d {
        0 => '0',
        1 => '1',
        2 => '2',
        3 => '3',
        4 => '4',
        5 => '5',
        6 => '6',
        7 => '7',
        8 => '8',
        _ => '9',
    }
}

/// The canonical decimal text of one octet: no leading zeros, and it
/// parses back to the very value.
fn format_octet(v: u8) -> (r: Vec<char>)
    ensures
        spec_parse_octet(r@) == Some(v),
        all_dec_digits(r@),
        1 <= r@.len() <= 3,
{
    let mut out: Vec<char> = Vec::new();
    if v >= 100 {
        out.push(digit_char(v / 100));
        out.push(digit_char((v / 10) % 10));
        out.push(digit_char(v % 10));
        proof {
            assert(dec_value(Seq::<char>::empty()) == 0);
            assert(out@.take(1).drop_last() =~= Seq::<char>::empty());
            assert(out@.take(1).last() == out@[0]);
            assert(out@.take(2).drop_last() =~= out@.take(1));
            assert(out@.take(2).last() == out@[1]);
            assert(out@.drop_last() =~= out@.take(2));
            assert(dec_value(out@.take(1)) == v / 100);
            assert(dec_value(out@.take(2)) == (v / 100) * 10 + (v / 10) % 10);
            assert((v / 10) / 10 == v / 100) by {
                vstd::arithmetic::div_mod::lemma_div_denominator(v as int, 10, 10);
            }
            assert(dec_value(out@) == ((v / 10) / 10 * 10 + (v / 10) % 10) * 10 + v % 10);
            assert(dec_value(out@) == (v / 10) * 10 + v % 10);
        }
    } else if v >= 10 {
        out.push(digit_char(v / 10));
        out.push(digit_char(v % 10));
        proof {
            assert(dec_value(Seq::<char>::empty()) == 0);
            assert(out@.take(1).drop_last() =~= Seq::<char>::empty());
            assert(out@.take(1).last() == out@[0]);
            assert(out@.drop_last() =~= out@.take(1));
            assert(dec_value(out@.take(1)) == v / 10);
            assert(dec_value(out@) == (v / 10) * 10 + v % 10);
        }
    } else {
        out.push(digit_char(v));
        proof {
            assert(dec_value(Seq::<char>::empty()) == 0);
            assert(out@.drop_last() =~= Seq::<char>::empty());
        }
    }
    out
}

fn append_chars(dst: &mut Vec<char>, src: &Vec<char>)
    ensures
        final(dst)@ == old(dst)@ + src@,
{
    let n = src.len();
    let mut i: usize = 0;
    while i < n
        invariant
            i <= n,
            n == src@.len(),
            dst@ =~= old(dst)@ + src@.take(i as int),
        decreases n - i,
    {
        dst.push(src[i]);
        proof {
            assert(old(dst)@ + src@.take(i as int) + seq![src@[i as int]] =~= old(dst)@
                + src@.take(i + 1));
        }
        i += 1;
    }
    proof {
        assert(src@.take(n as int) =~= src@);
    }
}

/// The canonical dotted-quad text of an IPv4 address; parsing it back
/// yields exactly the address it was made from.
pub fn format_ipv4(addr: &RsIpv4Addr) -> (r: Vec<char>)
    ensures
        spec_parse_ipv4(r@) == Some(addr.octets@),
        r@.len() >= 7,
        forall|i: int| 0 <= i < r@.len() ==> (#[trigger] r@[i]) != ':',
{
    let t0 = format_octet(addr.octets[0]);
    let t1 = format_octet(addr.octets[1]);
    let t2 = format_octet(addr.octets[2]);
    let t3 = format_octet(addr.octets[3]);
    let mut out: Vec<char> = Vec::new();
    append_chars(&mut out, &t0);
    out.push('.');
    append_chars(&mut out, &t1);
    out.push('.');
    append_chars(&mut out, &t2);
    out.push('.');
    append_chars(&mut out, &t3);
    proof {
        let dot = '.';
        assert(!is_dec_digit(dot));
        assert(forall|i: int| 0 <= i < t0@.len() ==> t0@[i] != dot);
        assert(forall|i: int| 0 <= i < t1@.len() ==> t1@[i] != dot);
        assert(forall|i: int| 0 <= i < t2@.len() ==> t2@[i] != dot);
        assert(forall|i: int| 0 <= i < t3@.len() ==> t3@[i] != dot);
        let rest2 = t3@;
        let rest1 = t2@ + seq![dot] + rest2;
        let rest0 = t1@ + seq![dot] + rest1;
        assert(out@ =~= t0@ + seq![dot] + rest0);
        lemma_split_acc_piece(t0@, rest0, dot, Seq::empty());
        lemma_split_acc_piece(t1@, rest1, dot, Seq::empty());
        lemma_split_acc_piece(t2@, rest2, dot, Seq::empty());
        lemma_split_acc_no_sep(t3@, dot, Seq::empty());
        assert(Seq::<char>::empty() + t0@ =~= t0@);
        assert(Seq::<char>::empty() + t1@ =~= t1@);
        assert(Seq::<char>::empty() + t2@ =~= t2@);
        assert(Seq::<char>::empty() + t3@ =~= t3@);
        assert(split_on(out@, dot) =~= seq![t0@, t1@, t2@, t3@]);
        assert(spec_parse_ipv4(out@) matches Some(o) && o =~= addr.octets@);
        assert forall|i: int| 0 <= i < out@.len() implies (#[trigger] out@[i]) != ':' by {
            let l0 = t0@.len() as int;
            let l1 = t1@.len() as int;
            let l2 = t2@.len() as int;
            if i < l0 {
                assert(out@[i] == t0@[i]);
            } else if i == l0 {
                assert(out@[i] == dot);
            } else if i < l0 + 1 + l1 {
                assert(out@[i] == t1@[i - l0 - 1]);
            } else if i == l0 + 1 + l1 {
                assert(out@[i] == dot);
            } else if i < l0 + 1 + l1 + 1 + l2 {
                assert(out@[i] == t2@[i - l0 - 1 - l1 - 1]);
            } else if i == l0 + 1 + l1 + 1 + l2 {
                assert(out@[i] == dot);
            } else {
                assert(out@[i] == t3@[i - l0 - 1 - l1 - 1 - l2 - 1]);
            }
        }
    }
    out
}

// ---------------------------------------------------------------------------
// IPv6 text formatting.
// ---------------------------------------------------------------------------

fn hex_digit_char(d: u8) -> (c: char)
    requires
        d < 16,
    ensures
        is_hex_digit(c),
        hex_digit_val(c) == d,
        c != ':',
        c != '.',
{
    match d {
        0 => '0',
        1 => '1',
        2 => '2',
        3 => '3',
        4 => '4',
        5 => '5',
        6 => '6',
        7 => '7',
        8 => '8',
        9 => '9',
        10 => 'a',
        11 => 'b',
        12 => 'c',
        13 => 'd',
        14 => 'e',
        _ => 'f',
    }
}

/// The lowercase hexadecimal text of one group, without leading zeros;
/// it parses back to the very value.
fn format_group(v: u16) -> (r: Vec<char>)
    ensures
        spec_parse_group(r@) == Some(v),
        forall|i: int| 0 <= i < r@.len() ==> r@[i] != ':' && r@[i] != '.',
{
    proof {
        assert((v >> 12) < 16 && ((v >> 8) & 0xf) < 16 && ((v >> 4) & 0xf) < 16 && (v & 0xf) < 16)
            by (bit_vector);
    }
    let mut out: Vec<char> = Vec::new();
    if v >= 0x1000 {
        out.push(hex_digit_char((v >> 12) as u8));
    }
    if v >= 0x100 {
        out.push(hex_digit_char(((v >> 8) & 0xf) as u8));
    }
    if v >= 0x10 {
        out.push(hex_digit_char(((v >> 4) & 0xf) as u8));
    }
    out.push(hex_digit_char((v & 0xf) as u8));
    proof {
        assert(hex_value(Seq::<char>::empty()) == 0);
        if v >= 0x1000 {
            assert(out@.take(1).drop_last() =~= Seq::<char>::empty());
            assert(out@.take(1).last() == out@[0]);
            assert(hex_value(out@.take(1)) == hex_digit_val(out@[0]));
            assert(out@.take(2).drop_last() =~= out@.take(1));
            assert(out@.take(2).last() == out@[1]);
            assert(hex_value(out@.take(2)) == hex_value(out@.take(1)) * 16 + hex_digit_val(
                out@[1],
            ));
            assert(out@.take(3).drop_last() =~= out@.take(2));
            assert(out@.take(3).last() == out@[2]);
            assert(hex_value(out@.take(3)) == hex_value(out@.take(2)) * 16 + hex_digit_val(
                out@[2],
            ));
            assert(out@.drop_last() =~= out@.take(3));
            assert(out@.last() == out@[3]);
            assert(hex_value(out@) == (((v >> 12) * 16 + ((v >> 8) & 0xf)) * 16 + ((v >> 4) & 0xf))
                * 16 + (v & 0xf));
            assert((((v >> 12) * 16 + ((v >> 8) & 0xf)) * 16 + ((v >> 4) & 0xf)) * 16 + (v & 0xf)
                == v) by (bit_vector);
        } else if v >= 0x100 {
            assert(out@.take(1).drop_last() =~= Seq::<char>::empty());
            assert(out@.take(1).last() == out@[0]);
            assert(hex_value(out@.take(1)) == hex_digit_val(out@[0]));
            assert(out@.take(2).drop_last() =~= out@.take(1));
            assert(out@.take(2).last() == out@[1]);
            assert(hex_value(out@.take(2)) == hex_value(out@.take(1)) * 16 + hex_digit_val(
                out@[1],
            ));
            assert(out@.drop_last() =~= out@.take(2));
            assert(out@.last() == out@[2]);
            assert(hex_value(out@) == (((v >> 8) & 0xf) * 16 + ((v >> 4) & 0xf)) * 16 + (v & 0xf));
            assert(v < 0x1000 ==> (((v >> 8) & 0xf) * 16 + ((v >> 4) & 0xf)) * 16 + (v & 0xf) == v)
                by (bit_vector);
        } else if v >= 0x10 {
            assert(out@.take(1).drop_last() =~= Seq::<char>::empty());
            assert(out@.take(1).last() == out@[0]);
            assert(hex_value(out@.take(1)) == hex_digit_val(out@[0]));
            assert(out@.drop_last() =~= out@.take(1));
            assert(out@.last() == out@[1]);
            assert(hex_value(out@) == ((v >> 4) & 0xf) * 16 + (v & 0xf));
            assert(v < 0x100 ==> ((v >> 4) & 0xf) * 16 + (v & 0xf) == v) by (bit_vector);
        } else {
            assert(out@.drop_last() =~= Seq::<char>::empty());
            assert(out@.last() == out@[0]);
            assert(hex_value(out@) == (v & 0xf));
            assert(v < 0x10 ==> (v & 0xf) == v) by (bit_vector);
        }
    }
    out
}

/// The texts of the groups `segments[from..to]`, each a parseable
/// hexadecimal group free of separators.
fn groups_text(segments: &[u16; 8], from: usize, to: usize) -> (r: Vec<Vec<char>>)
    requires
        from <= to <= 8,
    ensures
        r@.len() == to - from,
        spec_parse_groups(views_of(r@)) == Some(segments@.subrange(from as int, to as int)),
        forall|k: int, i: int|
            0 <= k < r@.len() && 0 <= i < r@[k]@.len() ==> r@[k]@[i] != ':' && (#[trigger] r@[k]@[
                i
            ]) != '.',
        forall|k: int| 0 <= k < r@.len() ==> (#[trigger] r@[k]@).len() >= 1,
    decreases to - from,
{
    if from == to {
        let r: Vec<Vec<char>> = Vec::new();
        proof {
            assert(views_of(r@) =~= Seq::<Seq<char>>::empty());
            assert(segments@.subrange(from as int, to as int) =~= Seq::<u16>::empty());
        }
        r
    } else {
        let first = format_group(segments[from]);
        let mut rest = groups_text(segments, from + 1, to);
        let ghost rest_view = rest@;
        let mut r: Vec<Vec<char>> = Vec::new();
        r.push(first);
        r.append(&mut rest);
        proof {
            assert(r@.drop_first() =~= rest_view);
            assert(views_of(r@)[0] == r@[0]@);
            assert(views_of(r@).drop_first() =~= views_of(rest_view));
            assert(seq![segments@[from as int]] + segments@.subrange(from + 1, to as int)
                =~= segments@.subrange(from as int, to as int));
            assert(spec_parse_groups(views_of(r@)) matches Some(t) && t =~= segments@.subrange(
                from as int,
                to as int,
            ));
        }
        r
    }
}

/// A separator-free text holds no `::`.
proof fn lemma_dc_no_sep(p: Seq<char>)
    requires
        forall|i: int| 0 <= i < p.len() ==> p[i] != ':',
    ensures
        spec_dc(p) < 0,
    decreases p.len(),
{
    if p.len() >= 2 {
        assert(forall|i: int| 0 <= i < p.drop_first().len() ==> p.drop_first()[i] != ':');
        lemma_dc_no_sep(p.drop_first());
    }
}

/// Joining a colon-free piece in front with a single colon introduces no
/// `::`, as long as what follows does not itself start with a colon.
proof fn lemma_dc_join(p: Seq<char>, rest: Seq<char>)
    requires
        forall|i: int| 0 <= i < p.len() ==> p[i] != ':',
        spec_dc(rest) < 0,
        rest.len() >= 1,
        rest[0] != ':',
    ensures
        spec_dc(p + seq![':'] + rest) < 0,
    decreases p.len(),
{
    let s = p + seq![':'] + rest;
    if p.len() == 0 {
        assert(s[0] == ':' && s[1] == rest[0]);
        assert(s.drop_first() =~= rest);
    } else {
        assert(s[0] == p[0]);
        assert(s.drop_first() =~= p.drop_first() + seq![':'] + rest);
        assert(forall|i: int| 0 <= i < p.drop_first().len() ==> p.drop_first()[i] != ':');
        lemma_dc_join(p.drop_first(), rest);
        if s.len() >= 2 {
            assert(spec_dc(s.drop_first()) < 0);
        }
    }
}

/// The first `::` of a text built as head, `::`, tail stands exactly at
/// the end of the head, when the head itself holds no `::` and does not
/// end in a colon.
proof fn lemma_dc_at(h: Seq<char>, t: Seq<char>)
    requires
        spec_dc(h) < 0,
        h.len() == 0 || h.last() != ':',
    ensures
        spec_dc(h + seq![':', ':'] + t) == h.len(),
    decreases h.len(),
{
    let s = h + seq![':', ':'] + t;
    if h.len() == 0 {
        assert(s[0] == ':' && s[1] == ':');
    } else {
        assert(s.drop_first() =~= h.drop_first() + seq![':', ':'] + t);
        if h.len() >= 2 {
            assert(spec_dc(h.drop_first()) < 0);
            assert(h.drop_first().last() == h.last());
        } else {
            assert(h.drop_first() =~= Seq::<char>::empty());
        }
        lemma_dc_at(h.drop_first(), t);
        if s[0] == ':' {
            // The head does not end in a colon, so the character after a
            // colon inside the head is another head character, not ':'.
            assert(h.len() >= 2);
            assert(s[1] == h[1]);
            if h[1] == ':' {
                assert(spec_dc(h) == 0);
            }
        }
    }
}

/// A list whose pieces are all hexadecimal groups reads the same as a
/// tail: the optional trailing IPv4 address simply is not there.
proof fn lemma_tail_of_groups(ps: Seq<Seq<char>>)
    requires
        spec_parse_groups(ps) is Some,
    ensures
        spec_parse_tail(ps) == spec_parse_groups(ps),
    decreases ps.len(),
{
    if ps.len() > 0 {
        lemma_groups_snoc(ps);
    }
}

/// Group lists parse from the front; this reads the same parse off the
/// back: the last group's value comes after the values of the rest.
proof fn lemma_groups_snoc(ps: Seq<Seq<char>>)
    requires
        spec_parse_groups(ps) is Some,
        ps.len() >= 1,
    ensures
        spec_parse_groups(ps.take(ps.len() - 1)) is Some,
        spec_parse_group(ps.last()) is Some,
        spec_parse_groups(ps) == Some(
            spec_parse_groups(ps.take(ps.len() - 1)).unwrap() + seq![
                spec_parse_group(ps.last()).unwrap(),
            ],
        ),
    decreases ps.len(),
{
    if ps.len() == 1 {
        assert(ps.take(0) =~= Seq::<Seq<char>>::empty());
        assert(ps.drop_first() =~= Seq::<Seq<char>>::empty());
        assert(seq![spec_parse_group(ps[0]).unwrap()] + Seq::<u16>::empty() =~= Seq::<
            u16,
        >::empty() + seq![spec_parse_group(ps.last()).unwrap()]);
    } else {
        lemma_groups_snoc(ps.drop_first());
        assert(ps.drop_first().take(ps.drop_first().len() - 1) =~= ps.take(
            ps.len() - 1,
        ).drop_first());
        assert(ps.drop_first().last() == ps.last());
        assert(ps.take(ps.len() - 1)[0] == ps[0]);
        assert(seq![spec_parse_group(ps[0]).unwrap()] + (spec_parse_groups(
            ps.take(ps.len() - 1).drop_first(),
        ).unwrap() + seq![spec_parse_group(ps.last()).unwrap()]) =~= (seq![
            spec_parse_group(ps[0]).unwrap(),
        ] + spec_parse_groups(ps.take(ps.len() - 1).drop_first()).unwrap()) + seq![
            spec_parse_group(ps.last()).unwrap(),
        ]);
    }
}

/// The text of the pieces joined by single colons.
fn join_pieces(pieces: &Vec<Vec<char>>, from: usize) -> (r: Vec<char>)
    requires
        from < pieces@.len(),
        forall|k: int| from <= k < pieces@.len() ==> (#[trigger] pieces@[k]@).len() >= 1,
        forall|k: int, i: int|
            from <= k < pieces@.len() && 0 <= i < pieces@[k]@.len() ==> (#[trigger] pieces@[k]@[i])
                != ':',
    ensures
        split_on(r@, ':') == views_of(pieces@).subrange(from as int, pieces@.len() as int),
        spec_dc(r@) < 0,
        r@.len() >= 1,
        r@[0] != ':',
        r@.last() != ':',
    decreases pieces@.len() - from,
{
    if from == pieces.len() - 1 {
        let r = vstd::slice::slice_to_vec(pieces[from].as_slice());
        proof {
            lemma_split_acc_no_sep(r@, ':', Seq::<char>::empty());
            lemma_dc_no_sep(r@);
            assert(Seq::<char>::empty() + r@ =~= r@);
            assert(seq![r@] =~= views_of(pieces@).subrange(from as int, pieces@.len() as int));
        }
        r
    } else {
        let rest = join_pieces(pieces, from + 1);
        let mut r = vstd::slice::slice_to_vec(pieces[from].as_slice());
        let ghost piece = r@;
        r.push(':');
        append_chars(&mut r, &rest);
        proof {
            assert(r@ =~= piece + seq![':'] + rest@);
            lemma_split_acc_piece(piece, rest@, ':', Seq::<char>::empty());
            assert(Seq::<char>::empty() + piece =~= piece);
            assert(seq![piece] + views_of(pieces@).subrange(from + 1, pieces@.len() as int)
                =~= views_of(pieces@).subrange(from as int, pieces@.len() as int));
            lemma_dc_join(piece, rest@);
        }
        r
    }
}

/// The leftmost longest run of zero segments, when one of length at least
/// two exists; only such a run may be written as `::`.
fn longest_zero_run(segments: &[u16; 8]) -> (r: Option<(usize, usize)>)
    ensures
        r matches Some(run) ==> 2 <= run.1 && run.0 + run.1 <= 8 && (forall|i: int|
            run.0 <= i < run.0 + run.1 ==> segments@[i] == 0),
{
    let mut best_start: usize = 0;
    let mut best_len: usize = 0;
    let mut start: usize = 0;
    while start < 8
        invariant
            start <= 8,
            best_start + best_len <= 8,
            forall|i: int| best_start <= i < best_start + best_len ==> segments@[i] == 0,
        decreases 8 - start,
    {
        let mut len: usize = 0;
        while start + len < 8 && segments[start + len] == 0
            invariant
                start < 8,
                start + len <= 8,
                forall|i: int| start <= i < start + len ==> segments@[i] == 0,
            decreases 8 - start - len,
        {
            len += 1;
        }
        if len > best_len {
            best_start = start;
            best_len = len;
        }
        start = start + (if len == 0 {
            1
        } else {
            len
        });
    }
    if best_len >= 2 {
        Some((best_start, best_len))
    } else {
        None
    }
}

/// The canonical text of an IPv6 address: lowercase hexadecimal groups,
/// the leftmost longest run of two or more zero groups written `::`, and
/// an IPv4-mapped address written with its dotted quad. Parsing the text
/// back yields exactly the address it was made from.
#[verifier::rlimit(60)]
pub fn format_ipv6(addr: &RsIpv6Addr) -> (r: Vec<char>)
    ensures
        spec_parse_ipv6(r@) == Some(addr.segments@),
{
    let segs = &addr.segments;
    if addr.rs_ipv6_addr_is_ipv4_mapped() {
        let v4 = addr.mapped_ipv4();
        let v4text = format_ipv4(&v4);
        let grp = format_group(0xffff);
        let mut out: Vec<char> = Vec::new();
        out.push(':');
        out.push(':');
        append_chars(&mut out, &grp);
        out.push(':');
        append_chars(&mut out, &v4text);
        proof {
            let t = grp@ + seq![':'] + v4text@;
            assert(out@ =~= Seq::<char>::empty() + seq![':', ':'] + t);
            lemma_dc_at(Seq::<char>::empty(), t);
            assert(out@.take(0) =~= Seq::<char>::empty());
            assert(out@.skip(2) =~= t);
            lemma_dc_no_sep(v4text@);
            lemma_dc_join(grp@, v4text@);
            lemma_split_acc_piece(grp@, v4text@, ':', Seq::<char>::empty());
            lemma_split_acc_no_sep(v4text@, ':', Seq::<char>::empty());
            assert(Seq::<char>::empty() + grp@ =~= grp@);
            assert(Seq::<char>::empty() + v4text@ =~= v4text@);
            assert(split_on(t, ':') =~= seq![grp@, v4text@]);
            // The tail reads as one group and one trailing IPv4 address.
            let ps = seq![grp@, v4text@];
            assert(ps.take(1) =~= seq![grp@]);
            assert(seq![grp@].drop_first() =~= Seq::<Seq<char>>::empty());
            assert(spec_parse_groups(ps.take(1)) matches Some(h) && h =~= seq![0xffffu16]);
            assert(spec_parse_group(v4text@) is None);
            let o = v4.octets@;
            let s6 = segs@[6];
            let s7 = segs@[7];
            assert(((s6 >> 8) as u8) * 0x100 + ((s6 & 0xff) as u8) == s6) by (bit_vector);
            assert(((s7 >> 8) as u8) * 0x100 + ((s7 & 0xff) as u8) == s7) by (bit_vector);
            assert(spec_v4_segments(o) =~= seq![s6, s7]);
            assert(spec_parse_tail(ps) matches Some(t2) && t2 =~= seq![0xffffu16, s6, s7]);
            assert(spec_parse_ipv6(out@) matches Some(v) && v =~= segs@);
        }
        out
    } else {
        match longest_zero_run(segs) {
            None => {
                let pieces = groups_text(segs, 0, 8);
                let out = join_pieces(&pieces, 0);
                proof {
                    assert(views_of(pieces@).subrange(0, pieces@.len() as int) =~= views_of(
                        pieces@,
                    ));
                    assert(segs@.subrange(0, 8) =~= segs@);
                    lemma_tail_of_groups(views_of(pieces@));
                    assert(spec_parse_ipv6(out@) matches Some(v) && v =~= segs@);
                }
                out
            },
            Some((start, len)) => {
                let end = start + len;
                let head_pieces = groups_text(segs, 0, start);
                let tail_pieces = groups_text(segs, end, 8);
                let head: Vec<char> = if start > 0 {
                    join_pieces(&head_pieces, 0)
                } else {
                    Vec::new()
                };
                let tail: Vec<char> = if end < 8 {
                    join_pieces(&tail_pieces, 0)
                } else {
                    Vec::new()
                };
                let mut out: Vec<char> = Vec::new();
                append_chars(&mut out, &head);
                out.push(':');
                out.push(':');
                append_chars(&mut out, &tail);
                let ghost h = head@;
                let ghost t = tail@;
                proof {
                    assert(out@ =~= h + seq![':', ':'] + t);
                    if start > 0 {
                        assert(views_of(head_pieces@).subrange(0, head_pieces@.len() as int)
                            =~= views_of(head_pieces@));
                        assert(split_on(h, ':') == views_of(head_pieces@));
                    } else {
                        assert(h =~= Seq::<char>::empty());
                        lemma_dc_no_sep(h);
                    }
                    if end < 8 {
                        assert(views_of(tail_pieces@).subrange(0, tail_pieces@.len() as int)
                            =~= views_of(tail_pieces@));
                        assert(split_on(t, ':') == views_of(tail_pieces@));
                        lemma_tail_of_groups(views_of(tail_pieces@));
                    } else {
                        assert(t =~= Seq::<char>::empty());
                    }
                    lemma_dc_at(h, t);
                    assert(out@.take(h.len() as int) =~= h);
                    assert(out@.skip(h.len() as int + 2) =~= t);
                    let lp = if h.len() == 0 {
                        Seq::<Seq<char>>::empty()
                    } else {
                        split_on(h, ':')
                    };
                    let rp = if t.len() == 0 {
                        Seq::<Seq<char>>::empty()
                    } else {
                        split_on(t, ':')
                    };
                    assert(spec_parse_groups(lp) matches Some(g) && g =~= segs@.subrange(
                        0,
                        start as int,
                    ));
                    assert(spec_parse_tail(rp) matches Some(g) && g =~= segs@.subrange(
                        end as int,
                        8,
                    ));
                    let hv = spec_parse_groups(lp).unwrap();
                    let tv = spec_parse_tail(rp).unwrap();
                    assert(hv + spec_zero_segments(8 - hv.len() - tv.len()) + tv =~= segs@);
                    assert(spec_parse_ipv6(out@) matches Some(v) && v =~= segs@);
                }
                out
            },
        }
    }
}

impl RsIpv6Addr {
    /// The canonical text of the address; parsing the text back yields
    /// the address itself.
    pub fn rs_ipv6_addr_to_string(&self) -> (r: String)
        ensures
            spec_parse_ipv6(r@) == Some(self.segments@),
    {
        let chars = format_ipv6(self);
        chars_to_string(&chars)
    }
}

/// Relies on String as FromIterator<char>: collecting characters yields
/// the string of exactly those characters.
#[verifier::external_body]
fn chars_to_string(chars: &Vec<char>) -> (r: String)
    ensures
        r@ == chars@,
{
    chars.iter().collect()
}

impl RsIpv4Addr {
    /// The dotted-quad text of the address; parsing the text back yields
    /// the address itself.
    pub fn rs_ipv4_addr_to_string(&self) -> (r: String)
        ensures
            spec_parse_ipv4(r@) == Some(self.octets@),
    {
        let chars = format_ipv4(self);
        chars_to_string(&chars)
    }
}

impl RsIpAddr {
    /// The text of the address in its family's usual form; parsing the
    /// text back yields the address itself.
    pub fn rs_ip_addr_to_string(&self) -> (r: String)
        ensures
            self matches RsIpAddr::V4 { addr } ==> spec_parse_ipv4(r@) == Some(addr.octets@),
            self matches RsIpAddr::V6 { addr } ==> spec_parse_ipv6(r@) == Some(addr.segments@),
    {
        match self {
            RsIpAddr::V4 { addr } => addr.rs_ipv4_addr_to_string(),
            RsIpAddr::V6 { addr } => addr.rs_ipv6_addr_to_string(),
        }
    }
}

impl crate::url_host::RsUrlHost {
    /// The text of the host as it stands in a URL: a domain as itself, an
    /// IPv4 address as its dotted quad, an IPv6 address in brackets.
    pub fn rs_url_host_to_string(&self) -> (r: String)
        ensures
            self matches crate::url_host::RsUrlHost::Domain { name } ==> r@ == name@,
            self matches crate::url_host::RsUrlHost::Ipv4 { addr } ==> spec_parse_ipv4(r@) == Some(
                addr.octets@,
            ),
            self matches crate::url_host::RsUrlHost::Ipv6 { addr } ==> r@.len() >= 2 && r@[0]
                == '[' && r@.last() == ']' && spec_parse_ipv6(
                r@.subrange(1, r@.len() - 1),
            ) == Some(addr.segments@),
    {
        match self {
            crate::url_host::RsUrlHost::Domain { name } => name.clone(),
            crate::url_host::RsUrlHost::Ipv4 { addr } => addr.rs_ipv4_addr_to_string(),
            crate::url_host::RsUrlHost::Ipv6 { addr } => {
                let inner = format_ipv6(addr);
                let mut out: Vec<char> = Vec::new();
                out.push('[');
                append_chars(&mut out, &inner);
                out.push(']');
                proof {
                    assert(out@.subrange(1, out@.len() - 1) =~= inner@);
                }
                chars_to_string(&out)
            },
        }
    }
}

/// The characters of a string, one by one.
fn string_chars(s: &String) -> (r: Vec<char>)
    ensures
        r@ == s@,
{
    let text = s.as_str();
    let n = text.unicode_len();
    let mut out: Vec<char> = Vec::new();
    let mut i: usize = 0;
    while i < n
        invariant
            i <= n,
            n == s@.len(),
            text@ == s@,
            out@ =~= s@.take(i as int),
        decreases n - i,
    {
        out.push(text.get_char(i));
        proof {
            assert(out@ =~= s@.take(i + 1));
        }
        i += 1;
    }
    proof {
        assert(s@.take(n as int) =~= s@);
    }
    out
}

} // verus!
