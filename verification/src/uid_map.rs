//! User and group mapping: the line that `/proc/<pid>/uid_map` takes.
use vstd::prelude::*;

use std::io::Write;

use crate::fixed_buf_writer::FixedBufferWriter;

verus! {

/// The ASCII code of the digit `0`.
pub const ASCII_ZERO: u8 = 48;

/// The ASCII code of the space that separates the numbers of a line.
pub const ASCII_SPACE: u8 = 32;

/// The decimal rendering of `n` in ASCII, most significant digit first,
/// with no leading zeros (the rendering of `0` is `"0"`).
pub open spec fn decimal(n: nat) -> Seq<u8>
    decreases n,
{
    if n < 10 {
        seq![(ASCII_ZERO + n) as u8]
    } else {
        decimal(n / 10).push((ASCII_ZERO + n % 10) as u8)
    }
}

/// Whether `b` is the ASCII code of a decimal digit.
pub open spec fn is_ascii_digit(b: u8) -> bool {
    ASCII_ZERO <= b < ASCII_ZERO + 10
}

/// The number that a string of ASCII decimal digits denotes.
pub open spec fn digits_value(s: Seq<u8>) -> int
    decreases s.len(),
{
    if s.len() == 0 {
        0
    } else {
        digits_value(s.drop_last()) * 10 + (s.last() - ASCII_ZERO)
    }
}

/// `10` to the power `k`.
pub open spec fn pow10(k: nat) -> nat
    decreases k,
{
    if k == 0 {
        1
    } else {
        10 * pow10((k - 1) as nat)
    }
}

/// The line written to a uid map: the first id inside the namespace, the
/// first id outside it and the length of the range, in decimal and
/// separated by single spaces.
pub open spec fn uid_map_line(inside_uid: nat, outside_uid: nat, count: nat) -> Seq<u8> {
    decimal(inside_uid) + seq![ASCII_SPACE] + decimal(outside_uid) + seq![ASCII_SPACE] + decimal(count)
}

/// The decimal rendering is the usual one: it is not empty, holds only
/// digits, has no leading zero unless it is `"0"`, and denotes `n`.
pub proof fn law_decimal_denotes(n: nat)
    ensures
        decimal(n).len() >= 1,
        forall|i: int| 0 <= i < decimal(n).len() ==> is_ascii_digit(#[trigger] decimal(n)[i]),
        decimal(n)[0] == ASCII_ZERO ==> n == 0,
        digits_value(decimal(n)) == n,
    decreases n,
{
    if n >= 10 {
        law_decimal_denotes(n / 10);
        let d = decimal(n);
        assert(d.drop_last() =~= decimal(n / 10));
        assert(d[0] == decimal(n / 10)[0]);
        assert(d.last() == ASCII_ZERO + n % 10);
        assert(n == (n / 10) * 10 + n % 10);
        assert(digits_value(d) == digits_value(d.drop_last()) * 10 + (d.last() - ASCII_ZERO));
    } else {
        let d = decimal(n);
        assert(d.drop_last() =~= Seq::<u8>::empty());
        assert(digits_value(d) == digits_value(d.drop_last()) * 10 + (d.last() - ASCII_ZERO));
    }
}

/// Different numbers have different decimal renderings.
pub proof fn law_decimal_injective(a: nat, b: nat)
    ensures
        decimal(a) == decimal(b) ==> a == b,
{
    law_decimal_denotes(a);
    law_decimal_denotes(b);
}

/// Two strings of digits, each followed by a space and a rest, are equal
/// only when the digits and the rests are.
proof fn lemma_split_at_space(d1: Seq<u8>, r1: Seq<u8>, d2: Seq<u8>, r2: Seq<u8>)
    requires
        forall|i: int| 0 <= i < d1.len() ==> is_ascii_digit(#[trigger] d1[i]),
        forall|i: int| 0 <= i < d2.len() ==> is_ascii_digit(#[trigger] d2[i]),
        d1 + seq![ASCII_SPACE] + r1 == d2 + seq![ASCII_SPACE] + r2,
    ensures
        d1 == d2,
        r1 == r2,
{
    let s = d1 + seq![ASCII_SPACE] + r1;
    let t = d2 + seq![ASCII_SPACE] + r2;
    if d1.len() < d2.len() {
        assert(s[d1.len() as int] == ASCII_SPACE);
        assert(t[d1.len() as int] == d2[d1.len() as int]);
        assert(false);
    }
    if d2.len() < d1.len() {
        assert(t[d2.len() as int] == ASCII_SPACE);
        assert(s[d2.len() as int] == d1[d2.len() as int]);
        assert(false);
    }
    assert(d1 =~= s.take(d1.len() as int));
    assert(d2 =~= t.take(d2.len() as int));
    assert(r1 =~= s.skip(d1.len() as int + 1));
    assert(r2 =~= t.skip(d2.len() as int + 1));
}

/// The uid map line is unambiguous: the line of one triple of ids is the
/// line of no other triple.
pub proof fn law_uid_map_line_injective(
    inside1: nat,
    outside1: nat,
    count1: nat,
    inside2: nat,
    outside2: nat,
    count2: nat,
)
    requires
        uid_map_line(inside1, outside1, count1) == uid_map_line(inside2, outside2, count2),
    ensures
        inside1 == inside2,
        outside1 == outside2,
        count1 == count2,
{
    law_decimal_denotes(inside1);
    law_decimal_denotes(inside2);
    law_decimal_denotes(outside1);
    law_decimal_denotes(outside2);
    law_decimal_denotes(count1);
    law_decimal_denotes(count2);
    let rest1 = decimal(outside1) + seq![ASCII_SPACE] + decimal(count1);
    let rest2 = decimal(outside2) + seq![ASCII_SPACE] + decimal(count2);
    assert(uid_map_line(inside1, outside1, count1) =~= decimal(inside1) + seq![ASCII_SPACE]
        + rest1);
    assert(uid_map_line(inside2, outside2, count2) =~= decimal(inside2) + seq![ASCII_SPACE]
        + rest2);
    lemma_split_at_space(decimal(inside1), rest1, decimal(inside2), rest2);
    lemma_split_at_space(decimal(outside1), decimal(count1), decimal(outside2), decimal(count2));
    law_decimal_injective(inside1, inside2);
    law_decimal_injective(outside1, outside2);
    law_decimal_injective(count1, count2);
}

/// What each field of a uid map line means: the line is three non-empty
/// strings of digits separated by two single spaces, and the field before
/// the first space denotes the inside id, the field between the spaces the
/// outside id, and the field after the second space the count.
pub proof fn law_uid_map_line_fields(inside_uid: nat, outside_uid: nat, count: nat)
    ensures
        ({
            let line = uid_map_line(inside_uid, outside_uid, count);
            exists|p1: int, p2: int|
                {
                    &&& 0 < p1 && p1 + 1 < p2 && p2 + 1 < line.len()
                    &&& #[trigger] line[p1] == ASCII_SPACE && #[trigger] line[p2] == ASCII_SPACE
                    &&& forall|i: int|
                        0 <= i < line.len() && i != p1 && i != p2 ==> is_ascii_digit(
                            #[trigger] line[i],
                        )
                    &&& digits_value(line.subrange(0, p1)) == inside_uid
                    &&& digits_value(line.subrange(p1 + 1, p2)) == outside_uid
                    &&& digits_value(line.subrange(p2 + 1, line.len() as int)) == count
                }
        }),
{
    law_decimal_denotes(inside_uid);
    law_decimal_denotes(outside_uid);
    law_decimal_denotes(count);
    let di = decimal(inside_uid);
    let do_ = decimal(outside_uid);
    let dc = decimal(count);
    let line = uid_map_line(inside_uid, outside_uid, count);
    let p1 = di.len() as int;
    let p2 = p1 + 1 + do_.len();
    assert(line =~= di + seq![ASCII_SPACE] + do_ + seq![ASCII_SPACE] + dc);
    assert(line.subrange(0, p1) =~= di);
    assert(line.subrange(p1 + 1, p2) =~= do_);
    assert(line.subrange(p2 + 1, line.len() as int) =~= dc);
    assert(line[p1] == ASCII_SPACE);
    assert(line[p2] == ASCII_SPACE);
    assert forall|i: int| 0 <= i < line.len() && i != p1 && i != p2 implies is_ascii_digit(
        #[trigger] line[i],
    ) by {
        if i < p1 {
            assert(line[i] == di[i]);
        } else if i < p2 {
            assert(line[i] == do_[i - p1 - 1]);
        } else {
            assert(line[i] == dc[i - p2 - 1]);
        }
    }
}

/// A number below `10^k` has at most `k` decimal digits.
pub proof fn law_decimal_len(n: nat, k: nat)
    requires
        1 <= k,
        n < pow10(k),
    ensures
        decimal(n).len() <= k,
    decreases n,
{
    if n >= 10 {
        let p = pow10((k - 1) as nat);
        assert(k >= 2) by {
            if k == 1 {
                assert(pow10(0) == 1);
            }
        }
        assert(n / 10 < p) by (nonlinear_arith)
            requires
                n < 10 * p,
        ;
        law_decimal_len(n / 10, (k - 1) as nat);
    }
}

/// A `u32` has at most ten decimal digits.
pub proof fn law_u32_decimal_len(n: u32)
    ensures
        decimal(n as nat).len() <= 10,
{
    reveal_with_fuel(pow10, 11);
    assert(pow10(10) == 10000000000);
    law_decimal_len(n as nat, 10);
}

/// The uid map line of any three `u32` values is at most 32 bytes long, so
/// it always fits in the 33-byte buffer that it is built in.
pub proof fn law_uid_map_line_fits(inside_uid: u32, outside_uid: u32, count: u32)
    ensures
        uid_map_line(inside_uid as nat, outside_uid as nat, count as nat).len() <= 32,
{
    law_u32_decimal_len(inside_uid);
    law_u32_decimal_len(outside_uid);
    law_u32_decimal_len(count);
}

/// Append the decimal rendering of `v` to `w`.
fn write_decimal<const N: usize>(w: &mut FixedBufferWriter<N>, v: u32)
    requires
        old(w)@.len() + decimal(v as nat).len() <= N,
    ensures
        final(w)@ == old(w)@ + decimal(v as nat),
    decreases v,
{
    if v >= 10 {
        write_decimal(w, v / 10);
    }
    let digit: [u8; 1] = [ASCII_ZERO + (v % 10) as u8];
    let r = w.write(digit.as_slice());
    proof {
        assert(digit@ =~= seq![(ASCII_ZERO + v % 10) as u8]);
        if v >= 10 {
            assert(old(w)@ + decimal(v as nat) =~= old(w)@ + decimal((v / 10) as nat) + digit@);
        } else {
            assert(decimal(v as nat) =~= digit@);
        }
    }
}

/// Append one byte to `w`.
fn write_byte<const N: usize>(w: &mut FixedBufferWriter<N>, b: u8)
    requires
        old(w)@.len() < N,
    ensures
        final(w)@ == old(w)@.push(b),
{
    let one: [u8; 1] = [b];
    let r = w.write(one.as_slice());
    assert(old(w)@ + one@ =~= old(w)@.push(b));
}

/// The line that maps `count` user ids starting at `outside_uid` to ids
/// starting at `inside_uid` inside a user namespace: the three numbers in
/// decimal, inside first, separated by spaces. Ten bytes for each number
/// and two for the spaces always fit in the 33-byte buffer, and building it
/// does not allocate.
pub fn map_uid_range(outside_uid: u32, inside_uid: u32, count: u32) -> (line: FixedBufferWriter<
    33,
>)
    ensures
        line@ == uid_map_line(inside_uid as nat, outside_uid as nat, count as nat),
        line@ == decimal(inside_uid as nat) + seq![ASCII_SPACE] + decimal(outside_uid as nat)
            + seq![ASCII_SPACE] + decimal(count as nat),
{
    proof {
        law_u32_decimal_len(inside_uid);
        law_u32_decimal_len(outside_uid);
        law_u32_decimal_len(count);
    }
    let mut line = FixedBufferWriter::<33>::new();
    write_decimal(&mut line, inside_uid);
    write_byte(&mut line, ASCII_SPACE);
    write_decimal(&mut line, outside_uid);
    write_byte(&mut line, ASCII_SPACE);
    write_decimal(&mut line, count);
    assert(line@ =~= uid_map_line(inside_uid as nat, outside_uid as nat, count as nat));
    line
}

/// The uid map line that maps the single user id `outside_uid` to
/// `inside_uid` inside a user namespace.
pub fn map_uid(outside_uid: u32, inside_uid: u32) -> (line: FixedBufferWriter<33>)
    ensures
        line@ == uid_map_line(inside_uid as nat, outside_uid as nat, 1),
        line@ == decimal(inside_uid as nat) + seq![ASCII_SPACE] + decimal(outside_uid as nat)
            + seq![ASCII_SPACE] + decimal(1),
{
    map_uid_range(outside_uid, inside_uid, 1)
}

} // verus!
