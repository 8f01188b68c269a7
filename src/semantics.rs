use vstd::prelude::*;
use vstd::arithmetic::power2::{pow2, lemma2_to64, lemma_pow2_unfold, lemma_pow2_strictly_increases, lemma_pow2_pos};
use vstd::arithmetic::div_mod::{
    lemma_div_is_ordered_by_denominator, lemma_fundamental_div_mod, lemma_mod_add_multiples_vanish,
};
use crate::catalog::{Kind, Width};

verus! {

/// Number of distinct values of a width.
pub open spec fn modulus(w: Width) -> int {
    match w {
        Width::W8 => 0x100,
        Width::W16 => 0x1_0000,
        Width::W32 => 0x1_0000_0000,
        Width::W64 => 0x1_0000_0000_0000_0000,
    }
}

/// Number of bits of a width.
pub open spec fn bits(w: Width) -> nat {
    match w {
        Width::W8 => 8,
        Width::W16 => 16,
        Width::W32 => 32,
        Width::W64 => 64,
    }
}

/// The low bits of a register cell, read as an unsigned value of width `w`.
pub open spec fn uval(w: Width, c: u64) -> int {
    c as int % modulus(w)
}

/// The low bits of a register cell, read as a two's complement value of width `w`.
pub open spec fn sval(w: Width, c: u64) -> int {
    if uval(w, c) >= modulus(w) / 2 {
        uval(w, c) - modulus(w)
    } else {
        uval(w, c)
    }
}

/// The cell that holds a signed value: its two's complement on 64 bits.
pub open spec fn signed_cell(x: int) -> u64 {
    if x < 0 {
        (x + 0x1_0000_0000_0000_0000) as u64
    } else {
        x as u64
    }
}

/// A shift or rotate count: the low 32 bits of the cell, reduced modulo the width.
pub open spec fn count(w: Width, c: u64) -> nat {
    (uval(Width::W32, c) % (bits(w) as int)) as nat
}

pub open spec fn abs(x: int) -> int {
    if x < 0 {
        -x
    } else {
        x
    }
}

/// Division rounding toward zero.
pub open spec fn trunc_div(a: int, b: int) -> int {
    if (a < 0) != (b < 0) {
        -(abs(a) / abs(b))
    } else {
        abs(a) / abs(b)
    }
}

/// Remainder of `trunc_div`: it takes the sign of the dividend.
pub open spec fn trunc_rem(a: int, b: int) -> int {
    if a < 0 {
        -(abs(a) % abs(b))
    } else {
        abs(a) % abs(b)
    }
}

/// A fatal arithmetic condition.
#[derive(Clone, Copy, Debug, PartialEq, Eq, Structural)]
pub enum Trap {
    DivideByZero,
    /// The minimum signed value divided by minus one.
    DivideOverflow,
}

/// The kinds whose result is computed from register cells alone, on integers.
pub open spec fn is_integer_op(k: Kind) -> bool {
    match k {
        Kind::Nop | Kind::Const(_) | Kind::FloatUnary | Kind::FloatBinary | Kind::RegAddr => false,
        _ => true,
    }
}

/// The cell that an integer instruction of kind `k` stores, given the cells of
/// its first and second source registers (a unary one ignores `b`).
#[verifier::opaque]
pub open spec fn int_result(k: Kind, a: u64, b: u64) -> Result<u64, Trap> {
    match k {
        Kind::SignExtend(w) => Ok(signed_cell(sval(w, a))),
        Kind::ZeroExtend(w) => Ok(uval(w, a) as u64),
        Kind::Truncate(w) => Ok(uval(w, a) as u64),
        Kind::Add(w) => Ok(((uval(w, a) + uval(w, b)) % modulus(w)) as u64),
        Kind::Sub(w) => Ok(((uval(w, a) - uval(w, b)) % modulus(w)) as u64),
        Kind::Mul(w) => Ok(((uval(w, a) * uval(w, b)) % modulus(w)) as u64),
        Kind::DivU(w) => if uval(w, b) == 0 {
            Err(Trap::DivideByZero)
        } else {
            Ok((uval(w, a) / uval(w, b)) as u64)
        },
        Kind::ModU(w) => if uval(w, b) == 0 {
            Err(Trap::DivideByZero)
        } else {
            Ok((uval(w, a) % uval(w, b)) as u64)
        },
        Kind::DivS(w) => if sval(w, b) == 0 {
            Err(Trap::DivideByZero)
        } else if sval(w, a) == -(modulus(w) / 2) && sval(w, b) == -1 {
            Err(Trap::DivideOverflow)
        } else {
            Ok(signed_cell(trunc_div(sval(w, a), sval(w, b))))
        },
        Kind::ModS(w) => if sval(w, b) == 0 {
            Err(Trap::DivideByZero)
        } else if sval(w, a) == -(modulus(w) / 2) && sval(w, b) == -1 {
            Err(Trap::DivideOverflow)
        } else {
            Ok(signed_cell(trunc_rem(sval(w, a), sval(w, b))))
        },
        Kind::And(w) => Ok(((a & b) as int % modulus(w)) as u64),
        Kind::Or(w) => Ok(((a | b) as int % modulus(w)) as u64),
        Kind::Xor(w) => Ok(((a ^ b) as int % modulus(w)) as u64),
        Kind::Not(w) => Ok(((!a) as int % modulus(w)) as u64),
        Kind::Shl(w) => Ok(((uval(w, a) * pow2(count(w, b))) % modulus(w)) as u64),
        Kind::ShrU(w) => Ok((uval(w, a) / (pow2(count(w, b)) as int)) as u64),
        Kind::ShrS(w) => Ok(signed_cell(sval(w, a) / (pow2(count(w, b)) as int))),
        Kind::Rotl(w) => Ok(
            ((uval(w, a) * pow2(count(w, b)) + uval(w, a) / (pow2(
                (bits(w) - count(w, b)) as nat,
            ) as int)) % modulus(w)) as u64,
        ),
        Kind::Rotr(w) => Ok(
            ((uval(w, a) / (pow2(count(w, b)) as int) + uval(w, a) * pow2(
                (bits(w) - count(w, b)) as nat,
            )) % modulus(w)) as u64,
        ),
        _ => Ok(a),
    }
}

/// Shift and rotate counts are taken modulo the operand width: a count and its
/// remainder by the width give the same result.
pub proof fn lemma_count_reduced(w: Width, a: u64, c: u32)
    ensures
        int_result(Kind::Shl(w), a, c as u64) == int_result(Kind::Shl(w), a, (c % bits(w) as u32) as u64),
        int_result(Kind::ShrU(w), a, c as u64) == int_result(Kind::ShrU(w), a, (c % bits(w) as u32) as u64),
        int_result(Kind::ShrS(w), a, c as u64) == int_result(Kind::ShrS(w), a, (c % bits(w) as u32) as u64),
        int_result(Kind::Rotl(w), a, c as u64) == int_result(Kind::Rotl(w), a, (c % bits(w) as u32) as u64),
        int_result(Kind::Rotr(w), a, c as u64) == int_result(Kind::Rotr(w), a, (c % bits(w) as u32) as u64),
{
    reveal(int_result);
    assert(count(w, c as u64) == count(w, (c % bits(w) as u32) as u64));
}

/// Two shift or rotate counts that are equal modulo the operand width give
/// the same result.
pub proof fn lemma_count_congruent(w: Width, a: u64, c1: u32, c2: u32)
    requires
        c1 % bits(w) as u32 == c2 % bits(w) as u32,
    ensures
        int_result(Kind::Shl(w), a, c1 as u64) == int_result(Kind::Shl(w), a, c2 as u64),
        int_result(Kind::ShrU(w), a, c1 as u64) == int_result(Kind::ShrU(w), a, c2 as u64),
        int_result(Kind::ShrS(w), a, c1 as u64) == int_result(Kind::ShrS(w), a, c2 as u64),
        int_result(Kind::Rotl(w), a, c1 as u64) == int_result(Kind::Rotl(w), a, c2 as u64),
        int_result(Kind::Rotr(w), a, c1 as u64) == int_result(Kind::Rotr(w), a, c2 as u64),
{
    lemma_count_reduced(w, a, c1);
    lemma_count_reduced(w, a, c2);
}

/// An 8-bit left rotation by `k` (below 8) is the or of `x` shifted left by
/// `k` and `x` shifted right by `8 - k`, zero-extended to the cell.
pub proof fn lemma_rotl8_is_shift_or(x: u8, k: u32)
    requires
        k < 8,
    ensures
        int_result(Kind::Rotl(Width::W8), x as u64, k as u64) == Ok::<u64, Trap>(
            ((x << (k as u8)) | (x >> ((8 - k) as u8))) as u64,
        ),
{
    reveal(int_result);
    lemma2_to64();
    assert(count(Width::W8, k as u64) == k);
    assert(uval(Width::W8, x as u64) == x);
    if k == 0 {
        assert((((x as u64) * 1 + (x as u64) / 256) % 256) as u8 == ((x << 0u8) | (x >> 8u8))) by (bit_vector);
    }
    else if k == 1 {
        assert((((x as u64) * 2 + (x as u64) / 128) % 256) as u8 == ((x << 1u8) | (x >> 7u8))) by (bit_vector);
    }
    else if k == 2 {
        assert((((x as u64) * 4 + (x as u64) / 64) % 256) as u8 == ((x << 2u8) | (x >> 6u8))) by (bit_vector);
    }
    else if k == 3 {
        assert((((x as u64) * 8 + (x as u64) / 32) % 256) as u8 == ((x << 3u8) | (x >> 5u8))) by (bit_vector);
    }
    else if k == 4 {
        assert((((x as u64) * 16 + (x as u64) / 16) % 256) as u8 == ((x << 4u8) | (x >> 4u8))) by (bit_vector);
    }
    else if k == 5 {
        assert((((x as u64) * 32 + (x as u64) / 8) % 256) as u8 == ((x << 5u8) | (x >> 3u8))) by (bit_vector);
    }
    else if k == 6 {
        assert((((x as u64) * 64 + (x as u64) / 4) % 256) as u8 == ((x << 6u8) | (x >> 2u8))) by (bit_vector);
    }
    else if k == 7 {
        assert((((x as u64) * 128 + (x as u64) / 2) % 256) as u8 == ((x << 7u8) | (x >> 1u8))) by (bit_vector);
    }
}

fn modulus_of(w: Width) -> (r: u128)
    ensures
        r == modulus(w),
{
    match w {
        Width::W8 => 0x100,
        Width::W16 => 0x1_0000,
        Width::W32 => 0x1_0000_0000,
        Width::W64 => 0x1_0000_0000_0000_0000,
    }
}

fn bits_of(w: Width) -> (r: u32)
    ensures
        r == bits(w),
{
    match w {
        Width::W8 => 8,
        Width::W16 => 16,
        Width::W32 => 32,
        Width::W64 => 64,
    }
}

fn pow2_of(n: u32) -> (r: u128)
    requires
        n <= 64,
    ensures
        r == pow2(n as nat),
        0 < r <= 0x1_0000_0000_0000_0000,
{
    proof {
        lemma2_to64();
        lemma_pow2_pos(n as nat);
    }
    let mut r: u128 = 1;
    let mut i: u32 = 0;
    while i < n
        invariant
            i <= n <= 64,
            r == pow2(i as nat),
            pow2(64) == 0x1_0000_0000_0000_0000,
        decreases n - i,
    {
        proof {
            lemma_pow2_unfold(i as nat + 1);
            if i + 1 < 64 {
                lemma_pow2_strictly_increases(i as nat + 1, 64);
            }
        }
        r = r * 2;
        i = i + 1;
    }
    proof {
        if n < 64 {
            lemma_pow2_strictly_increases(n as nat, 64);
        }
    }
    r
}

fn uval_of(w: Width, c: u64) -> (r: u128)
    ensures
        r == uval(w, c),
        r < modulus(w),
{
    (c as u128) % modulus_of(w)
}

fn sval_of(w: Width, c: u64) -> (r: i128)
    ensures
        r == sval(w, c),
        -(modulus(w) / 2) <= r < modulus(w) / 2,
{
    let m = modulus_of(w);
    let u = uval_of(w, c);
    if u >= m / 2 {
        u as i128 - m as i128
    } else {
        u as i128
    }
}

fn signed_cell_of(x: i128) -> (r: u64)
    requires
        -0x8000_0000_0000_0000 <= x < 0x8000_0000_0000_0000,
    ensures
        r == signed_cell(x as int),
{
    if x < 0 {
        (x + 0x1_0000_0000_0000_0000i128) as u64
    } else {
        x as u64
    }
}

fn count_of(w: Width, c: u64) -> (r: u32)
    ensures
        r == count(w, c),
        r < bits(w),
{
    (uval_of(Width::W32, c) % (bits_of(w) as u128)) as u32
}

fn sub_of(w: Width, a: u64, b: u64) -> (r: Result<u64, Trap>)
    ensures
        r == int_result(Kind::Sub(w), a, b),
{
    reveal(int_result);
    let m = modulus_of(w);
    let x = uval_of(w, a);
    let y = uval_of(w, b);
    proof {
        lemma_mod_add_multiples_vanish(x - y, m as int);
    }
    Ok(((x + m - y) % m) as u64)
}

fn mul_of(w: Width, a: u64, b: u64) -> (r: Result<u64, Trap>)
    ensures
        r == int_result(Kind::Mul(w), a, b),
{
    reveal(int_result);
    let x = uval_of(w, a);
    let y = uval_of(w, b);
    proof {
        assert(x * y <= 0xffff_ffff_ffff_ffff * 0xffff_ffff_ffff_ffff) by (nonlinear_arith)
            requires
                x <= 0xffff_ffff_ffff_ffff,
                y <= 0xffff_ffff_ffff_ffff,
        ;
    }
    Ok(((x * y) % modulus_of(w)) as u64)
}

/// Signed division (`rem` false) or remainder (`rem` true).
fn signed_div_of(w: Width, a: u64, b: u64, rem: bool) -> (r: Result<u64, Trap>)
    ensures
        r == int_result(if rem { Kind::ModS(w) } else { Kind::DivS(w) }, a, b),
{
    reveal(int_result);
    let m = modulus_of(w);
    let x = sval_of(w, a);
    let y = sval_of(w, b);
    if y == 0 {
        Err(Trap::DivideByZero)
    } else if x == -((m / 2) as i128) && y == -1 {
        Err(Trap::DivideOverflow)
    } else {
        let ax: u128 = if x < 0 {
            (-x) as u128
        } else {
            x as u128
        };
        let ay: u128 = if y < 0 {
            (-y) as u128
        } else {
            y as u128
        };
        if rem {
            let q = ax % ay;
            let s: i128 = if x < 0 {
                -(q as i128)
            } else {
                q as i128
            };
            Ok(signed_cell_of(s))
        } else {
            let q = ax / ay;
            proof {
                lemma_div_is_ordered_by_denominator(ax as int, 1, ay as int);
                if ay >= 2 {
                    lemma_div_is_ordered_by_denominator(ax as int, 2, ay as int);
                }
            }
            let s: i128 = if (x < 0) != (y < 0) {
                -(q as i128)
            } else {
                q as i128
            };
            Ok(signed_cell_of(s))
        }
    }
}

fn shl_of(w: Width, a: u64, b: u64) -> (r: Result<u64, Trap>)
    ensures
        r == int_result(Kind::Shl(w), a, b),
{
    reveal(int_result);
    let x = uval_of(w, a);
    let p = pow2_of(count_of(w, b));
    proof {
        assert(x * p <= 0xffff_ffff_ffff_ffff * 0x1_0000_0000_0000_0000) by (nonlinear_arith)
            requires
                x <= 0xffff_ffff_ffff_ffff,
                p <= 0x1_0000_0000_0000_0000,
        ;
    }
    Ok(((x * p) % modulus_of(w)) as u64)
}

fn shr_signed_of(w: Width, a: u64, b: u64) -> (r: Result<u64, Trap>)
    ensures
        r == int_result(Kind::ShrS(w), a, b),
{
    reveal(int_result);
    let x = sval_of(w, a);
    let p = pow2_of(count_of(w, b));
    proof {
        let q = x as int / p as int;
        let r = x as int % p as int;
        lemma_fundamental_div_mod(x as int, p as int);
        assert(-0x8000_0000_0000_0000 <= q < 0x8000_0000_0000_0000) by (nonlinear_arith)
            requires
                x == p * q + r,
                0 <= r < p,
                p >= 1,
                -0x8000_0000_0000_0000 <= x < 0x8000_0000_0000_0000,
        ;
    }
    match x.checked_div_euclid(p as i128) {
        Some(q) => Ok(signed_cell_of(q)),
        None => Ok(0),
    }
}

/// Rotation left (`left` true) or right.
fn rotate_of(w: Width, a: u64, b: u64, left: bool) -> (r: Result<u64, Trap>)
    ensures
        r == int_result(if left { Kind::Rotl(w) } else { Kind::Rotr(w) }, a, b),
{
    reveal(int_result);
    let x = uval_of(w, a);
    let k = count_of(w, b);
    let p = pow2_of(k);
    let p2 = pow2_of(bits_of(w) - k);
    proof {
        assert(x * p <= 0xffff_ffff_ffff_ffff * 0x1_0000_0000_0000_0000) by (nonlinear_arith)
            requires
                x <= 0xffff_ffff_ffff_ffff,
                p <= 0x1_0000_0000_0000_0000,
        ;
        assert(x * p2 <= 0xffff_ffff_ffff_ffff * 0x1_0000_0000_0000_0000) by (nonlinear_arith)
            requires
                x <= 0xffff_ffff_ffff_ffff,
                p2 <= 0x1_0000_0000_0000_0000,
        ;
    }
    if left {
        Ok(((x * p + x / p2) % modulus_of(w)) as u64)
    } else {
        Ok(((x / p + x * p2) % modulus_of(w)) as u64)
    }
}

fn extend_of(k: Kind, a: u64) -> (r: Result<u64, Trap>)
    requires
        k is SignExtend || k is ZeroExtend || k is Truncate || k is Not,
    ensures
        r == int_result(k, a, 0),
{
    reveal(int_result);
    match k {
        Kind::SignExtend(w) => Ok(signed_cell_of(sval_of(w, a))),
        Kind::ZeroExtend(w) => Ok(uval_of(w, a) as u64),
        Kind::Truncate(w) => Ok(uval_of(w, a) as u64),
        Kind::Not(w) => Ok(((!a) as u128 % modulus_of(w)) as u64),
        _ => Ok(a),
    }
}

fn plain_binary_of(k: Kind, a: u64, b: u64) -> (r: Result<u64, Trap>)
    requires
        k is Add || k is DivU || k is ModU || k is And || k is Or || k is Xor || k is ShrU,
    ensures
        r == int_result(k, a, b),
{
    reveal(int_result);
    match k {
        Kind::Add(w) => Ok(((uval_of(w, a) + uval_of(w, b)) % modulus_of(w)) as u64),
        Kind::DivU(w) => {
            let y = uval_of(w, b);
            if y == 0 {
                Err(Trap::DivideByZero)
            } else {
                Ok((uval_of(w, a) / y) as u64)
            }
        },
        Kind::ModU(w) => {
            let y = uval_of(w, b);
            if y == 0 {
                Err(Trap::DivideByZero)
            } else {
                Ok((uval_of(w, a) % y) as u64)
            }
        },
        Kind::And(w) => Ok(((a & b) as u128 % modulus_of(w)) as u64),
        Kind::Or(w) => Ok(((a | b) as u128 % modulus_of(w)) as u64),
        Kind::Xor(w) => Ok(((a ^ b) as u128 % modulus_of(w)) as u64),
        Kind::ShrU(w) => Ok((uval_of(w, a) / pow2_of(count_of(w, b))) as u64),
        _ => Ok(a),
    }
}

/// Computes the cell that an integer instruction stores; `Err` is a trap.
pub fn integer_result(k: Kind, a: u64, b: u64) -> (r: Result<u64, Trap>)
    requires
        is_integer_op(k),
    ensures
        r == int_result(k, a, b),
{
    match k {
        Kind::SignExtend(_) | Kind::ZeroExtend(_) | Kind::Truncate(_) | Kind::Not(_) => {
            proof {
                reveal(int_result);
            }
            extend_of(k, a)
        },
        Kind::Sub(w) => sub_of(w, a, b),
        Kind::Mul(w) => mul_of(w, a, b),
        Kind::DivS(w) => signed_div_of(w, a, b, false),
        Kind::ModS(w) => signed_div_of(w, a, b, true),
        Kind::Shl(w) => shl_of(w, a, b),
        Kind::ShrS(w) => shr_signed_of(w, a, b),
        Kind::Rotl(w) => rotate_of(w, a, b, true),
        Kind::Rotr(w) => rotate_of(w, a, b, false),
        _ => plain_binary_of(k, a, b),
    }
}

} // verus!
