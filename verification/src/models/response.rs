//! A received response.
use vstd::prelude::*;

use crate::models::request::{copy_pair_vec, pairs_view, KeyValuePair, PairView};
use crate::text::{decimal, digit, digit_char, owned, push_decimal};

verus! {

/// What the HTTP worker hands back for a completed request. `size_bytes` is
/// the size of the whole body, `body` at most the first 10 MiB of it.
#[derive(Debug)]
pub struct ResponseData {
    pub status_code: u16,
    pub status_text: String,
    pub headers: Vec<KeyValuePair>,
    pub body: String,
    pub elapsed_ms: u128,
    pub size_bytes: usize,
}

/// The content of a [`ResponseData`].
pub struct ResponseView {
    pub status_code: u16,
    pub status_text: Seq<char>,
    pub headers: Seq<PairView>,
    pub body: Seq<char>,
    pub elapsed_ms: u128,
    pub size_bytes: usize,
}

impl View for ResponseData {
    type V = ResponseView;

    open spec fn view(&self) -> ResponseView {
        ResponseView {
            status_code: self.status_code,
            status_text: self.status_text@,
            headers: pairs_view(self.headers@),
            body: self.body@,
            elapsed_ms: self.elapsed_ms,
            size_bytes: self.size_bytes,
        }
    }
}

impl Clone for ResponseData {
    fn clone(&self) -> (r: Self)
        ensures
            r@ == self@,
    {
        ResponseData {
            status_code: self.status_code,
            status_text: self.status_text.clone(),
            headers: copy_pair_vec(&self.headers),
            body: self.body.clone(),
            elapsed_ms: self.elapsed_ms,
            size_bytes: self.size_bytes,
        }
    }
}

/// `2^e`.
pub open spec fn power_of_two(e: nat) -> nat
    decreases e,
{
    if e == 0 {
        1
    } else {
        2 * power_of_two((e - 1) as nat)
    }
}

/// How many low bits of `n` an `f64` (53-bit significand) cannot hold.
pub open spec fn excess_bits(n: nat) -> nat
    decreases n,
{
    if n < 9007199254740992 {
        0
    } else {
        1 + excess_bits(n / 2)
    }
}

/// `a / d` rounded to the nearest integer, ties to even.
pub open spec fn round_half_even(a: nat, d: nat) -> nat {
    let q = a / d;
    let r = a % d;
    if 2 * r > d || (2 * r == d && q % 2 == 1) {
        q + 1
    } else {
        q
    }
}

/// The value of `n as f64`: `n` rounded to 53 significant bits, ties to
/// even.
pub open spec fn as_f64(n: nat) -> nat {
    let d = power_of_two(excess_bits(n));
    round_half_even(n, d) * d
}

/// `t / 10` printed with one decimal place, e.g. `12.5` for 125.
pub open spec fn tenths_text(t: nat) -> Seq<char> {
    decimal(t / 10) + seq!['.', digit_char(t % 10)]
}

/// The size as shown: whole bytes below 1 KiB, otherwise kibibytes below
/// 1 MiB and mebibytes above, with one decimal. The decimal is that of
/// `{:.1}` applied to `size as f64 / 1024.0` (or `/ (1024.0 * 1024.0)`):
/// the exact quotient rounded to tenths, ties to even.
pub open spec fn size_text(n: nat) -> Seq<char> {
    if n < 1024 {
        decimal(n) + " B"@
    } else if n < 1048576 {
        tenths_text(round_half_even(10 * as_f64(n), 1024)) + " KB"@
    } else {
        tenths_text(round_half_even(10 * as_f64(n), 1048576)) + " MB"@
    }
}

fn round_half_even_exec(a: u128, d: u128) -> (r: u128)
    requires
        d > 0,
        a < 0x1_0000_0000_0000_0000_0000,
    ensures
        r == round_half_even(a as nat, d as nat),
        r <= a / d + 1,
{
    let q = a / d;
    let r = a % d;
    if (r > d - r) || (r == d - r && q % 2 == 1) {
        q + 1
    } else {
        q
    }
}

proof fn lemma_excess_small(n: nat)
    requires
        n < 9007199254740992,
    ensures
        excess_bits(n) == 0,
{
}

/// `size as f64`, as an integer.
fn float_value(n: usize) -> (f: u128)
    ensures
        f == as_f64(n as nat),
        f <= 0x2_0000_0000_0000_0000,
{
    let ghost big: nat = 9007199254740992;
    let mut k: u128 = n as u128;
    let mut d: u128 = 1;
    let ghost mut e: nat = 0;
    assert(n as nat <= 0xffff_ffff_ffff_ffff) by {
        assert(usize::MAX <= 0xffff_ffff_ffff_ffff);
    }
    while k >= 9007199254740992
        invariant
            excess_bits(n as nat) == e + excess_bits(k as nat),
            d == power_of_two(e),
            d >= 1,
            d * k <= n,
            n as nat <= 0xffff_ffff_ffff_ffff,
            k <= n,
            d <= 4096,
        decreases k,
    {
        proof {
            assert(d * k >= d * 9007199254740992) by (nonlinear_arith)
                requires
                    k >= 9007199254740992,
                    d >= 1,
            ;
            assert(d < 2048) by (nonlinear_arith)
                requires
                    d * 9007199254740992 <= 0xffff_ffff_ffff_ffff,
                    d >= 1,
            ;
            assert((2 * d) * (k / 2) <= d * k) by (nonlinear_arith)
                requires
                    d >= 1,
            ;
        }
        k = k / 2;
        d = d * 2;
        proof {
            e = e + 1;
        }
    }
    proof {
        lemma_excess_small(k as nat);
    }
    let nn: u128 = n as u128;
    let q = round_half_even_exec(nn, d);
    proof {
        assert((nn / d) * d <= nn) by (nonlinear_arith)
            requires
                d >= 1,
        ;
        assert(q * d <= nn + d) by (nonlinear_arith)
            requires
                q <= nn / d + 1,
                (nn / d) * d <= nn,
                d >= 1,
        ;
    }
    q * d
}

impl ResponseData {
    /// `"<code> <reason>"`, e.g. `200 OK`.
    pub fn status_display(&self) -> (r: String)
        ensures
            r@ == decimal(self.status_code as nat) + seq![' '] + self.status_text@,
    {
        let mut out = String::new();
        push_decimal(&mut out, self.status_code as u128);
        out.push(' ');
        out.push_str(self.status_text.as_str());
        out
    }

    pub fn size_display(&self) -> (r: String)
        ensures
            r@ == size_text(self.size_bytes as nat),
    {
        let mut out = String::new();
        if self.size_bytes < 1024 {
            push_decimal(&mut out, self.size_bytes as u128);
            out.push_str(" B");
        } else {
            let f = float_value(self.size_bytes);
            let unit: u128 = if self.size_bytes < 1048576 {
                1024
            } else {
                1048576
            };
            let t = round_half_even_exec(10 * f, unit);
            push_decimal(&mut out, t / 10);
            out.push('.');
            out.push(digit(t % 10));
            if self.size_bytes < 1048576 {
                out.push_str(" KB");
            } else {
                out.push_str(" MB");
            }
            assert(out@ =~= tenths_text(t as nat) + (if self.size_bytes < 1048576 {
                " KB"@
            } else {
                " MB"@
            }));
        }
        out
    }
}

} // verus!
