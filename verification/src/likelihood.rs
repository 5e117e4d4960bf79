//! The likelihood of an infringement: the number of claims that a reply
//! cites, over the number of claims that the patent has.

use crate::text::{decimal, digit_char, digit_of, push_decimal};
use vstd::prelude::*;

verus! {

/// A ratio of two counts. It is kept as the two counts, so that ratios are
/// compared and rendered exactly. Over no claims at all the ratio counts as
/// zero.
#[derive(Clone, Copy, Debug)]
pub struct Likelihood {
    /// The number of claims cited.
    pub cited: usize,
    /// The number of claims of the patent.
    pub claims: usize,
}

impl Likelihood {
    /// The numerator of the ratio: zero where the patent has no claims.
    pub open spec fn num(self) -> int {
        if self.claims == 0 {
            0
        } else {
            self.cited as int
        }
    }

    /// The denominator of the ratio, always positive: one where the patent
    /// has no claims.
    pub open spec fn den(self) -> int {
        if self.claims == 0 {
            1
        } else {
            self.claims as int
        }
    }

    /// Whether the ratio is strictly greater than three tenths.
    pub open spec fn above_threshold(self) -> bool {
        10 * self.num() > 3 * self.den()
    }

    /// Whether the ratio is at least as great as `other`.
    pub open spec fn at_least(self, other: Likelihood) -> bool {
        self.num() * other.den() >= other.num() * self.den()
    }

    /// The ratio as a percentage, in hundredths of a percent, rounded to the
    /// nearest of them; a ratio half way between two goes to the even one.
    pub open spec fn hundredths(self) -> nat {
        let scaled = self.num() * 10000;
        let q = scaled / self.den();
        let r = scaled % self.den();
        if 2 * r > self.den() || (2 * r == self.den() && q % 2 == 1) {
            (q + 1) as nat
        } else {
            q as nat
        }
    }

    /// The percentage with two decimals and a percent sign.
    pub open spec fn percent_text(self) -> Seq<char> {
        let h = self.hundredths();
        decimal(h / 100).push('.').push(digit_char((h / 10) % 10)).push(digit_char(h % 10)).push(
            '%',
        )
    }

    pub fn new(cited: usize, claims: usize) -> (out: Self)
        ensures
            out.cited == cited,
            out.claims == claims,
    {
        Self { cited, claims }
    }

    /// Whether the ratio is strictly greater than three tenths.
    pub fn is_above_threshold(&self) -> (b: bool)
        ensures
            b == self.above_threshold(),
    {
        if self.claims == 0 {
            false
        } else {
            let lhs: u128 = 10 * (self.cited as u128);
            let rhs: u128 = 3 * (self.claims as u128);
            lhs > rhs
        }
    }

    /// Whether the ratio is at least as great as `other`.
    pub fn is_at_least(&self, other: &Likelihood) -> (b: bool)
        ensures
            b == self.at_least(*other),
    {
        let a: u128 = if self.claims == 0 {
            0
        } else {
            self.cited as u128
        };
        let b: u128 = if self.claims == 0 {
            1
        } else {
            self.claims as u128
        };
        let c: u128 = if other.claims == 0 {
            0
        } else {
            other.cited as u128
        };
        let d: u128 = if other.claims == 0 {
            1
        } else {
            other.claims as u128
        };
        proof {
            assert(a * d <= 0xffff_ffff_ffff_ffff * 0xffff_ffff_ffff_ffff) by (nonlinear_arith)
                requires
                    0 <= a <= 0xffff_ffff_ffff_ffff,
                    0 <= d <= 0xffff_ffff_ffff_ffff,
            ;
            assert(c * b <= 0xffff_ffff_ffff_ffff * 0xffff_ffff_ffff_ffff) by (nonlinear_arith)
                requires
                    0 <= c <= 0xffff_ffff_ffff_ffff,
                    0 <= b <= 0xffff_ffff_ffff_ffff,
            ;
        }
        a * d >= c * b
    }

    /// The ratio as a percentage, in hundredths of a percent.
    pub fn to_hundredths(&self) -> (h: u128)
        ensures
            h == self.hundredths(),
    {
        if self.claims == 0 {
            0
        } else {
            let scaled: u128 = (self.cited as u128) * 10000;
            let den: u128 = self.claims as u128;
            let q: u128 = scaled / den;
            let r: u128 = scaled % den;
            if 2 * r > den || (2 * r == den && q % 2 == 1) {
                q + 1
            } else {
                q
            }
        }
    }

    /// The percentage with two decimals and a percent sign.
    pub fn percent(&self) -> (out: String)
        ensures
            out@ == self.percent_text(),
    {
        let h = self.to_hundredths();
        let mut out = String::new();
        push_decimal(&mut out, h / 100);
        proof {
            assert(out@ =~= decimal((h / 100) as nat));
        }
        out.push('.');
        out.push(digit_of(((h / 10) % 10) as u8));
        out.push(digit_of((h % 10) as u8));
        out.push('%');
        out
    }
}

/// Of two ratios, one is at least as great as the other.
pub proof fn lemma_at_least_total(a: Likelihood, b: Likelihood)
    ensures
        a.at_least(b) || b.at_least(a),
{
}

/// Being at least as great is transitive.
pub proof fn lemma_at_least_transitive(a: Likelihood, b: Likelihood, c: Likelihood)
    requires
        a.at_least(b),
        b.at_least(c),
    ensures
        a.at_least(c),
{
    let (an, ad) = (a.num(), a.den());
    let (bn, bd) = (b.num(), b.den());
    let (cn, cd) = (c.num(), c.den());
    assert(an * cd >= cn * ad) by (nonlinear_arith)
        requires
            an * bd >= bn * ad,
            bn * cd >= cn * bd,
            ad > 0,
            bd > 0,
            cd > 0,
            an >= 0,
            bn >= 0,
            cn >= 0,
    {
        assert(an * bd * cd >= bn * ad * cd);
        assert(bn * cd * ad >= cn * bd * ad);
        assert(bn * ad * cd == bn * cd * ad);
        assert(an * cd * bd >= cn * ad * bd);
    }
}

} // verus!
