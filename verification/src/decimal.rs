//! Fixed-point decimal numbers: an integer count of units of `10^-scale`.

use vstd::prelude::*;
use vstd::std_specs::cmp::PartialEqSpecImpl;
use crate::text::{decimal, hex_char, push_decimal, digit_string};

verus! {

/// The largest scale (and precision) that a decimal column can have.
pub const MAX_SCALE: u8 = 18;

/// `10` to the power `n`.
pub open spec fn pow10(n: nat) -> nat
    decreases n,
{
    if n == 0 { 1 } else { 10 * pow10((n - 1) as nat) }
}

/// The last `width` decimal digits of `n`, zero-padded on the left.
pub open spec fn fixed_digits(n: nat, width: nat) -> Seq<char>
    decreases width,
{
    if width == 0 {
        Seq::empty()
    } else {
        fixed_digits(n / 10, (width - 1) as nat).push(hex_char(n % 10))
    }
}

/// The text of the decimal with `underlying` units of `10^-scale`: a `-` for
/// a negative number, the integer part, and, for a positive scale, a point
/// followed by exactly `scale` fractional digits.
pub open spec fn decimal_text(underlying: int, scale: nat) -> Seq<char> {
    let magnitude: nat = if underlying < 0 { (-underlying) as nat } else { underlying as nat };
    let sign = if underlying < 0 { seq!['-'] } else { Seq::empty() };
    if scale == 0 {
        sign + decimal(magnitude)
    } else {
        sign + decimal(magnitude / pow10(scale)) + seq!['.'] + fixed_digits(
            magnitude % pow10(scale),
            scale,
        )
    }
}

/// Whether two decimals denote the same number, whatever their scales.
pub open spec fn same_number(a: Decimal, b: Decimal) -> bool {
    a.spec_underlying() * pow10(b.spec_scale() as nat) == b.spec_underlying() * pow10(
        a.spec_scale() as nat,
    )
}

/// A decimal number of a column of type `Decimal(precision, scale)`.
#[derive(Clone, Copy, Debug)]
pub struct Decimal {
    pub(crate) underlying: i64,
    pub(crate) precision: u8,
    pub(crate) scale: u8,
}

proof fn lemma_pow10_bound(n: nat)
    requires
        n <= 18,
    ensures
        1 <= pow10(n) <= 1_000_000_000_000_000_000,
{
    lemma_pow10_monotonic(0, n);
    lemma_pow10_monotonic(n, 18);
    reveal_with_fuel(pow10, 19);
}

proof fn lemma_pow10_monotonic(n: nat, m: nat)
    requires
        n <= m,
    ensures
        pow10(n) <= pow10(m),
    decreases m,
{
    if n < m {
        lemma_pow10_monotonic(n, (m - 1) as nat);
    }
}

/// `10` to the power `n`, for `n` up to 18.
fn pow10_u64(n: u8) -> (r: u64)
    requires
        n <= 18,
    ensures
        r == pow10(n as nat),
{
    let mut r: u64 = 1;
    let mut i: u8 = 0;
    while i < n
        invariant
            i <= n <= 18,
            r == pow10(i as nat),
        decreases n - i,
    {
        proof {
            lemma_pow10_bound(i as nat);
        }
        r = r * 10;
        i = i + 1;
    }
    r
}

/// Appends `fixed_digits(n, width)` to `out`.
fn push_fixed_digits(out: &mut String, n: u64, width: u8)
    ensures
        final(out)@ == old(out)@ + fixed_digits(n as nat, width as nat),
    decreases width,
{
    if width > 0 {
        push_fixed_digits(out, n / 10, width - 1);
        out.append(digit_string(n % 10));
    }
}

impl Decimal {
    #[verifier::type_invariant]
    spec fn scale_in_range(self) -> bool {
        self.scale <= MAX_SCALE
    }

    pub closed spec fn spec_scale(self) -> u8 {
        self.scale
    }

    pub closed spec fn spec_precision(self) -> u8 {
        self.precision
    }

    pub closed spec fn spec_underlying(self) -> i64 {
        self.underlying
    }

    /// The decimal `underlying * 10^-scale`, of precision 18. The scale may
    /// not exceed 18.
    pub fn new(underlying: i64, scale: u8) -> (r: Decimal)
        requires
            scale <= MAX_SCALE,
        ensures
            r.spec_underlying() == underlying,
            r.spec_scale() == scale,
            r.spec_precision() == MAX_SCALE,
    {
        Decimal { underlying, precision: MAX_SCALE, scale }
    }

    /// The count of units of `10^-scale`.
    pub fn internal(&self) -> (r: i64)
        ensures
            r == self.spec_underlying(),
    {
        self.underlying
    }

    /// The number of fractional digits.
    pub fn scale(&self) -> (r: u8)
        ensures
            r == self.spec_scale(),
            r <= MAX_SCALE,
    {
        proof {
            use_type_invariant(self);
        }
        self.scale
    }

    /// The number of significant digits of the column type.
    pub fn precision(&self) -> (r: u8)
        ensures
            r == self.spec_precision(),
    {
        self.precision
    }

    /// Appends the text of the decimal to `out`.
    pub fn push_text(&self, out: &mut String)
        ensures
            final(out)@ == old(out)@ + decimal_text(
                self.spec_underlying() as int,
                self.spec_scale() as nat,
            ),
    {
        proof {
            use_type_invariant(self);
            lemma_pow10_bound(self.scale as nat);
        }
        let ghost start = out@;
        let negative = self.underlying < 0;
        let magnitude: u64 = if negative {
            (0i128 - (self.underlying as i128)) as u64
        } else {
            self.underlying as u64
        };
        if negative {
            out.append("-");
        }
        if self.scale == 0 {
            push_decimal(out, magnitude);
        } else {
            let factor = pow10_u64(self.scale);
            push_decimal(out, magnitude / factor);
            out.append(".");
            push_fixed_digits(out, magnitude % factor, self.scale);
        }
        proof {
            reveal_strlit("-");
            reveal_strlit(".");
            assert(out@ =~= start + decimal_text(self.underlying as int, self.scale as nat));
        }
    }

    /// Whether the two decimals denote the same number, after bringing them to
    /// a common scale.
    pub fn same_number_as(&self, other: &Decimal) -> (r: bool)
        ensures
            r == same_number(*self, *other),
    {
        proof {
            use_type_invariant(self);
            use_type_invariant(other);
            lemma_pow10_bound(self.scale as nat);
            lemma_pow10_bound(other.scale as nat);
        }
        let fa = pow10_u64(self.scale) as i128;
        let fb = pow10_u64(other.scale) as i128;
        let a = self.underlying as i128;
        let b = other.underlying as i128;
        assert(-0x8000_0000_0000_0000 * 1_000_000_000_000_000_000 <= a * fb <= 0x8000_0000_0000_0000 * 1_000_000_000_000_000_000)
            by (nonlinear_arith)
            requires
                -0x8000_0000_0000_0000 <= a < 0x8000_0000_0000_0000,
                1 <= fb <= 1_000_000_000_000_000_000,
        {
        }
        assert(-0x8000_0000_0000_0000 * 1_000_000_000_000_000_000 <= b * fa <= 0x8000_0000_0000_0000 * 1_000_000_000_000_000_000)
            by (nonlinear_arith)
            requires
                -0x8000_0000_0000_0000 <= b < 0x8000_0000_0000_0000,
                1 <= fa <= 1_000_000_000_000_000_000,
        {
        }
        a * fb == b * fa
    }
}

impl PartialEq for Decimal {
    fn eq(&self, other: &Self) -> (r: bool) {
        self.same_number_as(other)
    }
}

impl PartialEqSpecImpl for Decimal {
    open spec fn obeys_eq_spec() -> bool {
        true
    }

    open spec fn eq_spec(&self, other: &Decimal) -> bool {
        same_number(*self, *other)
    }
}

} // verus!
