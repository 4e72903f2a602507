//! 256-bit quantities and the bounds of the fixed-width integer types.

use vstd::prelude::*;
use vstd::arithmetic::power2::{lemma2_to64, lemma_pow2_unfold, pow2};
use vstd::string::StringExecFns;
use crate::primitives::{decimal_text, digit_char, limbs_value, u256_text};
use crate::text::{
    all_digits,
    chars_of,
    digit_of,
    digits_value,
    lemma_digits_value_prefix,
    lemma_digits_value_push,
    string_of,
};

verus! {

/// An unsigned number of up to 256 bits, in four 64-bit limbs, the least
/// significant first.
#[derive(Clone, Copy, Debug, PartialEq, Eq)]
pub struct Quantity {
    pub limbs: [u64; 4],
}

/// `2^64`.
pub open spec fn two_64() -> nat {
    0x1_0000_0000_0000_0000
}

/// `2^128`.
pub open spec fn two_128() -> nat {
    (0x1_0000_0000_0000_0000_0000_0000_0000_0000int) as nat
}

/// `2^256`.
pub open spec fn two_256() -> nat {
    (0x1_0000_0000_0000_0000_0000_0000_0000_0000_0000_0000_0000_0000_0000_0000_0000_0000int) as nat
}

/// `count` zeros.
pub open spec fn zeros(count: nat) -> Seq<char> {
    Seq::new(count, |i: int| '0')
}

/// A decimal numeral with the point moved `places` places to the left.
/// There is at least one digit before the point and there are exactly
/// `places` after it.
pub open spec fn shift_point(numeral: Seq<char>, places: nat) -> Seq<char> {
    if numeral.len() > places {
        numeral.take(numeral.len() - places) + seq!['.'] + numeral.skip(numeral.len() - places)
    } else {
        seq!['0', '.'] + zeros((places - numeral.len()) as nat) + numeral
    }
}

/// The text of `wei` in ether: `wei / 10^18` with 18 fractional digits.
pub open spec fn ether_text(wei: nat) -> Seq<char> {
    shift_point(decimal_text(wei), 18)
}

/// `10^e`.
pub open spec fn pow10(e: nat) -> nat
    decreases e,
{
    if e == 0 {
        1
    } else {
        10 * pow10((e - 1) as nat)
    }
}

/// The last `width` decimal digits of `n`, with leading zeros.
pub open spec fn fixed_digits(n: nat, width: nat) -> Seq<char>
    decreases width,
{
    if width == 0 {
        Seq::empty()
    } else {
        fixed_digits(n / 10, (width - 1) as nat).push(digit_char(n % 10))
    }
}

proof fn lemma_pow10_positive(e: nat)
    ensures
        pow10(e) > 0,
    decreases e,
{
    if e > 0 {
        lemma_pow10_positive((e - 1) as nat);
    }
}

proof fn lemma_fixed_digits_of_zero(width: nat)
    ensures
        fixed_digits(0, width) == zeros(width),
    decreases width,
{
    if width > 0 {
        lemma_fixed_digits_of_zero((width - 1) as nat);
        assert(zeros(width) =~= zeros((width - 1) as nat).push('0'));
    } else {
        assert(zeros(0) =~= Seq::<char>::empty());
    }
}

proof fn lemma_shift_one_more(numeral: Seq<char>, digit: char, places: nat)
    ensures
        shift_point(numeral.push(digit), places + 1) == shift_point(numeral, places).push(digit),
{
    let longer = numeral.push(digit);
    if numeral.len() > places {
        let cut = numeral.len() - places;
        assert(longer.take(cut) =~= numeral.take(cut));
        assert(longer.skip(cut) =~= numeral.skip(cut).push(digit));
        assert(shift_point(longer, places + 1) =~= shift_point(numeral, places).push(digit));
    } else {
        assert(shift_point(longer, places + 1) =~= shift_point(numeral, places).push(digit));
    }
}

/// Moving the point of the numeral of `n` by `places` places gives the
/// numeral of `n / 10^places`, a point, and `n % 10^places` in `places`
/// digits.
pub proof fn shifted_numeral_divides(n: nat, places: nat)
    ensures
        shift_point(decimal_text(n), places) == decimal_text(n / pow10(places)) + seq!['.']
            + fixed_digits(n % pow10(places), places),
    decreases places,
{
    let d = decimal_text(n);
    if places == 0 {
        assert(d.len() > 0);
        assert(d.take(d.len() as int) =~= d);
        assert(d.skip(d.len() as int) =~= Seq::<char>::empty());
        assert(shift_point(d, 0) =~= d + seq!['.'] + fixed_digits(0, 0));
        assert(n / 1 == n && n % 1 == 0);
    } else {
        let w = (places - 1) as nat;
        let p = pow10(w);
        lemma_pow10_positive(w);
        assert(pow10(places) == 10 * p);
        let last = digit_char(n % 10);
        if n < 10 {
            assert(d =~= seq![last]);
            lemma_fixed_digits_of_zero(w);
            assert(n / (10 * p) == 0) by (nonlinear_arith)
                requires
                    n < 10,
                    p > 0,
            ;
            assert(n % (10 * p) == n) by (nonlinear_arith)
                requires
                    n < 10,
                    p > 0,
            ;
            assert(n / 10 == 0);
            assert(fixed_digits(n, places) == zeros(w).push(last));
            assert(decimal_text(0) =~= seq!['0']);
            assert(shift_point(d, places) =~= seq!['0'] + seq!['.'] + zeros(w).push(last));
        } else {
            let m = n / 10;
            let front = decimal_text(m);
            assert(d == front.push(last));
            lemma_shift_one_more(front, last, w);
            shifted_numeral_divides(m, w);
            vstd::arithmetic::div_mod::lemma_div_denominator(n as int, 10, p as int);
            vstd::arithmetic::div_mod::lemma_breakdown(n as int, 10, p as int);
            let x = n % (10 * p);
            assert(x == 10 * (m % p) + n % 10);
            assert(x / 10 == m % p);
            assert(x % 10 == n % 10);
            assert(n / (10 * p) == m / p);
            assert(fixed_digits(x, places) == fixed_digits(m % p, w).push(last));
            assert(shift_point(d, places) =~= decimal_text(n / pow10(places)) + seq!['.']
                + fixed_digits(n % pow10(places), places));
        }
    }
}

/// The text in ether of a number of wei is the numeral of `wei / 10^18`, a
/// point, and `wei % 10^18` in 18 digits.
pub proof fn ether_is_wei_over_ten_to_18(wei: nat)
    ensures
        ether_text(wei) == decimal_text(wei / 1_000_000_000_000_000_000) + seq!['.']
            + fixed_digits(wei % 1_000_000_000_000_000_000, 18),
{
    reveal_with_fuel(pow10, 19);
    assert(pow10(18) == 1_000_000_000_000_000_000);
    shifted_numeral_divides(wei, 18);
}

/// Twice a limb and `carry` more: the low 64 bits, and whether a bit went out.
fn double_limb(limb: u64, carry: bool) -> (r: (u64, bool))
    ensures
        r.0 + (if r.1 {
            two_64()
        } else {
            0
        }) == 2 * limb + (if carry {
            1nat
        } else {
            0nat
        }),
{
    let c: u64 = if carry {
        1
    } else {
        0
    };
    if limb >= 0x8000_0000_0000_0000 {
        ((limb - 0x8000_0000_0000_0000) * 2 + c, true)
    } else {
        (limb * 2 + c, false)
    }
}

impl Quantity {
    /// The number that the limbs hold.
    pub open spec fn value(&self) -> nat {
        limbs_value(self.limbs@)
    }

    /// The number zero.
    pub fn zero() -> (r: Quantity)
        ensures
            r.value() == 0,
    {
        Quantity { limbs: [0, 0, 0, 0] }
    }

    /// The number `n`.
    pub fn from_u64(n: u64) -> (r: Quantity)
        ensures
            r.value() == n,
    {
        Quantity { limbs: [n, 0, 0, 0] }
    }

    /// The number `n`.
    pub fn from_u128(n: u128) -> (r: Quantity)
        ensures
            r.value() == n,
    {
        let low: u64 = (n % 0x1_0000_0000_0000_0000) as u64;
        let high: u64 = (n / 0x1_0000_0000_0000_0000) as u64;
        Quantity { limbs: [low, high, 0, 0] }
    }

    /// Twice this number and `carry` more.
    pub fn double_plus(&self, carry: bool) -> (r: Quantity)
        requires
            2 * self.value() + (if carry {
                1nat
            } else {
                0nat
            }) < two_256(),
        ensures
            r.value() == 2 * self.value() + (if carry {
                1nat
            } else {
                0nat
            }),
    {
        let (l0, c0) = double_limb(self.limbs[0], carry);
        let (l1, c1) = double_limb(self.limbs[1], c0);
        let (l2, c2) = double_limb(self.limbs[2], c1);
        let (l3, c3) = double_limb(self.limbs[3], c2);
        let r = Quantity { limbs: [l0, l1, l2, l3] };
        assert(r.value() + (if c3 {
            two_256()
        } else {
            0
        }) == 2 * self.value() + (if carry {
            1nat
        } else {
            0nat
        }));
        r
    }

    /// `2^bits - 1`: the number whose low `bits` bits are set.
    pub fn low_ones(bits: u16) -> (r: Quantity)
        requires
            bits <= 256,
        ensures
            r.value() == pow2(bits as nat) - 1,
    {
        let mut q = Quantity::zero();
        let mut k: u16 = 0;
        proof {
            lemma2_to64();
        }
        while k < bits
            invariant
                k <= bits <= 256,
                q.value() == pow2(k as nat) - 1,
            decreases bits - k,
        {
            proof {
                lemma_pow2_unfold((k + 1) as nat);
                lemma_pow2_le_256((k + 1) as nat);
            }
            q = q.double_plus(true);
            k += 1;
        }
        q
    }

    /// `2^bits`.
    pub fn power_of_two(bits: u16) -> (r: Quantity)
        requires
            bits < 256,
        ensures
            r.value() == pow2(bits as nat),
    {
        let mut q = Quantity::from_u64(1);
        let mut k: u16 = 0;
        proof {
            lemma2_to64();
        }
        while k < bits
            invariant
                k <= bits < 256,
                q.value() == pow2(k as nat),
            decreases bits - k,
        {
            proof {
                lemma_pow2_unfold((k + 1) as nat);
                lemma_pow2_le_256((k + 1) as nat);
            }
            q = q.double_plus(false);
            k += 1;
        }
        q
    }

    /// The decimal numeral of this number.
    pub fn to_decimal(&self) -> (r: String)
        ensures
            r@ == decimal_text(self.value()),
    {
        u256_text(&self.limbs)
    }

    /// This number of wei written in ether, with 18 fractional digits.
    pub fn to_ether(&self) -> (r: String)
        ensures
            r@ == ether_text(self.value()),
    {
        let numeral = self.to_decimal();
        let digits = chars_of(numeral.as_str());
        let n = digits.len();
        let mut out: Vec<char> = Vec::new();
        if n > 18 {
            let mut i: usize = 0;
            while i < n - 18
                invariant
                    n == digits.len(),
                    n > 18,
                    i <= n - 18,
                    out@ == digits@.take(i as int),
                decreases n - 18 - i,
            {
                out.push(digits[i]);
                i += 1;
                assert(digits@.take(i as int) =~= digits@.take(i - 1).push(digits@[i - 1]));
            }
            out.push('.');
        } else {
            out.push('0');
            out.push('.');
            let mut z: usize = 0;
            while z < 18 - n
                invariant
                    n == digits.len(),
                    n <= 18,
                    z <= 18 - n,
                    out@ == seq!['0', '.'] + zeros(z as nat),
                decreases 18 - n - z,
            {
                out.push('0');
                z += 1;
                assert(seq!['0', '.'] + zeros(z as nat) =~= (seq!['0', '.'] + zeros(
                    (z - 1) as nat,
                )).push('0'));
            }
        }
        let from: usize = if n > 18 {
            n - 18
        } else {
            0
        };
        let ghost head = out@;
        let mut j: usize = from;
        while j < n
            invariant
                n == digits.len(),
                from <= j <= n,
                out@ == head + digits@.subrange(from as int, j as int),
            decreases n - j,
        {
            out.push(digits[j]);
            j += 1;
            assert(digits@.subrange(from as int, j as int) =~= digits@.subrange(
                from as int,
                j - 1,
            ).push(digits@[j - 1]));
        }
        proof {
            if n > 18 {
                assert(digits@.subrange(from as int, n as int) =~= digits@.skip(n - 18));
            } else {
                assert(digits@.subrange(0, n as int) =~= digits@);
            }
        }
        let text = string_of(&out, 0, out.len());
        assert(out@.subrange(0, out.len() as int) =~= out@);
        assert(text@ =~= ether_text(self.value()));
        text
    }
}

/// The numeral of a number is made of digits, and reads back as the number.
pub proof fn numeral_reads_back(n: nat)
    ensures
        decimal_text(n).len() > 0,
        all_digits(decimal_text(n)),
        digits_value(decimal_text(n)) == n,
    decreases n,
{
    let d = decimal_text(n);
    if n < 10 {
        assert(d =~= seq![digit_char(n)]);
        assert(d.drop_last() =~= Seq::<char>::empty());
        assert(digits_value(d.drop_last()) == 0);
    } else {
        numeral_reads_back(n / 10);
        let front = decimal_text(n / 10);
        assert(d.drop_last() =~= front);
        assert forall|i: int| 0 <= i < d.len() implies crate::text::is_digit(#[trigger] d[i]) by {
            if i < front.len() {
                assert(d[i] == front[i]);
            }
        }
    }
}

/// A fixed-width integer type: signed or not, and its width in bits.
#[derive(Clone, Copy, Debug, PartialEq, Eq, Structural)]
pub struct IntType {
    pub signed: bool,
    pub bits: u16,
}

/// The width that the digits after `int` or `uint` give: 256 where there are
/// none, else a multiple of 8 from 8 to 256.
pub open spec fn width_named(digits: Seq<char>) -> Option<u16> {
    if digits.len() == 0 {
        Some(256)
    } else if all_digits(digits) && 8 <= digits_value(digits) <= 256 && digits_value(digits) % 8
        == 0 {
        Some(digits_value(digits) as u16)
    } else {
        None
    }
}

/// The integer type that `name` names: `int` or `uint`, then its width.
pub open spec fn named_int_type(name: Seq<char>) -> Option<IntType> {
    if name.len() >= 4 && name[0] == 'u' && name[1] == 'i' && name[2] == 'n' && name[3] == 't' {
        match width_named(name.skip(4)) {
            Some(bits) => Some(IntType { signed: false, bits }),
            None => None,
        }
    } else if name.len() >= 3 && name[0] == 'i' && name[1] == 'n' && name[2] == 't' {
        match width_named(name.skip(3)) {
            Some(bits) => Some(IntType { signed: true, bits }),
            None => None,
        }
    } else {
        None
    }
}

/// The numeral of the greatest value of a type.
pub open spec fn max_text(ty: IntType) -> Seq<char> {
    if ty.signed {
        decimal_text((pow2((ty.bits - 1) as nat) - 1) as nat)
    } else {
        decimal_text((pow2(ty.bits as nat) - 1) as nat)
    }
}

/// The numeral of the least value of a type.
pub open spec fn min_text(ty: IntType) -> Seq<char> {
    if ty.signed {
        seq!['-'] + decimal_text(pow2((ty.bits - 1) as nat))
    } else {
        seq!['0']
    }
}

/// The width that the digits `chars[from..]` give.
fn parse_width(chars: &Vec<char>, from: usize) -> (r: Option<u16>)
    requires
        from <= chars.len(),
    ensures
        r == width_named(chars@.skip(from as int)),
{
    let n = chars.len();
    let ghost d = chars@.skip(from as int);
    if from == n {
        return Some(256);
    }
    let mut acc: u16 = 0;
    let mut i: usize = from;
    while i < n
        invariant
            from <= i <= n,
            from < n,
            n == chars.len(),
            d == chars@.skip(from as int),
            all_digits(d.take(i - from)),
            acc == digits_value(d.take(i - from)),
            acc <= 256,
        decreases n - i,
    {
        let v: u16 = match digit_of(chars[i]) {
            Some(v) => v as u16,
            None => {
                assert(!crate::text::is_digit(d[i - from]));
                return None;
            },
        };
        proof {
            assert(d.take(i - from + 1) =~= d.take(i - from).push(d[i - from]));
            assert forall|k: int| 0 <= k < i - from + 1 implies crate::text::is_digit(
                #[trigger] d.take(i - from + 1)[k],
            ) by {
                if k < i - from {
                    assert(d.take(i - from)[k] == d.take(i - from + 1)[k]);
                }
            }
            lemma_digits_value_push(d.take(i - from), d[i - from]);
        }
        if acc * 10 + v > 256 {
            proof {
                lemma_digits_value_prefix(d, i - from + 1);
            }
            return None;
        }
        acc = acc * 10 + v;
        i += 1;
    }
    assert(d.take(n - from) =~= d);
    if acc >= 8 && acc % 8 == 0 {
        Some(acc)
    } else {
        None
    }
}

impl IntType {
    /// A type is in order when its width is a multiple of 8 from 8 to 256.
    pub open spec fn wf(&self) -> bool {
        8 <= self.bits <= 256 && self.bits % 8 == 0
    }

    /// The type that `name` names, if it names one.
    pub fn parse(name: &str) -> (r: Option<IntType>)
        ensures
            r == named_int_type(name@),
            r matches Some(ty) ==> ty.wf(),
    {
        let chars = chars_of(name);
        let n = chars.len();
        if n >= 4 && chars[0] == 'u' && chars[1] == 'i' && chars[2] == 'n' && chars[3] == 't' {
            match parse_width(&chars, 4) {
                Some(bits) => Some(IntType { signed: false, bits }),
                None => None,
            }
        } else if n >= 3 && chars[0] == 'i' && chars[1] == 'n' && chars[2] == 't' {
            match parse_width(&chars, 3) {
                Some(bits) => Some(IntType { signed: true, bits }),
                None => None,
            }
        } else {
            None
        }
    }

    /// The numeral of the greatest value of this type.
    pub fn max_value(&self) -> (r: String)
        requires
            self.wf(),
        ensures
            r@ == max_text(*self),
    {
        let ones = if self.signed {
            Quantity::low_ones(self.bits - 1)
        } else {
            Quantity::low_ones(self.bits)
        };
        ones.to_decimal()
    }

    /// The numeral of the least value of this type.
    pub fn min_value(&self) -> (r: String)
        requires
            self.wf(),
        ensures
            r@ == min_text(*self),
    {
        if self.signed {
            let magnitude = Quantity::power_of_two(self.bits - 1).to_decimal();
            let mut text = String::new();
            text.push('-');
            text.append(magnitude.as_str());
            assert(text@ =~= min_text(*self));
            text
        } else {
            let mut text = String::new();
            text.push('0');
            assert(text@ =~= min_text(*self));
            text
        }
    }
}

proof fn lemma_pow2_le_256(e: nat)
    requires
        e <= 256,
    ensures
        pow2(e) <= two_256(),
        e < 256 ==> 2 * pow2(e) <= two_256(),
{
    lemma_pow2_256();
    if e < 256 {
        vstd::arithmetic::power2::lemma_pow2_strictly_increases(e, 256);
        lemma_pow2_unfold((e + 1) as nat);
        if e + 1 < 256 {
            vstd::arithmetic::power2::lemma_pow2_strictly_increases((e + 1) as nat, 256);
        }
    }
}

proof fn lemma_pow2_256()
    ensures
        pow2(256) == two_256(),
{
    lemma2_to64();
    vstd::arithmetic::power2::lemma_pow2_adds(64, 64);
    vstd::arithmetic::power2::lemma_pow2_adds(128, 128);
    assert(pow2(128) == two_128()) by {
        assert(pow2(64) * pow2(64) == two_128())
            by (nonlinear_arith)
            requires
                pow2(64) == two_64(),
        ;
    }
    assert(pow2(128) * pow2(128) == two_256()) by (nonlinear_arith)
        requires
            pow2(128) == two_128(),
    ;
}

} // verus!
