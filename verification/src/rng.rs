use vstd::prelude::*;
use vstd::seq_lib::to_multiset_update;

use crate::autodiff::scalar::{ten_spec, Real};

verus! {

/// Where the pseudo-random sequence starts: from clock-derived entropy,
/// or from an explicit positive value.
#[derive(Clone, Copy, Debug, PartialEq)]
pub enum Seed<T> {
    OS,
    Input(T),
}

/// One step of the multiplicative Lehmer generator, with multiplier
/// 48271 and modulus 2^31 - 1, both built from the scalar's own
/// identities so the generator is portable across numeric types.
pub open spec fn lehmer_spec<T: Real>(state: T) -> T {
    let one = T::one_spec();
    let two = one.add_spec(one);
    let three = two.add_spec(one);
    let four = three.add_spec(one);
    let sixteen = four.mul_spec(four);
    let num48271 = sixteen.mul_spec(sixteen).mul_spec(sixteen).mul_spec(four).mul_spec(
        three,
    ).sub_spec(sixteen.mul_spec(sixteen).mul_spec(four)).add_spec(
        sixteen.mul_spec(three).mul_spec(three),
    ).sub_spec(one);
    let modulus = sixteen.mul_spec(sixteen).mul_spec(sixteen).mul_spec(sixteen).mul_spec(
        sixteen,
    ).mul_spec(sixteen).mul_spec(sixteen).mul_spec(four).mul_spec(two).sub_spec(one);
    num48271.mul_spec(state).rem_spec(modulus)
}

/// The Lehmer sequence after `k` steps from the given start.
pub open spec fn lehmer_iter<T: Real>(s: T, k: nat) -> T
    decreases k,
{
    if k == 0 {
        s
    } else {
        lehmer_spec(lehmer_iter(s, (k - 1) as nat))
    }
}

/// Advances the Lehmer sequence by one step.
pub fn lehmer_rng<T: Real>(state: T) -> (r: T)
    ensures
        r == lehmer_spec(state),
{
    let one = T::one();
    let two = T::one().add(T::one());
    let three = two.add(one);
    let four = three.add(one);
    let sixteen = four.mul(four);

    let num48271 = sixteen.mul(sixteen).mul(sixteen).mul(four).mul(three).sub(
        sixteen.mul(sixteen).mul(four),
    ).add(sixteen.mul(three).mul(three)).sub(one);
    let modulus = sixteen.mul(sixteen).mul(sixteen).mul(sixteen).mul(sixteen).mul(sixteen).mul(
        sixteen,
    ).mul(four).mul(two).sub(one);

    num48271.mul(state).rem(modulus)
}

/// The scalar that stands for one decimal digit, built from the
/// identities: small digits by addition, large ones by subtraction from
/// ten. A value outside the digit range stands for zero.
pub open spec fn digit_real_spec<T: Real>(d: int) -> T {
    let one = T::one_spec();
    let two = one.add_spec(one);
    let ten = ten_spec::<T>();
    if d == 0 {
        T::zero_spec()
    } else if d == 1 {
        one
    } else if d == 2 {
        two
    } else if d == 3 {
        two.add_spec(one)
    } else if d == 4 {
        two.add_spec(two)
    } else if d == 5 {
        two.add_spec(two).add_spec(one)
    } else if d == 6 {
        ten.sub_spec(two).sub_spec(two)
    } else if d == 7 {
        ten.sub_spec(two).sub_spec(one)
    } else if d == 8 {
        ten.sub_spec(two)
    } else if d == 9 {
        ten.sub_spec(one)
    } else {
        T::zero_spec()
    }
}

/// Builds the scalar for one decimal digit.
pub fn digit_real<T: Real>(d: u8) -> (r: T)
    ensures
        r == digit_real_spec::<T>(d as int),
{
    let one = T::one();
    let two = T::one().add(T::one());
    let ten: T = crate::autodiff::scalar::real_ten();
    match d {
        0 => T::zero(),
        1 => one,
        2 => two,
        3 => two.add(one),
        4 => two.add(two),
        5 => two.add(two).add(one),
        6 => ten.sub(two).sub(two),
        7 => ten.sub(two).sub(one),
        8 => ten.sub(two),
        9 => ten.sub(one),
        _ => T::zero(),
    }
}

/// A non-negative integer read into the scalar type, digit by decimal
/// digit from the lowest upward, each digit scaled by the running power
/// of ten and accumulated by addition.
pub open spec fn decimal_real_spec<T: Real>(n: int, pow: T, acc: T) -> T
    decreases n,
{
    if n <= 0 {
        acc
    } else {
        decimal_real_spec(
            n / 10,
            pow.mul_spec(ten_spec::<T>()),
            acc.add_spec(pow.mul_spec(digit_real_spec::<T>(n % 10))),
        )
    }
}

/// Reads a non-negative machine integer into the scalar type through its
/// decimal digits.
pub fn u128_to_real<T: Real>(n: u128) -> (r: T)
    ensures
        r == decimal_real_spec::<T>(n as int, T::one_spec(), T::zero_spec()),
{
    let ten: T = crate::autodiff::scalar::real_ten();
    let mut m = n;
    let mut pow = T::one();
    let mut acc = T::zero();
    while m > 0
        invariant
            ten == ten_spec::<T>(),
            decimal_real_spec::<T>(n as int, T::one_spec(), T::zero_spec())
                == decimal_real_spec::<T>(m as int, pow, acc),
        decreases m,
    {
        let d = (m % 10) as u8;
        let dv: T = digit_real(d);
        acc = acc.add(pow.mul(dv));
        pow = pow.mul(ten);
        m = m / 10;
    }
    acc
}

/// Reads a signed machine integer into the scalar type: its magnitude
/// through the decimal digits, negated by a multiplication with minus
/// one where the integer was negative.
pub open spec fn i64_to_real_spec<T: Real>(x: int) -> T {
    if x >= 0 {
        decimal_real_spec::<T>(x, T::one_spec(), T::zero_spec())
    } else {
        decimal_real_spec::<T>(-x, T::one_spec(), T::zero_spec()).mul_spec(
            T::one_spec().neg_spec(),
        )
    }
}

/// Reads a signed machine integer into the scalar type.
pub fn i64_to_real<T: Real>(x: i64) -> (r: T)
    ensures
        r == i64_to_real_spec::<T>(x as int),
{
    if x >= 0 {
        u128_to_real(x as u128)
    } else {
        let wide: i128 = x as i128;
        let mag: T = u128_to_real((-wide) as u128);
        mag.mul(T::one().neg())
    }
}

/// Relies on std::time::SystemTime::now, duration_since and
/// Duration::as_nanos: the number of nanoseconds between the Unix epoch
/// and the moment of the call, or zero if the clock reads earlier than
/// the epoch. The value is clock-dependent entropy; nothing is promised
/// of it.
#[verifier::external_body]
fn nanos_since_unix_epoch() -> u128 {
    std::time::SystemTime::now().duration_since(std::time::UNIX_EPOCH).map(
        |d| d.as_nanos(),
    ).unwrap_or(0)
}

/// The value is some non-negative integer's decimal reading into the
/// scalar type.
pub open spec fn decimal_reading<T: Real>(x: T) -> bool {
    exists|n: int| 0 <= n && x == decimal_real_spec::<T>(n, T::one_spec(), T::zero_spec())
}

/// A seed drawn from the clock: the nanoseconds since the Unix epoch,
/// read into the scalar type digit by digit. Some decimal reading is
/// returned; which one depends on the moment of the call.
pub fn os_seed<T: Real>() -> (r: T)
    ensures
        decimal_reading(r),
{
    let nanos = nanos_since_unix_epoch();
    let r: T = u128_to_real(nanos);
    proof {
        assert(0 <= nanos as int && r == decimal_real_spec::<T>(
            nanos as int,
            T::one_spec(),
            T::zero_spec(),
        ));
    }
    r
}

/// Powers of ten on wide machine integers, for assembling a decimal
/// reading of a scalar.
pub open spec fn pow10_spec(j: nat) -> int
    decreases j,
{
    if j == 0 {
        1
    } else {
        10 * pow10_spec((j - 1) as nat)
    }
}

fn pow10_i128(j: u32) -> (r: i128)
    requires
        j <= 19,
    ensures
        r == pow10_spec(j as nat),
        r >= 1,
{
    let mut p: i128 = 1;
    let mut k: u32 = 0;
    proof {
        lemma_pow10_bounds(0);
    }
    while k < j
        invariant
            k <= j,
            j <= 19,
            p == pow10_spec(k as nat),
            1 <= p <= pow10_spec(19),
        decreases j - k,
    {
        proof {
            assert(pow10_spec((k + 1) as nat) == 10 * pow10_spec(k as nat));
            lemma_pow10_bounds((k + 1) as nat);
            lemma_pow10_value();
        }
        p = p * 10;
        k = k + 1;
    }
    p
}

proof fn lemma_pow10_pos(j: nat)
    ensures
        pow10_spec(j) >= 1,
    decreases j,
{
    if j > 0 {
        lemma_pow10_pos((j - 1) as nat);
    }
}

proof fn lemma_pow10_bounds(j: nat)
    requires
        j <= 19,
    ensures
        1 <= pow10_spec(j) <= pow10_spec(19),
    decreases 19 - j,
{
    lemma_pow10_pos(j);
    if j < 19 {
        lemma_pow10_bounds(j + 1);
        assert(pow10_spec(j + 1) == 10 * pow10_spec(j));
    }
}

proof fn lemma_pow10_value()
    ensures
        pow10_spec(19) == 10_000_000_000_000_000_000,
{
    reveal_with_fuel(pow10_spec, 21);
}

/// Which machine integer one decimal digit of the scalar stands for,
/// read back through the same equality tests the digits were built
/// from. An unrecognised reading counts as zero.
pub open spec fn digit_int_spec<T: Real>(d: T) -> int {
    let one = T::one_spec();
    let two = one.add_spec(one);
    let ten = ten_spec::<T>();
    if d.eq_spec(T::zero_spec()) {
        0
    } else if d.eq_spec(one) {
        1
    } else if d.eq_spec(two) {
        2
    } else if d.eq_spec(two.add_spec(one)) {
        3
    } else if d.eq_spec(two.add_spec(two)) {
        4
    } else if d.eq_spec(two.add_spec(two).add_spec(one)) {
        5
    } else if d.eq_spec(ten.sub_spec(two).sub_spec(two)) {
        6
    } else if d.eq_spec(ten.sub_spec(two).sub_spec(one)) {
        7
    } else if d.eq_spec(ten.sub_spec(two)) {
        8
    } else if d.eq_spec(ten.sub_spec(one)) {
        9
    } else {
        0
    }
}

fn digit_int<T: Real>(d: T) -> (r: i128)
    ensures
        r == digit_int_spec(d),
        0 <= r <= 9,
{
    let one = T::one();
    let two = T::one().add(T::one());
    let ten: T = crate::autodiff::scalar::real_ten();
    if d.eq_val(T::zero()) {
        0
    } else if d.eq_val(one) {
        1
    } else if d.eq_val(two) {
        2
    } else if d.eq_val(two.add(one)) {
        3
    } else if d.eq_val(two.add(two)) {
        4
    } else if d.eq_val(two.add(two).add(one)) {
        5
    } else if d.eq_val(ten.sub(two).sub(two)) {
        6
    } else if d.eq_val(ten.sub(two).sub(one)) {
        7
    } else if d.eq_val(ten.sub(two)) {
        8
    } else if d.eq_val(ten.sub(one)) {
        9
    } else {
        0
    }
}

/// The magnitude accumulated by the decimal read-back of a scalar: up to
/// nineteen digits are taken, from the lowest upward, while the running
/// position stays below the scalar's own reading of its digit count.
pub open spec fn real_digits_spec<T: Real>(x: T, i: T, j: int, val: int) -> int
    decreases 19 - j,
{
    let one = T::one_spec();
    let ten = ten_spec::<T>();
    if j >= 19 || !i.lt_spec(x.log10_spec().trunc_spec().add_spec(one)) {
        val
    } else {
        real_digits_spec(
            x,
            i.add_spec(one),
            j + 1,
            val + pow10_spec(j as nat) * digit_int_spec(
                x.div_spec(ten.powf_spec(i)).trunc_spec().rem_spec(ten),
            ),
        )
    }
}

/// A machine integer within the signed 64-bit range, the given value
/// saturated at the range's ends.
pub open spec fn saturate_i64_spec(v: int) -> int {
    if v > i64::MAX {
        i64::MAX as int
    } else if v < i64::MIN {
        i64::MIN as int
    } else {
        v
    }
}

/// The decimal reading of a scalar: the digit-assembled magnitude of
/// its absolute value, signed by its signum, saturated into the signed
/// 64-bit range.
pub open spec fn real_reading_spec<T: Real>(x: T) -> int {
    let mag = real_digits_spec(x.abs_spec(), T::zero_spec(), 0, 0);
    saturate_i64_spec(
        if x.signum_spec().eq_spec(T::one_spec()) {
            mag
        } else {
            -mag
        },
    )
}

/// Reads a scalar back into a signed machine integer: the magnitude is
/// assembled digit by decimal digit from the scalar's absolute value,
/// then signed by its signum, and saturated into the 64-bit range.
pub fn real_to_i64<T: Real>(x: T) -> (r: i64)
    ensures
        r == real_reading_spec(x),
{
    let one = T::one();
    let ten: T = crate::autodiff::scalar::real_ten();

    let sign = x.signum();
    let x = x.abs();
    let mut val: i128 = 0;

    let mut i = T::zero();
    let mut j: u32 = 0;
    proof {
        lemma_pow10_bounds(0);
    }
    loop
        invariant
            ten == ten_spec::<T>(),
            one == T::one_spec(),
            j <= 19,
            0 <= val < pow10_spec(j as nat),
            real_digits_spec(x, T::zero_spec(), 0, 0) == real_digits_spec(x, i, j as int, val as int),
        ensures
            0 <= val,
            real_digits_spec(x, T::zero_spec(), 0, 0) == val as int,
        decreases 19 - j,
    {
        if j >= 19 {
            break ;
        }
        if !i.lt(x.log10().trunc().add(one)) {
            break ;
        }
        let digit = x.div(ten.powf(i)).trunc().rem(ten);
        let d = digit_int(digit);
        let p = pow10_i128(j);
        proof {
            lemma_pow10_bounds(j as nat);
            lemma_pow10_bounds((j + 1) as nat);
            lemma_pow10_value();
            assert(pow10_spec((j + 1) as nat) == 10 * pow10_spec(j as nat));
            assert(val + p * d < 10 * pow10_spec(j as nat) && 0 <= p * d <= 9 * pow10_spec(
                j as nat,
            )) by (nonlinear_arith)
                requires
                    val < pow10_spec(j as nat),
                    p == pow10_spec(j as nat),
                    0 <= d <= 9,
                    0 <= val,
                    p >= 1,
            ;
        }
        val = val + p * d;
        i = i.add(one);
        j = j + 1;
    }

    let signed: i128 = if sign.eq_val(T::one()) {
        val
    } else {
        -val
    };
    if signed > i64::MAX as i128 {
        i64::MAX
    } else if signed < i64::MIN as i128 {
        i64::MIN
    } else {
        signed as i64
    }
}

/// The swap partner for position `i` of `n`: the state's decimal
/// reading, folded by the nonnegative remainder into the positions at
/// or above `i`.
pub open spec fn draw_spec<T: Real>(state: T, n: int, i: int) -> int {
    real_reading_spec(state) % (n - i) + i
}

/// The list once the swaps for positions `i` onward are done, the
/// pseudo-random state advancing one Lehmer step per position.
pub open spec fn shuffle_from_spec<T: Real>(s: Seq<usize>, state: T, i: int) -> Seq<usize>
    decreases s.len() - i,
{
    if i < 0 || i >= s.len() - 1 {
        s
    } else {
        let next = lehmer_spec(state);
        let j = draw_spec(next, s.len() as int, i);
        shuffle_from_spec(s.update(i, s[j]).update(j, s[i]), next, i + 1)
    }
}

/// The permutation a seed determines: each position in turn swaps with
/// the partner drawn from the seeded, advancing Lehmer sequence.
pub open spec fn shuffle_spec<T: Real>(s: Seq<usize>, seed: T) -> Seq<usize> {
    shuffle_from_spec(s, seed, 0)
}

/// Shuffles the vector in place: for each position in turn, the Lehmer
/// state advances one step and its decimal reading picks a partner at
/// or above the position; the two entries are swapped. The entries
/// afterwards are a rearrangement of the entries before — nothing added
/// and nothing lost — and they stand exactly in the order the seed
/// determines: the given value for an explicit seed, some clock-drawn
/// decimal reading otherwise.
pub fn shuffle<T: Real>(vec: &mut Vec<usize>, seed: Seed<T>)
    requires
        old(vec)@.len() >= 1,
        match seed {
            Seed::Input(v) => !v.le_spec(T::zero_spec()),
            Seed::OS => true,
        },
    ensures
        final(vec)@.len() == old(vec)@.len(),
        final(vec)@.to_multiset() == old(vec)@.to_multiset(),
        match seed {
            Seed::Input(v) => final(vec)@ == shuffle_spec(old(vec)@, v),
            Seed::OS => exists|s0: T|
                decimal_reading(s0) && final(vec)@ == shuffle_spec(old(vec)@, s0),
        },
{
    let mut rand: T = match seed {
        Seed::OS => os_seed(),
        Seed::Input(val) => val,
    };
    let ghost init = rand;

    let n = vec.len();
    for i in 0..n - 1
        invariant
            vec@.len() == n,
            n >= 1,
            vec@.to_multiset() == old(vec)@.to_multiset(),
            shuffle_from_spec(vec@, rand, i as int) == shuffle_spec(old(vec)@, init),
    {
        rand = lehmer_rng(rand);
        let ri = real_to_i64(rand);
        let m = n - i;
        let neg = ri < 0;
        let mag: u128 = if neg {
            (-(ri as i128)) as u128
        } else {
            ri as u128
        };
        let wm: u128 = mag % (m as u128);
        let wn: u128 = if neg && wm != 0 {
            (m as u128) - wm
        } else if neg {
            0
        } else {
            wm
        };
        proof {
            let r = ri as int;
            let mi = m as int;
            let mq = (mag as int) / mi;
            let mr = (mag as int) % mi;
            vstd::arithmetic::div_mod::lemma_fundamental_div_mod(mag as int, mi);
            vstd::arithmetic::div_mod::lemma_mod_pos_bound(mag as int, mi);
            if neg && wm != 0 {
                assert((-mq - 1) * mi == -(mi * mq) - mi) by (nonlinear_arith);
                assert(r == (-mq - 1) * mi + (wn as int));
                vstd::arithmetic::div_mod::lemma_fundamental_div_mod_converse(
                    r,
                    mi,
                    -mq - 1,
                    wn as int,
                );
            } else if neg {
                assert((-mq) * mi == -(mi * mq)) by (nonlinear_arith);
                assert(r == (-mq) * mi + 0);
                vstd::arithmetic::div_mod::lemma_fundamental_div_mod_converse(r, mi, -mq, 0);
            }
            assert(wn as int == real_reading_spec(rand) % mi);
        }
        let j = (wn as usize) + i;
        let a = vec[i];
        let b = vec[j];
        let ghost pre = vec@;
        vec.set(i, b);
        vec.set(j, a);
        proof {
            lemma_swap_multiset(pre, i as int, j as int);
            assert(shuffle_from_spec(vec@, rand, i + 1) == shuffle_spec(old(vec)@, init));
        }
    }
    proof {
        assert(shuffle_from_spec(vec@, rand, n - 1 as int) == vec@);
    }
}

/// Swapping two entries of a sequence keeps its multiset of entries.
proof fn lemma_swap_multiset<A>(s: Seq<A>, i: int, j: int)
    requires
        0 <= i < s.len(),
        0 <= j < s.len(),
    ensures
        s.update(i, s[j]).update(j, s[i]).to_multiset() == s.to_multiset(),
{
    broadcast use to_multiset_update, vstd::multiset::group_multiset_axioms,
        vstd::seq_lib::group_to_multiset_ensures;

    let a = s[i];
    let b = s[j];
    let s1 = s.update(i, b);
    let s2 = s1.update(j, a);
    assert(s1.to_multiset() == s.to_multiset().insert(b).remove(a));
    assert(s1[j] == b);
    assert(s2.to_multiset() == s1.to_multiset().insert(a).remove(b));
    assert(s.contains(a) && s.contains(b));
    assert(s.to_multiset().count(a) >= 1 && s.to_multiset().count(b) >= 1);
    assert forall|x: A| s2.to_multiset().count(x) == s.to_multiset().count(x) by {
        let m = s.to_multiset();
        assert(m.insert(b).count(x) == m.count(x) + (if x == b {
            1int
        } else {
            0
        }));
        assert(s1.to_multiset().count(x) == m.insert(b).count(x) - (if x == a {
            1int
        } else {
            0
        }));
        assert(s1.to_multiset().insert(a).count(x) == s1.to_multiset().count(x) + (if x == a {
            1int
        } else {
            0
        }));
        assert(s2.to_multiset().count(x) == s1.to_multiset().insert(a).count(x) - (if x == b {
            1int
        } else {
            0
        }));
    }
    assert(s2.to_multiset() =~= s.to_multiset());
}

} // verus!
