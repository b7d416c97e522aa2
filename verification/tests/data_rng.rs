use neural_nets::autodiff::scalar::operations::{BinaryOperations, Clamp, UnaryOperations};
use neural_nets::autodiff::scalar::real_math::RealMath;
use neural_nets::autodiff::scalar::Real;
use neural_nets::rng::{lehmer_rng, real_to_i64, shuffle, Seed};
use neural_nets::training::data_set::DataSet;

#[derive(Clone, Copy, Debug, PartialEq, PartialOrd)]
struct R(f64);

impl UnaryOperations for R {
    fn recip(self) -> Self { R(self.0.recip()) }
    fn recip_spec(self) -> Self { R(self.0.recip()) }
    fn abs(self) -> Self { R(self.0.abs()) }
    fn abs_spec(self) -> Self { R(self.0.abs()) }
    fn signum(self) -> Self { R(self.0.signum()) }
    fn signum_spec(self) -> Self { R(self.0.signum()) }
    fn sqrt(self) -> Self { R(self.0.sqrt()) }
    fn sqrt_spec(self) -> Self { R(self.0.sqrt()) }
    fn exp(self) -> Self { R(self.0.exp()) }
    fn exp_spec(self) -> Self { R(self.0.exp()) }
    fn exp2(self) -> Self { R(self.0.exp2()) }
    fn exp2_spec(self) -> Self { R(self.0.exp2()) }
    fn ln(self) -> Self { R(self.0.ln()) }
    fn ln_spec(self) -> Self { R(self.0.ln()) }
    fn log2(self) -> Self { R(self.0.log2()) }
    fn log2_spec(self) -> Self { R(self.0.log2()) }
    fn log10(self) -> Self { R(self.0.log10()) }
    fn log10_spec(self) -> Self { R(self.0.log10()) }
    fn cbrt(self) -> Self { R(self.0.cbrt()) }
    fn cbrt_spec(self) -> Self { R(self.0.cbrt()) }
    fn sin(self) -> Self { R(self.0.sin()) }
    fn sin_spec(self) -> Self { R(self.0.sin()) }
    fn cos(self) -> Self { R(self.0.cos()) }
    fn cos_spec(self) -> Self { R(self.0.cos()) }
    fn tan(self) -> Self { R(self.0.tan()) }
    fn tan_spec(self) -> Self { R(self.0.tan()) }
    fn asin(self) -> Self { R(self.0.asin()) }
    fn asin_spec(self) -> Self { R(self.0.asin()) }
    fn acos(self) -> Self { R(self.0.acos()) }
    fn acos_spec(self) -> Self { R(self.0.acos()) }
    fn atan(self) -> Self { R(self.0.atan()) }
    fn atan_spec(self) -> Self { R(self.0.atan()) }
    fn exp_m1(self) -> Self { R(self.0.exp_m1()) }
    fn exp_m1_spec(self) -> Self { R(self.0.exp_m1()) }
    fn ln_1p(self) -> Self { R(self.0.ln_1p()) }
    fn ln_1p_spec(self) -> Self { R(self.0.ln_1p()) }
    fn sinh(self) -> Self { R(self.0.sinh()) }
    fn sinh_spec(self) -> Self { R(self.0.sinh()) }
    fn cosh(self) -> Self { R(self.0.cosh()) }
    fn cosh_spec(self) -> Self { R(self.0.cosh()) }
    fn tanh(self) -> Self { R(self.0.tanh()) }
    fn tanh_spec(self) -> Self { R(self.0.tanh()) }
    fn asinh(self) -> Self { R(self.0.asinh()) }
    fn asinh_spec(self) -> Self { R(self.0.asinh()) }
    fn acosh(self) -> Self { R(self.0.acosh()) }
    fn acosh_spec(self) -> Self { R(self.0.acosh()) }
    fn atanh(self) -> Self { R(self.0.atanh()) }
    fn atanh_spec(self) -> Self { R(self.0.atanh()) }
    fn trunc(self) -> Self { R(self.0.trunc()) }
    fn trunc_spec(self) -> Self { R(self.0.trunc()) }
    fn floor(self) -> Self { R(self.0.floor()) }
    fn floor_spec(self) -> Self { R(self.0.floor()) }
    fn ceil(self) -> Self { R(self.0.ceil()) }
    fn ceil_spec(self) -> Self { R(self.0.ceil()) }
    fn round(self) -> Self { R(self.0.round()) }
    fn round_spec(self) -> Self { R(self.0.round()) }
}

impl BinaryOperations for R {
    fn log(self, base: Self) -> Self { R(self.0.log(base.0)) }
    fn log_spec(self, base: Self) -> Self { R(self.0.log(base.0)) }
    fn powf(self, n: Self) -> Self { R(self.0.powf(n.0)) }
    fn powf_spec(self, n: Self) -> Self { R(self.0.powf(n.0)) }
}

impl Clamp for R {
    fn clamp(self, min: Self, max: Self) -> Self { R(self.0.clamp(min.0, max.0)) }
    fn clamp_spec(self, min: Self, max: Self) -> Self { R(self.0.clamp(min.0, max.0)) }
}

impl RealMath for R {
    fn neg(self) -> Self { R(-self.0) }
    fn neg_spec(self) -> Self { R(-self.0) }
    fn add(self, rhs: Self) -> Self { R(self.0 + rhs.0) }
    fn add_spec(self, rhs: Self) -> Self { R(self.0 + rhs.0) }
    fn sub(self, rhs: Self) -> Self { R(self.0 - rhs.0) }
    fn sub_spec(self, rhs: Self) -> Self { R(self.0 - rhs.0) }
    fn mul(self, rhs: Self) -> Self { R(self.0 * rhs.0) }
    fn mul_spec(self, rhs: Self) -> Self { R(self.0 * rhs.0) }
    fn div(self, rhs: Self) -> Self { R(self.0 / rhs.0) }
    fn div_spec(self, rhs: Self) -> Self { R(self.0 / rhs.0) }
    fn rem(self, rhs: Self) -> Self { R(self.0 % rhs.0) }
    fn rem_spec(self, rhs: Self) -> Self { R(self.0 % rhs.0) }
}

impl Real for R {
    fn zero() -> Self { R(0.0) }
    fn zero_spec() -> Self { R(0.0) }
    fn one() -> Self { R(1.0) }
    fn one_spec() -> Self { R(1.0) }
    fn min_value() -> Self { R(f64::MIN) }
    fn min_value_spec() -> Self { R(f64::MIN) }
    fn max_value() -> Self { R(f64::MAX) }
    fn max_value_spec() -> Self { R(f64::MAX) }
    fn lt(self, rhs: Self) -> bool { self.0 < rhs.0 }
    fn lt_spec(self, rhs: Self) -> bool { self.0 < rhs.0 }
    fn le(self, rhs: Self) -> bool { self.0 <= rhs.0 }
    fn le_spec(self, rhs: Self) -> bool { self.0 <= rhs.0 }
    fn eq_val(self, rhs: Self) -> bool { self.0 == rhs.0 }
    fn eq_spec(self, rhs: Self) -> bool { self.0 == rhs.0 }
}

#[test]
fn test_lehmer_rng() {
    let s = R(123432.0);
    let s2 = lehmer_rng(s);
    let s3 = lehmer_rng(s2);

    assert_ne!(s, s2);
    assert_ne!(s2, s3);
    assert_ne!(s, s3);
}

#[test]
fn test_shuffle() {
    let v1: Vec<usize> = vec![0, 1, 2, 3, 4];
    let mut v2 = v1.clone();
    shuffle(&mut v2, Seed::Input(R(1.0)));

    assert_ne!(v1, v2);
    assert_eq!(
        v1.iter().fold(0, |acc, x| acc + x),
        v1.iter().fold(0, |acc, x| acc + x)
    );
}

#[test]
fn shuffle_keeps_every_entry() {
    let v1: Vec<usize> = (0..50).collect();
    let mut v2 = v1.clone();
    shuffle(&mut v2, Seed::Input(R(987654.0)));

    let mut sorted = v2.clone();
    sorted.sort();
    assert_eq!(sorted, v1);
}

#[test]
fn test_real_to_i64() {
    assert_eq!(real_to_i64(R(69.0)), 69);
    assert_eq!(real_to_i64(R(1000012428f64)), 1000012428);
    assert_eq!(real_to_i64(R(10173480128374f64)), 10173480128374);
    assert_eq!(real_to_i64(R(-128397.0)), -128397);
    assert_eq!(real_to_i64(R(-0.0)), 0);
    assert_eq!(real_to_i64(R(10.5)), 10);
    assert_eq!(real_to_i64(R(199.9)), 199);
}

#[test]
fn data_set_test_new() {
    let data_set1 = DataSet::new(
        vec![vec![R(0.1), R(0.3)], vec![R(-0.15), R(0.2)]],
        vec![vec![R(0.5), R(-0.6)], vec![R(-0.2), R(-0.34)]],
    );

    assert_eq!(data_set1.input_data(), &vec![R(0.1), R(0.3), R(-0.15), R(0.2)]);
    assert_eq!(data_set1.input_sample_starts_and_lengths(), &vec![(0, 2), (2, 2)]);
    assert_eq!(data_set1.output_data(), &vec![R(0.5), R(-0.6), R(-0.2), R(-0.34)]);
    assert_eq!(data_set1.output_sample_starts_and_lengths(), &vec![(0, 2), (2, 2)]);
}

#[test]
fn test_new_combined() {
    let data_set1 = DataSet::new_combined(vec![
        (vec![R(0.1), R(0.3)], vec![R(0.5), R(-0.6)]),
        (vec![R(-0.15), R(0.2)], vec![R(-0.2), R(-0.34)]),
    ]);

    assert_eq!(data_set1.input_data(), &vec![R(0.1), R(0.3), R(-0.15), R(0.2)]);
    assert_eq!(data_set1.input_sample_starts_and_lengths(), &vec![(0, 2), (2, 2)]);
    assert_eq!(data_set1.output_data(), &vec![R(0.5), R(-0.6), R(-0.2), R(-0.34)]);
    assert_eq!(data_set1.output_sample_starts_and_lengths(), &vec![(0, 2), (2, 2)]);
}

#[test]
fn test_nth_input() {
    let data_set = DataSet::new(
        vec![vec![R(0.1), R(0.3)], vec![R(-0.15), R(0.2)]],
        vec![vec![R(0.5), R(-0.6)], vec![R(-0.2), R(-0.34)]],
    );

    assert_eq!(data_set.nth_input(1), [R(-0.15), R(0.2)]);
}

#[test]
fn test_nth_output() {
    let data_set = DataSet::new(
        vec![vec![R(0.1), R(0.3)], vec![R(-0.15), R(0.2)]],
        vec![vec![R(0.5), R(-0.6)], vec![R(-0.2), R(-0.34)]],
    );

    assert_eq!(data_set.nth_output(0), [R(0.5), R(-0.6)]);
}

#[test]
fn test_nth_sample() {
    let data_set = DataSet::new(
        vec![vec![R(0.1), R(0.3)], vec![R(-0.15), R(0.2)]],
        vec![vec![R(0.5), R(-0.6)], vec![R(-0.2), R(-0.34)]],
    );

    assert_eq!(
        data_set.nth_sample(1),
        ([R(-0.15), R(0.2)].as_slice(), [R(-0.2), R(-0.34)].as_slice())
    );
}

#[test]
fn data_set_builder_test() {
    let data_set1 = DataSet::builder()
        .input(vec![R(0.1), R(0.3)])
        .output(vec![R(0.5), R(-0.6)])
        .sample(vec![R(-0.15), R(0.2)], vec![R(-0.2), R(-0.34)])
        .build();

    assert_eq!(data_set1.input_data(), &vec![R(0.1), R(0.3), R(-0.15), R(0.2)]);
    assert_eq!(data_set1.input_sample_starts_and_lengths(), &vec![(0, 2), (2, 2)]);
    assert_eq!(data_set1.output_data(), &vec![R(0.5), R(-0.6), R(-0.2), R(-0.34)]);
    assert_eq!(data_set1.output_sample_starts_and_lengths(), &vec![(0, 2), (2, 2)]);
}
