use neural_nets::autodiff::scalar::operations::{BinaryOperations, Clamp, UnaryOperations};
use neural_nets::autodiff::scalar::real_math::RealMath;
use neural_nets::autodiff::scalar::Real;
use neural_nets::autodiff::tape::Tape;

#[derive(Clone, Copy, Debug, PartialEq, PartialOrd)]
struct R(f64);

impl UnaryOperations for R {
    fn recip(self) -> Self { R(self.0.recip()) }
    fn recip_spec(self) -> Self { R(self.0.recip()) }
    fn abs(self) -> Self { R(self.0.abs()) }
    fn abs_spec(self) -> Self { R(self.0.abs()) }
    fn signum(self) -> Self { R(self.0.signum()) }
    fn signum_spec(self) -> Self { R(self.0.signum()) }
    fn sqrt(self) -> Self { R(self.0.sqrt()) }
    fn sqrt_spec(self) -> Self { R(self.0.sqrt()) }
    fn exp(self) -> Self { R(self.0.exp()) }
    fn exp_spec(self) -> Self { R(self.0.exp()) }
    fn exp2(self) -> Self { R(self.0.exp2()) }
    fn exp2_spec(self) -> Self { R(self.0.exp2()) }
    fn ln(self) -> Self { R(self.0.ln()) }
    fn ln_spec(self) -> Self { R(self.0.ln()) }
    fn log2(self) -> Self { R(self.0.log2()) }
    fn log2_spec(self) -> Self { R(self.0.log2()) }
    fn log10(self) -> Self { R(self.0.log10()) }
    fn log10_spec(self) -> Self { R(self.0.log10()) }
    fn cbrt(self) -> Self { R(self.0.cbrt()) }
    fn cbrt_spec(self) -> Self { R(self.0.cbrt()) }
    fn sin(self) -> Self { R(self.0.sin()) }
    fn sin_spec(self) -> Self { R(self.0.sin()) }
    fn cos(self) -> Self { R(self.0.cos()) }
    fn cos_spec(self) -> Self { R(self.0.cos()) }
    fn tan(self) -> Self { R(self.0.tan()) }
    fn tan_spec(self) -> Self { R(self.0.tan()) }
    fn asin(self) -> Self { R(self.0.asin()) }
    fn asin_spec(self) -> Self { R(self.0.asin()) }
    fn acos(self) -> Self { R(self.0.acos()) }
    fn acos_spec(self) -> Self { R(self.0.acos()) }
    fn atan(self) -> Self { R(self.0.atan()) }
    fn atan_spec(self) -> Self { R(self.0.atan()) }
    fn exp_m1(self) -> Self { R(self.0.exp_m1()) }
    fn exp_m1_spec(self) -> Self { R(self.0.exp_m1()) }
    fn ln_1p(self) -> Self { R(self.0.ln_1p()) }
    fn ln_1p_spec(self) -> Self { R(self.0.ln_1p()) }
    fn sinh(self) -> Self { R(self.0.sinh()) }
    fn sinh_spec(self) -> Self { R(self.0.sinh()) }
    fn cosh(self) -> Self { R(self.0.cosh()) }
    fn cosh_spec(self) -> Self { R(self.0.cosh()) }
    fn tanh(self) -> Self { R(self.0.tanh()) }
    fn tanh_spec(self) -> Self { R(self.0.tanh()) }
    fn asinh(self) -> Self { R(self.0.asinh()) }
    fn asinh_spec(self) -> Self { R(self.0.asinh()) }
    fn acosh(self) -> Self { R(self.0.acosh()) }
    fn acosh_spec(self) -> Self { R(self.0.acosh()) }
    fn atanh(self) -> Self { R(self.0.atanh()) }
    fn atanh_spec(self) -> Self { R(self.0.atanh()) }
    fn trunc(self) -> Self { R(self.0.trunc()) }
    fn trunc_spec(self) -> Self { R(self.0.trunc()) }
    fn floor(self) -> Self { R(self.0.floor()) }
    fn floor_spec(self) -> Self { R(self.0.floor()) }
    fn ceil(self) -> Self { R(self.0.ceil()) }
    fn ceil_spec(self) -> Self { R(self.0.ceil()) }
    fn round(self) -> Self { R(self.0.round()) }
    fn round_spec(self) -> Self { R(self.0.round()) }
}

impl BinaryOperations for R {
    fn log(self, base: Self) -> Self { R(self.0.log(base.0)) }
    fn log_spec(self, base: Self) -> Self { R(self.0.log(base.0)) }
    fn powf(self, n: Self) -> Self { R(self.0.powf(n.0)) }
    fn powf_spec(self, n: Self) -> Self { R(self.0.powf(n.0)) }
}

impl Clamp for R {
    fn clamp(self, min: Self, max: Self) -> Self { R(self.0.clamp(min.0, max.0)) }
    fn clamp_spec(self, min: Self, max: Self) -> Self { R(self.0.clamp(min.0, max.0)) }
}

impl RealMath for R {
    fn neg(self) -> Self { R(-self.0) }
    fn neg_spec(self) -> Self { R(-self.0) }
    fn add(self, rhs: Self) -> Self { R(self.0 + rhs.0) }
    fn add_spec(self, rhs: Self) -> Self { R(self.0 + rhs.0) }
    fn sub(self, rhs: Self) -> Self { R(self.0 - rhs.0) }
    fn sub_spec(self, rhs: Self) -> Self { R(self.0 - rhs.0) }
    fn mul(self, rhs: Self) -> Self { R(self.0 * rhs.0) }
    fn mul_spec(self, rhs: Self) -> Self { R(self.0 * rhs.0) }
    fn div(self, rhs: Self) -> Self { R(self.0 / rhs.0) }
    fn div_spec(self, rhs: Self) -> Self { R(self.0 / rhs.0) }
    fn rem(self, rhs: Self) -> Self { R(self.0 % rhs.0) }
    fn rem_spec(self, rhs: Self) -> Self { R(self.0 % rhs.0) }
}

impl Real for R {
    fn zero() -> Self { R(0.0) }
    fn zero_spec() -> Self { R(0.0) }
    fn one() -> Self { R(1.0) }
    fn one_spec() -> Self { R(1.0) }
    fn min_value() -> Self { R(f64::MIN) }
    fn min_value_spec() -> Self { R(f64::MIN) }
    fn max_value() -> Self { R(f64::MAX) }
    fn max_value_spec() -> Self { R(f64::MAX) }
    fn lt(self, rhs: Self) -> bool { self.0 < rhs.0 }
    fn lt_spec(self, rhs: Self) -> bool { self.0 < rhs.0 }
    fn le(self, rhs: Self) -> bool { self.0 <= rhs.0 }
    fn le_spec(self, rhs: Self) -> bool { self.0 <= rhs.0 }
    fn eq_val(self, rhs: Self) -> bool { self.0 == rhs.0 }
    fn eq_spec(self, rhs: Self) -> bool { self.0 == rhs.0 }
}

#[derive(Clone, Copy, Debug, PartialEq, PartialOrd)]
struct S(f32);

impl UnaryOperations for S {
    fn recip(self) -> Self { S(self.0.recip()) }
    fn recip_spec(self) -> Self { S(self.0.recip()) }
    fn abs(self) -> Self { S(self.0.abs()) }
    fn abs_spec(self) -> Self { S(self.0.abs()) }
    fn signum(self) -> Self { S(self.0.signum()) }
    fn signum_spec(self) -> Self { S(self.0.signum()) }
    fn sqrt(self) -> Self { S(self.0.sqrt()) }
    fn sqrt_spec(self) -> Self { S(self.0.sqrt()) }
    fn exp(self) -> Self { S(self.0.exp()) }
    fn exp_spec(self) -> Self { S(self.0.exp()) }
    fn exp2(self) -> Self { S(self.0.exp2()) }
    fn exp2_spec(self) -> Self { S(self.0.exp2()) }
    fn ln(self) -> Self { S(self.0.ln()) }
    fn ln_spec(self) -> Self { S(self.0.ln()) }
    fn log2(self) -> Self { S(self.0.log2()) }
    fn log2_spec(self) -> Self { S(self.0.log2()) }
    fn log10(self) -> Self { S(self.0.log10()) }
    fn log10_spec(self) -> Self { S(self.0.log10()) }
    fn cbrt(self) -> Self { S(self.0.cbrt()) }
    fn cbrt_spec(self) -> Self { S(self.0.cbrt()) }
    fn sin(self) -> Self { S(self.0.sin()) }
    fn sin_spec(self) -> Self { S(self.0.sin()) }
    fn cos(self) -> Self { S(self.0.cos()) }
    fn cos_spec(self) -> Self { S(self.0.cos()) }
    fn tan(self) -> Self { S(self.0.tan()) }
    fn tan_spec(self) -> Self { S(self.0.tan()) }
    fn asin(self) -> Self { S(self.0.asin()) }
    fn asin_spec(self) -> Self { S(self.0.asin()) }
    fn acos(self) -> Self { S(self.0.acos()) }
    fn acos_spec(self) -> Self { S(self.0.acos()) }
    fn atan(self) -> Self { S(self.0.atan()) }
    fn atan_spec(self) -> Self { S(self.0.atan()) }
    fn exp_m1(self) -> Self { S(self.0.exp_m1()) }
    fn exp_m1_spec(self) -> Self { S(self.0.exp_m1()) }
    fn ln_1p(self) -> Self { S(self.0.ln_1p()) }
    fn ln_1p_spec(self) -> Self { S(self.0.ln_1p()) }
    fn sinh(self) -> Self { S(self.0.sinh()) }
    fn sinh_spec(self) -> Self { S(self.0.sinh()) }
    fn cosh(self) -> Self { S(self.0.cosh()) }
    fn cosh_spec(self) -> Self { S(self.0.cosh()) }
    fn tanh(self) -> Self { S(self.0.tanh()) }
    fn tanh_spec(self) -> Self { S(self.0.tanh()) }
    fn asinh(self) -> Self { S(self.0.asinh()) }
    fn asinh_spec(self) -> Self { S(self.0.asinh()) }
    fn acosh(self) -> Self { S(self.0.acosh()) }
    fn acosh_spec(self) -> Self { S(self.0.acosh()) }
    fn atanh(self) -> Self { S(self.0.atanh()) }
    fn atanh_spec(self) -> Self { S(self.0.atanh()) }
    fn trunc(self) -> Self { S(self.0.trunc()) }
    fn trunc_spec(self) -> Self { S(self.0.trunc()) }
    fn floor(self) -> Self { S(self.0.floor()) }
    fn floor_spec(self) -> Self { S(self.0.floor()) }
    fn ceil(self) -> Self { S(self.0.ceil()) }
    fn ceil_spec(self) -> Self { S(self.0.ceil()) }
    fn round(self) -> Self { S(self.0.round()) }
    fn round_spec(self) -> Self { S(self.0.round()) }
}

impl BinaryOperations for S {
    fn log(self, base: Self) -> Self { S(self.0.log(base.0)) }
    fn log_spec(self, base: Self) -> Self { S(self.0.log(base.0)) }
    fn powf(self, n: Self) -> Self { S(self.0.powf(n.0)) }
    fn powf_spec(self, n: Self) -> Self { S(self.0.powf(n.0)) }
}

impl Clamp for S {
    fn clamp(self, min: Self, max: Self) -> Self { S(self.0.clamp(min.0, max.0)) }
    fn clamp_spec(self, min: Self, max: Self) -> Self { S(self.0.clamp(min.0, max.0)) }
}

impl RealMath for S {
    fn neg(self) -> Self { S(-self.0) }
    fn neg_spec(self) -> Self { S(-self.0) }
    fn add(self, rhs: Self) -> Self { S(self.0 + rhs.0) }
    fn add_spec(self, rhs: Self) -> Self { S(self.0 + rhs.0) }
    fn sub(self, rhs: Self) -> Self { S(self.0 - rhs.0) }
    fn sub_spec(self, rhs: Self) -> Self { S(self.0 - rhs.0) }
    fn mul(self, rhs: Self) -> Self { S(self.0 * rhs.0) }
    fn mul_spec(self, rhs: Self) -> Self { S(self.0 * rhs.0) }
    fn div(self, rhs: Self) -> Self { S(self.0 / rhs.0) }
    fn div_spec(self, rhs: Self) -> Self { S(self.0 / rhs.0) }
    fn rem(self, rhs: Self) -> Self { S(self.0 % rhs.0) }
    fn rem_spec(self, rhs: Self) -> Self { S(self.0 % rhs.0) }
}

impl Real for S {
    fn zero() -> Self { S(0.0) }
    fn zero_spec() -> Self { S(0.0) }
    fn one() -> Self { S(1.0) }
    fn one_spec() -> Self { S(1.0) }
    fn min_value() -> Self { S(f32::MIN) }
    fn min_value_spec() -> Self { S(f32::MIN) }
    fn max_value() -> Self { S(f32::MAX) }
    fn max_value_spec() -> Self { S(f32::MAX) }
    fn lt(self, rhs: Self) -> bool { self.0 < rhs.0 }
    fn lt_spec(self, rhs: Self) -> bool { self.0 < rhs.0 }
    fn le(self, rhs: Self) -> bool { self.0 <= rhs.0 }
    fn le_spec(self, rhs: Self) -> bool { self.0 <= rhs.0 }
    fn eq_val(self, rhs: Self) -> bool { self.0 == rhs.0 }
    fn eq_spec(self, rhs: Self) -> bool { self.0 == rhs.0 }
}

fn round5(x: f64) -> f64 {
    (x * 1E5).round() / 1E5
}

#[test]
fn one_input_test() {
    let mut tape = Tape::new();
    let x = tape.new_var(R(-100.0));

    // z = xx + x
    let xx = tape.mul(x, x);
    let z = tape.add(xx, x);
    let grad = z.backprop(&tape);

    assert_eq!(grad.wrt_inputs(), [R(-199.0)]);
}

#[test]
fn basic_test() {
    let mut tape: Tape<R> = Tape::new();
    let x = tape.new_var(R(1.0));
    let y = tape.new_var(R(1.0));

    // -2x + xxxy + 2y
    let a = tape.mul_real(x, R(-2.0));
    let xx = tape.mul(x, x);
    let xxx = tape.mul(xx, x);
    let xxxy = tape.mul(xxx, y);
    let s = tape.add(a, xxxy);
    let y2 = tape.mul_real(y, R(2.0));
    let z = tape.add(s, y2);
    let grad = z.backprop(&tape);

    println!("full grad: {:?}", grad.full());
    println!("grad: {:?}", grad.wrt_inputs());
    println!("dz/dx of z = -2x + x^3 * y + 2y at x=1.0, y=1.0 is {:?}", grad.wrt(x));
    println!("dz/dy of z = -2x + x^3 * y + 2y at x=1.0, y=1.0 is {:?}", grad.wrt(y));

    assert_eq!(grad.wrt_inputs(), [R(1.0), R(3.0)]);
}

#[test]
fn basic_arith_test() {
    let mut tape = Tape::new();
    let x = tape.new_var(R(2.0));
    let y = tape.new_var(R(3.0));

    // z = -x + y(x - 0.5) + y/x - 2x/(5y - 1) - 3y + 7
    let nx = tape.neg(x);
    let xh = tape.sub_real(x, R(0.5));
    let xhy = tape.mul(xh, y);
    let t1 = tape.add(nx, xhy);
    let yx = tape.div(y, x);
    let t2 = tape.add(t1, yx);
    let x2 = tape.mul_real(x, R(2.0));
    let y5 = tape.mul_real(y, R(5.0));
    let y51 = tape.sub_real(y5, R(1.0));
    let q = tape.div(x2, y51);
    let t3 = tape.sub(t2, q);
    let y3 = tape.mul_real(y, R(3.0));
    let t4 = tape.sub(t3, y3);
    let z = tape.add_real(t4, R(7.0));
    let grad = z.backprop(&tape);

    println!("full grad: {:?}", grad.full());

    assert_eq!(
        grad.wrt_inputs().iter().map(|x| round5(x.0)).collect::<Vec<f64>>(),
        [1.10714, -0.89796]
    );
}

#[test]
fn powf_test() {
    let mut tape = Tape::new();
    let x = tape.new_var(R(-1.0));
    let y = tape.new_var(R(2.0));

    // z = x^y - y^x + (2x)^-y
    let xy = tape.powf(x, y);
    let yx = tape.powf(y, x);
    let d = tape.sub(xy, yx);
    let x2 = tape.mul_real(x, R(2.0));
    let ny = tape.neg(y);
    let p = tape.powf(x2, ny);
    let z = tape.add(d, p);
    let grad = z.backprop(&tape);

    // grad wrt y is nan
    assert_eq!(round5(grad.wrt(x).0), -1.84657);
}

#[test]
fn log_test() {
    let mut tape = Tape::new();
    let x = tape.new_var(R(3.0));
    let y = tape.new_var(R(5.0));

    // z = log_y(x) + y*log_2(x) + x*log_10(y) + xy*ln(x + y)
    let lxy = tape.log(x, y);
    let l2 = tape.log2(x);
    let yl2 = tape.mul(y, l2);
    let t1 = tape.add(lxy, yl2);
    let l10 = tape.log10(y);
    let xl10 = tape.mul(x, l10);
    let t2 = tape.add(t1, xl10);
    let xyp = tape.mul(x, y);
    let xpy = tape.add(x, y);
    let lnxy = tape.ln(xpy);
    let prod = tape.mul(xyp, lnxy);
    let z = tape.add(t2, prod);
    let grad = z.backprop(&tape);

    assert_eq!(
        grad.wrt_inputs().iter().map(|x| round5(x.0)).collect::<Vec<f64>>(),
        [15.58278, 9.87404]
    );
}

#[test]
fn trig_test() {
    let mut tape = Tape::new();
    let x = tape.new_var(R(3.141));
    let y = tape.new_var(R(2.712));

    // z = sin(2xy)*sin(cos(y))*tan(y) + 1/tan(x)
    let xy = tape.mul(x, y);
    let xy2 = tape.mul_real(xy, R(2.0));
    let s = tape.sin(xy2);
    let cy = tape.cos(y);
    let scy = tape.sin(cy);
    let m1 = tape.mul(s, scy);
    let ty = tape.tan(y);
    let m2 = tape.mul(m1, ty);
    let tx = tape.tan(x);
    let rtx = tape.recip(tx);
    let z = tape.add(m2, rtx);
    let grad = z.backprop(&tape);

    assert_eq!(
        grad.wrt_inputs().iter().map(|x| (x.0 * 1E3).round() / 1E3).collect::<Vec<f64>>(),
        [-2847070.909, 0.269]
    );
}

#[test]
fn three_input_test() {
    let mut tape = Tape::new();
    let x = tape.new_var(R(1.5));
    let y = tape.new_var(R(3.0));
    let a = tape.new_var(R(4.0));

    // z = x^2 + ya + a
    let x2 = tape.powf_real(x, R(2.0));
    let ya = tape.mul(y, a);
    let t = tape.add(x2, ya);
    let z = tape.add(t, a);
    let grad = z.backprop(&tape);

    assert_eq!(grad.wrt_inputs(), [R(3.0), R(4.0), R(4.0)]);
}

#[test]
fn complex_test() {
    let mut tape = Tape::new();
    let x = tape.new_var(R(2.1));
    let y = tape.new_var(R(8.03));
    let a = tape.new_var(R(3.912));
    let b = tape.new_var(R(0.13));
    let c = tape.new_var(R(5.58));

    // z = log_c^x((1 / a) / (1 / b) + 50) + y*sin(a + x)
    //     + 0.3b*tan^2(x + y + a + b + c) / log_2(c + b^y)
    let ra = tape.recip(a);
    let rb = tape.recip(b);
    let dq = tape.div(ra, rb);
    let d50 = tape.add_real(dq, R(50.0));
    let lg = tape.log(d50, c);
    let t1 = tape.powf(lg, x);
    let ax = tape.add(a, x);
    let sax = tape.sin(ax);
    let t2 = tape.mul(y, sax);
    let u1 = tape.add(t1, t2);
    let b03 = tape.mul_real(b, R(0.3));
    let s1 = tape.add(x, y);
    let s2 = tape.add(s1, a);
    let s3 = tape.add(s2, b);
    let s4 = tape.add(s3, c);
    let tn = tape.tan(s4);
    let tn2 = tape.powf_real(tn, R(2.0));
    let num = tape.mul(b03, tn2);
    let by = tape.powf(b, y);
    let cby = tape.add(c, by);
    let den = tape.log2(cby);
    let t3 = tape.div(num, den);
    let z = tape.add(u1, t3);
    let grad = z.backprop(&tape);

    assert_eq!(
        grad.wrt_inputs().iter().map(|x| round5(x.0)).collect::<Vec<f64>>(),
        [12.46499, -0.16416, 7.83974, 0.31315, -1.12997]
    );
    assert_eq!(grad.full().len(), 28);
}

#[test]
fn f32_test() {
    let mut tape = Tape::new();
    let x = tape.new_var(S(2f32));
    let y = tape.new_var(S(4f32));

    // log_x(1.5) + 2^y
    let l = tape.real_log(S(1.5), x);
    let p = tape.real_powf(S(2.0), y);
    let z = tape.add(l, p);
    let grad = z.backprop(&tape);

    assert_eq!(
        grad.wrt_inputs().iter().map(|x| (x.0 * 1E5).round() / 1E5).collect::<Vec<f32>>(),
        [-0.42196, 11.09036]
    );
}

fn everything_expr(tape: &mut Tape<R>, a_val: f64, b_val: f64, c_val: f64) -> neural_nets::autodiff::var::Var<R> {
    let a = tape.new_var(R(a_val));
    let b = tape.new_var(R(b_val));
    let c = tape.new_var(R(c_val));

    let ra = tape.recip(a);
    let sb = tape.signum(b);
    let t1 = tape.sub(ra, sb);
    let ac = tape.abs(c);
    let t2 = tape.add(t1, ac);
    let sa = tape.sin(a);
    let t3 = tape.sub(t2, sa);
    let ab = tape.mul(a, b);
    let abc = tape.mul(ab, c);
    let abcc = tape.mul(abc, c);
    let t4 = tape.add(t3, abcc);
    let fb = tape.floor(b);
    let t5 = tape.sub(t4, fb);
    let apb = tape.add(a, b);
    let amc = tape.mul(a, c);
    let inner = tape.add(apb, amc);
    let ce = tape.ceil(inner);
    let t6 = tape.add(t5, ce);
    let tb = tape.trunc(b);
    let t7 = tape.add(t6, tb);
    let sha = tape.sinh(a);
    let t8 = tape.add(t7, sha);
    let asb = tape.asin(b);
    let t9 = tape.add(t8, asb);
    let acc = tape.acos(c);
    let t10 = tape.add(t9, acc);
    let ata = tape.atan(a);
    let t11 = tape.add(t10, ata);
    let apc = tape.add(a, c);
    let apc2 = tape.add_real(apc, R(2.0));
    let ach = tape.acosh(apc2);
    let t12 = tape.sub(t11, ach);
    let nb = tape.neg(b);
    let nbb = tape.mul(nb, b);
    let ath = tape.atanh(nbb);
    let t13 = tape.add(t12, ath);
    let cb = tape.cos(b);
    let t14 = tape.add(t13, cb);
    let ch = tape.mul_real(c, R(0.5));
    let tch = tape.tan(ch);
    let t15 = tape.add(t14, tch);
    let ea = tape.exp(a);
    let abm = tape.mul(a, b);
    let abpc = tape.add(abm, c);
    let abpc21 = tape.sub_real(abpc, R(0.21));
    let e2 = tape.exp2(abpc21);
    let esum = tape.add(ea, e2);
    let em1 = tape.exp_m1(b);
    let ediff = tape.sub(esum, em1);
    let rd = tape.round(ediff);
    let t16 = tape.add(t15, rd);
    let c11 = tape.mul_real(c, R(1.1));
    let lc = tape.ln(c11);
    let t17 = tape.sub(t16, lc);
    let l1p = tape.ln_1p(b);
    let t18 = tape.sub(t17, l1p);
    let apc3 = tape.add(a, c);
    let apc312 = tape.add_real(apc3, R(3.12));
    let cbr = tape.cbrt(apc312);
    let l10 = tape.log10(cbr);
    let bl2 = tape.log2(b);
    let lprod = tape.mul(l10, bl2);
    let t19 = tape.add(t18, lprod);
    let a219 = tape.mul_real(a, R(2.19));
    let bmc = tape.sub(b, c);
    let pw = tape.powf(a219, bmc);
    let t20 = tape.add(t19, pw);
    let lba = tape.log(b, a);
    let t21 = tape.sub(t20, lba);
    let amb = tape.rem(a, b);
    let t22 = tape.sub(t21, amb);
    let cma = tape.rem(c, a);
    let t23 = tape.add(t22, cma);
    let acm = tape.mul(a, c);
    let bmac = tape.rem(b, acm);
    let t24 = tape.sub(t23, bmac);
    let t25 = tape.add(t24, a);
    tape.add_real(t25, R(1E99))
}

#[test]
fn pretty_much_everything_test() {
    let mut tape = Tape::new();
    let z = everything_expr(&mut tape, 3.912, 0.13, 0.9);
    let grad1 = z.backprop(&tape);

    let mut tape = Tape::new();
    let z = everything_expr(&mut tape, 1.9482, 0.999, 0.10092);
    let grad2 = z.backprop(&tape);

    assert_eq!(
        grad1.wrt_inputs().iter().map(|x| round5(x.0)).collect::<Vec<f64>>(),
        [25.30827, 30.00121, -0.48622]
    );
    assert_eq!(
        grad2.wrt_inputs().iter().map(|x| round5(x.0)).collect::<Vec<f64>>(),
        [5.84803, -475.02336, -3.87289]
    );
}

#[test]
fn backprop_twice_gives_identical_grads() {
    let mut tape = Tape::new();
    let x = tape.new_var(R(0.75));
    let y = tape.new_var(R(-1.5));
    let xy = tape.mul(x, y);
    let sx = tape.sin(x);
    let z = tape.add(xy, sx);

    let grad1 = z.backprop(&tape);
    let grad2 = z.backprop(&tape);

    assert_eq!(grad1.full(), grad2.full());
    assert_eq!(grad1.wrt_inputs(), grad2.wrt_inputs());
}

#[test]
fn wrt_inputs_len_matches_leaf_count() {
    let mut tape = Tape::new();
    let x = tape.new_var(R(1.25));
    let y = tape.new_var(R(2.5));
    let a = tape.new_var(R(-0.5));

    // the graph grows well past the leaves
    let xy = tape.mul(x, y);
    let s = tape.sin(xy);
    let e = tape.exp(a);
    let t = tape.add(s, e);
    let z = tape.mul(t, t);
    let grad = z.backprop(&tape);

    assert_eq!(grad.wrt_inputs().len(), 3);
    assert_eq!(grad.full().len(), 8);
}

#[test]
fn analytic_gradient_matches_finite_differences() {
    fn f(xv: f64, yv: f64) -> f64 {
        (xv * yv).sin() + (xv / yv).exp() + xv * xv * yv
    }

    let x0 = 1.2;
    let y0 = 0.7;
    let mut tape = Tape::new();
    let x = tape.new_var(R(x0));
    let y = tape.new_var(R(y0));
    let xy = tape.mul(x, y);
    let s = tape.sin(xy);
    let q = tape.div(x, y);
    let e = tape.exp(q);
    let t1 = tape.add(s, e);
    let xx = tape.mul(x, x);
    let xxy = tape.mul(xx, y);
    let z = tape.add(t1, xxy);
    let grad = z.backprop(&tape);

    let h = 1e-6;
    let dx = (f(x0 + h, y0) - f(x0 - h, y0)) / (2.0 * h);
    let dy = (f(x0, y0 + h) - f(x0, y0 - h)) / (2.0 * h);

    assert!((grad.wrt(x).0 - dx).abs() < 1e-5);
    assert!((grad.wrt(y).0 - dy).abs() < 1e-5);
}
