use neural_nets::autodiff::scalar::operations::{BinaryOperations, Clamp, UnaryOperations};
use neural_nets::autodiff::scalar::real_math::RealMath;
use neural_nets::autodiff::scalar::Real;
use neural_nets::autodiff::tape::Tape;
use neural_nets::network::activation_fn::ActivationFn;
use neural_nets::network::layout::Layout;
use neural_nets::network::params::Params;
use neural_nets::network::Network;
use neural_nets::rng::Seed;
use neural_nets::training::clamp_settings::ClampSettings;
use neural_nets::training::cost::CostFn;
use neural_nets::training::data_set::DataSet;
use neural_nets::training::eta::Eta;
use neural_nets::training::training_settings::TrainingSettings;

#[derive(Clone, Copy, Debug, PartialEq, PartialOrd)]
struct R(f64);

impl UnaryOperations for R {
    fn recip(self) -> Self { R(self.0.recip()) }
    fn recip_spec(self) -> Self { R(self.0.recip()) }
    fn abs(self) -> Self { R(self.0.abs()) }
    fn abs_spec(self) -> Self { R(self.0.abs()) }
    fn signum(self) -> Self { R(self.0.signum()) }
    fn signum_spec(self) -> Self { R(self.0.signum()) }
    fn sqrt(self) -> Self { R(self.0.sqrt()) }
    fn sqrt_spec(self) -> Self { R(self.0.sqrt()) }
    fn exp(self) -> Self { R(self.0.exp()) }
    fn exp_spec(self) -> Self { R(self.0.exp()) }
    fn exp2(self) -> Self { R(self.0.exp2()) }
    fn exp2_spec(self) -> Self { R(self.0.exp2()) }
    fn ln(self) -> Self { R(self.0.ln()) }
    fn ln_spec(self) -> Self { R(self.0.ln()) }
    fn log2(self) -> Self { R(self.0.log2()) }
    fn log2_spec(self) -> Self { R(self.0.log2()) }
    fn log10(self) -> Self { R(self.0.log10()) }
    fn log10_spec(self) -> Self { R(self.0.log10()) }
    fn cbrt(self) -> Self { R(self.0.cbrt()) }
    fn cbrt_spec(self) -> Self { R(self.0.cbrt()) }
    fn sin(self) -> Self { R(self.0.sin()) }
    fn sin_spec(self) -> Self { R(self.0.sin()) }
    fn cos(self) -> Self { R(self.0.cos()) }
    fn cos_spec(self) -> Self { R(self.0.cos()) }
    fn tan(self) -> Self { R(self.0.tan()) }
    fn tan_spec(self) -> Self { R(self.0.tan()) }
    fn asin(self) -> Self { R(self.0.asin()) }
    fn asin_spec(self) -> Self { R(self.0.asin()) }
    fn acos(self) -> Self { R(self.0.acos()) }
    fn acos_spec(self) -> Self { R(self.0.acos()) }
    fn atan(self) -> Self { R(self.0.atan()) }
    fn atan_spec(self) -> Self { R(self.0.atan()) }
    fn exp_m1(self) -> Self { R(self.0.exp_m1()) }
    fn exp_m1_spec(self) -> Self { R(self.0.exp_m1()) }
    fn ln_1p(self) -> Self { R(self.0.ln_1p()) }
    fn ln_1p_spec(self) -> Self { R(self.0.ln_1p()) }
    fn sinh(self) -> Self { R(self.0.sinh()) }
    fn sinh_spec(self) -> Self { R(self.0.sinh()) }
    fn cosh(self) -> Self { R(self.0.cosh()) }
    fn cosh_spec(self) -> Self { R(self.0.cosh()) }
    fn tanh(self) -> Self { R(self.0.tanh()) }
    fn tanh_spec(self) -> Self { R(self.0.tanh()) }
    fn asinh(self) -> Self { R(self.0.asinh()) }
    fn asinh_spec(self) -> Self { R(self.0.asinh()) }
    fn acosh(self) -> Self { R(self.0.acosh()) }
    fn acosh_spec(self) -> Self { R(self.0.acosh()) }
    fn atanh(self) -> Self { R(self.0.atanh()) }
    fn atanh_spec(self) -> Self { R(self.0.atanh()) }
    fn trunc(self) -> Self { R(self.0.trunc()) }
    fn trunc_spec(self) -> Self { R(self.0.trunc()) }
    fn floor(self) -> Self { R(self.0.floor()) }
    fn floor_spec(self) -> Self { R(self.0.floor()) }
    fn ceil(self) -> Self { R(self.0.ceil()) }
    fn ceil_spec(self) -> Self { R(self.0.ceil()) }
    fn round(self) -> Self { R(self.0.round()) }
    fn round_spec(self) -> Self { R(self.0.round()) }
}

impl BinaryOperations for R {
    fn log(self, base: Self) -> Self { R(self.0.log(base.0)) }
    fn log_spec(self, base: Self) -> Self { R(self.0.log(base.0)) }
    fn powf(self, n: Self) -> Self { R(self.0.powf(n.0)) }
    fn powf_spec(self, n: Self) -> Self { R(self.0.powf(n.0)) }
}

impl Clamp for R {
    fn clamp(self, min: Self, max: Self) -> Self { R(self.0.clamp(min.0, max.0)) }
    fn clamp_spec(self, min: Self, max: Self) -> Self { R(self.0.clamp(min.0, max.0)) }
}

impl RealMath for R {
    fn neg(self) -> Self { R(-self.0) }
    fn neg_spec(self) -> Self { R(-self.0) }
    fn add(self, rhs: Self) -> Self { R(self.0 + rhs.0) }
    fn add_spec(self, rhs: Self) -> Self { R(self.0 + rhs.0) }
    fn sub(self, rhs: Self) -> Self { R(self.0 - rhs.0) }
    fn sub_spec(self, rhs: Self) -> Self { R(self.0 - rhs.0) }
    fn mul(self, rhs: Self) -> Self { R(self.0 * rhs.0) }
    fn mul_spec(self, rhs: Self) -> Self { R(self.0 * rhs.0) }
    fn div(self, rhs: Self) -> Self { R(self.0 / rhs.0) }
    fn div_spec(self, rhs: Self) -> Self { R(self.0 / rhs.0) }
    fn rem(self, rhs: Self) -> Self { R(self.0 % rhs.0) }
    fn rem_spec(self, rhs: Self) -> Self { R(self.0 % rhs.0) }
}

impl Real for R {
    fn zero() -> Self { R(0.0) }
    fn zero_spec() -> Self { R(0.0) }
    fn one() -> Self { R(1.0) }
    fn one_spec() -> Self { R(1.0) }
    fn min_value() -> Self { R(f64::MIN) }
    fn min_value_spec() -> Self { R(f64::MIN) }
    fn max_value() -> Self { R(f64::MAX) }
    fn max_value_spec() -> Self { R(f64::MAX) }
    fn lt(self, rhs: Self) -> bool { self.0 < rhs.0 }
    fn lt_spec(self, rhs: Self) -> bool { self.0 < rhs.0 }
    fn le(self, rhs: Self) -> bool { self.0 <= rhs.0 }
    fn le_spec(self, rhs: Self) -> bool { self.0 <= rhs.0 }
    fn eq_val(self, rhs: Self) -> bool { self.0 == rhs.0 }
    fn eq_spec(self, rhs: Self) -> bool { self.0 == rhs.0 }
}

fn round6(x: f64) -> f64 {
    (x * 1E6).round() / 1E6
}

#[test]
fn simple_network_test() {
    let layout = Layout::builder()
        .input_layer(5)
        .feed_forward_layer(ActivationFn::ReLU, 3)
        .feed_forward_layer(ActivationFn::Linear, 4)
        .build();

    let net = Network::new(layout);

    let input = vec![R(0.1), R(0.2), R(0.3), R(0.4), R(0.5)];
    let desired_output = vec![R(0.1), R(-0.2), R(0.3), R(-0.5)];
    let data_set = DataSet::new(vec![input.clone()], vec![desired_output.clone()]);
    let params = net.random_params::<R>(Seed::OS);

    let res = net.run(&input, &params);
    println!("res1: {:?}", res);

    let train_res = net.train::<R>(
        &TrainingSettings {
            batch_size: 1,
            num_epochs: 100,
            cost_fn: CostFn::MSE,
            clamp_settings: ClampSettings::new(R(-1.0), R(1.0), R(-1.0), R(1.0)),
            eta: Eta::Const(R(0.1)),
            data_set,
            stoch_shuffle_seed: Seed::Input(R(5.0)),
        },
        params,
    );

    let res = net.run(&input, train_res.params());
    println!("res2: {:?}", res);
}

#[test]
fn test_sigmoid() {
    assert_eq!(ActivationFn::sigmoid(R(0.0)), R(0.5));
    assert_eq!(round6(ActivationFn::sigmoid(R(10f64)).0), 0.999955);
    assert!(ActivationFn::sigmoid(R(f64::MIN)).0 >= 0.0);
}

#[test]
fn test_relu() {
    assert_eq!(ActivationFn::relu(R(5.0)), R(5.0));
    assert_eq!(ActivationFn::relu(R(f64::MAX / 2.0)), R(f64::MAX / 2.0));
    assert_eq!(ActivationFn::relu(R(f64::EPSILON)), R(f64::EPSILON));
    assert_eq!(ActivationFn::relu(R(-0.1)), R(0.0));
    assert_eq!(ActivationFn::relu(R(-1000000.0)), R(0.0));
}

#[test]
fn test_gelu() {
    assert_eq!(ActivationFn::gelu(R(-7.32)), R(0.030683066768026346));
    assert_eq!(ActivationFn::gelu(R(-2.9)), R(0.004596567862235712));
    assert_eq!(ActivationFn::gelu(R(0.0)), R(0.0));
    assert_eq!(ActivationFn::gelu(R(2.12)), R(2.087044277682028));
    assert_eq!(ActivationFn::gelu(R(3.0)), R(3.0067693992198983));
}

#[test]
fn test_cdf_nd() {
    assert_eq!(ActivationFn::cdf_nd(R(-1.0)), R(0.15864757713595257));
    assert_eq!(ActivationFn::cdf_nd(R(0.0)), R(0.5));
    assert_eq!(ActivationFn::cdf_nd(R(1.2)), R(0.8849676941167681));
}

#[test]
fn test_erf() {
    assert_eq!(ActivationFn::erf(R(-1.23)), R(-0.919123734092335));
    assert_eq!(ActivationFn::erf(R(0.0)), R(0.0));
    assert!(ActivationFn::erf(R(f64::MAX)).0 < 1.01);
    assert_eq!(ActivationFn::erf(R(0.29)), R(0.31828349781690646));
}

#[test]
fn test_smooth_relu() {
    assert!(ActivationFn::smooth_relu(R(f64::MIN)).0 >= 0.0);
    assert!(ActivationFn::smooth_relu(R(f64::MAX)).0.is_infinite());
    assert_eq!(ActivationFn::smooth_relu(R(0.0)), R(2f64.ln()));
}

#[test]
fn test_default_params() {
    let layout = Layout::builder()
        .input_layer(1)
        .feed_forward_layer(ActivationFn::ReLU, 2)
        .feed_forward_layer(ActivationFn::Linear, 1)
        .build();

    let params = Params::<R>::default_params(&layout);
    let params2 = Params::new(
        vec![R(1.0), R(1.0), R(1.0), R(1.0)],
        vec![R(1.0), R(1.0), R(1.0)],
        vec![],
    );

    assert_eq!(params, params2);
}

#[test]
fn test_random_params() {
    let layout = Layout::builder()
        .input_layer(1)
        .feed_forward_layer(ActivationFn::ReLU, 1)
        .feed_forward_layer(ActivationFn::Linear, 1)
        .build();

    let params = Params::<R>::random_params(&layout, Seed::Input(R(1122219.0)));
    let params2 = Params::new(
        vec![R(-0.9399092877283692), R(-0.3612265856936574)],
        vec![R(-0.7685036603361368), R(-0.440182882361114)],
        vec![],
    );

    assert_eq!(params, params2);
}

#[test]
fn test_var_params() {
    let mut tape = Tape::new();

    let layout = Layout::builder()
        .input_layer(1)
        .feed_forward_layer(ActivationFn::ReLU, 1)
        .feed_forward_layer(ActivationFn::Linear, 1)
        .build();

    let params = Params::<R>::default_params(&layout);

    let var_params = params.var_params(&mut tape);
    let var_params2 = Params::new(
        vec![tape.new_var(R(1.0)), tape.new_var(R(1.0))],
        vec![tape.new_var(R(1.0)), tape.new_var(R(1.0))],
        vec![],
    );

    assert_ne!(var_params, var_params2);
    assert_eq!(
        var_params.weights().iter().map(|x| x.val()).collect::<Vec<R>>(),
        var_params2.weights().iter().map(|x| x.val()).collect::<Vec<R>>()
    );
}

#[test]
fn running_test_run() {
    let net = Network::builder()
        .input_layer(2)
        .feed_forward_layer(ActivationFn::ReLU, 2)
        .feed_forward_layer(ActivationFn::Linear, 2)
        .build();

    let input = vec![R(0.5), R(0.1)];
    let params = net.default_params();

    let res = net.run(&input, &params);

    assert_eq!(res.output(), &vec![R(4.2), R(4.2)]);
}

#[test]
fn hidden_relu_forward_value() {
    // [2 inputs] -> [1 hidden, ReLU] -> [1 output, Linear], weights all
    // one, biases zero, run on [0.5, 0.5]: hidden sum 1.0, ReLU 1.0,
    // output 1.0
    let net = Network::builder()
        .input_layer(2)
        .feed_forward_layer(ActivationFn::ReLU, 1)
        .feed_forward_layer(ActivationFn::Linear, 1)
        .build();

    let params = Params::new(vec![R(1.0), R(1.0), R(1.0)], vec![R(0.0), R(0.0)], vec![]);
    let res = net.run(&vec![R(0.5), R(0.5)], &params);

    assert_eq!(res.output(), &vec![R(1.0)]);
}
