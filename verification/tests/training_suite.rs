use neural_nets::autodiff::scalar::operations::{BinaryOperations, Clamp, UnaryOperations};
use neural_nets::autodiff::scalar::real_math::RealMath;
use neural_nets::autodiff::scalar::{Real, RoundTo};
use neural_nets::autodiff::tape::Tape;
use neural_nets::network::activation_fn::ActivationFn;
use neural_nets::network::layout::Layout;
use neural_nets::network::params::Params;
use neural_nets::network::Network;
use neural_nets::rng::Seed;
use neural_nets::training::clamp_settings::ClampSettings;
use neural_nets::training::cost::CostFn;
use neural_nets::training::data_set::DataSet;
use neural_nets::training::eta::Eta;
use neural_nets::training::training_settings::TrainingSettings;

#[derive(Clone, Copy, Debug, PartialEq, PartialOrd)]
struct R(f64);

impl UnaryOperations for R {
    fn recip(self) -> Self { R(self.0.recip()) }
    fn recip_spec(self) -> Self { R(self.0.recip()) }
    fn abs(self) -> Self { R(self.0.abs()) }
    fn abs_spec(self) -> Self { R(self.0.abs()) }
    fn signum(self) -> Self { R(self.0.signum()) }
    fn signum_spec(self) -> Self { R(self.0.signum()) }
    fn sqrt(self) -> Self { R(self.0.sqrt()) }
    fn sqrt_spec(self) -> Self { R(self.0.sqrt()) }
    fn exp(self) -> Self { R(self.0.exp()) }
    fn exp_spec(self) -> Self { R(self.0.exp()) }
    fn exp2(self) -> Self { R(self.0.exp2()) }
    fn exp2_spec(self) -> Self { R(self.0.exp2()) }
    fn ln(self) -> Self { R(self.0.ln()) }
    fn ln_spec(self) -> Self { R(self.0.ln()) }
    fn log2(self) -> Self { R(self.0.log2()) }
    fn log2_spec(self) -> Self { R(self.0.log2()) }
    fn log10(self) -> Self { R(self.0.log10()) }
    fn log10_spec(self) -> Self { R(self.0.log10()) }
    fn cbrt(self) -> Self { R(self.0.cbrt()) }
    fn cbrt_spec(self) -> Self { R(self.0.cbrt()) }
    fn sin(self) -> Self { R(self.0.sin()) }
    fn sin_spec(self) -> Self { R(self.0.sin()) }
    fn cos(self) -> Self { R(self.0.cos()) }
    fn cos_spec(self) -> Self { R(self.0.cos()) }
    fn tan(self) -> Self { R(self.0.tan()) }
    fn tan_spec(self) -> Self { R(self.0.tan()) }
    fn asin(self) -> Self { R(self.0.asin()) }
    fn asin_spec(self) -> Self { R(self.0.asin()) }
    fn acos(self) -> Self { R(self.0.acos()) }
    fn acos_spec(self) -> Self { R(self.0.acos()) }
    fn atan(self) -> Self { R(self.0.atan()) }
    fn atan_spec(self) -> Self { R(self.0.atan()) }
    fn exp_m1(self) -> Self { R(self.0.exp_m1()) }
    fn exp_m1_spec(self) -> Self { R(self.0.exp_m1()) }
    fn ln_1p(self) -> Self { R(self.0.ln_1p()) }
    fn ln_1p_spec(self) -> Self { R(self.0.ln_1p()) }
    fn sinh(self) -> Self { R(self.0.sinh()) }
    fn sinh_spec(self) -> Self { R(self.0.sinh()) }
    fn cosh(self) -> Self { R(self.0.cosh()) }
    fn cosh_spec(self) -> Self { R(self.0.cosh()) }
    fn tanh(self) -> Self { R(self.0.tanh()) }
    fn tanh_spec(self) -> Self { R(self.0.tanh()) }
    fn asinh(self) -> Self { R(self.0.asinh()) }
    fn asinh_spec(self) -> Self { R(self.0.asinh()) }
    fn acosh(self) -> Self { R(self.0.acosh()) }
    fn acosh_spec(self) -> Self { R(self.0.acosh()) }
    fn atanh(self) -> Self { R(self.0.atanh()) }
    fn atanh_spec(self) -> Self { R(self.0.atanh()) }
    fn trunc(self) -> Self { R(self.0.trunc()) }
    fn trunc_spec(self) -> Self { R(self.0.trunc()) }
    fn floor(self) -> Self { R(self.0.floor()) }
    fn floor_spec(self) -> Self { R(self.0.floor()) }
    fn ceil(self) -> Self { R(self.0.ceil()) }
    fn ceil_spec(self) -> Self { R(self.0.ceil()) }
    fn round(self) -> Self { R(self.0.round()) }
    fn round_spec(self) -> Self { R(self.0.round()) }
}

impl BinaryOperations for R {
    fn log(self, base: Self) -> Self { R(self.0.log(base.0)) }
    fn log_spec(self, base: Self) -> Self { R(self.0.log(base.0)) }
    fn powf(self, n: Self) -> Self { R(self.0.powf(n.0)) }
    fn powf_spec(self, n: Self) -> Self { R(self.0.powf(n.0)) }
}

impl Clamp for R {
    fn clamp(self, min: Self, max: Self) -> Self { R(self.0.clamp(min.0, max.0)) }
    fn clamp_spec(self, min: Self, max: Self) -> Self { R(self.0.clamp(min.0, max.0)) }
}

impl RealMath for R {
    fn neg(self) -> Self { R(-self.0) }
    fn neg_spec(self) -> Self { R(-self.0) }
    fn add(self, rhs: Self) -> Self { R(self.0 + rhs.0) }
    fn add_spec(self, rhs: Self) -> Self { R(self.0 + rhs.0) }
    fn sub(self, rhs: Self) -> Self { R(self.0 - rhs.0) }
    fn sub_spec(self, rhs: Self) -> Self { R(self.0 - rhs.0) }
    fn mul(self, rhs: Self) -> Self { R(self.0 * rhs.0) }
    fn mul_spec(self, rhs: Self) -> Self { R(self.0 * rhs.0) }
    fn div(self, rhs: Self) -> Self { R(self.0 / rhs.0) }
    fn div_spec(self, rhs: Self) -> Self { R(self.0 / rhs.0) }
    fn rem(self, rhs: Self) -> Self { R(self.0 % rhs.0) }
    fn rem_spec(self, rhs: Self) -> Self { R(self.0 % rhs.0) }
}

impl Real for R {
    fn zero() -> Self { R(0.0) }
    fn zero_spec() -> Self { R(0.0) }
    fn one() -> Self { R(1.0) }
    fn one_spec() -> Self { R(1.0) }
    fn min_value() -> Self { R(f64::MIN) }
    fn min_value_spec() -> Self { R(f64::MIN) }
    fn max_value() -> Self { R(f64::MAX) }
    fn max_value_spec() -> Self { R(f64::MAX) }
    fn lt(self, rhs: Self) -> bool { self.0 < rhs.0 }
    fn lt_spec(self, rhs: Self) -> bool { self.0 < rhs.0 }
    fn le(self, rhs: Self) -> bool { self.0 <= rhs.0 }
    fn le_spec(self, rhs: Self) -> bool { self.0 <= rhs.0 }
    fn eq_val(self, rhs: Self) -> bool { self.0 == rhs.0 }
    fn eq_spec(self, rhs: Self) -> bool { self.0 == rhs.0 }
}

#[test]
fn test_train() {
    let layout = Layout::builder()
        .input_layer(2)
        .feed_forward_layer(ActivationFn::ReLU, 2)
        .feed_forward_layer(ActivationFn::Linear, 2)
        .build();

    let net = Network::new(layout);

    let data_set = DataSet::builder()
        .sample(vec![R(-0.1), R(0.27)], vec![R(0.4), R(-0.21)])
        .sample(vec![R(0.7), R(0.4)], vec![R(-0.3), R(0.6)])
        .sample(vec![R(0.5), R(-0.9)], vec![R(-1.5), R(-0.8)])
        .build();

    let params = net.default_params();

    let settings = TrainingSettings {
        batch_size: 2,
        num_epochs: 2,
        cost_fn: CostFn::MAE,
        clamp_settings: ClampSettings::no_clamp(),
        eta: Eta::point_one(),
        data_set,
        stoch_shuffle_seed: Seed::Input(R(100.0)),
    };

    let train_res = net.train(&settings, params.clone());

    assert_eq!(train_res.params().weights().len(), params.weights().len());
    assert_eq!(train_res.params().biases().len(), params.biases().len());
    assert_eq!(train_res.params().others().len(), params.others().len());
    assert_eq!(train_res.all_costs().len(), 2);
    assert_eq!(train_res.all_costs()[0].len(), 2);
    assert_eq!(train_res.all_costs()[0][0].len(), 2);
    assert_eq!(train_res.all_costs()[0][1].len(), 1);
    assert_eq!(train_res.avg_costs().len(), 2);
    assert_eq!(train_res.all_grads().len(), 2);
}

#[test]
fn test_get_costs() {
    let layout = Layout::builder()
        .input_layer(2)
        .feed_forward_layer(ActivationFn::ReLU, 2)
        .feed_forward_layer(ActivationFn::Linear, 2)
        .build();

    let net = Network::new(layout);

    let data_set = DataSet::builder()
        .sample(vec![R(1.0), R(1.0)], vec![R(0.5), R(0.5)])  // this one
        .sample(vec![R(0.0), R(0.0)], vec![R(1.0), R(1.0)])  // this one
        .sample(vec![R(0.27), R(0.55)], vec![R(-0.21), R(-0.5)])
        .sample(vec![R(1.0), R(0.0)], vec![R(1.0), R(0.0)])  // and this one
        .sample(vec![R(-0.9), R(0.27)], vec![R(0.5), R(-0.6)])
        .sample(vec![R(-0.1), R(-0.8)], vec![R(-0.74), R(0.25)])
        .build();

    let params = net.default_params();

    let settings = TrainingSettings {
        batch_size: 3,
        num_epochs: 2,
        cost_fn: CostFn::MAE,
        clamp_settings: ClampSettings::no_clamp(),
        eta: Eta::point_one(),
        data_set,
        stoch_shuffle_seed: Seed::Input(R(100.0)),
    };

    let samples = vec![1, 3, 0, 5, 4, 2];
    let mut tape = Tape::new();
    let vars = params.var_params(&mut tape);

    let costs = net.get_costs(&mut tape, &settings, &samples, &vars, 0, 3);
    let costs_not_var = costs.iter().map(|x| x.val()).collect::<Vec<R>>();

    assert_eq!(costs_not_var, [R(2.0), R(4.5), R(6.5)]);
}

#[test]
fn test_adjust_params() {
    let layout = Layout::builder()
        .input_layer(2)
        .feed_forward_layer(ActivationFn::Linear, 2)
        .feed_forward_layer(ActivationFn::Linear, 2)
        .build();

    let params = Params::default_params(&layout);
    let grad = [
        R(1.0), R(-1.0), R(2.0), R(-1.0), R(-2.0), R(100.0), R(-10.0), R(11.0), R(23.0),
        R(-5.1), R(1.1), R(-0.4),
    ];

    let settings = TrainingSettings {
        batch_size: 3,
        num_epochs: 2,
        cost_fn: CostFn::MAE,
        clamp_settings: ClampSettings::no_clamp(),
        eta: Eta::point_one(),
        data_set: DataSet::builder().sample(vec![], vec![]).build(),
        stoch_shuffle_seed: Seed::Input(R(100.0)),
    };

    let new_params = Network::adjust_params(&grad, &settings, &Eta::point_one(), 0, &params);

    assert_eq!(
        new_params.weights().iter().map(|x| ((x.0 * 100f64).round() / 100.0)).collect::<Vec<f64>>(),
        &[0.9, 1.1, 0.8, 1.1, 1.2, -9.0, 2.0, -0.1]
    );
    assert_eq!(
        new_params.biases().iter().map(|x| ((x.0 * 100f64).round() / 100.0)).collect::<Vec<f64>>(),
        &[-1.3, 1.51, 0.89, 1.04]
    );
}

#[test]
fn test_per_batch() {
    let layout = Layout::builder()
        .input_layer(2)
        .feed_forward_layer(ActivationFn::ReLU, 2)
        .feed_forward_layer(ActivationFn::Linear, 2)
        .build();

    let net = Network::new(layout);

    let data_set = DataSet::builder()
        .sample(vec![R(1.0), R(1.0)], vec![R(0.5), R(1E4)])  // this one
        .sample(vec![R(0.0), R(0.0)], vec![R(1.0), R(1.0)])  // this one
        .sample(vec![R(0.27), R(0.55)], vec![R(-0.21), R(f64::NAN)])
        .sample(vec![R(1.0), R(0.0)], vec![R(1.0), R(0.0)])  // and this one
        .sample(vec![R(-0.9), R(0.27)], vec![R(f64::NAN), R(-0.6)])
        .sample(vec![R(-0.1), R(-0.8)], vec![R(-0.74), R(f64::NAN)])
        .build();

    let params = net.default_params();

    let settings = TrainingSettings {
        batch_size: 3,
        num_epochs: 2,
        cost_fn: CostFn::MAE,
        clamp_settings: ClampSettings::no_clamp(),
        eta: Eta::point_one(),
        data_set,
        stoch_shuffle_seed: Seed::Input(R(100.0)),
    };

    let samples = vec![1, 3, 0, 5, 4, 2];

    let res = net.run(&vec![R(1.0), R(1.0)], &params);
    let cost1 = res.cost(&CostFn::MAE, &vec![R(0.5), R(1E4)]);
    let res = net.run(&vec![R(1.0), R(1.0)], &params);
    let cost2 = res.cost(&CostFn::MAE, &vec![R(0.5), R(1E4)]);
    let res = net.run(&vec![R(1.0), R(1.0)], &params);
    let cost3 = res.cost(&CostFn::MAE, &vec![R(0.5), R(1E4)]);

    let new_params = net.per_batch(&settings, &samples, &params, 0, 0, 3).0;

    let res = net.run(&vec![R(1.0), R(1.0)], &new_params);
    let cost1_2 = res.cost(&CostFn::MAE, &vec![R(0.5), R(1E4)]);
    let res = net.run(&vec![R(1.0), R(1.0)], &new_params);
    let cost2_2 = res.cost(&CostFn::MAE, &vec![R(0.5), R(1E4)]);
    let res = net.run(&vec![R(1.0), R(1.0)], &new_params);
    let cost3_2 = res.cost(&CostFn::MAE, &vec![R(0.5), R(1E4)]);

    assert!(cost1_2.0 < cost1.0);
    assert!(cost2_2.0 < cost2.0);
    assert!(cost3_2.0 < cost3.0);
}

#[test]
fn cost_test() {
    assert_eq!(
        CostFn::mse(&vec![R(0.5), R(0.2), R(-0.3)], &vec![R(0.4), R(0.0), R(0.3)]),
        R(0.41 / 3.0)
    );
    assert_eq!(
        CostFn::rmse(&vec![R(0.5), R(0.2), R(-0.3)], &vec![R(0.4), R(0.0), R(0.3)]),
        R((0.41 / 3f64).sqrt())
    );
    assert_eq!(
        CostFn::mae(&vec![R(0.5), R(0.2), R(-0.3)], &vec![R(0.4), R(0.0), R(0.3)]),
        R(0.3)
    );
    assert_eq!(
        (CostFn::MSE.compute(&vec![R(0.5), R(0.2), R(-0.2)], &vec![R(0.4), R(0.0), R(0.3)]).0
            * 1000f64)
            .round()
            / 1000.0,
        0.1
    );
}

#[test]
fn eta_test() {
    assert_eq!(Eta::point_one(), Eta::Const(R(0.1)));
    assert_eq!(Eta::point_zero_one(), Eta::Const(R(0.01)));

    assert_eq!(Eta::Const(R(0.03)).unwrap(), (Some(R(0.03)), None));
    assert_eq!(Eta::Decay(R(0.1), R(0.01)).unwrap(), (None, Some((R(0.1), R(0.01)))));

    assert_eq!(Eta::Const(R(0.314159)).val(0, 1).round_to(6), R(0.314159));
    assert_eq!(Eta::Decay(R(1.0), R(0.8123)).val(2, 3).round_to(4), R(0.8123));
    assert_eq!(Eta::Decay(R(1.0), R(0.0001)).val(3, 4).round_to(4), R(0.0001));
    assert!(
        Eta::Decay(R(1.0), R(0.0001)).val(2, 4).0 > 0.0001
            && Eta::Decay(R(1.0), R(0.0001)).val(2, 4).0 < 1.0
    );
}

#[test]
fn test_trainer() {
    let net = Network::builder()
        .input_layer(5)
        .feed_forward_layer(ActivationFn::ReLU, 3)
        .feed_forward_layer(ActivationFn::Linear, 4)
        .build();

    let input = vec![R(0.1), R(0.2), R(0.3), R(0.4), R(0.5)];
    let desired_output = vec![R(0.1), R(-0.2), R(0.3), R(-0.5)];
    let data_set = DataSet::builder()
        .sample(input.clone(), desired_output.clone())
        .sample(
            vec![R(0.9), R(0.12), R(0.33), R(0.48), R(0.55)],
            vec![R(-1.1), R(-2.2), R(0.4), R(-0.21)],
        )
        .sample(
            vec![R(0.54), R(-1.2), R(-0.31), R(0.41), R(0.53)],
            vec![R(1.6), R(-0.5), R(0.12), R(-0.9)],
        )
        .build();

    let params = net.random_params::<R>(Seed::Input(R(1.0)));

    let res = net.run(&input, &params);
    println!("res1: {:?}", res);

    let optimized = net
        .trainer()
        .data_set(data_set)
        .params(params)
        .batch_size(1)
        .num_epochs(1000)
        .cost_fn(CostFn::MSE)
        .weight_min(R(f64::MIN))
        .weight_max(R(f64::MAX))
        .bias_min(R(f64::MIN))
        .bias_max(R(f64::MAX))
        .eta(Eta::point_one())
        .stoch_shuffle_seed(Seed::Input(R(7.0)))
        .train();

    let res = net.run(&input, &optimized);
    println!("res2: {:?}", res);
    println!("new params: {:?}", optimized);
}

#[test]
fn test_num_batches() {
    let mut builder = DataSet::<R>::builder();
    for _ in 0..10 {
        builder = builder.sample(vec![], vec![]);
    }
    let data_set = builder.build();

    let settings = TrainingSettings {
        batch_size: 4,
        num_epochs: 3,
        cost_fn: CostFn::MAE,
        clamp_settings: ClampSettings::no_clamp(),
        eta: Eta::Const(R(0.00001)),
        data_set,
        stoch_shuffle_seed: Seed::OS,
    };

    assert_eq!(settings.num_batches(), 3);
}

#[test]
fn epoch_cost_averages_and_rounds() {
    let res = neural_nets::training::training_results::TrainingResults {
        layout: Layout::builder()
            .input_layer(1)
            .feed_forward_layer(ActivationFn::Linear, 1)
            .build(),
        params: Params::new(vec![R(1.0)], vec![R(0.0)], vec![]),
        all_costs: vec![],
        avg_costs: vec![vec![R(1.0), R(2.0), R(3.0)], vec![R(0.1234567), R(0.7654321)]],
        all_grads: vec![],
    };

    let per_epoch = res.epoch_cost(3);
    assert_eq!(per_epoch, vec![R(2.0), R(0.444)]);
}

#[test]
fn cost_of_identical_vectors_is_zero() {
    let out = vec![R(0.25), R(-1.5), R(3.75), R(0.0)];
    assert_eq!(CostFn::mse(&out, &out), R(0.0));
    assert_eq!(CostFn::mae(&out, &out), R(0.0));
    assert_eq!(CostFn::rmse(&out, &out), R(0.0));
}

#[test]
fn train_identity_monotone() {
    // a single-weight identity network fit against (v, v) pairs: the
    // mean batch cost must not grow from epoch to epoch
    let net = Network::builder()
        .input_layer(1)
        .feed_forward_layer(ActivationFn::Linear, 1)
        .build();

    let mut builder = DataSet::builder();
    for i in 0..20 {
        let v = i as f64 / 10.0;
        builder = builder.sample(vec![R(v)], vec![R(v)]);
    }
    let data_set = builder.build();

    let params = Params::new(vec![R(1.0)], vec![R(0.0)], vec![]);
    let settings = TrainingSettings {
        batch_size: 20,
        num_epochs: 6,
        cost_fn: CostFn::MSE,
        clamp_settings: ClampSettings::no_clamp(),
        eta: Eta::Const(R(0.01)),
        data_set,
        stoch_shuffle_seed: Seed::Input(R(3.0)),
    };

    let res = net.train(&settings, params);
    let costs = res.epoch_cost(9);
    for e in 1..costs.len() {
        assert!(costs[e].0 <= costs[e - 1].0);
    }
}

#[test]
fn train_reduces_identity_cost() {
    // the same identity fit started away from the solution must
    // strictly reduce the epoch cost
    let net = Network::builder()
        .input_layer(1)
        .feed_forward_layer(ActivationFn::Linear, 1)
        .build();

    let mut builder = DataSet::builder();
    for i in 0..20 {
        let v = i as f64 / 10.0;
        builder = builder.sample(vec![R(v)], vec![R(v)]);
    }
    let data_set = builder.build();

    let params = Params::new(vec![R(0.25)], vec![R(0.5)], vec![]);
    let settings = TrainingSettings {
        batch_size: 20,
        num_epochs: 8,
        cost_fn: CostFn::MSE,
        clamp_settings: ClampSettings::no_clamp(),
        eta: Eta::Const(R(0.05)),
        data_set,
        stoch_shuffle_seed: Seed::Input(R(3.0)),
    };

    let res = net.train(&settings, params);
    let costs = res.epoch_cost(12);
    for e in 1..costs.len() {
        assert!(costs[e].0 < costs[e - 1].0);
    }
}

#[test]
fn params_stay_within_clamp() {
    let net = Network::builder()
        .input_layer(2)
        .feed_forward_layer(ActivationFn::Linear, 2)
        .feed_forward_layer(ActivationFn::Linear, 2)
        .build();

    let data_set = DataSet::builder()
        .sample(vec![R(4.0), R(-3.0)], vec![R(40.0), R(-40.0)])
        .sample(vec![R(-2.0), R(5.0)], vec![R(-30.0), R(30.0)])
        .build();

    let params = net.default_params();
    let settings = TrainingSettings {
        batch_size: 2,
        num_epochs: 5,
        cost_fn: CostFn::MSE,
        clamp_settings: ClampSettings::new(R(-1.0), R(1.0), R(-0.5), R(0.5)),
        eta: Eta::Const(R(0.5)),
        data_set,
        stoch_shuffle_seed: Seed::Input(R(11.0)),
    };

    let res = net.train(&settings, params);
    for w in res.params().weights() {
        assert!(-1.0 <= w.0 && w.0 <= 1.0);
    }
    for b in res.params().biases() {
        assert!(-0.5 <= b.0 && b.0 <= 0.5);
    }
}
