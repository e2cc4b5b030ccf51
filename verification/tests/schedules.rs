use lr_scheduler::base::{LrScheduler, Rate, Scalar};
use lr_scheduler::constant::ConstantLr;
use lr_scheduler::noam::{
    NoamLrScheduler, NoamLrSchedulerConfig, DEFAULT_MODEL_SIZE, DEFAULT_WARMUP_STEPS,
};
use lr_scheduler::step::{
    StepLrScheduler, StepLrSchedulerConfig, DEFAULT_GAMMA_BITS, DEFAULT_STEP_SIZE,
};
use lr_scheduler::warmup::{
    WarmUpScheduler, WarmUpSchedulerConfig, DEFAULT_NUM_WARMUP_STEPS, DEFAULT_POWER_BITS,
};

fn scalar(x: f64) -> Scalar {
    Scalar { bits: x.to_bits() }
}

fn number(s: Scalar) -> f64 {
    f64::from_bits(s.bits)
}

fn value(rate: Rate) -> f64 {
    match rate {
        Rate::Fixed { lr } => number(lr),
        Rate::Decayed { init_lr, gamma, exponent } => {
            let factor = number(gamma).powf(exponent as f64);
            number(init_lr) * factor
        }
        Rate::Ramp { init_lr, counter, num_warmup_steps, power } => {
            let factor = counter as f64 / (num_warmup_steps as f64).powf(number(power));
            number(init_lr) * factor
        }
        Rate::NoamRise { init_lr, model_size, warmup_steps, counter } => {
            let rise = counter as f64 * (warmup_steps as f64).powf(-1.5);
            number(init_lr) * (model_size as f64).powf(-0.5) * rise
        }
        Rate::NoamFall { init_lr, model_size, counter } => {
            let fall = (counter as f64).powf(-0.5);
            number(init_lr) * (model_size as f64).powf(-0.5) * fall
        }
    }
}

fn noam_scheduler(init_lr: f64, warmup_steps: usize, model_size: usize) -> NoamLrScheduler {
    NoamLrSchedulerConfig::new(scalar(init_lr))
        .with_warmup_steps(warmup_steps)
        .with_model_size(model_size)
        .init()
}

fn step_scheduler(init_lr: f64, step_size: i64, gamma: f64) -> StepLrScheduler {
    let config = StepLrSchedulerConfig::new(scalar(init_lr))
        .with_step_size(step_size)
        .with_gamma(scalar(gamma));
    assert!(config.is_valid());
    config.init()
}

fn warmup_scheduler(init_lr: f64, num_warmup_steps: usize, power: f64) -> WarmUpScheduler {
    WarmUpSchedulerConfig::new(scalar(init_lr))
        .with_num_warmup_steps(num_warmup_steps)
        .with_power(scalar(power))
        .init()
}

#[test]
fn test_step_lr_scheduler() {
    let init_lr = 10.0;
    let step = 2;
    let gamma: f64 = 0.9;
    let mut scheduler = step_scheduler(init_lr, step, gamma);

    for epoch in 1..10 {
        let lr = value(scheduler.step());
        let expected = init_lr * gamma.powf((epoch / step) as f64);
        assert!(
            lr == expected,
            "Learning rate should decrease as scheduled."
        );
    }
}

#[test]
fn test_warm_up_scheduler_step() {
    let mut scheduler = warmup_scheduler(0.1, 5, 1.0);
    let expected: [f32; 7] = [0.02, 0.04, 0.06, 0.08, 0.1, 0.1, 0.1];

    let mut actual: [f32; 7] = [0.0; 7];
    for i in 0..7 {
        let lr = value(scheduler.step());
        actual[i] = lr as f32;
    }

    for i in 0..7 {
        assert!((actual[i] - expected[i]).abs() < 1e-5);
    }
}

#[test]
fn step_decay_first_epochs_have_the_given_rates() {
    let mut scheduler = step_scheduler(10.0, 2, 0.9);
    assert_eq!(value(scheduler.step()), 10.0);
    assert_eq!(value(scheduler.step()), 9.0);
    assert_eq!(value(scheduler.step()), 9.0);
    assert_eq!(value(scheduler.step()), 10.0 * 0.9f64.powf(2.0));
    assert!((value(scheduler.step()) - 8.1).abs() < 1e-12);
}

#[test]
fn step_decay_hands_back_the_formula() {
    let mut scheduler = step_scheduler(10.0, 2, 0.9);
    assert_eq!(
        scheduler.step(),
        Rate::Decayed { init_lr: scalar(10.0), gamma: scalar(0.9), exponent: 0 }
    );
    assert_eq!(
        scheduler.step(),
        Rate::Decayed { init_lr: scalar(10.0), gamma: scalar(0.9), exponent: 1 }
    );
}

#[test]
fn step_decay_exponent_goes_up_at_each_multiple_of_the_period() {
    let mut scheduler = step_scheduler(1.0, 3, 0.5);
    let mut exponents = Vec::new();
    for _ in 0..10 {
        match scheduler.step() {
            Rate::Decayed { exponent, .. } => exponents.push(exponent),
            other => panic!("not a decayed rate: {:?}", other),
        }
    }
    assert_eq!(exponents, vec![0, 0, 1, 1, 1, 2, 2, 2, 3, 3]);
}

#[test]
fn step_decay_with_period_one_decays_at_every_step() {
    let mut scheduler = step_scheduler(1.0, 1, 0.5);
    assert_eq!(value(scheduler.step()), 0.5);
    assert_eq!(value(scheduler.step()), 0.25);
    assert_eq!(value(scheduler.step()), 0.125);
}

#[test]
fn step_decay_defaults() {
    assert_eq!(DEFAULT_STEP_SIZE, 10);
    assert_eq!(DEFAULT_GAMMA_BITS, 0.1f64.to_bits());
    let config = StepLrSchedulerConfig::new(scalar(2.0));
    assert!(config.is_valid());
    let mut scheduler = config.init();
    for _ in 0..9 {
        assert_eq!(
            scheduler.step(),
            Rate::Decayed { init_lr: scalar(2.0), gamma: scalar(0.1), exponent: 0 }
        );
    }
    assert_eq!(
        scheduler.step(),
        Rate::Decayed { init_lr: scalar(2.0), gamma: scalar(0.1), exponent: 1 }
    );
    assert_eq!(value(scheduler.step()), 2.0 * 0.1);
}

#[test]
fn step_decay_config_with_a_period_that_is_not_positive_is_not_valid() {
    let config = StepLrSchedulerConfig::new(scalar(1.0));
    assert!(!config.with_step_size(0).is_valid());
    assert!(!config.with_step_size(-3).is_valid());
    assert!(!config.with_step_size(i64::MIN).is_valid());
    assert!(config.with_step_size(1).is_valid());
    assert!(config.with_step_size(i64::MAX).is_valid());
}

#[test]
fn step_decay_with_the_longest_period_never_decays() {
    let mut scheduler = step_scheduler(1.0, i64::MAX, 0.5).load_record(1usize << 40);
    assert_eq!(value(scheduler.step()), 1.0);
}

#[test]
fn warmup_defaults() {
    assert_eq!(DEFAULT_NUM_WARMUP_STEPS, 5);
    assert_eq!(DEFAULT_POWER_BITS, 1.0f64.to_bits());
    let mut scheduler = WarmUpSchedulerConfig::new(scalar(0.5)).init();
    assert_eq!(
        scheduler.step(),
        Rate::Ramp { init_lr: scalar(0.5), counter: 1, num_warmup_steps: 5, power: scalar(1.0) }
    );
    for _ in 0..3 {
        scheduler.step();
    }
    assert_eq!(scheduler.step(), Rate::Fixed { lr: scalar(0.5) });
}

#[test]
fn warmup_rises_then_holds_and_never_passes_the_full_rate() {
    let init_lr = 0.3;
    let mut scheduler = warmup_scheduler(init_lr, 8, 1.0);
    let mut last = 0.0;
    for _ in 1..8 {
        let lr = value(scheduler.step());
        assert!(lr > last);
        assert!(lr < init_lr);
        last = lr;
    }
    for _ in 0..20 {
        assert_eq!(value(scheduler.step()), init_lr);
    }
}

#[test]
fn warmup_divides_the_plain_counter_by_the_powered_length() {
    let mut scheduler = warmup_scheduler(1.0, 4, 2.0);
    assert_eq!(value(scheduler.step()), 1.0 / 16.0);
    assert_eq!(value(scheduler.step()), 2.0 / 16.0);
    assert_eq!(value(scheduler.step()), 3.0 / 16.0);
    assert_eq!(value(scheduler.step()), 1.0);
}

#[test]
fn warmup_switches_to_the_full_rate_at_the_boundary() {
    let mut scheduler = warmup_scheduler(0.1, 5, 1.0).load_record(4);
    assert_eq!(scheduler.step(), Rate::Fixed { lr: scalar(0.1) });
    let mut before = warmup_scheduler(0.1, 5, 1.0).load_record(3);
    assert_eq!(
        before.step(),
        Rate::Ramp { init_lr: scalar(0.1), counter: 4, num_warmup_steps: 5, power: scalar(1.0) }
    );
}

#[test]
fn warmup_of_no_steps_is_the_full_rate_at_once() {
    let mut scheduler = warmup_scheduler(0.7, 0, 1.0);
    assert_eq!(scheduler.step(), Rate::Fixed { lr: scalar(0.7) });
    let mut one = warmup_scheduler(0.7, 1, 1.0);
    assert_eq!(one.step(), Rate::Fixed { lr: scalar(0.7) });
}

#[test]
fn constant_gives_the_same_rate_a_thousand_times() {
    for init_lr in [0.0, 1e-3, 0.1, 42.0, 1e300] {
        let mut scheduler = ConstantLr::new(scalar(init_lr));
        for _ in 0..1000 {
            let rate = scheduler.step();
            assert_eq!(rate, Rate::Fixed { lr: scalar(init_lr) });
            assert_eq!(value(rate).to_bits(), init_lr.to_bits());
        }
        assert_eq!(scheduler.to_record(), 1000);
    }
}

#[test]
fn record_before_any_step_is_zero() {
    assert_eq!(step_scheduler(1.0, 2, 0.5).to_record(), 0);
    assert_eq!(warmup_scheduler(1.0, 2, 1.0).to_record(), 0);
    assert_eq!(ConstantLr::new(scalar(1.0)).to_record(), 0);
}

#[test]
fn record_counts_the_steps_and_leaves_the_scheduler_alone() {
    let mut scheduler = step_scheduler(1.0, 2, 0.5);
    for done in 1..=7usize {
        scheduler.step();
        assert_eq!(scheduler.to_record(), done);
        assert_eq!(scheduler.to_record(), done);
    }
}

#[test]
fn step_decay_resumes_as_the_saved_scheduler_goes_on() {
    for done in 0..12 {
        let mut saved = step_scheduler(10.0, 3, 0.9);
        for _ in 0..done {
            saved.step();
        }
        let mut resumed = step_scheduler(10.0, 3, 0.9).load_record(saved.to_record());
        let mut reloaded = saved.load_record(saved.to_record());
        for _ in 0..20 {
            let rate = saved.step();
            assert_eq!(resumed.step(), rate);
            assert_eq!(reloaded.step(), rate);
        }
        assert_eq!(resumed.to_record(), saved.to_record());
    }
}

#[test]
fn warmup_resumes_as_the_saved_scheduler_goes_on() {
    for done in 0..12 {
        let mut saved = warmup_scheduler(0.1, 7, 1.5);
        for _ in 0..done {
            saved.step();
        }
        let mut resumed = warmup_scheduler(0.1, 7, 1.5).load_record(saved.to_record());
        for _ in 0..20 {
            let rate = saved.step();
            assert_eq!(resumed.step(), rate);
        }
        assert_eq!(resumed.to_record(), saved.to_record());
    }
}

#[test]
fn constant_resumes_as_the_saved_scheduler_goes_on() {
    let mut saved = ConstantLr::new(scalar(0.25));
    for _ in 0..5 {
        saved.step();
    }
    let mut resumed = ConstantLr::new(scalar(0.25)).load_record(saved.to_record());
    for _ in 0..10 {
        assert_eq!(resumed.step(), saved.step());
    }
    assert_eq!(resumed.to_record(), 15);
}

#[test]
fn load_record_takes_the_record_as_it_is() {
    let scheduler = step_scheduler(1.0, 2, 0.5).load_record(123_456);
    assert_eq!(scheduler.to_record(), 123_456);
    let back = scheduler.load_record(3);
    assert_eq!(back.to_record(), 3);
    let mut far = warmup_scheduler(1.0, 5, 1.0).load_record(usize::MAX - 1);
    assert_eq!(far.step(), Rate::Fixed { lr: scalar(1.0) });
    assert_eq!(far.to_record(), usize::MAX);
}

#[test]
fn counter_stops_at_the_largest_count() {
    let mut scheduler = step_scheduler(1.0, 2, 0.5).load_record(usize::MAX);
    let rate = scheduler.step();
    assert_eq!(scheduler.to_record(), usize::MAX);
    assert_eq!(
        rate,
        Rate::Decayed {
            init_lr: scalar(1.0),
            gamma: scalar(0.5),
            exponent: (usize::MAX / 2) as u64,
        }
    );
    let mut constant = ConstantLr::new(scalar(1.0)).load_record(usize::MAX);
    assert_eq!(constant.step(), Rate::Fixed { lr: scalar(1.0) });
    assert_eq!(constant.to_record(), usize::MAX);
}

#[test]
fn rates_are_finite_and_not_negative() {
    for gamma in [1e-3, 0.1, 0.5, 0.9, 1.0] {
        let mut scheduler = step_scheduler(3.0, 2, gamma);
        for _ in 0..200 {
            let lr = value(scheduler.step());
            assert!(lr.is_finite());
            assert!(lr >= 0.0);
        }
    }
    for power in [0.0, 0.5, 1.0, 2.0, 3.5] {
        let mut scheduler = warmup_scheduler(3.0, 10, power);
        for _ in 0..30 {
            let lr = value(scheduler.step());
            assert!(lr.is_finite());
            assert!(lr >= 0.0);
        }
    }
    let mut zero = step_scheduler(0.0, 2, 0.5);
    assert_eq!(value(zero.step()), 0.0);
}

#[test]
fn noam_defaults() {
    assert_eq!(DEFAULT_WARMUP_STEPS, 4000);
    assert_eq!(DEFAULT_MODEL_SIZE, 512);
    let mut scheduler = NoamLrSchedulerConfig::new(scalar(1.0)).init();
    assert_eq!(
        scheduler.step(),
        Rate::NoamRise { init_lr: scalar(1.0), model_size: 512, warmup_steps: 4000, counter: 1 }
    );
    let mut late = NoamLrSchedulerConfig::new(scalar(1.0)).init().load_record(3999);
    assert_eq!(
        late.step(),
        Rate::NoamFall { init_lr: scalar(1.0), model_size: 512, counter: 4000 }
    );
}

#[test]
fn noam_rises_then_falls() {
    let mut scheduler = noam_scheduler(1.0, 16, 4);
    let mut last = 0.0;
    for _ in 1..=16 {
        let lr = value(scheduler.step());
        assert!(lr > last);
        last = lr;
    }
    for _ in 0..50 {
        let lr = value(scheduler.step());
        assert!(lr < last);
        assert!(lr > 0.0);
        last = lr;
    }
}

#[test]
fn noam_has_the_values_of_its_two_formulas() {
    let mut scheduler = noam_scheduler(2.0, 4, 4);
    assert_eq!(value(scheduler.step()), 2.0 * 0.5 * (1.0 / 8.0));
    assert_eq!(value(scheduler.step()), 2.0 * 0.5 * (2.0 / 8.0));
    assert_eq!(value(scheduler.step()), 2.0 * 0.5 * (3.0 / 8.0));
    assert_eq!(value(scheduler.step()), 2.0 * 0.5 * 0.5);
    let mut later = noam_scheduler(2.0, 4, 4).load_record(15);
    assert_eq!(value(later.step()), 2.0 * 0.5 * 0.25);
}

#[test]
fn noam_without_a_rise_falls_from_the_first_step() {
    let mut scheduler = noam_scheduler(1.0, 0, 1);
    assert_eq!(scheduler.step(), Rate::NoamFall { init_lr: scalar(1.0), model_size: 1, counter: 1 });
    assert_eq!(value(scheduler.step()), 2.0f64.powf(-0.5));
}

#[test]
fn noam_resumes_as_the_saved_scheduler_goes_on() {
    for done in 0..12 {
        let mut saved = noam_scheduler(0.1, 6, 64);
        for _ in 0..done {
            saved.step();
        }
        let mut resumed = noam_scheduler(0.1, 6, 64).load_record(saved.to_record());
        for _ in 0..20 {
            let rate = saved.step();
            assert_eq!(resumed.step(), rate);
        }
        assert_eq!(resumed.to_record(), saved.to_record());
    }
}
