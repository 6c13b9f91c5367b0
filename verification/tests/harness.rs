use performance_metrics::control::{FioOps, PerformanceTestControl};
use performance_metrics::descriptor::{PerformanceTest, Stats};
use performance_metrics::driver::{await_outcome, probe_outcome, run_schedule};
use performance_metrics::registry::Registry;
use performance_metrics::report::{Error, MetricsReport, PerformanceTestResult};
use performance_metrics::text::{bool_str, str_contains, u32_to_string};
use std::cell::Cell;

fn control(test_time: u32, test_iterations: u32) -> PerformanceTestControl {
    let mut c = PerformanceTestControl::default();
    c.test_time = test_time;
    c.test_iterations = test_iterations;
    c
}

fn probe_five(_c: &PerformanceTestControl) -> f64 {
    5.0
}

fn probe_ten(_c: &PerformanceTestControl) -> f64 {
    10.0
}

fn stats_of(samples: Vec<f64>) -> Stats<f64> {
    let count = samples.len() as f64;
    let mean = samples.iter().sum::<f64>() / count;
    let variance = samples
        .iter()
        .map(|value| {
            let diff = mean - *value;
            diff * diff
        })
        .sum::<f64>()
        / count;
    let max = samples.iter().cloned().fold(f64::MIN, f64::max);
    let min = samples.iter().cloned().fold(f64::MAX, f64::min);
    Stats { mean, std_dev: variance.sqrt(), max, min }
}

#[test]
fn default_control_values() {
    let c = PerformanceTestControl::default();
    assert_eq!(c.test_time, 10);
    assert_eq!(c.test_iterations, 30);
    assert_eq!(c.queue_num, None);
    assert_eq!(c.queue_size, None);
    assert_eq!(c.net_rx, None);
    assert_eq!(c.fio_ops, None);
}

#[test]
fn new_control_values() {
    let c = PerformanceTestControl::new(2, 10);
    assert_eq!(c.test_time, 2);
    assert_eq!(c.test_iterations, 10);
    assert_eq!(c.queue_num, None);
}

#[test]
fn u32_rendering() {
    assert_eq!(u32_to_string(0).as_str(), "0");
    assert_eq!(u32_to_string(7).as_str(), "7");
    assert_eq!(u32_to_string(30).as_str(), "30");
    assert_eq!(u32_to_string(220).as_str(), "220");
    assert_eq!(u32_to_string(4294967295).as_str(), "4294967295");
}

#[test]
fn bool_rendering() {
    assert_eq!(bool_str(true), "true");
    assert_eq!(bool_str(false), "false");
}

#[test]
fn describe_default_control() {
    let c = PerformanceTestControl::default();
    assert_eq!(c.describe().as_str(), "test_time = 10s, test_iterations = 30");
}

#[test]
fn describe_full_control() {
    let mut c = control(2, 10);
    c.queue_num = Some(1);
    c.queue_size = Some(256);
    c.net_rx = Some(true);
    c.fio_ops = Some(FioOps::RandomRead);
    assert_eq!(
        c.describe().as_str(),
        "test_time = 2s, test_iterations = 10, queue_num = 1, queue_size = 256, \
         net_rx = true, fio_ops = randread"
    );
}

#[test]
fn substring_search() {
    assert!(str_contains("performance_boot_time", "boot"));
    assert!(str_contains("performance_boot_time", "performance_boot_time"));
    assert!(str_contains("abc", ""));
    assert!(str_contains("", ""));
    assert!(!str_contains("abc", "zzz"));
    assert!(!str_contains("abc", "abcd"));
    assert!(!str_contains("", "a"));
}

#[test]
fn timeout_formula() {
    let t = PerformanceTest {
        name: "performance_boot_time".to_string(),
        func_ptr: probe_five as fn(&PerformanceTestControl) -> f64,
        control: control(2, 10),
    };
    assert_eq!(t.calc_timeout(), (2 + 20) * 10);
    assert_eq!(t.calc_timeout(), 220);
}

#[test]
fn descriptor_equality_is_by_name_only() {
    let a1 = PerformanceTest {
        name: "a".to_string(),
        func_ptr: probe_five as fn(&PerformanceTestControl) -> f64,
        control: control(2, 10),
    };
    let a2 = PerformanceTest {
        name: "a".to_string(),
        func_ptr: probe_ten as fn(&PerformanceTestControl) -> f64,
        control: control(9, 9),
    };
    let b = PerformanceTest {
        name: "b".to_string(),
        func_ptr: probe_five as fn(&PerformanceTestControl) -> f64,
        control: control(2, 10),
    };
    assert!(a1 == a2);
    assert!(a1 != b);
}

#[test]
fn duplicate_registration_keeps_one_entry() {
    let mut reg: Registry<fn(&PerformanceTestControl) -> f64> = Registry::new();
    reg.register(PerformanceTest {
        name: "a".to_string(),
        func_ptr: probe_five,
        control: control(2, 10),
    });
    reg.register(PerformanceTest {
        name: "a".to_string(),
        func_ptr: probe_ten,
        control: control(9, 9),
    });
    assert_eq!(reg.len(), 1);
    // The earlier registration is the one retained.
    assert_eq!(reg.get(0).control.test_time, 2);
    assert_eq!((reg.get(0).func_ptr)(&control(2, 10)), 5.0);
}

#[test]
fn empty_filter_selects_everything() {
    let mut reg: Registry<fn(&PerformanceTestControl) -> f64> = Registry::new();
    reg.register(PerformanceTest {
        name: "performance_boot_time".to_string(),
        func_ptr: probe_five,
        control: control(2, 10),
    });
    reg.register(PerformanceTest {
        name: "performance_block_io_bps_read".to_string(),
        func_ptr: probe_ten,
        control: control(10, 30),
    });
    assert_eq!(reg.filtered(""), vec![0, 1]);
    assert_eq!(reg.filtered("boot"), vec![0]);
    assert_eq!(reg.filtered("block_io"), vec![1]);
    assert_eq!(reg.filtered("performance"), vec![0, 1]);
    assert_eq!(reg.filtered("zzz"), Vec::<usize>::new());
}

#[test]
fn collect_samples_invokes_probe_exactly_n_times() {
    let calls = Cell::new(0u32);
    let probe = |_c: &PerformanceTestControl| -> f64 {
        calls.set(calls.get() + 1);
        5.0
    };
    let t = PerformanceTest { name: "a".to_string(), func_ptr: probe, control: control(1, 3) };
    let samples = t.collect_samples();
    assert_eq!(calls.get(), 3);
    assert_eq!(samples, vec![5.0, 5.0, 5.0]);
}

#[test]
fn run_reduces_constant_samples() {
    let t = PerformanceTest {
        name: "a".to_string(),
        func_ptr: probe_five as fn(&PerformanceTestControl) -> f64,
        control: control(1, 3),
    };
    let r = t.run(&stats_of);
    assert_eq!(r.name.as_str(), "a");
    assert_eq!(r.mean, 5.0);
    assert_eq!(r.std_dev, 0.0);
    assert_eq!(r.max, 5.0);
    assert_eq!(r.min, 5.0);
}

#[test]
fn statistics_of_varied_samples() {
    // Samples 1, 2, 3, 4: mean 2.5, population standard deviation
    // sqrt(5/4), max 4, min 1.
    let s = stats_of(vec![1.0, 2.0, 3.0, 4.0]);
    assert_eq!(s.mean, 2.5);
    assert_eq!(s.std_dev, (1.25f64).sqrt());
    assert_eq!(s.max, 4.0);
    assert_eq!(s.min, 1.0);
    assert!(s.min <= s.mean && s.mean <= s.max);
}

#[test]
fn probe_crash_is_reported_as_failed() {
    let r = probe_outcome::<f64>(None);
    assert!(matches!(r, Err(Error::TestFailed)));
}

#[test]
fn probe_completion_is_passed_through() {
    let result = PerformanceTestResult {
        name: "a".to_string(),
        mean: 5.0,
        std_dev: 0.0,
        max: 5.0,
        min: 5.0,
    };
    let r = probe_outcome(Some(result));
    match r {
        Ok(ok) => assert_eq!(ok.name.as_str(), "a"),
        Err(_) => panic!("completion must pass through"),
    }
}

#[test]
fn deadline_expiry_is_reported_as_timeout_not_failed() {
    let r = await_outcome::<f64>(None);
    assert!(matches!(r, Err(Error::TestTimeout)));
    assert!(!matches!(r, Err(Error::TestFailed)));
}

#[test]
fn arrived_signal_is_passed_through() {
    let r = await_outcome::<f64>(Some(Err(Error::TestFailed)));
    assert!(matches!(r, Err(Error::TestFailed)));
}

#[test]
fn fresh_report_is_empty() {
    let report: MetricsReport<f64> = MetricsReport::new(
        "v1.0".to_string(),
        "0123abcd".to_string(),
        "Mon Jan  1 00:00:00 UTC 2024".to_string(),
    );
    assert_eq!(report.git_human_readable.as_str(), "v1.0");
    assert_eq!(report.git_revision.as_str(), "0123abcd");
    assert_eq!(report.date.as_str(), "Mon Jan  1 00:00:00 UTC 2024");
    assert_eq!(report.results.len(), 0);
}

#[test]
fn end_to_end_two_descriptors() {
    let mut reg: Registry<fn(&PerformanceTestControl) -> f64> = Registry::new();
    reg.register(PerformanceTest {
        name: "a".to_string(),
        func_ptr: probe_five,
        control: control(1, 3),
    });
    reg.register(PerformanceTest {
        name: "b".to_string(),
        func_ptr: probe_ten,
        control: control(1, 2),
    });
    let exec = |t: &PerformanceTest<fn(&PerformanceTestControl) -> f64>| {
        Ok(t.run(&stats_of))
    };
    let mut report: MetricsReport<f64> =
        MetricsReport::new("v1.0".to_string(), "rev".to_string(), "date".to_string());
    let aborted = run_schedule(&reg, "", &exec, &mut report);
    assert!(aborted.is_none());
    assert_eq!(report.results.len(), 2);
    assert_eq!(report.results[0].name.as_str(), "a");
    assert_eq!(report.results[0].mean, 5.0);
    assert_eq!(report.results[0].std_dev, 0.0);
    assert_eq!(report.results[0].max, 5.0);
    assert_eq!(report.results[0].min, 5.0);
    assert_eq!(report.results[1].name.as_str(), "b");
    assert_eq!(report.results[1].mean, 10.0);
    assert_eq!(report.results[1].std_dev, 0.0);
    assert_eq!(report.results[1].max, 10.0);
    assert_eq!(report.results[1].min, 10.0);
}

#[test]
fn failure_aborts_remaining_schedule() {
    let mut reg: Registry<fn(&PerformanceTestControl) -> f64> = Registry::new();
    reg.register(PerformanceTest {
        name: "a".to_string(),
        func_ptr: probe_five,
        control: control(1, 3),
    });
    reg.register(PerformanceTest {
        name: "b".to_string(),
        func_ptr: probe_ten,
        control: control(1, 2),
    });
    let invocations = Cell::new(0u32);
    let exec = |_t: &PerformanceTest<fn(&PerformanceTestControl) -> f64>| {
        invocations.set(invocations.get() + 1);
        Err(Error::TestFailed)
    };
    let mut report: MetricsReport<f64> =
        MetricsReport::new("v1.0".to_string(), "rev".to_string(), "date".to_string());
    let aborted = run_schedule(&reg, "", &exec, &mut report);
    assert_eq!(aborted, Some(Error::TestFailed));
    // The first failure stops the loop: the second descriptor never runs.
    assert_eq!(invocations.get(), 1);
    assert_eq!(report.results.len(), 0);
}

#[test]
fn results_before_a_timeout_are_preserved() {
    let mut reg: Registry<fn(&PerformanceTestControl) -> f64> = Registry::new();
    reg.register(PerformanceTest {
        name: "a".to_string(),
        func_ptr: probe_five,
        control: control(1, 3),
    });
    reg.register(PerformanceTest {
        name: "b".to_string(),
        func_ptr: probe_ten,
        control: control(1, 2),
    });
    let exec = |t: &PerformanceTest<fn(&PerformanceTestControl) -> f64>| {
        if t.name == "a" {
            Ok(t.run(&stats_of))
        } else {
            Err(Error::TestTimeout)
        }
    };
    let mut report: MetricsReport<f64> =
        MetricsReport::new("v1.0".to_string(), "rev".to_string(), "date".to_string());
    let aborted = run_schedule(&reg, "", &exec, &mut report);
    assert_eq!(aborted, Some(Error::TestTimeout));
    assert_eq!(report.results.len(), 1);
    assert_eq!(report.results[0].name.as_str(), "a");
}

#[test]
fn no_matching_filter_yields_empty_report() {
    let mut reg: Registry<fn(&PerformanceTestControl) -> f64> = Registry::new();
    reg.register(PerformanceTest {
        name: "a".to_string(),
        func_ptr: probe_five,
        control: control(1, 3),
    });
    let invocations = Cell::new(0u32);
    let exec = |t: &PerformanceTest<fn(&PerformanceTestControl) -> f64>| {
        invocations.set(invocations.get() + 1);
        Ok(t.run(&stats_of))
    };
    let mut report: MetricsReport<f64> =
        MetricsReport::new("v1.0".to_string(), "rev".to_string(), "date".to_string());
    let aborted = run_schedule(&reg, "zzz", &exec, &mut report);
    assert!(aborted.is_none());
    assert_eq!(invocations.get(), 0);
    assert_eq!(report.results.len(), 0);
}
