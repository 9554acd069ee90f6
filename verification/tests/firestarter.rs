use capping::firestarter::Firestarter;
use capping::model::FirestarterParams;

#[test]
fn the_load_generator_is_launched_with_its_parameters() {
    let params = FirestarterParams { runtime_secs: 25, load_pct: 100, load_period_us: 10_000, n_threads: 0 };
    assert!(params.is_valid());
    let firestarter = Firestarter::new(params);
    assert_eq!(firestarter.program(), "/home_nfs/wainj/local/bin/firestarter");
    assert_eq!(
        firestarter.arguments(),
        vec!["--quiet", "--timeout", "25", "--load", "100", "--period", "10000", "--threads", "0"]
    );
    assert_eq!(
        firestarter.to_text(),
        "/home_nfs/wainj/local/bin/firestarter --timeout 25 --load 100 --period 10000 --threads 0"
    );
}

#[test]
fn parameters_are_checked() {
    let valid = |load_pct, load_period_us| {
        FirestarterParams { runtime_secs: 1, load_pct, load_period_us, n_threads: 1 }.is_valid()
    };
    assert!(valid(1, 0));
    assert!(valid(100, 100));
    assert!(valid(50, 1_000_000));
    assert!(!valid(0, 0));
    assert!(!valid(101, 0));
    assert!(!valid(50, 49));
}
