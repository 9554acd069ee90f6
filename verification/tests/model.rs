use capping::model::{BiosInfo, SystemInfo};
use capping::rapl::{RAPL_Reading, RAPL_Readings};
use capping::test::{CapStep, CappingOrder, Operation, Test};
use chrono::{DateTime, SecondsFormat};

#[test]
fn the_inventory_as_text() {
    let info = SystemInfo {
        hostname: String::from("oahu"),
        model: String::from("X1"),
        os: String::from("Linux 9"),
        manufacturer: String::from("Acme"),
        cpu_version: String::from("Fast 3"),
        online_cpus: 192,
        min_mhz: 800,
        max_mhz: 3500,
        threads_per_core: 2,
        cores_per_socket: 48,
        n_sockets: 2,
    };
    assert_eq!(
        info.to_text(),
        format!(
            "          hostname: {}\n\
                          model: {}\n\
                             os: {}\n\
                   manufacturer: {}\n\
                            cpu: {}\n\
                      cpu count: {}\n\
                 min freq (MHz): {}\n\
                 max freq (MHz): {}\n\
               threads per core: {}\n\
               cores per socket: {}\n\
                   socket count: {}\n",
            "oahu", "X1", "Linux 9", "Acme", "Fast 3", 192, 800, 3500, 2, 48, 2
        )
    );
    let bios = BiosInfo {
        vendor: String::from("Acme"),
        version: String::from("1.2"),
        revision: String::from("5.0"),
        release_date: String::from("01/02/2023"),
    };
    assert_eq!(
        bios.to_text(),
        "            vendor: Acme\nversion: 1.2\nrevision: 5.0\nrelease date: 01/02/2023\n"
    );
}

#[test]
fn a_snapshot_as_text() {
    let snapshot = RAPL_Readings::at(
        1683642276123,
        vec![RAPL_Reading::new("core0", 10), RAPL_Reading::new("pkg0", 25)],
    );
    assert_eq!(snapshot.to_text_with("now"), "now,core0,10,pkg0,25");
    assert_eq!(
        snapshot.to_text(),
        Some(String::from("2023-05-09T14:24:36.123+00:00,core0,10,pkg0,25"))
    );
    let expected = DateTime::from_timestamp_millis(1683642276123)
        .unwrap()
        .to_rfc3339_opts(SecondsFormat::Millis, false);
    assert_eq!(snapshot.to_text(), Some(format!("{expected},core0,10,pkg0,25")));
    assert_eq!(RAPL_Readings::at(0, vec![]).to_text(), Some(String::from("1970-01-01T00:00:00.000+00:00,")));
    assert_eq!(RAPL_Readings::at(i64::MAX, vec![]).to_text(), None);
}

#[test]
fn only_tests_that_lower_the_cap_are_run() {
    let mut test = Test {
        capping_order: CappingOrder::LevelToLevel,
        operation: Operation::Activate,
        step: CapStep::OneShot,
        cap_from: 580,
        cap_to: 200,
        load_pct: 100,
        load_period: 0,
        n_threads: 0,
    };
    assert!(test.lowers_cap());
    test.cap_to = 580;
    assert!(!test.lowers_cap());
    test.cap_to = 600;
    assert!(!test.lowers_cap());
}
