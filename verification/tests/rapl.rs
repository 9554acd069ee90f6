use capping::text::ParseError;
use std::path::PathBuf;
use capping::rapl::{RAPL_Reading, RAPL_Readings, RAPL};

#[test]
fn test_domain0_from_path() {
    let rapl_filename = "/sys/devices/virtual/powercap/intel-rapl/intel-rapl:0";
    let mut rapl_path = PathBuf::new();
    rapl_path.push(rapl_filename);
    assert_eq!(RAPL::domain_from_path(rapl_path.to_str().unwrap()), Ok(0));
}

#[test]
fn test_domain16_from_path() {
    let rapl_filename = "/sys/devices/virtual/powercap/intel-rapl/intel-rapl:16";
    let mut rapl_path = PathBuf::new();
    rapl_path.push(rapl_filename);
    assert_eq!(RAPL::domain_from_path(rapl_path.to_str().unwrap()), Ok(16));
}

#[test]
fn domain_ids_come_from_the_last_component() {
    assert_eq!(RAPL::domain_from_path("intel-rapl:3"), Ok(3));
    assert_eq!(RAPL::domain_from_path("/a:9/intel-rapl:3:0"), Ok(3));
    assert_eq!(RAPL::domain_from_path("/sys/intel-rapl"), Err(ParseError::MissingDomain));
    assert_eq!(RAPL::domain_from_path("/sys/a:1/"), Ok(1));
    assert_eq!(RAPL::domain_from_path("/sys/intel-rapl:16///"), Ok(16));
    assert_eq!(RAPL::domain_from_path("/"), Err(ParseError::MissingDomain));
    assert_eq!(RAPL::domain_from_path("/sys/a:1/.."), Err(ParseError::MissingDomain));
    assert_eq!(RAPL::domain_from_path(""), Err(ParseError::MissingDomain));
    assert_eq!(RAPL::domain_from_path("/sys/intel-rapl:x"), Err(ParseError::InvalidNumber));
    assert_eq!(RAPL::domain_from_path("/sys/intel-rapl:"), Err(ParseError::InvalidNumber));
}

#[test]
fn counter_files_hold_one_number() {
    assert_eq!(RAPL::read_energy("123456\n"), Ok(123456));
    assert_eq!(RAPL::max_energy(" 262143328850\n"), Ok(262143328850));
    assert_eq!(RAPL::read_energy("12 34"), Err(ParseError::InvalidNumber));
    assert_eq!(RAPL::read_energy(""), Err(ParseError::InvalidNumber));
}

#[test]
fn domains_are_discovered_in_order() {
    let directories = vec![
        String::from("/sys/devices/virtual/powercap/intel-rapl/intel-rapl:0"),
        String::from("/sys/devices/virtual/powercap/intel-rapl/intel-rapl:1"),
    ];
    let rapl = RAPL::new(&directories).unwrap();
    assert_eq!(rapl.domain_count(), 2);
    assert_eq!(
        rapl.counter_paths(),
        vec![
            "/sys/devices/virtual/powercap/intel-rapl/intel-rapl:0/intel-rapl:0:0/energy_uj",
            "/sys/devices/virtual/powercap/intel-rapl/intel-rapl:1/intel-rapl:1:0/energy_uj",
            "/sys/devices/virtual/powercap/intel-rapl/intel-rapl:0/energy_uj",
            "/sys/devices/virtual/powercap/intel-rapl/intel-rapl:1/energy_uj",
        ]
    );
    let contents =
        vec![String::from("10\n"), String::from("20\n"), String::from("30\n"), String::from("40\n")];
    let snapshot = rapl.energy_at(&contents, 77).unwrap();
    assert_eq!(snapshot.timestamp, 77);
    let labels: Vec<(String, u64)> =
        snapshot.readings.iter().map(|r| (r.domain.clone(), r.reading)).collect();
    assert_eq!(
        labels,
        vec![
            (String::from("core0"), 10),
            (String::from("core1"), 20),
            (String::from("pkg0"), 30),
            (String::from("pkg1"), 40),
        ]
    );
    let now = rapl.read_current_energy(&contents).unwrap();
    assert_eq!(now.readings.len(), 4);
    assert_eq!(now.readings[3].domain, "pkg1");
    assert!(now.timestamp > 1_600_000_000_000);
}

#[test]
fn directory_names_agree_with_the_standard_library() {
    for path in ["/sys/intel-rapl:0", "/sys/intel-rapl:16/", "intel-rapl:3", "a/b:4//", "/x:1/y:22:0"] {
        let name = PathBuf::from(path).file_name().unwrap().to_string_lossy().to_string();
        let id: u64 = name.split(':').nth(1).unwrap().parse().unwrap();
        assert_eq!(RAPL::domain_from_path(path), Ok(id));
    }
}

#[test]
fn a_directory_with_a_slash_at_its_end_is_joined_once() {
    let rapl = RAPL::new(&vec![String::from("/sys/intel-rapl:5/")]).unwrap();
    assert_eq!(
        rapl.counter_paths(),
        vec!["/sys/intel-rapl:5/intel-rapl:5:0/energy_uj", "/sys/intel-rapl:5/energy_uj"]
    );
    let joined = PathBuf::from("/sys/intel-rapl:5/").join("intel-rapl:5:0").join("energy_uj");
    assert_eq!(rapl.counter_paths()[0], joined.to_string_lossy());
}

#[test]
fn a_later_directory_replaces_an_earlier_one_of_its_id() {
    let directories =
        vec![String::from("a/x:7"), String::from("b/y:12"), String::from("c/z:7")];
    let rapl = RAPL::new(&directories).unwrap();
    assert_eq!(rapl.domain_count(), 2);
    assert_eq!(
        rapl.counter_paths(),
        vec!["c/z:7/z:7:0/energy_uj", "b/y:12/y:12:0/energy_uj", "c/z:7/energy_uj", "b/y:12/energy_uj"]
    );
}

#[test]
fn discovery_and_reading_errors() {
    assert_eq!(RAPL::new(&vec![]).unwrap().domain_count(), 0);
    let bad = vec![String::from("a:1"), String::from("nothing"), String::from("b:x")];
    assert_eq!(RAPL::new(&bad).unwrap_err(), ParseError::MissingDomain);
    let rapl = RAPL::new(&vec![String::from("a:1")]).unwrap();
    assert_eq!(
        rapl.energy_at(&vec![String::from("1")], 0).unwrap_err(),
        ParseError::WrongCounterCount
    );
    assert_eq!(
        rapl.energy_at(&vec![String::from("1"), String::from("2"), String::from("3")], 0)
            .unwrap_err(),
        ParseError::WrongCounterCount
    );
    assert_eq!(
        rapl.energy_at(&vec![String::from("1"), String::from("two")], 0).unwrap_err(),
        ParseError::InvalidNumber
    );
    assert_eq!(rapl.read_current_energy(&vec![]).unwrap_err(), ParseError::WrongCounterCount);
}

#[test]
fn readings_as_text() {
    let reading = RAPL_Reading::new("core0", 1234);
    assert_eq!(reading.domain, "core0");
    assert_eq!(reading.reading, 1234);
    assert_eq!(reading.to_text(), "core0,1234");
    let snapshot = RAPL_Readings::at(5, vec![reading.clone()]);
    assert_eq!(snapshot.timestamp, 5);
    assert_eq!(snapshot.readings.len(), 1);
    let now = RAPL_Readings::new(vec![reading]);
    assert_eq!(now.readings[0].reading, 1234);
}
