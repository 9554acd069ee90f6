use capping::power::{convert_energy_to_power, ConversionError};
use capping::rapl::{RAPL_Reading, RAPL_Readings};
use chrono::Utc;

fn snapshot(timestamp: i64, values: &[u64]) -> RAPL_Readings {
    let mut readings = Vec::new();
    for (i, value) in values.iter().enumerate() {
        readings.push(RAPL_Reading { domain: format!("{i}"), reading: *value });
    }
    RAPL_Readings { timestamp, readings }
}

#[test]
fn test_energy_to_power() {
    let r1 = RAPL_Reading { domain: String::from("0"), reading: 0 };
    let r2 = RAPL_Reading { domain: String::from("1"), reading: 0 };
    let r3 = RAPL_Reading { domain: String::from("0"), reading: 100_000_000 };
    let r4 = RAPL_Reading { domain: String::from("1"), reading: 50_000_000 };
    let r5 = RAPL_Reading { domain: String::from("0"), reading: 200_000_000 };
    let r6 = RAPL_Reading { domain: String::from("1"), reading: 100_000_000 };
    let r7 = RAPL_Reading { domain: String::from("0"), reading: 200_000_000 };
    let r8 = RAPL_Reading { domain: String::from("1"), reading: 100_000_000 };
    let r9 = RAPL_Reading { domain: String::from("0"), reading: 400_000_000 };
    let r10 = RAPL_Reading { domain: String::from("1"), reading: 200_000_000 };

    let t0 = Utc::now().timestamp_millis();
    let t1 = t0 + 1000;
    let t2 = t0 + 2000;
    let t3 = t0 + 3000;
    let t4 = t0 + 5000;

    let readings1 = RAPL_Readings { timestamp: t0, readings: vec![r1, r2] };
    let readings2 = RAPL_Readings { timestamp: t1, readings: vec![r3, r4] };
    let readings3 = RAPL_Readings { timestamp: t2, readings: vec![r5, r6] };
    let readings4 = RAPL_Readings { timestamp: t3, readings: vec![r7, r8] };
    let readings5 = RAPL_Readings { timestamp: t4, readings: vec![r9, r10] };

    let energy_stats = vec![readings1, readings2, readings3, readings4, readings5];
    let power_stats = convert_energy_to_power(&energy_stats, 262_143_328_850).unwrap();

    assert_eq!(power_stats.len(), energy_stats.len() - 1);

    // check power: microjoules by milliseconds, so a watt counts a thousand
    assert_eq!(power_stats[0].data[0].power_watts, 100 * 1000);
    assert_eq!(power_stats[0].data[1].power_watts, 50 * 1000);
    assert_eq!(power_stats[1].data[0].power_watts, 100 * 1000);
    assert_eq!(power_stats[1].data[1].power_watts, 50 * 1000);
    assert_eq!(power_stats[2].data[0].power_watts, 0);
    assert_eq!(power_stats[2].data[1].power_watts, 0);
    assert_eq!(power_stats[3].data[0].power_watts, 100 * 1000);
    assert_eq!(power_stats[3].data[1].power_watts, 50 * 1000);

    // check timestamps
    assert_eq!(power_stats[0].timestamp, t0 + 500);
    assert_eq!(power_stats[1].timestamp, t0 + 1500);
    assert_eq!(power_stats[2].timestamp, t0 + 2500);
    assert_eq!(power_stats[3].timestamp, t0 + 4000);
}

#[test]
fn power_is_the_rise_by_the_time_rounded_down() {
    let stats = vec![snapshot(1000, &[10, 0]), snapshot(1003, &[20, 8])];
    let power = convert_energy_to_power(&stats, 1_000_000).unwrap();
    assert_eq!(power[0].data[0].power_watts, 3);
    assert_eq!(power[0].data[1].power_watts, 2);
    assert_eq!(power[0].data[0].domain, "0");
    assert_eq!(power[0].data[1].domain, "1");
}

#[test]
fn a_wrapped_counter_is_corrected() {
    for ceiling in [1_000u64, 262_143_328_850, u64::MAX] {
        let stats = vec![snapshot(0, &[ceiling - 10]), snapshot(1, &[5])];
        let power = convert_energy_to_power(&stats, ceiling).unwrap();
        assert_eq!(power[0].data[0].power_watts, 15);
    }
}

#[test]
fn few_snapshots_give_no_sample() {
    assert_eq!(convert_energy_to_power(&[], 100).unwrap().len(), 0);
    assert_eq!(convert_energy_to_power(&[snapshot(5, &[1, 2])], 100).unwrap().len(), 0);
    let three = vec![snapshot(1, &[1]), snapshot(2, &[1]), snapshot(3, &[1])];
    assert_eq!(convert_energy_to_power(&three, 100).unwrap().len(), 2);
}

#[test]
fn samples_are_stamped_with_the_midpoint() {
    let stats = vec![snapshot(-7, &[0]), snapshot(-2, &[0]), snapshot(-1, &[0]), snapshot(9, &[0])];
    let power = convert_energy_to_power(&stats, 100).unwrap();
    assert_eq!(power[0].timestamp, -4);
    assert_eq!(power[1].timestamp, -1);
    assert_eq!(power[2].timestamp, 4);
    let far = vec![snapshot(i64::MIN, &[0]), snapshot(i64::MAX, &[u64::MAX])];
    let power = convert_energy_to_power(&far, 100).unwrap();
    assert_eq!(power[0].timestamp, 0);
    assert_eq!(power[0].data[0].power_watts, 1);
}

#[test]
fn faulty_snapshots_are_rejected() {
    let fewer = vec![snapshot(0, &[1, 2]), snapshot(1, &[1])];
    assert_eq!(convert_energy_to_power(&fewer, 100).unwrap_err(), ConversionError::DomainMismatch);
    let mut renamed = vec![snapshot(0, &[1, 2]), snapshot(1, &[1, 2])];
    renamed[1].readings[1].domain = String::from("pkg0");
    assert_eq!(convert_energy_to_power(&renamed, 100).unwrap_err(), ConversionError::DomainMismatch);
    let same_time = vec![snapshot(4, &[1]), snapshot(4, &[2])];
    assert_eq!(
        convert_energy_to_power(&same_time, 100).unwrap_err(),
        ConversionError::TimeNotIncreasing
    );
    let backwards = vec![snapshot(4, &[1]), snapshot(3, &[2])];
    assert_eq!(
        convert_energy_to_power(&backwards, 100).unwrap_err(),
        ConversionError::TimeNotIncreasing
    );
    let above = vec![snapshot(0, &[101]), snapshot(1, &[5])];
    assert_eq!(
        convert_energy_to_power(&above, 100).unwrap_err(),
        ConversionError::CounterAboveCeiling
    );
    let first_fault_wins = vec![snapshot(0, &[101]), snapshot(0, &[5]), snapshot(1, &[])];
    assert_eq!(
        convert_energy_to_power(&first_fault_wins, 100).unwrap_err(),
        ConversionError::TimeNotIncreasing
    );
}
