use capping::bmc::{BMCStats, BMC_CapSetting, BMC_PowerReading, HardwareCommandError, BMC};
use capping::text::ParseError;
use chrono::NaiveDateTime;

#[test]
fn test_parse_power_reading() {
    let bmc_output = "
        Instantaneous power reading:                   220 Watts
        Minimum during sampling period:                 70 Watts
        Maximum during sampling period:                600 Watts
        Average power reading over sample period:      220 Watts
        IPMI timestamp:                           Tue May  9 14:24:36 2023
        Sampling period:                          00000005 Seconds.
        Power reading state is:                   activated
        ";

    let readings = BMC::parse_power_reading(bmc_output).unwrap();
    let expected_timestamp =
        NaiveDateTime::parse_from_str("2023 May 09 14:24:36", "%Y %b %d %H:%M:%S").unwrap();
    assert_eq!(readings.instant, 220);
    assert_eq!(readings.minimum, 70);
    assert_eq!(readings.maximum, 600);
    assert_eq!(readings.average, 220);
    assert_eq!(readings.timestamp, Some(expected_timestamp.and_utc().timestamp()));
}

#[test]
fn test_parse_cap_settings_inactive() {
    let bmc_output = "
        Current Limit State: No Active Power Limit
        Exception actions:   Hard Power Off & Log Event to SEL
        Power Limit:         1600 Watts
        Correction time:     1000 milliseconds
        Sampling period:     5 seconds
        ";

    let reading = BMC::parse_cap_settings(bmc_output).unwrap();
    assert!(!reading.is_active);
    assert_eq!(reading.power_limit, 1600);
}

#[test]
fn test_parse_cap_settings_active() {
    let bmc_output = "
        Current Limit State: Power Limit Active
        Exception actions:   Hard Power Off & Log Event to SEL
        Power Limit:         2000 Watts
        Correction time:     1000 milliseconds
        Sampling period:     5 seconds
        ";

    let reading = BMC::parse_cap_settings(bmc_output).unwrap();
    assert!(reading.is_active);
    assert_eq!(reading.power_limit, 2000);
}

#[test]
fn parse_number_takes_the_first_token() {
    assert_eq!(BMC::parse_number("220 Watts"), Ok(220));
    assert_eq!(BMC::parse_number("   1600\tWatts  "), Ok(1600));
    assert_eq!(BMC::parse_number("+7"), Ok(7));
    assert_eq!(BMC::parse_number("007 x"), Ok(7));
    assert_eq!(BMC::parse_number("18446744073709551615"), Ok(u64::MAX));
}

#[test]
fn parse_number_rejects_what_is_no_number() {
    assert_eq!(BMC::parse_number(""), Err(ParseError::MissingNumber));
    assert_eq!(BMC::parse_number("  \t "), Err(ParseError::MissingNumber));
    assert_eq!(BMC::parse_number("Watts 220"), Err(ParseError::InvalidNumber));
    assert_eq!(BMC::parse_number("-3"), Err(ParseError::InvalidNumber));
    assert_eq!(BMC::parse_number("+"), Err(ParseError::InvalidNumber));
    assert_eq!(BMC::parse_number("12:"), Err(ParseError::InvalidNumber));
    assert_eq!(BMC::parse_number("18446744073709551616"), Err(ParseError::InvalidNumber));
}

#[test]
fn cap_settings_do_not_depend_on_line_order() {
    let reading =
        BMC::parse_cap_settings("Power Limit: 450 Watts\n\nCurrent Limit State: Power Limit Active")
            .unwrap();
    assert_eq!(reading, BMC_CapSetting { is_active: true, power_limit: 450 });
}

#[test]
fn cap_settings_default_to_inactive_at_zero() {
    assert_eq!(
        BMC::parse_cap_settings(""),
        Ok(BMC_CapSetting { is_active: false, power_limit: 0 })
    );
    assert_eq!(
        BMC::parse_cap_settings("no colon here\nSampling period: 5 seconds\n"),
        Ok(BMC_CapSetting { is_active: false, power_limit: 0 })
    );
}

#[test]
fn cap_settings_split_on_the_first_colon() {
    assert_eq!(
        BMC::parse_cap_settings("Power Limit: 12 Watts: more"),
        Ok(BMC_CapSetting { is_active: false, power_limit: 12 })
    );
    assert_eq!(
        BMC::parse_cap_settings("Current Limit State: Power Limit Active: yes"),
        Ok(BMC_CapSetting { is_active: false, power_limit: 0 })
    );
}

#[test]
fn cap_settings_with_a_bad_limit_are_rejected() {
    assert_eq!(BMC::parse_cap_settings("Power Limit: many Watts"), Err(ParseError::InvalidNumber));
    assert_eq!(BMC::parse_cap_settings("Power Limit:   "), Err(ParseError::MissingNumber));
}

#[test]
fn later_lines_override_earlier_ones() {
    let reading = BMC::parse_cap_settings("Power Limit: 1\r\nPower Limit: 2\r\n").unwrap();
    assert_eq!(reading.power_limit, 2);
}

#[test]
fn power_reading_ignores_unknown_keys_and_blank_lines() {
    let reading = BMC::parse_power_reading("\n\nSampling period: 5 Seconds.\n\n").unwrap();
    assert_eq!(reading, BMC_PowerReading::new());
    assert_eq!(reading.timestamp, None);
}

#[test]
fn power_reading_splits_on_the_first_colon_and_space() {
    let reading = BMC::parse_power_reading("Instantaneous power: 5 Watts: of many").unwrap();
    assert_eq!(reading.instant, 5);
    let reading = BMC::parse_power_reading("Instantaneous:5 Watts").unwrap();
    assert_eq!(reading.instant, 0);
}

#[test]
fn power_reading_errors() {
    assert_eq!(BMC::parse_power_reading(": 5 Watts"), Err(ParseError::EmptyKey));
    assert_eq!(
        BMC::parse_power_reading("Minimum during sampling period: low"),
        Err(ParseError::InvalidNumber)
    );
    assert_eq!(
        BMC::parse_power_reading("IPMI timestamp: not a date"),
        Err(ParseError::InvalidTimestamp)
    );
    assert_eq!(
        BMC::parse_power_reading("Maximum during sampling period: \u{a0}"),
        Ok(BMC_PowerReading::new())
    );
    assert_eq!(
        BMC::parse_power_reading("Average power: 1\nAverage power: \u{a0}+"),
        Err(ParseError::InvalidNumber)
    );
}

#[test]
fn date_from_string_reads_the_timestamp_of_the_controller() {
    let expected =
        NaiveDateTime::parse_from_str("2023 May 09 14:24:36", "%Y %b %d %H:%M:%S").unwrap();
    assert_eq!(
        BMC::date_from_string("  Tue May  9 14:24:36 2023 "),
        Ok(expected.and_utc().timestamp())
    );
    assert_eq!(BMC::date_from_string("Tue May  9 14:24:36 2023"), Ok(1683642276));
    assert_eq!(BMC::date_from_string("9 May 2023"), Err(ParseError::InvalidTimestamp));
    assert_eq!(BMC::timestamp_from(Some(5)), Ok(5));
    assert_eq!(BMC::timestamp_from(None), Err(ParseError::InvalidTimestamp));
}

#[test]
fn with_timestamp_keeps_the_powers() {
    let reading =
        BMC_PowerReading { instant: 1, minimum: 2, maximum: 3, average: 4, timestamp: None };
    assert_eq!(
        reading.with_timestamp(Some(9)),
        Ok(BMC_PowerReading { instant: 1, minimum: 2, maximum: 3, average: 4, timestamp: Some(9) })
    );
    assert_eq!(reading.with_timestamp(None), Err(ParseError::InvalidTimestamp));
    assert_eq!(BMC_PowerReading::default(), BMC_PowerReading::new());
}

#[test]
fn commands_carry_the_credentials() {
    let bmc = BMC::new("host1", "admin", "secret", "/usr/bin/ipmitool");
    assert_eq!(bmc.ipmi, "/usr/bin/ipmitool");
    assert_eq!(bmc.to_text(), "-H host1 -U admin -P secret");
    assert_eq!(bmc.to_redacted_text(), "-H host1 -U admin -P ****");
    assert_eq!(
        bmc.set_cap_power_level(580),
        vec!["-H", "host1", "-U", "admin", "-P", "secret", "dcmi", "power", "set_limit", "limit", "580"]
    );
    assert_eq!(
        bmc.activate_power_cap(),
        vec!["-H", "host1", "-U", "admin", "-P", "secret", "dcmi", "power", "activate"]
    );
    assert_eq!(
        bmc.deactivate_power_cap(),
        vec!["-H", "host1", "-U", "admin", "-P", "secret", "dcmi", "power", "deactivate"]
    );
    assert_eq!(
        bmc.power_reading_arguments(),
        vec!["-H", "host1", "-U", "admin", "-P", "secret", "dcmi", "power", "reading"]
    );
    assert_eq!(
        bmc.cap_settings_arguments(),
        vec!["-H", "host1", "-U", "admin", "-P", "secret", "dcmi", "power", "get_limit"]
    );
    assert_eq!(bmc.command_arguments("  a \t b\n"), vec!["-H", "host1", "-U", "admin", "-P", "secret", "a", "b"]);
}

#[test]
fn readings_through_a_controller() {
    let bmc = BMC::new("h", "u", "p", "ipmitool");
    let caps = "Current Limit State: Power Limit Active\nPower Limit: 2000 Watts\n";
    assert_eq!(
        bmc.current_cap_settings(caps),
        Ok(BMC_CapSetting { is_active: true, power_limit: 2000 })
    );
    assert_eq!(bmc.capping_is_active(caps), Ok(true));
    assert_eq!(bmc.current_power_limit(caps), Ok(2000));
    assert_eq!(bmc.current_power("Instantaneous power reading: 220 Watts"), Ok(220));
    assert_eq!(bmc.current_power("Instantaneous power reading: Watts"), Err(ParseError::InvalidNumber));
    assert_eq!(bmc.current_power_limit("Power Limit: x"), Err(ParseError::InvalidNumber));
    assert_eq!(bmc.capping_is_active("Power Limit: x"), Err(ParseError::InvalidNumber));
}

#[test]
fn a_command_fails_when_not_run_or_on_error_output() {
    assert_eq!(
        BMC::command_output(false, String::from("x"), ""),
        Err(HardwareCommandError::NotRun)
    );
    assert_eq!(
        BMC::command_output(true, String::from("x"), "boom"),
        Err(HardwareCommandError::ErrorStream)
    );
    assert_eq!(BMC::command_output(true, String::from("x"), ""), Ok(String::from("x")));
}

#[test]
fn samples_hold_power_and_cap() {
    let cap = BMC_CapSetting { is_active: true, power_limit: 400 };
    assert_eq!(
        BMCStats::at(17, 250, &cap),
        BMCStats { timestamp: 17, power: 250, cap_level: 400, cap_is_active: true }
    );
    let sample = BMCStats::new(250, &cap);
    assert_eq!(sample.power, 250);
    assert_eq!(sample.cap_level, 400);
    assert!(sample.cap_is_active);
    assert!(sample.timestamp > 1_600_000_000_000);
}
