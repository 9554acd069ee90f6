//! The baseboard management controller: the commands sent to it and the
//! parsers for what it prints.

use crate::clock::now_millis;
use crate::text::{
    ParseError, chars_of, decimal, find_char, find_colon_space, first_token, first_token_str, lines,
    lines_from, parse_decimal_str, parse_u64, push_decimal, scan_char, scan_colon_space,
    split_tokens, str_equals, tokens, trim, trim_str, views,
};
use chrono::NaiveDateTime;
use vstd::prelude::*;
use vstd::string::*;

verus! {

/// The power cap as the controller reports it.
#[allow(non_camel_case_types)]
#[derive(Debug, Clone, Copy, PartialEq, Eq)]
pub struct BMC_CapSetting {
    pub is_active: bool,
    pub power_limit: u64,
}

/// One power reading of the controller. The powers are in watts; the
/// timestamp is in seconds since the Unix epoch, read without a time zone,
/// and absent until a timestamp line was parsed.
#[allow(non_camel_case_types)]
#[derive(Debug, Clone, Copy, PartialEq, Eq)]
pub struct BMC_PowerReading {
    pub instant: u64,
    pub minimum: u64,
    pub maximum: u64,
    pub average: u64,
    pub timestamp: Option<i64>,
}

/// The seconds since the Unix epoch of the date and time that `text` spells
/// in the `strftime`-like `format`, read without a time zone; none where
/// `text` does not match `format`. This is what
/// `chrono::NaiveDateTime::parse_from_str` computes.
pub uninterp spec fn naive_datetime_seconds(text: Seq<char>, format: Seq<char>) -> Option<i64>;

/// Parses `text` by `format` with `chrono::NaiveDateTime::parse_from_str`
/// and gives the seconds since the Unix epoch of the result, or nothing
/// where chrono reports an error. The contract only names that outcome.
#[verifier::external_body]
fn parse_naive_datetime(text: &str, format: &str) -> (r: Option<i64>)
    ensures
        r == naive_datetime_seconds(text@, format@),
{
    match NaiveDateTime::parse_from_str(text, format) {
        Ok(parsed) => Some(parsed.and_utc().timestamp()),
        Err(_) => None,
    }
}

/// The format of the controller's timestamp line: abbreviated weekday and
/// month, day of the month padded with a space, time of day, year.
pub open spec fn timestamp_format() -> Seq<char> {
    "%a %b %e %H:%M:%S %Y"@
}

/// The number at the start of `value`: the first ASCII-whitespace token of
/// the trimmed value, read as an unsigned decimal.
pub open spec fn number_of(value: Seq<char>) -> Result<u64, ParseError> {
    match first_token(trim(value), true) {
        None => Err(ParseError::MissingNumber),
        Some(token) => match parse_u64(token) {
            Some(n) => Ok(n),
            None => Err(ParseError::InvalidNumber),
        },
    }
}

/// What a parsed timestamp means for a reading: the seconds, or the error
/// for text that is no timestamp.
pub open spec fn timestamp_of(parsed: Option<i64>) -> Result<i64, ParseError> {
    match parsed {
        Some(seconds) => Ok(seconds),
        None => Err(ParseError::InvalidTimestamp),
    }
}

/// Key and value of a cap-settings line: the text before its first colon
/// and the text after it. A line without a colon has neither.
pub open spec fn split_colon(line: Seq<char>) -> Option<(Seq<char>, Seq<char>)> {
    let k = find_char(line, 0, ':');
    if 0 <= k < line.len() {
        Some((line.subrange(0, k), line.subrange(k + 1, line.len() as int)))
    } else {
        None
    }
}

/// Key and value of a power-reading line: the text before its first colon
/// that a space follows, and the text after that space.
pub open spec fn split_colon_space(line: Seq<char>) -> Option<(Seq<char>, Seq<char>)> {
    let k = find_colon_space(line, 0);
    if 0 <= k && k + 1 < line.len() {
        Some((line.subrange(0, k), line.subrange(k + 2, line.len() as int)))
    } else {
        None
    }
}

/// The cap settings after one more line of the controller's output.
pub open spec fn cap_line(acc: BMC_CapSetting, line: Seq<char>) -> Result<
    BMC_CapSetting,
    ParseError,
> {
    match split_colon(trim(line)) {
        None => Ok(acc),
        Some((key, value)) => if trim(key) == "Current Limit State"@ {
            Ok(
                BMC_CapSetting {
                    is_active: trim(value) == "Power Limit Active"@,
                    power_limit: acc.power_limit,
                },
            )
        } else if trim(key) == "Power Limit"@ {
            match number_of(value) {
                Ok(n) => Ok(BMC_CapSetting { is_active: acc.is_active, power_limit: n }),
                Err(e) => Err(e),
            }
        } else {
            Ok(acc)
        },
    }
}

/// The cap settings after the given lines, read in order from `acc`; the
/// first line that is rejected ends the reading.
pub open spec fn cap_lines(lines: Seq<Seq<char>>, acc: BMC_CapSetting) -> Result<
    BMC_CapSetting,
    ParseError,
>
    decreases lines.len(),
{
    if lines.len() == 0 {
        Ok(acc)
    } else {
        match cap_line(acc, lines[0]) {
            Ok(next) => cap_lines(lines.drop_first(), next),
            Err(e) => Err(e),
        }
    }
}

/// The cap settings that the controller's output spells: inactive at zero
/// watts unless its lines say otherwise, a later line overriding an earlier.
pub open spec fn cap_settings_of(output: Seq<char>) -> Result<BMC_CapSetting, ParseError> {
    cap_lines(lines(output), BMC_CapSetting { is_active: false, power_limit: 0 })
}

/// The reading after one more line of the controller's output.
pub open spec fn power_line(acc: BMC_PowerReading, line: Seq<char>) -> Result<
    BMC_PowerReading,
    ParseError,
> {
    match split_colon_space(trim(line)) {
        None => Ok(acc),
        Some((key, value)) => match first_token(key, true) {
            None => Err(ParseError::EmptyKey),
            Some(word) => if word == "Instantaneous"@ {
                match number_of(value) {
                    Ok(n) => Ok(BMC_PowerReading { instant: n, ..acc }),
                    Err(e) => Err(e),
                }
            } else if word == "Minimum"@ {
                match number_of(value) {
                    Ok(n) => Ok(BMC_PowerReading { minimum: n, ..acc }),
                    Err(e) => Err(e),
                }
            } else if word == "Maximum"@ {
                match number_of(value) {
                    Ok(n) => Ok(BMC_PowerReading { maximum: n, ..acc }),
                    Err(e) => Err(e),
                }
            } else if word == "Average"@ {
                match number_of(value) {
                    Ok(n) => Ok(BMC_PowerReading { average: n, ..acc }),
                    Err(e) => Err(e),
                }
            } else if word == "IPMI"@ {
                match timestamp_of(naive_datetime_seconds(trim(value), timestamp_format())) {
                    Ok(seconds) => Ok(BMC_PowerReading { timestamp: Some(seconds), ..acc }),
                    Err(e) => Err(e),
                }
            } else {
                Ok(acc)
            },
        },
    }
}

/// The reading after the given lines, read in order from `acc`.
pub open spec fn power_lines(lines: Seq<Seq<char>>, acc: BMC_PowerReading) -> Result<
    BMC_PowerReading,
    ParseError,
>
    decreases lines.len(),
{
    if lines.len() == 0 {
        Ok(acc)
    } else {
        match power_line(acc, lines[0]) {
            Ok(next) => power_lines(lines.drop_first(), next),
            Err(e) => Err(e),
        }
    }
}

/// The reading with every power at zero and no timestamp.
pub open spec fn empty_reading() -> BMC_PowerReading {
    BMC_PowerReading { instant: 0, minimum: 0, maximum: 0, average: 0, timestamp: None }
}

/// The power reading that the controller's output spells.
pub open spec fn power_reading_of(output: Seq<char>) -> Result<BMC_PowerReading, ParseError> {
    power_lines(lines(output), empty_reading())
}

impl BMC_PowerReading {
    /// A reading with every power at zero and no timestamp.
    pub fn new() -> (r: Self)
        ensures
            r == empty_reading(),
    {
        BMC_PowerReading { instant: 0, minimum: 0, maximum: 0, average: 0, timestamp: None }
    }

    /// The reading with its timestamp replaced by a parsed one; text that
    /// was no timestamp is an error.
    pub fn with_timestamp(self, parsed: Option<i64>) -> (r: Result<Self, ParseError>)
        ensures
            r == (match timestamp_of(parsed) {
                Ok(seconds) => Ok(BMC_PowerReading { timestamp: Some(seconds), ..self }),
                Err(e) => Err(e),
            }),
    {
        match parsed {
            Some(seconds) => Ok(
                BMC_PowerReading {
                    instant: self.instant,
                    minimum: self.minimum,
                    maximum: self.maximum,
                    average: self.average,
                    timestamp: Some(seconds),
                },
            ),
            None => Err(ParseError::InvalidTimestamp),
        }
    }
}

impl Default for BMC_PowerReading {
    fn default() -> (r: Self)
        ensures
            r == empty_reading(),
    {
        BMC_PowerReading::new()
    }
}

/// The connection details of one controller and the path of the command
/// line tool that talks to it.
#[derive(Clone)]
pub struct BMC {
    pub hostname: String,
    pub username: String,
    pub password: String,
    pub ipmi: String,
}

/// Why a command to the controller counts as failed.
#[derive(Debug, Clone, Copy, PartialEq, Eq)]
pub enum HardwareCommandError {
    /// The tool could not be run.
    NotRun,
    /// The tool wrote to its error stream.
    ErrorStream,
}

/// The command that asks for the power reading.
pub open spec fn read_power_command() -> Seq<char> {
    "dcmi power reading"@
}

/// The command that asks for the cap settings.
pub open spec fn cap_settings_command() -> Seq<char> {
    "dcmi power get_limit"@
}

/// The command that sets the cap level to `cap` watts.
pub open spec fn set_cap_command(cap: u64) -> Seq<char> {
    "dcmi power set_limit limit "@ + decimal(cap as nat)
}

/// The command that switches capping on.
pub open spec fn activate_command() -> Seq<char> {
    "dcmi power activate"@
}

/// The command that switches capping off.
pub open spec fn deactivate_command() -> Seq<char> {
    "dcmi power deactivate"@
}

/// The number at the start of one value, or why there is none.
fn number_in(value: &str) -> (r: Result<u64, ParseError>)
    ensures
        r == number_of(value@),
{
    match first_token_str(trim_str(value), true) {
        None => Err(ParseError::MissingNumber),
        Some(token) => match parse_decimal_str(token) {
            Some(n) => Ok(n),
            None => Err(ParseError::InvalidNumber),
        },
    }
}

/// Reads one line of cap settings into `acc`.
fn read_cap_line(acc: BMC_CapSetting, line: &str) -> (r: Result<BMC_CapSetting, ParseError>)
    ensures
        r == cap_line(acc, line@),
{
    let t: &str = trim_str(line);
    let v: Vec<char> = chars_of(t);
    let k: usize = scan_char(&v, 0, ':');
    if k >= v.len() {
        return Ok(acc);
    }
    let key: &str = trim_str(t.substring_char(0, k));
    let value: &str = t.substring_char(k + 1, v.len());
    if str_equals(key, "Current Limit State") {
        let active: bool = str_equals(trim_str(value), "Power Limit Active");
        Ok(BMC_CapSetting { is_active: active, power_limit: acc.power_limit })
    } else if str_equals(key, "Power Limit") {
        match number_in(value) {
            Ok(n) => Ok(BMC_CapSetting { is_active: acc.is_active, power_limit: n }),
            Err(e) => Err(e),
        }
    } else {
        Ok(acc)
    }
}

/// Reads one line of a power reading into `acc`.
fn read_power_line(acc: BMC_PowerReading, line: &str) -> (r: Result<BMC_PowerReading, ParseError>)
    ensures
        r == power_line(acc, line@),
{
    let t: &str = trim_str(line);
    let v: Vec<char> = chars_of(t);
    let k: usize = scan_colon_space(&v, 0);
    if k >= v.len() {
        return Ok(acc);
    }
    let key: &str = t.substring_char(0, k);
    let value: &str = t.substring_char(k + 2, v.len());
    let word: &str = match first_token_str(key, true) {
        None => {
            return Err(ParseError::EmptyKey);
        },
        Some(word) => word,
    };
    let mut next: BMC_PowerReading = acc;
    if str_equals(word, "Instantaneous") {
        match number_in(value) {
            Ok(n) => {
                next.instant = n;
            },
            Err(e) => {
                return Err(e);
            },
        }
    } else if str_equals(word, "Minimum") {
        match number_in(value) {
            Ok(n) => {
                next.minimum = n;
            },
            Err(e) => {
                return Err(e);
            },
        }
    } else if str_equals(word, "Maximum") {
        match number_in(value) {
            Ok(n) => {
                next.maximum = n;
            },
            Err(e) => {
                return Err(e);
            },
        }
    } else if str_equals(word, "Average") {
        match number_in(value) {
            Ok(n) => {
                next.average = n;
            },
            Err(e) => {
                return Err(e);
            },
        }
    } else if str_equals(word, "IPMI") {
        let parsed: Option<i64> = parse_naive_datetime(trim_str(value), "%a %b %e %H:%M:%S %Y");
        return acc.with_timestamp(parsed);
    }
    Ok(next)
}

impl BMC {
    /// The connection options of the tool: host, user and password.
    pub open spec fn text(&self) -> Seq<char> {
        "-H "@ + self.hostname@ + " -U "@ + self.username@ + " -P "@ + self.password@
    }

    /// The connection options with the password struck out.
    pub open spec fn redacted_text(&self) -> Seq<char> {
        "-H "@ + self.hostname@ + " -U "@ + self.username@ + " -P ****"@
    }

    /// The arguments that the tool is run with for `bmc_command`: the
    /// whitespace-separated words of the connection options and of the
    /// command.
    pub open spec fn arguments(&self, bmc_command: Seq<char>) -> Seq<Seq<char>> {
        tokens(self.text() + " "@ + bmc_command, false)
    }

    /// The connection options of the tool: host, user and password.
    pub fn to_text(&self) -> (r: String)
        ensures
            r@ == self.text(),
    {
        let mut r: String = String::from_str("-H ");
        r.append(self.hostname.as_str());
        r.append(" -U ");
        r.append(self.username.as_str());
        r.append(" -P ");
        r.append(self.password.as_str());
        r
    }

    /// The connection options with the password struck out, for logs.
    pub fn to_redacted_text(&self) -> (r: String)
        ensures
            r@ == self.redacted_text(),
    {
        let mut r: String = String::from_str("-H ");
        r.append(self.hostname.as_str());
        r.append(" -U ");
        r.append(self.username.as_str());
        r.append(" -P ****");
        r
    }

    /// The arguments that the tool is run with for `bmc_command`.
    pub fn command_arguments(&self, bmc_command: &str) -> (r: Vec<String>)
        ensures
            views(r@) == self.arguments(bmc_command@),
    {
        let mut line: String = self.to_text();
        line.append(" ");
        line.append(bmc_command);
        split_tokens(line.as_str(), false)
    }

    /// What a run of the tool yields: its output, unless it could not be
    /// run or wrote to its error stream.
    pub fn command_output(launched: bool, stdout: String, stderr: &str) -> (r: Result<
        String,
        HardwareCommandError,
    >)
        ensures
            !launched ==> r == Err::<String, HardwareCommandError>(HardwareCommandError::NotRun),
            launched && stderr@.len() > 0 ==> r == Err::<String, HardwareCommandError>(
                HardwareCommandError::ErrorStream,
            ),
            launched && stderr@.len() == 0 ==> r == Ok::<String, HardwareCommandError>(stdout),
    {
        if !launched {
            Err(HardwareCommandError::NotRun)
        } else if stderr.unicode_len() > 0 {
            Err(HardwareCommandError::ErrorStream)
        } else {
            Ok(stdout)
        }
    }

    /// The arguments of the command that asks for the cap settings.
    pub fn cap_settings_arguments(&self) -> (r: Vec<String>)
        ensures
            views(r@) == self.arguments(cap_settings_command()),
    {
        self.command_arguments("dcmi power get_limit")
    }

    /// The arguments of the command that asks for the power reading.
    pub fn power_reading_arguments(&self) -> (r: Vec<String>)
        ensures
            views(r@) == self.arguments(read_power_command()),
    {
        self.command_arguments("dcmi power reading")
    }

    /// The cap settings in what the controller printed.
    pub fn current_cap_settings(&self, bmc_output: &str) -> (r: Result<BMC_CapSetting, ParseError>)
        ensures
            r == cap_settings_of(bmc_output@),
    {
        BMC::parse_cap_settings(bmc_output)
    }

    /// Whether capping is on, by what the controller printed.
    pub fn capping_is_active(&self, bmc_output: &str) -> (r: Result<bool, ParseError>)
        ensures
            r == (match cap_settings_of(bmc_output@) {
                Ok(setting) => Ok(setting.is_active),
                Err(e) => Err(e),
            }),
    {
        match BMC::parse_cap_settings(bmc_output) {
            Ok(setting) => Ok(setting.is_active),
            Err(e) => Err(e),
        }
    }

    /// The cap level in watts, by what the controller printed.
    pub fn current_power_limit(&self, bmc_output: &str) -> (r: Result<u64, ParseError>)
        ensures
            r == (match cap_settings_of(bmc_output@) {
                Ok(setting) => Ok(setting.power_limit),
                Err(e) => Err(e),
            }),
    {
        match BMC::parse_cap_settings(bmc_output) {
            Ok(setting) => Ok(setting.power_limit),
            Err(e) => Err(e),
        }
    }

    /// The arguments of the command that sets the cap level to `cap` watts.
    pub fn set_cap_power_level(&self, cap: u64) -> (r: Vec<String>)
        ensures
            views(r@) == self.arguments(set_cap_command(cap)),
    {
        let mut command: String = String::from_str("dcmi power set_limit limit ");
        push_decimal(&mut command, cap);
        self.command_arguments(command.as_str())
    }

    /// The arguments of the command that switches capping on.
    pub fn activate_power_cap(&self) -> (r: Vec<String>)
        ensures
            views(r@) == self.arguments(activate_command()),
    {
        self.command_arguments("dcmi power activate")
    }

    /// The arguments of the command that switches capping off.
    pub fn deactivate_power_cap(&self) -> (r: Vec<String>)
        ensures
            views(r@) == self.arguments(deactivate_command()),
    {
        self.command_arguments("dcmi power deactivate")
    }

    /// The instantaneous power in watts, by what the controller printed.
    pub fn current_power(&self, bmc_output: &str) -> (r: Result<u64, ParseError>)
        ensures
            r == (match power_reading_of(bmc_output@) {
                Ok(reading) => Ok(reading.instant),
                Err(e) => Err(e),
            }),
    {
        match BMC::parse_power_reading(bmc_output) {
            Ok(reading) => Ok(reading.instant),
            Err(e) => Err(e),
        }
    }

    /// The controller at `hostname`, reached as `username` with `password`
    /// through the tool at the path `ipmi`.
    #[must_use]
    pub fn new(hostname: &str, username: &str, password: &str, ipmi: &str) -> (r: Self)
        ensures
            r.hostname@ == hostname@,
            r.username@ == username@,
            r.password@ == password@,
            r.ipmi@ == ipmi@,
    {
        Self {
            hostname: String::from_str(hostname),
            username: String::from_str(username),
            password: String::from_str(password),
            ipmi: String::from_str(ipmi),
        }
    }

    /// The number at the start of `power_reading`: its first
    /// ASCII-whitespace token, read as an unsigned decimal.
    pub fn parse_number(power_reading: &str) -> (r: Result<u64, ParseError>)
        ensures
            r == number_of(power_reading@),
    {
        number_in(power_reading)
    }

    /// What a parsed timestamp means: its seconds, or the error for text
    /// that is no timestamp.
    pub fn timestamp_from(parsed: Option<i64>) -> (r: Result<i64, ParseError>)
        ensures
            r == timestamp_of(parsed),
    {
        match parsed {
            Some(seconds) => Ok(seconds),
            None => Err(ParseError::InvalidTimestamp),
        }
    }

    /// The controller's timestamp in `date_string`, such as
    /// `Tue May  9 14:24:36 2023`, in seconds since the Unix epoch and read
    /// without a time zone.
    pub fn date_from_string(date_string: &str) -> (r: Result<i64, ParseError>)
        ensures
            r == timestamp_of(naive_datetime_seconds(trim(date_string@), timestamp_format())),
    {
        BMC::timestamp_from(parse_naive_datetime(trim_str(date_string), "%a %b %e %H:%M:%S %Y"))
    }

    /// Parses what the controller prints for its power reading.
    pub fn parse_power_reading(output: &str) -> (r: Result<BMC_PowerReading, ParseError>)
        ensures
            r == power_reading_of(output@),
    {
        let v: Vec<char> = chars_of(output);
        let mut acc: BMC_PowerReading = BMC_PowerReading::new();
        let mut i: usize = 0;
        while i < v.len()
            invariant
                v@ == output@,
                i <= v.len(),
                power_lines(lines_from(v@, i as int), acc) == power_reading_of(v@),
            decreases v.len() - i,
        {
            let e: usize = scan_char(&v, i, '\n');
            let line: &str = output.substring_char(i, e);
            let ghost rest = lines_from(v@, i as int);
            let next: usize = if e < v.len() {
                e + 1
            } else {
                e
            };
            assert(rest[0] == line@);
            assert(rest.drop_first() =~= lines_from(v@, next as int));
            match read_power_line(acc, line) {
                Ok(reading) => {
                    acc = reading;
                },
                Err(e) => {
                    return Err(e);
                },
            }
            i = next;
        }
        Ok(acc)
    }

    /// Parses what the controller prints for its cap settings.
    pub fn parse_cap_settings(output: &str) -> (r: Result<BMC_CapSetting, ParseError>)
        ensures
            r == cap_settings_of(output@),
    {
        let v: Vec<char> = chars_of(output);
        let mut acc: BMC_CapSetting = BMC_CapSetting { is_active: false, power_limit: 0 };
        let mut i: usize = 0;
        while i < v.len()
            invariant
                v@ == output@,
                i <= v.len(),
                cap_lines(lines_from(v@, i as int), acc) == cap_settings_of(v@),
            decreases v.len() - i,
        {
            let e: usize = scan_char(&v, i, '\n');
            let line: &str = output.substring_char(i, e);
            let ghost rest = lines_from(v@, i as int);
            let next: usize = if e < v.len() {
                e + 1
            } else {
                e
            };
            assert(rest[0] == line@);
            assert(rest.drop_first() =~= lines_from(v@, next as int));
            match read_cap_line(acc, line) {
                Ok(setting) => {
                    acc = setting;
                },
                Err(e) => {
                    return Err(e);
                },
            }
            i = next;
        }
        Ok(acc)
    }
}

/// One sample of the controller: the power drawn and the cap in force at
/// a moment given in milliseconds since the Unix epoch.
#[derive(Debug, Clone, Copy, PartialEq, Eq)]
pub struct BMCStats {
    pub timestamp: i64,
    pub power: u64,
    pub cap_level: u64,
    pub cap_is_active: bool,
}

impl BMCStats {
    /// The sample of `power` and `cap_settings` taken at `timestamp`.
    pub open spec fn taken_at(timestamp: i64, power: u64, cap_settings: BMC_CapSetting) -> BMCStats {
        BMCStats {
            timestamp,
            power,
            cap_level: cap_settings.power_limit,
            cap_is_active: cap_settings.is_active,
        }
    }

    /// The sample of `power` and `cap_settings` taken at `timestamp`.
    pub fn at(timestamp: i64, power: u64, cap_settings: &BMC_CapSetting) -> (r: Self)
        ensures
            r == BMCStats::taken_at(timestamp, power, *cap_settings),
    {
        Self {
            timestamp,
            power,
            cap_level: cap_settings.power_limit,
            cap_is_active: cap_settings.is_active,
        }
    }

    /// The sample of `power` and `cap_settings` taken now, whatever the
    /// clock says that is.
    pub fn new(power: u64, cap_settings: &BMC_CapSetting) -> (r: Self)
        ensures
            r == BMCStats::taken_at(r.timestamp, power, *cap_settings),
    {
        BMCStats::at(now_millis(), power, cap_settings)
    }
}

} // verus!
