//! The energy counters of the processor sockets: where they are found, how
//! their files are read, and how a snapshot of them is labelled.

use crate::clock::now_millis;
use crate::text::{
    chars_of, decimal, find_char, parse_decimal_str, parse_u64, push_decimal, scan_char, trim,
    trim_str, views, ParseError,
};
use chrono::{DateTime, SecondsFormat};
use vstd::prelude::*;
use vstd::string::*;

verus! {

/// One reading of one counter. `domain` names the counter, such as `core0`
/// or `pkg1`; `reading` is its energy in microjoules.
#[allow(non_camel_case_types)]
#[derive(Debug, Clone)]
pub struct RAPL_Reading {
    pub domain: String,
    pub reading: u64,
}

/// The readings of every counter at one moment, given in milliseconds
/// since the Unix epoch.
#[allow(non_camel_case_types)]
#[derive(Debug)]
pub struct RAPL_Readings {
    pub timestamp: i64,
    pub readings: Vec<RAPL_Reading>,
}

/// One power domain: its id and the files of its two counters.
#[derive(Debug)]
pub struct RaplDomain {
    pub id: u64,
    pub pkg_path: String,
    pub core_path: String,
}

/// The power domains of the machine, in the order of their discovery, no
/// id twice.
#[derive(Debug)]
pub struct RAPL {
    domains: Vec<RaplDomain>,
}

/// The moment `millis` milliseconds after the Unix epoch, written as date
/// and time of day with three decimals of the second and the offset
/// `+00:00`; none where the moment lies outside the years that chrono
/// counts. This is what `chrono::DateTime::to_rfc3339_opts` prints with
/// milliseconds.
pub uninterp spec fn rfc3339_millis(millis: i64) -> Option<Seq<char>>;

/// Makes the moment `millis` milliseconds after the Unix epoch with
/// `chrono::DateTime::from_timestamp_millis` and prints it with
/// `chrono::DateTime::to_rfc3339_opts`, with milliseconds and a numeric
/// offset. The contract only names that outcome.
#[verifier::external_body]
fn format_rfc3339_millis(millis: i64) -> (r: Option<String>)
    ensures
        r.is_some() == rfc3339_millis(millis).is_some(),
        r.is_some() ==> r.unwrap()@ == rfc3339_millis(millis).unwrap(),
{
    match DateTime::from_timestamp_millis(millis) {
        Some(moment) => Some(moment.to_rfc3339_opts(SecondsFormat::Millis, false)),
        None => None,
    }
}

/// The texts of the first `n` of `readings`, a comma between each two.
pub open spec fn readings_text(readings: Seq<RAPL_Reading>, n: int) -> Seq<char>
    decreases n,
{
    if n <= 0 || n > readings.len() {
        Seq::empty()
    } else if n == 1 {
        readings[0].text()
    } else {
        readings_text(readings, n - 1) + ","@ + readings[n - 1].text()
    }
}

/// Where the last component of the path `s[0..j]` starts: behind its last
/// slash, or at the front.
pub open spec fn name_start(s: Seq<char>, j: int) -> int
    decreases j,
{
    if 0 < j <= s.len() && s[j - 1] != '/' {
        name_start(s, j - 1)
    } else {
        j
    }
}

/// Where the path `s[0..j]` ends once the slashes at its end are dropped.
pub open spec fn path_end(s: Seq<char>, j: int) -> int
    decreases j,
{
    if 0 < j <= s.len() && s[j - 1] == '/' {
        path_end(s, j - 1)
    } else {
        j
    }
}

/// The last component of a path: with the slashes at its end left aside,
/// what follows its last slash. Components are taken as they are written:
/// a final `.` or `..` is a name like any other.
pub open spec fn directory_name(path: Seq<char>) -> Seq<char> {
    let b = path_end(path, path.len() as int);
    let a = name_start(path, b);
    if 0 <= a <= b <= path.len() {
        path.subrange(a, b)
    } else {
        path
    }
}

/// The text of the domain id in a directory name: what stands between its
/// first colon and its next colon or its end.
pub open spec fn domain_text(name: Seq<char>) -> Option<Seq<char>> {
    let a = find_char(name, 0, ':');
    let b = find_char(name, a + 1, ':');
    if 0 <= a < name.len() && a < b <= name.len() {
        Some(name.subrange(a + 1, b))
    } else {
        None
    }
}

/// The domain id that the path of a counter directory names.
pub open spec fn domain_of(path: Seq<char>) -> Result<u64, ParseError> {
    match domain_text(directory_name(path)) {
        None => Err(ParseError::MissingDomain),
        Some(text) => match parse_u64(text) {
            Some(id) => Ok(id),
            None => Err(ParseError::InvalidNumber),
        },
    }
}

/// The number in a counter file: its trimmed content, read as an unsigned
/// decimal.
pub open spec fn energy_of(content: Seq<char>) -> Result<u64, ParseError> {
    match parse_u64(trim(content)) {
        Some(n) => Ok(n),
        None => Err(ParseError::InvalidNumber),
    }
}

/// The path of `part` below the directory `base`.
pub open spec fn joined(base: Seq<char>, part: Seq<char>) -> Seq<char> {
    if base.len() == 0 || base.last() == '/' {
        base + part
    } else {
        base + seq!['/'] + part
    }
}

/// The file of the package counter below a counter directory.
pub open spec fn pkg_path_of(directory: Seq<char>) -> Seq<char> {
    joined(directory, "energy_uj"@)
}

/// The file of the core counter below a counter directory: it lies in the
/// subdirectory named like the directory with `:0` behind.
pub open spec fn core_path_of(directory: Seq<char>) -> Seq<char> {
    joined(joined(directory, directory_name(directory) + ":0"@), "energy_uj"@)
}

/// The label of the core counter of the domain `id`.
pub open spec fn core_label(id: u64) -> Seq<char> {
    "core"@ + decimal(id as nat)
}

/// The label of the package counter of the domain `id`.
pub open spec fn pkg_label(id: u64) -> Seq<char> {
    "pkg"@ + decimal(id as nat)
}

/// What a power domain is to the contracts: its id and the paths of its two
/// counter files as plain text.
pub struct DomainModel {
    pub id: u64,
    pub pkg_path: Seq<char>,
    pub core_path: Seq<char>,
}

impl View for RaplDomain {
    type V = DomainModel;

    open spec fn view(&self) -> DomainModel {
        DomainModel { id: self.id, pkg_path: self.pkg_path@, core_path: self.core_path@ }
    }
}

/// The models of `domains`, in order.
pub open spec fn models(domains: Seq<RaplDomain>) -> Seq<DomainModel> {
    Seq::new(domains.len(), |i: int| domains[i]@)
}

/// The first index at or after `i` of `domains` that holds the id `id`, or
/// the length.
pub open spec fn position_of(domains: Seq<DomainModel>, id: u64, i: int) -> int
    decreases domains.len() - i,
{
    if 0 <= i < domains.len() && domains[i].id != id {
        position_of(domains, id, i + 1)
    } else {
        i
    }
}

/// Whether no id occurs twice in `domains`.
pub open spec fn distinct_ids(domains: Seq<DomainModel>) -> bool {
    forall|i: int, j: int|
        0 <= i < j < domains.len() ==> (#[trigger] domains[i]).id != (#[trigger] domains[j]).id
}

/// The domain found in the counter directory `path`, which names one.
pub open spec fn domain_in(path: Seq<char>) -> DomainModel
    recommends
        domain_of(path).is_ok(),
{
    DomainModel {
        id: domain_of(path).unwrap(),
        pkg_path: pkg_path_of(path),
        core_path: core_path_of(path),
    }
}

/// `domains` with `domain` in the place of the entry of its id, or behind
/// the others where its id is new.
pub open spec fn placed(domains: Seq<DomainModel>, domain: DomainModel) -> Seq<DomainModel> {
    let k = position_of(domains, domain.id, 0);
    if 0 <= k < domains.len() {
        domains.update(k, domain)
    } else {
        domains.push(domain)
    }
}

/// The domains that the first `n` of `directories` hold, each of which
/// names a domain: a later directory replaces an earlier one of the same
/// id in its place, and a new id is put behind the others.
pub open spec fn discovered(directories: Seq<Seq<char>>, n: int) -> Seq<DomainModel>
    decreases n,
{
    if n <= 0 || n > directories.len() {
        Seq::empty()
    } else {
        placed(discovered(directories, n - 1), domain_in(directories[n - 1]))
    }
}

/// The first of `directories` that names no domain, with its error.
pub open spec fn first_bad_directory(directories: Seq<String>, i: int) -> Option<ParseError>
    decreases directories.len() - i,
{
    if 0 <= i < directories.len() {
        match domain_of(directories[i]@) {
            Err(e) => Some(e),
            Ok(_) => first_bad_directory(directories, i + 1),
        }
    } else {
        None
    }
}

/// Whether `readings` labels the counters `values` of `domains`: the core
/// counters of all domains first, then their package counters.
pub open spec fn labelled(readings: Seq<RAPL_Reading>, domains: Seq<DomainModel>, values: Seq<u64>)
    -> bool {
    &&& values.len() == 2 * domains.len()
    &&& readings.len() == values.len()
    &&& forall|i: int|
        0 <= i < domains.len() ==> (#[trigger] readings[i]).domain@ == core_label(domains[i].id)
    &&& forall|i: int|
        0 <= i < domains.len() ==> (#[trigger] readings[domains.len() + i]).domain@ == pkg_label(
            domains[i].id,
        )
    &&& forall|i: int| 0 <= i < readings.len() ==> (#[trigger] readings[i]).reading == values[i]
}

/// The first of `contents` that holds no number, with its error.
pub open spec fn first_bad_counter(contents: Seq<String>, i: int) -> Option<ParseError>
    decreases contents.len() - i,
{
    if 0 <= i < contents.len() {
        match energy_of(contents[i]@) {
            Err(e) => Some(e),
            Ok(_) => first_bad_counter(contents, i + 1),
        }
    } else {
        None
    }
}

/// Where the last component of a path starts.
fn scan_name_start(v: &Vec<char>, end: usize) -> (r: usize)
    requires
        end <= v.len(),
    ensures
        r == name_start(v@, end as int),
        r <= end,
{
    let mut j: usize = end;
    while j > 0 && v[j - 1] != '/'
        invariant
            j <= end <= v.len(),
            name_start(v@, j as int) == name_start(v@, end as int),
        decreases j,
    {
        j -= 1;
    }
    j
}

/// Where a path ends once the slashes at its end are dropped.
fn scan_path_end(v: &Vec<char>) -> (r: usize)
    ensures
        r == path_end(v@, v@.len() as int),
        r <= v.len(),
{
    let mut j: usize = v.len();
    while j > 0 && v[j - 1] == '/'
        invariant
            j <= v.len(),
            path_end(v@, j as int) == path_end(v@, v@.len() as int),
        decreases j,
    {
        j -= 1;
    }
    j
}

/// The last component of a path.
fn directory_name_of<'a>(path: &'a str) -> (r: &'a str)
    ensures
        r@ == directory_name(path@),
{
    let v: Vec<char> = chars_of(path);
    let b: usize = scan_path_end(&v);
    let a: usize = scan_name_start(&v, b);
    path.substring_char(a, b)
}

/// `base` with `part` below it.
fn join(base: String, part: &str) -> (r: String)
    ensures
        r@ == joined(base@, part@),
{
    let v: Vec<char> = chars_of(base.as_str());
    let mut r: String = base;
    if v.len() > 0 && v[v.len() - 1] != '/' {
        proof {
            reveal_strlit("/");
        }
        r.append("/");
        assert(r@ =~= v@ + seq!['/']);
    }
    r.append(part);
    r
}

impl RAPL_Reading {
    /// The reading `reading` of the counter named `domain`.
    #[must_use]
    pub fn new(domain: &str, reading: u64) -> (r: Self)
        ensures
            r.domain@ == domain@,
            r.reading == reading,
    {
        Self { domain: String::from_str(domain), reading }
    }

    /// The reading as text: its name, a comma, its value.
    pub open spec fn text(&self) -> Seq<char> {
        self.domain@ + ","@ + decimal(self.reading as nat)
    }

    /// The reading as text: its name, a comma, its value.
    pub fn to_text(&self) -> (r: String)
        ensures
            r@ == self.text(),
    {
        let mut r: String = self.domain.clone();
        r.append(",");
        push_decimal(&mut r, self.reading);
        r
    }
}

impl RAPL_Readings {
    /// The snapshot `readings`, taken at `timestamp`.
    pub fn at(timestamp: i64, readings: Vec<RAPL_Reading>) -> (r: Self)
        ensures
            r.timestamp == timestamp,
            r.readings == readings,
    {
        Self { timestamp, readings }
    }

    /// The snapshot as one line of text behind the given stamp: the
    /// stamp, a comma, and the readings with a comma between each two.
    pub open spec fn text(&self, stamp: Seq<char>) -> Seq<char> {
        stamp + ","@ + readings_text(self.readings@, self.readings@.len() as int)
    }

    /// The snapshot as one line of text behind the given stamp.
    pub fn to_text_with(&self, stamp: &str) -> (r: String)
        ensures
            r@ == self.text(stamp@),
    {
        let mut r: String = String::from_str(stamp);
        r.append(",");
        let ghost head = r@;
        let mut i: usize = 0;
        assert(head + readings_text(self.readings@, 0) =~= head);
        while i < self.readings.len()
            invariant
                i <= self.readings@.len(),
                head == stamp@ + ","@,
                r@ == head + readings_text(self.readings@, i as int),
            decreases self.readings@.len() - i,
        {
            if i > 0 {
                r.append(",");
            }
            let piece: String = self.readings[i].to_text();
            r.append(piece.as_str());
            i += 1;
            assert(r@ =~= head + readings_text(self.readings@, i as int));
        }
        r
    }

    /// The snapshot as one line of text: its moment as date and time with
    /// milliseconds, then the readings. None for a moment that has no such
    /// text.
    pub fn to_text(&self) -> (r: Option<String>)
        ensures
            r.is_some() == rfc3339_millis(self.timestamp).is_some(),
            r.is_some() ==> r.unwrap()@ == self.text(rfc3339_millis(self.timestamp).unwrap()),
    {
        match format_rfc3339_millis(self.timestamp) {
            Some(stamp) => Some(self.to_text_with(stamp.as_str())),
            None => None,
        }
    }

    /// The snapshot `readings`, taken now, whatever the clock says that is.
    #[must_use]
    pub fn new(readings: Vec<RAPL_Reading>) -> (r: Self)
        ensures
            r.readings == readings,
    {
        RAPL_Readings::at(now_millis(), readings)
    }
}

impl View for RAPL {
    type V = Seq<DomainModel>;

    closed spec fn view(&self) -> Seq<DomainModel> {
        models(self.domains@)
    }
}

impl RAPL {
    /// Whether no id occurs twice among the domains.
    pub open spec fn wf(&self) -> bool {
        distinct_ids(self@)
    }

    /// The domain id that the path of a counter directory names: the
    /// number behind the first colon of its last component. Slashes at the
    /// end of the path are left aside.
    pub fn domain_from_path(path: &str) -> (r: Result<u64, ParseError>)
        ensures
            r == domain_of(path@),
    {
        let name: &str = directory_name_of(path);
        let v: Vec<char> = chars_of(name);
        let a: usize = scan_char(&v, 0, ':');
        if a >= v.len() {
            return Err(ParseError::MissingDomain);
        }
        let b: usize = scan_char(&v, a + 1, ':');
        match parse_decimal_str(name.substring_char(a + 1, b)) {
            Some(id) => Ok(id),
            None => Err(ParseError::InvalidNumber),
        }
    }

    /// The number in a counter file, in microjoules.
    pub fn read_energy(content: &str) -> (r: Result<u64, ParseError>)
        ensures
            r == energy_of(content@),
    {
        match parse_decimal_str(trim_str(content)) {
            Some(n) => Ok(n),
            None => Err(ParseError::InvalidNumber),
        }
    }

    /// The ceiling at which the counters wrap around, from the content of
    /// the file that holds it.
    pub fn max_energy(content: &str) -> (r: Result<u64, ParseError>)
        ensures
            r == energy_of(content@),
    {
        RAPL::read_energy(content)
    }

    /// The domains found in the counter directories `directories`. The
    /// first directory that names no domain is an error.
    pub fn new(directories: &Vec<String>) -> (r: Result<Self, ParseError>)
        ensures
            match first_bad_directory(directories@, 0) {
                Some(e) => r == Err::<RAPL, ParseError>(e),
                None => r.is_ok() && r.unwrap().wf() && r.unwrap()@ == discovered(
                    views(directories@),
                    directories@.len() as int,
                ),
            },
    {
        let mut domains: Vec<RaplDomain> = Vec::new();
        let mut n: usize = 0;
        while n < directories.len()
            invariant
                n <= directories.len(),
                first_bad_directory(directories@, n as int) == first_bad_directory(directories@, 0),
                distinct_ids(models(domains@)),
                models(domains@) == discovered(views(directories@), n as int),
            decreases directories.len() - n,
        {
            let directory: &str = directories[n].as_str();
            let id: u64 = match RAPL::domain_from_path(directory) {
                Ok(id) => id,
                Err(e) => {
                    return Err(e);
                },
            };
            let pkg_path: String = join(String::from_str(directory), "energy_uj");
            let mut core_dir: String = String::from_str(directory_name_of(directory));
            core_dir.append(":0");
            let core_path: String = join(
                join(String::from_str(directory), core_dir.as_str()),
                "energy_uj",
            );
            let domain = RaplDomain { id, pkg_path, core_path };
            assert(domain@ == domain_in(views(directories@)[n as int]));
            let ghost before = domains@;
            let mut k: usize = 0;
            while k < domains.len() && domains[k].id != id
                invariant
                    k <= domains.len(),
                    domains@ == before,
                    position_of(models(domains@), id, k as int) == position_of(
                        models(domains@),
                        id,
                        0,
                    ),
                    forall|j: int| 0 <= j < k ==> (#[trigger] domains@[j]).id != id,
                decreases domains.len() - k,
            {
                k += 1;
            }
            if k < domains.len() {
                domains.set(k, domain);
            } else {
                domains.push(domain);
            }
            assert(models(domains@) =~= placed(models(before), domain@));
            n += 1;
        }
        Ok(Self { domains })
    }

    /// How many domains there are.
    pub fn domain_count(&self) -> (n: usize)
        ensures
            n == self@.len(),
    {
        self.domains.len()
    }

    /// The counter files in the order in which a snapshot lists them: the
    /// core counters of all domains, then their package counters.
    pub fn counter_paths(&self) -> (r: Vec<String>)
        ensures
            r@.len() == 2 * self@.len(),
            forall|i: int|
                0 <= i < self@.len() ==> (#[trigger] r@[i])@
                    == self@[i].core_path,
            forall|i: int|
                0 <= i < self@.len() ==> (#[trigger] r@[self@.len() + i])@
                    == self@[i].pkg_path,
    {
        let count: usize = self.domains.len();
        let mut r: Vec<String> = Vec::new();
        let mut i: usize = 0;
        while i < count
            invariant
                count == self.domains@.len(),
                i <= count,
                r@.len() == i,
                forall|j: int| 0 <= j < i ==> (#[trigger] r@[j])@ == self@[j].core_path,
            decreases count - i,
        {
            r.push(self.domains[i].core_path.clone());
            i += 1;
        }
        let mut i: usize = 0;
        while i < count
            invariant
                count == self.domains@.len(),
                i <= count,
                r@.len() == count + i,
                forall|j: int|
                    0 <= j < count ==> (#[trigger] r@[j])@ == self@[j].core_path,
                forall|j: int|
                    0 <= j < i ==> (#[trigger] r@[count + j])@ == self@[j].pkg_path,
            decreases count - i,
        {
            r.push(self.domains[i].pkg_path.clone());
            i += 1;
        }
        r
    }

    /// The snapshot that the contents of the counter files spell, taken at
    /// `timestamp`. `contents` holds one text for each of `counter_paths`,
    /// in its order.
    pub fn energy_at(&self, contents: &Vec<String>, timestamp: i64) -> (r: Result<
        RAPL_Readings,
        ParseError,
    >)
        ensures
            contents@.len() != 2 * self@.len() ==> r == Err::<RAPL_Readings, ParseError>(
                ParseError::WrongCounterCount,
            ),
            contents@.len() == 2 * self@.len() ==> match first_bad_counter(contents@, 0) {
                Some(e) => r == Err::<RAPL_Readings, ParseError>(e),
                None => r.is_ok() && r.unwrap().timestamp == timestamp && labelled(
                    r.unwrap().readings@,
                    self@,
                    Seq::new(contents@.len(), |i: int| energy_of(contents@[i]@).unwrap()),
                ),
            },
    {
        let count: usize = self.domains.len();
        if contents.len() < count || contents.len() - count != count {
            return Err(ParseError::WrongCounterCount);
        }
        let ghost values = Seq::new(contents@.len(), |i: int| energy_of(contents@[i]@).unwrap());
        let mut readings: Vec<RAPL_Reading> = Vec::new();
        let mut i: usize = 0;
        while i < contents.len()
            invariant
                count == self.domains@.len(),
                contents@.len() == 2 * count,
                i <= contents@.len(),
                readings@.len() == i,
                first_bad_counter(contents@, i as int) == first_bad_counter(contents@, 0),
                values == Seq::new(contents@.len(), |i: int| energy_of(contents@[i]@).unwrap()),
                forall|j: int|
                    0 <= j < i && j < count ==> (#[trigger] readings@[j]).domain@ == core_label(
                        self@[j].id,
                    ),
                forall|j: int|
                    0 <= j && count + j < i ==> (#[trigger] readings@[count + j]).domain@
                        == pkg_label(self@[j].id),
                forall|j: int| 0 <= j < i ==> (#[trigger] readings@[j]).reading == values[j],
            decreases contents@.len() - i,
        {
            let energy: u64 = match RAPL::read_energy(contents[i].as_str()) {
                Ok(n) => n,
                Err(e) => {
                    return Err(e);
                },
            };
            let mut label: String = String::new();
            if i < count {
                label.append("core");
                push_decimal(&mut label, self.domains[i].id);
                assert(label@ =~= core_label(self@[i as int].id));
            } else {
                label.append("pkg");
                push_decimal(&mut label, self.domains[i - count].id);
                assert(label@ =~= pkg_label(self@[i - count].id));
            }
            let ghost before = readings@;
            readings.push(RAPL_Reading { domain: label, reading: energy });
            assert forall|j: int| 0 <= j && count + j < i + 1 implies (#[trigger] readings@[count
                + j]).domain@ == pkg_label(self@[j].id) by {
                if count + j < i {
                    assert(readings@[count + j] == before[count + j]);
                }
            }
            i += 1;
        }
        Ok(RAPL_Readings::at(timestamp, readings))
    }

    /// The snapshot that the contents of the counter files spell, taken
    /// now, whatever the clock says that is.
    pub fn read_current_energy(&self, contents: &Vec<String>) -> (r: Result<
        RAPL_Readings,
        ParseError,
    >)
        ensures
            contents@.len() != 2 * self@.len() ==> r == Err::<RAPL_Readings, ParseError>(
                ParseError::WrongCounterCount,
            ),
            contents@.len() == 2 * self@.len() ==> match first_bad_counter(contents@, 0) {
                Some(e) => r == Err::<RAPL_Readings, ParseError>(e),
                None => r.is_ok() && labelled(
                    r.unwrap().readings@,
                    self@,
                    Seq::new(contents@.len(), |i: int| energy_of(contents@[i]@).unwrap()),
                ),
            },
    {
        self.energy_at(contents, now_millis())
    }
}

} // verus!
