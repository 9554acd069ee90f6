//! The values exchanged with the load-generation side.

use crate::text::{decimal, push_decimal};
use vstd::prelude::*;
use vstd::string::*;

verus! {

/// What the inventory says of the machine under test.
#[derive(Debug, Clone)]
pub struct SystemInfo {
    pub hostname: String,
    pub model: String,
    pub os: String,
    pub manufacturer: String,
    pub cpu_version: String,
    pub online_cpus: u64,
    pub min_mhz: u64,
    pub max_mhz: u64,
    pub threads_per_core: u64,
    pub cores_per_socket: u64,
    pub n_sockets: u64,
}

/// What the inventory says of the firmware.
#[derive(Debug, Clone)]
pub struct BiosInfo {
    pub vendor: String,
    pub version: String,
    pub revision: String,
    pub release_date: String,
}

/// The static inventory of the machine under test.
#[derive(Debug, Clone)]
pub struct ServerInfo {
    pub system_info: SystemInfo,
    pub bios_info: BiosInfo,
}

/// The power drawn in one domain, in watts.
#[derive(Debug, Clone)]
pub struct RaplData {
    pub domain: String,
    pub power_watts: u64,
}

/// The power of every domain at one moment, given in milliseconds since the
/// Unix epoch.
#[derive(Debug)]
pub struct RaplRecord {
    pub timestamp: i64,
    pub data: Vec<RaplData>,
}

/// What the load generator is asked to do: for how many seconds, at which
/// load in percent, with which load period in microseconds, and on how many
/// threads, zero standing for all.
#[derive(Debug, Clone, Copy, PartialEq, Eq)]
pub struct FirestarterParams {
    pub runtime_secs: u64,
    pub load_pct: u64,
    pub load_period_us: u64,
    pub n_threads: u64,
}

/// The answer to a request for the inventory.
#[derive(Debug)]
pub struct ServerInfoResponse {
    pub server_info: ServerInfo,
}

/// The answer to a request to run a load test.
#[derive(Debug)]
pub struct RaplResponse {
    pub records: Vec<RaplRecord>,
}

impl FirestarterParams {
    /// Whether the load generator accepts the parameters: a load between 1
    /// and 100 percent, and a period that is zero or at least the load.
    pub open spec fn valid(&self) -> bool {
        &&& 0 < self.load_pct <= 100
        &&& (self.load_period_us == 0 || self.load_pct <= self.load_period_us)
    }

    /// Tells whether the load generator accepts the parameters.
    pub fn is_valid(&self) -> (b: bool)
        ensures
            b == self.valid(),
    {
        self.load_pct > 0 && self.load_pct <= 100 && (self.load_period_us == 0 || self.load_pct
            <= self.load_period_us)
    }
}

impl SystemInfo {
    /// The inventory as lines of text, one for each entry.
    pub open spec fn text(&self) -> Seq<char> {
        "          hostname: "@ + self.hostname@ + "\nmodel: "@ + self.model@ + "\nos: "@ + self.os@
            + "\nmanufacturer: "@ + self.manufacturer@ + "\ncpu: "@ + self.cpu_version@
            + "\ncpu count: "@ + decimal(self.online_cpus as nat) + "\nmin freq (MHz): "@ + decimal(
            self.min_mhz as nat,
        ) + "\nmax freq (MHz): "@ + decimal(self.max_mhz as nat) + "\nthreads per core: "@
            + decimal(self.threads_per_core as nat) + "\ncores per socket: "@ + decimal(
            self.cores_per_socket as nat,
        ) + "\nsocket count: "@ + decimal(self.n_sockets as nat) + "\n"@
    }

    /// The inventory as lines of text, one for each entry.
    pub fn to_text(&self) -> (r: String)
        ensures
            r@ == self.text(),
    {
        let mut r: String = String::from_str("          hostname: ");
        r.append(self.hostname.as_str());
        r.append("\nmodel: ");
        r.append(self.model.as_str());
        r.append("\nos: ");
        r.append(self.os.as_str());
        r.append("\nmanufacturer: ");
        r.append(self.manufacturer.as_str());
        r.append("\ncpu: ");
        r.append(self.cpu_version.as_str());
        r.append("\ncpu count: ");
        push_decimal(&mut r, self.online_cpus);
        r.append("\nmin freq (MHz): ");
        push_decimal(&mut r, self.min_mhz);
        r.append("\nmax freq (MHz): ");
        push_decimal(&mut r, self.max_mhz);
        r.append("\nthreads per core: ");
        push_decimal(&mut r, self.threads_per_core);
        r.append("\ncores per socket: ");
        push_decimal(&mut r, self.cores_per_socket);
        r.append("\nsocket count: ");
        push_decimal(&mut r, self.n_sockets);
        r.append("\n");
        r
    }
}

impl BiosInfo {
    /// The firmware's entries as lines of text.
    pub open spec fn text(&self) -> Seq<char> {
        "            vendor: "@ + self.vendor@ + "\nversion: "@ + self.version@ + "\nrevision: "@
            + self.revision@ + "\nrelease date: "@ + self.release_date@ + "\n"@
    }

    /// The firmware's entries as lines of text.
    pub fn to_text(&self) -> (r: String)
        ensures
            r@ == self.text(),
    {
        let mut r: String = String::from_str("            vendor: ");
        r.append(self.vendor.as_str());
        r.append("\nversion: ");
        r.append(self.version.as_str());
        r.append("\nrevision: ");
        r.append(self.revision.as_str());
        r.append("\nrelease date: ");
        r.append(self.release_date.as_str());
        r.append("\n");
        r
    }
}

} // verus!
