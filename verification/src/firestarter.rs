//! The load generator: the command line that launches it.

use crate::model::FirestarterParams;
use crate::text::{decimal, decimal_string, push_decimal, views};
use vstd::prelude::*;
use vstd::string::*;

verus! {

/// What the load generator is run with.
#[derive(Debug)]
pub struct Firestarter {
    path: String,
    runtime_secs: u64,
    load_pct: u64,
    load_period_us: u64,
    n_threads: u64,
}

/// Where the load generator is installed.
pub open spec fn firestarter_path() -> Seq<char> {
    "/home_nfs/wainj/local/bin/firestarter"@
}

impl Firestarter {
    /// The path of the program.
    pub closed spec fn path(&self) -> Seq<char> {
        self.path@
    }

    /// What the program is asked to do.
    pub closed spec fn params(&self) -> FirestarterParams {
        FirestarterParams {
            runtime_secs: self.runtime_secs,
            load_pct: self.load_pct,
            load_period_us: self.load_period_us,
            n_threads: self.n_threads,
        }
    }

    /// The arguments of the program: quiet, then time limit, load, load
    /// period and thread count, each behind its option.
    pub open spec fn arguments_text(&self) -> Seq<Seq<char>> {
        seq![
            "--quiet"@,
            "--timeout"@,
            decimal(self.params().runtime_secs as nat),
            "--load"@,
            decimal(self.params().load_pct as nat),
            "--period"@,
            decimal(self.params().load_period_us as nat),
            "--threads"@,
            decimal(self.params().n_threads as nat),
        ]
    }

    /// The command as one line of text.
    pub open spec fn text(&self) -> Seq<char> {
        self.path() + " --timeout "@ + decimal(self.params().runtime_secs as nat) + " --load "@
            + decimal(self.params().load_pct as nat) + " --period "@ + decimal(
            self.params().load_period_us as nat,
        ) + " --threads "@ + decimal(self.params().n_threads as nat)
    }

    /// The load generator set up for `params`, which must be valid: a load
    /// between 1 and 100 percent, and a period of zero or at least the
    /// load.
    #[must_use]
    pub fn new(params: FirestarterParams) -> (r: Self)
        requires
            params.valid(),
        ensures
            r.params() == params,
            r.path() == firestarter_path(),
    {
        Self {
            path: String::from_str("/home_nfs/wainj/local/bin/firestarter"),
            runtime_secs: params.runtime_secs,
            load_pct: params.load_pct,
            load_period_us: params.load_period_us,
            n_threads: params.n_threads,
        }
    }

    /// The path of the program.
    pub fn program(&self) -> (r: &str)
        ensures
            r@ == self.path(),
    {
        self.path.as_str()
    }

    /// The arguments that the program is launched with.
    pub fn arguments(&self) -> (r: Vec<String>)
        ensures
            views(r@) == self.arguments_text(),
    {
        let mut r: Vec<String> = Vec::new();
        r.push(String::from_str("--quiet"));
        r.push(String::from_str("--timeout"));
        r.push(decimal_string(self.runtime_secs));
        r.push(String::from_str("--load"));
        r.push(decimal_string(self.load_pct));
        r.push(String::from_str("--period"));
        r.push(decimal_string(self.load_period_us));
        r.push(String::from_str("--threads"));
        r.push(decimal_string(self.n_threads));
        assert(views(r@) =~= self.arguments_text());
        r
    }

    /// The command as one line of text.
    pub fn to_text(&self) -> (r: String)
        ensures
            r@ == self.text(),
    {
        let mut r: String = self.path.clone();
        r.append(" --timeout ");
        push_decimal(&mut r, self.runtime_secs);
        r.append(" --load ");
        push_decimal(&mut r, self.load_pct);
        r.append(" --period ");
        push_decimal(&mut r, self.load_period_us);
        r.append(" --threads ");
        push_decimal(&mut r, self.n_threads);
        r
    }
}

} // verus!
