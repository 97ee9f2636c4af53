//! How the choices made on the command line map onto verbosity, filters and settings.
use crate::filter::Filter;
use crate::types::{Branch, Host};
use crate::verbosity::Verbosity;
use vstd::prelude::*;

verus! {

/// The verbosity that the user asked for: none at all when quiet, otherwise more with each
/// repetition of `--verbose`, up to the maximum at two.
pub fn verbosity_of(quiet: bool, verbose_count: u8) -> (r: Option<Verbosity>)
    ensures
        quiet ==> r is None,
        !quiet && verbose_count == 0 ==> r == Some(Verbosity::spec_standard()),
        !quiet && verbose_count == 1 ==> r == Some(Verbosity::spec_verbose()),
        !quiet && verbose_count >= 2 ==> r == Some(Verbosity::spec_max()),
{
    if quiet {
        None
    } else if verbose_count == 0 {
        Some(Verbosity::standard())
    } else if verbose_count == 1 {
        Some(Verbosity::verbose())
    } else {
        Some(Verbosity::max())
    }
}

/// The hosts that `ls` shows: every host with `--print-self`, otherwise all but this one.
pub fn ls_host_filter(print_self: bool, host: Host) -> (r: Filter<Host>)
    ensures
        print_self ==> r is All,
        !print_self ==> (r matches Filter::Deny(hosts) && hosts@ == seq![host]),
{
    if print_self {
        Filter::All
    } else {
        Filter::Deny(vec![host])
    }
}

/// The branches that `ls` shows: the named ones, or every branch when none is named.
pub fn branch_filter(branches: Vec<Branch>) -> (r: Filter<Branch>)
    ensures
        branches.len() == 0 ==> r is All,
        branches.len() > 0 ==> r == Filter::Allow(branches),
{
    if branches.len() == 0 {
        Filter::All
    } else {
        Filter::Allow(branches)
    }
}

/// The hosts that `purge` deletes the refs of: every host with `--all`, otherwise only this
/// one.
pub fn purge_host_filter(all: bool, host: Host) -> (r: Filter<Host>)
    ensures
        all ==> r is All,
        !all ==> (r matches Filter::Allow(hosts) && hosts@ == seq![host]),
{
    if all {
        Filter::All
    } else {
        Filter::Allow(vec![host])
    }
}

/// A setting in order of preference: a value given explicitly (on the command line or in the
/// environment), then the one stored in `git config`, then the default that `given` holds.
pub fn resolve_setting(given: String, explicit: bool, from_config: Option<String>) -> (r: String)
    ensures
        explicit ==> r == given,
        !explicit ==> r == match from_config {
            Some(value) => value,
            None => given,
        },
{
    if explicit {
        given
    } else {
        match from_config {
            Some(value) => value,
            None => given,
        }
    }
}

} // verus!
