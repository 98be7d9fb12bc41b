//! Trusted boundary around `stats::Frequencies`, the frequency table of the
//! `streaming-stats` crate that keeps every tally of this library.
//!
//! A table is opaque to the verifier; the uninterpreted functions
//! `command_tally` and `system_tally` name what a table holds, as a multiset
//! of its samples, and each wrapper states over those names what the wrapped
//! method does, as the crate's source shows it.

use crate::command::Command;
use crate::vote_system::VoteSystem;
use vstd::multiset::Multiset;
use vstd::prelude::*;

verus! {

#[verifier::external_type_specification]
#[verifier::external_body]
#[verifier::reject_recursive_types(T)]
pub struct ExFrequencies<T>(stats::Frequencies<T>);

/// The samples a table of commands holds, each as often as it was added.
pub uninterp spec fn command_tally(f: stats::Frequencies<Command>) -> Multiset<Command>;

/// The samples a table of vote systems holds, each as often as it was added.
pub uninterp spec fn system_tally(f: stats::Frequencies<VoteSystem>) -> Multiset<VoteSystem>;

/// The key occurs at least once and no key occurs more often.
pub open spec fn is_max_count<T>(t: Multiset<T>, k: T) -> bool {
    &&& t.count(k) > 0
    &&& forall|x: T| t.count(x) <= t.count(k)
}

/// Relies on `stats::Frequencies::new`: the fresh table holds no samples.
#[verifier::external_body]
pub(crate) fn new_command_tally() -> (f: stats::Frequencies<Command>)
    ensures
        command_tally(f) == Multiset::<Command>::empty(),
{
    stats::Frequencies::new()
}

/// Relies on `stats::Frequencies::add`: the sample's count rises by one and no
/// other count changes.  A count at `u64::MAX` may not be raised further.
#[verifier::external_body]
pub(crate) fn add_command(f: &mut stats::Frequencies<Command>, c: Command)
    requires
        command_tally(*old(f)).count(c) < u64::MAX,
    ensures
        command_tally(*final(f)) == command_tally(*old(f)).insert(c),
{
    f.add(c)
}

/// Relies on `stats::Frequencies::most_frequent`: the returned vector is
/// sorted by count, descending, so its first pair carries a maximal count; it
/// is empty exactly when the table holds no samples.
#[verifier::external_body]
pub(crate) fn max_command(f: &stats::Frequencies<Command>) -> (r: Option<(Command, u64)>)
    ensures
        match r {
            Some(p) => p.1 as nat == command_tally(*f).count(p.0) && is_max_count(
                command_tally(*f),
                p.0,
            ),
            None => command_tally(*f).len() == 0,
        },
{
    f.most_frequent().first().map(|&(k, n)| (*k, n))
}

/// Relies on the derived `Clone` of `stats::Frequencies`: the copy holds the
/// same counts.
#[verifier::external_body]
pub(crate) fn clone_command_tally(f: &stats::Frequencies<Command>) -> (r: stats::Frequencies<
    Command,
>)
    ensures
        command_tally(r) == command_tally(*f),
{
    f.clone()
}

/// Relies on `stats::Frequencies::new`: the fresh table holds no samples.
#[verifier::external_body]
pub(crate) fn new_system_tally() -> (f: stats::Frequencies<VoteSystem>)
    ensures
        system_tally(f) == Multiset::<VoteSystem>::empty(),
{
    stats::Frequencies::new()
}

/// Relies on `stats::Frequencies::add`: the sample's count rises by one and no
/// other count changes.  A count at `u64::MAX` may not be raised further.
#[verifier::external_body]
pub(crate) fn add_system(f: &mut stats::Frequencies<VoteSystem>, s: VoteSystem)
    requires
        system_tally(*old(f)).count(s) < u64::MAX,
    ensures
        system_tally(*final(f)) == system_tally(*old(f)).insert(s),
{
    f.add(s)
}

/// Relies on `stats::Frequencies::count`: the stored count of the sample,
/// zero if it was never added.
#[verifier::external_body]
pub(crate) fn count_system(f: &stats::Frequencies<VoteSystem>, k: &VoteSystem) -> (n: u64)
    ensures
        n as nat == system_tally(*f).count(*k),
{
    f.count(k)
}

/// Relies on `stats::Frequencies::most_frequent`: the returned vector is
/// sorted by count, descending, so its first pair carries a maximal count; it
/// is empty exactly when the table holds no samples.
#[verifier::external_body]
pub(crate) fn max_system(f: &stats::Frequencies<VoteSystem>) -> (r: Option<(VoteSystem, u64)>)
    ensures
        match r {
            Some(p) => p.1 as nat == system_tally(*f).count(p.0) && is_max_count(
                system_tally(*f),
                p.0,
            ),
            None => system_tally(*f).len() == 0,
        },
{
    f.most_frequent().first().map(|&(k, n)| (*k, n))
}

} // verus!
