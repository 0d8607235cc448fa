//! The pre-check hint: whether the calling process was started by the
//! remote-login daemon. The process table is a best-effort snapshot: the
//! parent may exit or be replaced after it is taken, so the answer is a hint
//! for the authority, never an authorization decision.
use sysinfo::{Pid, System};
use vstd::prelude::*;

verus! {

#[verifier::external_type_specification]
#[verifier::external_body]
pub struct ExSystem(System);

/// What a sysinfo snapshot holds of each process, by pid: the parent's pid,
/// if any, and the process name (lossily decoded to text).
pub uninterp spec fn process_table(sys: System) -> Map<u32, (Option<u32>, Seq<char>)>;

/// The name the remote-login daemon runs under.
pub open spec fn daemon_name() -> Seq<char> {
    "sshd"@
}

/// The name of the parent of `pid` in `table`, where both entries resolve.
pub open spec fn parent_name_in(table: Map<u32, (Option<u32>, Seq<char>)>, pid: u32) -> Option<
    Seq<char>,
> {
    if table.contains_key(pid) {
        match table[pid].0 {
            Some(pp) => if table.contains_key(pp) {
                Some(table[pp].1)
            } else {
                None
            },
            None => None,
        }
    } else {
        None
    }
}

/// Whether a resolved parent name is exactly the login daemon's.
pub open spec fn is_daemon_parent(parent: Option<Seq<char>>) -> bool {
    parent == Some(daemon_name())
}

pub open spec fn opt_view(o: Option<String>) -> Option<Seq<char>> {
    match o {
        Some(s) => Some(s@),
        None => None,
    }
}

/// Relies on sysinfo's `System::new_all`: a fresh snapshot of the live
/// process table. Nothing is promised of what it holds.
#[verifier::external_body]
fn process_snapshot() -> (r: System) {
    System::new_all()
}

/// Relies on sysinfo's `System::process` and `Process::parent`: the snapshot's
/// entry for `pid`, if any, and the parent pid recorded in it.
#[verifier::external_body]
fn parent_pid_of(sys: &System, pid: u32) -> (r: Option<Option<u32>>)
    ensures
        r is Some <==> process_table(*sys).contains_key(pid),
        r is Some ==> r->0 == process_table(*sys)[pid].0,
{
    sys.process(Pid::from_u32(pid)).map(|p| p.parent().map(|q| q.as_u32()))
}

/// Relies on sysinfo's `System::process` and `Process::name`: the snapshot's
/// entry for `pid`, if any, and its process name.
#[verifier::external_body]
fn process_name_of(sys: &System, pid: u32) -> (r: Option<String>)
    ensures
        r is Some <==> process_table(*sys).contains_key(pid),
        r is Some ==> r->0@ == process_table(*sys)[pid].1,
{
    sys.process(Pid::from_u32(pid)).map(|p| p.name().to_string_lossy().into_owned())
}

/// Whether `name` is exactly the login daemon's name.
pub fn is_login_daemon(name: &String) -> (r: bool)
    ensures
        r == (name@ == daemon_name()),
{
    let daemon = String::from_str("sshd");
    name.eq(&daemon)
}

/// The name of the parent of `pid` in the snapshot `sys`; `None` where either
/// the process or its parent cannot be resolved.
pub fn parent_process_name(sys: &System, pid: u32) -> (r: Option<String>)
    ensures
        opt_view(r) == parent_name_in(process_table(*sys), pid),
{
    match parent_pid_of(sys, pid) {
        Some(Some(pp)) => process_name_of(sys, pp),
        _ => None,
    }
}

/// The hint for a resolved (or unresolvable) parent name: true exactly when
/// the parent is the login daemon.
pub fn pre_check_for_parent(parent_name: &Option<String>) -> (r: bool)
    ensures
        r == is_daemon_parent(opt_view(*parent_name)),
{
    match parent_name {
        Some(n) => is_login_daemon(n),
        None => false,
    }
}

/// The hint read from the snapshot `sys` for the process `pid`: true exactly
/// when its parent resolves and is named as the login daemon.
pub fn pre_check_in(sys: &System, pid: u32) -> (r: bool)
    ensures
        r == is_daemon_parent(parent_name_in(process_table(*sys), pid)),
{
    let parent = parent_process_name(sys, pid);
    pre_check_for_parent(&parent)
}

/// The hint for the process `pid`. Where the override is set it is true and
/// the process table is not read; otherwise it is what `pre_check_in` gives
/// for a fresh snapshot, whatever that snapshot holds.
pub fn should_pre_check(override_set: bool, pid: u32) -> (r: bool)
    ensures
        override_set ==> r,
        !override_set ==> exists|sys: System|
            r == is_daemon_parent(#[trigger] parent_name_in(process_table(sys), pid)),
{
    if override_set {
        return true;
    }
    let sys = process_snapshot();
    let r = pre_check_in(&sys, pid);
    assert(r == is_daemon_parent(parent_name_in(process_table(sys), pid)));
    r
}

} // verus!
