//! Supervision of the spawned explorer process.
//!
//! The process is shared by every clone of the facade produced from one
//! launch. Instead of relying on destructor ordering, the group of handles is
//! counted explicitly: each clone holds one handle, releasing a handle
//! decrements the count, and the release that brings the count to zero — and
//! only that release — yields the one [`Teardown`] the caller must perform.
//! Whether that teardown persists the captured process output is decided
//! here as well: output is persisted exactly when the releasing caller is in
//! a failing state and a diagnostics directory was configured at launch.

use vstd::prelude::*;
use vstd::string::*;

verus! {

/// Where the captured process output goes when a teardown persists it: the
/// fixed-name log file under the configured diagnostics directory.
pub open spec fn spec_diagnostic_file(dir: Seq<char>) -> Seq<char> {
    dir + "/explorer.log"@
}

/// The path of the diagnostic log file under `dir`.
pub fn diagnostic_file(dir: &str) -> (r: String)
    ensures
        r@ == spec_diagnostic_file(dir@),
{
    let mut path: String = dir.to_owned();
    path.append("/explorer.log");
    path
}

/// The shared state of one launched process: how many handles are still
/// alive, whether the process has been torn down, and where diagnostics go.
pub struct HandleGroup {
    /// Handles still alive; launching creates the first one.
    pub handles: u64,
    /// Set by the one release that tears the process down.
    pub torn_down: bool,
    /// Directory for the diagnostic log, if one was configured at launch.
    pub logs_dir: Option<String>,
}

/// The one-time teardown obligation handed to the caller that released the
/// last handle: kill the process, wait for it, and persist its output to
/// `persist_dir` when that is set.
pub struct Teardown {
    /// Where to write the captured process output, if anywhere.
    pub persist_dir: Option<String>,
}

impl HandleGroup {
    /// A group is torn down exactly when no handle is left alive.
    pub open spec fn wf(self) -> bool {
        self.torn_down <==> self.handles == 0
    }

    /// Starts a group for a freshly spawned process, with one live handle.
    pub fn launch(logs_dir: Option<String>) -> (g: HandleGroup)
        ensures
            g.handles == 1,
            !g.torn_down,
            g.logs_dir == logs_dir,
            g.wf(),
    {
        HandleGroup { handles: 1, torn_down: false, logs_dir }
    }

    /// Records one more clone of the facade sharing the process.
    pub fn clone_handle(&mut self)
        requires
            old(self).wf(),
            old(self).handles >= 1,
            old(self).handles < u64::MAX,
        ensures
            final(self).handles == old(self).handles + 1,
            final(self).torn_down == old(self).torn_down,
            final(self).logs_dir == old(self).logs_dir,
            final(self).wf(),
    {
        self.handles = self.handles + 1;
    }

    /// Releases one handle. The release that drops the last handle — and no
    /// other — returns the teardown to perform; it asks for the process
    /// output to be persisted exactly when the releasing caller reports a
    /// failing state and a diagnostics directory was configured.
    pub fn release_handle(&mut self, failing: bool) -> (t: Option<Teardown>)
        requires
            old(self).wf(),
            old(self).handles >= 1,
        ensures
            final(self).handles == old(self).handles - 1,
            final(self).logs_dir == old(self).logs_dir,
            final(self).wf(),
            t is Some <==> old(self).handles == 1,
            final(self).torn_down <==> old(self).handles == 1,
            t matches Some(td) ==> td.persist_dir == (if failing {
                old(self).logs_dir
            } else {
                Option::<String>::None
            }),
    {
        self.handles = self.handles - 1;
        if self.handles == 0 {
            self.torn_down = true;
            let persist_dir: Option<String> = if failing {
                match &self.logs_dir {
                    Some(dir) => Some(dir.clone()),
                    None => None,
                }
            } else {
                None
            };
            Some(Teardown { persist_dir })
        } else {
            None
        }
    }
}

/// One operation performed on a handle group after launch: cloning the
/// facade, or releasing one clone while the caller is in the given
/// failing-or-not state.
pub ghost enum HandleOp {
    CloneHandle,
    Release(bool),
}

/// The abstract state a [`HandleGroup`] tracks.
pub ghost struct GroupModel {
    pub handles: nat,
    pub torn_down: bool,
}

/// The model of a freshly launched group.
pub open spec fn launch_model() -> GroupModel {
    GroupModel { handles: 1, torn_down: false }
}

pub open spec fn model_of(g: HandleGroup) -> GroupModel {
    GroupModel { handles: g.handles as nat, torn_down: g.torn_down }
}

/// Whether `op` may be performed in state `m`: a clone needs a live handle
/// of its own to copy, and a release needs a live handle to give up.
pub open spec fn op_allowed(m: GroupModel, op: HandleOp) -> bool {
    m.handles >= 1
}

/// The state after performing `op`.
pub open spec fn op_step(m: GroupModel, op: HandleOp) -> GroupModel {
    match op {
        HandleOp::CloneHandle => GroupModel { handles: m.handles + 1, ..m },
        HandleOp::Release(_) => GroupModel {
            handles: (m.handles - 1) as nat,
            torn_down: m.torn_down || m.handles == 1,
        },
    }
}

/// Whether performing `op` in state `m` triggers the process teardown.
pub open spec fn op_tears_down(m: GroupModel, op: HandleOp) -> bool {
    op is Release && m.handles == 1
}

/// Whether a whole run of operations is allowed starting from `m`.
pub open spec fn trace_allowed(m: GroupModel, ops: Seq<HandleOp>) -> bool
    decreases ops.len(),
{
    ops.len() == 0 || (op_allowed(m, ops[0]) && trace_allowed(op_step(m, ops[0]), ops.drop_first()))
}

/// The state after a whole run of operations.
pub open spec fn trace_result(m: GroupModel, ops: Seq<HandleOp>) -> GroupModel
    decreases ops.len(),
{
    if ops.len() == 0 {
        m
    } else {
        trace_result(op_step(m, ops[0]), ops.drop_first())
    }
}

/// How many of the operations trigger the process teardown.
pub open spec fn teardown_count(m: GroupModel, ops: Seq<HandleOp>) -> nat
    decreases ops.len(),
{
    if ops.len() == 0 {
        0
    } else {
        (if op_tears_down(m, ops[0]) {
            1 as nat
        } else {
            0 as nat
        }) + teardown_count(op_step(m, ops[0]), ops.drop_first())
    }
}

/// Once every handle is gone no further operation is allowed, so nothing
/// can tear the process down a second time.
proof fn lemma_no_ops_after_last_release(m: GroupModel, ops: Seq<HandleOp>)
    requires
        m.handles == 0,
        trace_allowed(m, ops),
    ensures
        ops.len() == 0,
        teardown_count(m, ops) == 0,
{
}

/// Teardown happens exactly once on the way from any live state down to
/// zero handles, whatever mix of clones and releases gets there.
proof fn lemma_teardown_once_from(m: GroupModel, ops: Seq<HandleOp>)
    requires
        m.handles >= 1,
        trace_allowed(m, ops),
        trace_result(m, ops).handles == 0,
    ensures
        teardown_count(m, ops) == 1,
    decreases ops.len(),
{
    if ops.len() == 0 {
    } else {
        let next = op_step(m, ops[0]);
        if op_tears_down(m, ops[0]) {
            lemma_no_ops_after_last_release(next, ops.drop_first());
        } else {
            lemma_teardown_once_from(next, ops.drop_first());
        }
    }
}

/// Cloning a launched handle any number of times and releasing every clone,
/// in any order and whatever each releasing caller's failing state, tears
/// the underlying process down exactly once — never zero times, never more.
pub proof fn lemma_teardown_exactly_once(ops: Seq<HandleOp>)
    requires
        trace_allowed(launch_model(), ops),
        trace_result(launch_model(), ops).handles == 0,
    ensures
        teardown_count(launch_model(), ops) == 1,
{
    lemma_teardown_once_from(launch_model(), ops);
}

/// The diagnostic log is requested if and only if the teardown happens
/// while the releasing caller is failing and a diagnostics directory was
/// configured at launch; it is never requested otherwise.
pub proof fn lemma_diagnostics_iff(
    before: HandleGroup,
    after: HandleGroup,
    failing: bool,
    t: Option<Teardown>,
)
    requires
        before.wf(),
        before.handles >= 1,
        after.handles == before.handles - 1,
        after.logs_dir == before.logs_dir,
        t is Some <==> before.handles == 1,
        t matches Some(td) ==> td.persist_dir == (if failing {
            before.logs_dir
        } else {
            Option::<String>::None
        }),
    ensures
        (t matches Some(td) && td.persist_dir is Some) <==> (before.handles == 1 && failing
            && before.logs_dir is Some),
{
}

} // verus!
