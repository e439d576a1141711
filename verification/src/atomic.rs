//! The atomic write protocol: temporary file, sync, rename with bounded retry, cleanup.
//!
//! This module decides; the caller performs each step on the file system and reports
//! how it went.

use vstd::prelude::*;
use crate::errors::{ErrorModel, IoOperationKind, MigrationError};
use crate::paths::{join_path, joined_path};
use crate::storage::AtomicWriteConfig;
use crate::text::{chars_of, concat3, opt_text};

verus! {

/// The character of a decimal digit.
pub open spec fn digit_char(d: nat) -> char {
    if d == 0 {
        '0'
    } else if d == 1 {
        '1'
    } else if d == 2 {
        '2'
    } else if d == 3 {
        '3'
    } else if d == 4 {
        '4'
    } else if d == 5 {
        '5'
    } else if d == 6 {
        '6'
    } else if d == 7 {
        '7'
    } else if d == 8 {
        '8'
    } else {
        '9'
    }
}

/// The decimal digits of a number, without leading zeros.
pub open spec fn decimal(n: nat) -> Seq<char>
    decreases n,
{
    if n < 10 {
        seq![digit_char(n)]
    } else {
        decimal(n / 10).push(digit_char(n % 10))
    }
}

/// The text of one decimal digit.
fn digit_text(d: u64) -> (r: &'static str)
    requires
        d < 10,
    ensures
        r@ == seq![digit_char(d as nat)],
{
    proof {
        reveal_strlit("0");
        reveal_strlit("1");
        reveal_strlit("2");
        reveal_strlit("3");
        reveal_strlit("4");
        reveal_strlit("5");
        reveal_strlit("6");
        reveal_strlit("7");
        reveal_strlit("8");
        reveal_strlit("9");
    }
    let r = if d == 0 {
        "0"
    } else if d == 1 {
        "1"
    } else if d == 2 {
        "2"
    } else if d == 3 {
        "3"
    } else if d == 4 {
        "4"
    } else if d == 5 {
        "5"
    } else if d == 6 {
        "6"
    } else if d == 7 {
        "7"
    } else if d == 8 {
        "8"
    } else {
        "9"
    };
    assert(r@ =~= seq![digit_char(d as nat)]);
    r
}

/// Writes a number in decimal.
pub fn decimal_string(n: u64) -> (r: String)
    ensures
        r@ == decimal(n as nat),
    decreases n,
{
    if n < 10 {
        String::from_str(digit_text(n))
    } else {
        let mut out = decimal_string(n / 10);
        out.append(digit_text(n % 10));
        assert(out@ =~= decimal((n / 10) as nat).push(digit_char((n % 10) as nat)));
        out
    }
}

/// The start that the temporary files of a target file share.
pub open spec fn temp_prefix(file_name: Seq<char>) -> Seq<char> {
    "."@ + file_name + ".tmp."@
}

/// The name of the temporary file that a process writes for a target file.
pub open spec fn temp_name(file_name: Seq<char>, pid: nat) -> Seq<char> {
    temp_prefix(file_name) + decimal(pid)
}

/// The name of the temporary file for `file_name`, written by process `pid`: hidden,
/// and in the same directory as the target.
pub fn temp_file_name(file_name: &str, pid: u32) -> (r: String)
    ensures
        r@ == temp_name(file_name@, pid as nat),
{
    let mut out = concat3(".", file_name, ".tmp.");
    let digits = decimal_string(pid as u64);
    out.append(digits.as_str());
    out
}

/// Whether a directory entry is a temporary file left for `file_name`, by any process.
pub fn is_stale_temp(entry_name: &str, file_name: &str) -> (r: bool)
    ensures
        r == temp_prefix(file_name@).is_prefix_of(entry_name@),
{
    let prefix = concat3(".", file_name, ".tmp.");
    let p = chars_of(prefix.as_str());
    let e = chars_of(entry_name);
    if p.len() > e.len() {
        return false;
    }
    let mut i: usize = 0;
    while i < p.len()
        invariant
            i <= p.len() <= e.len(),
            p@ == temp_prefix(file_name@),
            e@ == entry_name@,
            forall|j: int| 0 <= j < i ==> p@[j] == e@[j],
        decreases p.len() - i,
    {
        if p[i] != e[i] {
            assert(p@ != e@.subrange(0, p@.len() as int)) by {
                assert(e@.subrange(0, p@.len() as int)[i as int] == e@[i as int]);
            }
            return false;
        }
        i += 1;
    }
    assert(p@ =~= e@.subrange(0, p@.len() as int));
    true
}

/// The stale temporary files among the entries of a directory, in their order.
pub open spec fn stale_temps(entries: Seq<Seq<char>>, file_name: Seq<char>) -> Seq<Seq<char>> {
    entries.filter(|name: Seq<char>| temp_prefix(file_name).is_prefix_of(name))
}

/// Picks the entries to remove when cleaning up after a write of `file_name`.
pub fn select_stale_temps(entries: &Vec<String>, file_name: &str) -> (r: Vec<String>)
    ensures
        crate::text::texts(r@) == stale_temps(crate::text::texts(entries@), file_name@),
{
    let ghost pred = |name: Seq<char>| temp_prefix(file_name@).is_prefix_of(name);
    let ghost all = crate::text::texts(entries@);
    let mut out: Vec<String> = Vec::new();
    let mut i: usize = 0;
    assert(all.take(0) =~= Seq::empty());
    assert(crate::text::texts(out@) =~= Seq::empty());
    assert(all.take(0).filter(pred) =~= Seq::empty()) by {
        reveal(Seq::filter);
    }
    while i < entries.len()
        invariant
            i <= entries.len(),
            all == crate::text::texts(entries@),
            pred == |name: Seq<char>| temp_prefix(file_name@).is_prefix_of(name),
            crate::text::texts(out@) == all.take(i as int).filter(pred),
        decreases entries.len() - i,
    {
        let ghost before = crate::text::texts(out@);
        proof {
            assert(all.take(i + 1).drop_last() =~= all.take(i as int));
            assert(all.take(i + 1).last() == all[i as int]);
            reveal(Seq::filter);
        }
        if is_stale_temp(entries[i].as_str(), file_name) {
            out.push(entries[i].clone());
            assert(crate::text::texts(out@) =~= before.push(all[i as int]));
        }
        i += 1;
    }
    assert(all.take(entries@.len() as int) =~= all);
    out
}

/// A step of the protocol that is about to be performed, or its end.
#[derive(Debug, Clone)]
pub enum WriteState {
    /// Create the parent directory, if it is missing.
    EnsureParent,
    /// Create the temporary file.
    CreateTemp,
    /// Write the whole content to the temporary file.
    WriteTemp,
    /// Flush the temporary file to disk and close it.
    SyncTemp,
    /// Rename the temporary file onto the target; after `failed` failed attempts, and,
    /// where `failed` is not zero, after a short pause.
    Rename { failed: usize },
    /// Remove stale temporary files; failures are ignored.
    Cleanup,
    /// The write is complete.
    Done,
    /// The write failed.
    Failed(MigrationError),
}

/// What a [`WriteState`] holds.
pub enum StateModel {
    EnsureParent,
    CreateTemp,
    WriteTemp,
    SyncTemp,
    Rename { failed: nat },
    Cleanup,
    Done,
    Failed(ErrorModel),
}

impl View for WriteState {
    type V = StateModel;

    open spec fn view(&self) -> StateModel {
        match self {
            WriteState::EnsureParent => StateModel::EnsureParent,
            WriteState::CreateTemp => StateModel::CreateTemp,
            WriteState::WriteTemp => StateModel::WriteTemp,
            WriteState::SyncTemp => StateModel::SyncTemp,
            WriteState::Rename { failed } => StateModel::Rename { failed: *failed as nat },
            WriteState::Cleanup => StateModel::Cleanup,
            WriteState::Done => StateModel::Done,
            WriteState::Failed(e) => StateModel::Failed(e@),
        }
    }
}

/// What one atomic write is to do: the target, its directory and the temporary file,
/// and how often to try the rename.
#[derive(Debug, Clone)]
pub struct WritePlan {
    /// The file to replace.
    pub target: String,
    /// The directory of the target, where the path has one.
    pub parent: Option<String>,
    /// The temporary file, where the path has a directory and a file name.
    pub temp: Option<String>,
    /// Whether the path has a file name.
    pub has_file_name: bool,
    /// How often the rename is tried; at least once.
    pub retry_count: usize,
    /// Whether stale temporary files are removed after the rename.
    pub cleanup: bool,
}

/// What a [`WritePlan`] holds.
pub struct PlanModel {
    pub target: Seq<char>,
    pub parent: Option<Seq<char>>,
    pub temp: Option<Seq<char>>,
    pub has_file_name: bool,
    pub retry_count: nat,
    pub cleanup: bool,
}

impl View for WritePlan {
    type V = PlanModel;

    open spec fn view(&self) -> PlanModel {
        PlanModel {
            target: self.target@,
            parent: opt_text(self.parent),
            temp: opt_text(self.temp),
            has_file_name: self.has_file_name,
            retry_count: self.retry_count as nat,
            cleanup: self.cleanup,
        }
    }
}

/// The failure of a step on a path.
pub open spec fn io_failure(
    operation: IoOperationKind,
    path: Seq<char>,
    context: Option<Seq<char>>,
    error: Seq<char>,
) -> StateModel {
    StateModel::Failed(ErrorModel::IoError { operation, path, context, error })
}

/// The message of a write that is allowed no rename attempt.
pub open spec fn no_attempt() -> Seq<char> {
    "no rename attempt is allowed"@
}

/// The text of `path`, or of no path.
pub open spec fn path_text(path: Option<Seq<char>>) -> Seq<char> {
    match path {
        Some(p) => p,
        None => Seq::empty(),
    }
}

impl PlanModel {
    /// The state once the parent directory is known to exist: the temporary file is
    /// created, unless the path has no directory or no file name.
    pub open spec fn after_parent(self) -> StateModel {
        if self.parent is None {
            StateModel::Failed(ErrorModel::PathResolution("Path has no parent directory"@))
        } else if !self.has_file_name || self.temp is None {
            StateModel::Failed(ErrorModel::PathResolution("Path has no file name"@))
        } else {
            StateModel::CreateTemp
        }
    }

    /// The failure of a write whose rename attempts are used up: an I/O error of the
    /// rename on the target that names the configured count and carries `error`.
    pub open spec fn exhausted(self, error: Seq<char>) -> StateModel {
        io_failure(
            IoOperationKind::Rename,
            self.target,
            Some("after "@ + decimal(self.retry_count) + " retries"@),
            error,
        )
    }

    /// The first state of the protocol.
    pub open spec fn first(self) -> StateModel {
        if self.parent is Some {
            StateModel::EnsureParent
        } else {
            self.after_parent()
        }
    }

    /// The state after a step was performed with the given outcome: nothing for success,
    /// or the message of the failure. With a retry count of zero the bound is used up
    /// before the first attempt: the write fails once the temporary file is synced, and
    /// no rename is asked for.
    pub open spec fn next(self, state: StateModel, outcome: Option<Seq<char>>) -> StateModel {
        match state {
            StateModel::EnsureParent => match outcome {
                None => self.after_parent(),
                Some(e) => io_failure(IoOperationKind::CreateDir, path_text(self.parent), None, e),
            },
            StateModel::CreateTemp => match outcome {
                None => StateModel::WriteTemp,
                Some(e) => io_failure(
                    IoOperationKind::Create,
                    path_text(self.temp),
                    Some("temporary file"@),
                    e,
                ),
            },
            StateModel::WriteTemp => match outcome {
                None => StateModel::SyncTemp,
                Some(e) => io_failure(
                    IoOperationKind::Write,
                    path_text(self.temp),
                    Some("temporary file"@),
                    e,
                ),
            },
            StateModel::SyncTemp => match outcome {
                None => if self.retry_count == 0 {
                    self.exhausted(no_attempt())
                } else {
                    StateModel::Rename { failed: 0 }
                },
                Some(e) => io_failure(
                    IoOperationKind::Sync,
                    path_text(self.temp),
                    Some("temporary file"@),
                    e,
                ),
            },
            StateModel::Rename { failed } => match outcome {
                None => if self.cleanup {
                    StateModel::Cleanup
                } else {
                    StateModel::Done
                },
                Some(e) => if failed + 1 < self.retry_count {
                    StateModel::Rename { failed: failed + 1 }
                } else {
                    self.exhausted(e)
                },
            },
            StateModel::Cleanup => StateModel::Done,
            StateModel::Done => StateModel::Done,
            StateModel::Failed(e) => StateModel::Failed(e),
        }
    }
}

/// The message of an outcome.
pub open spec fn outcome_text(outcome: Result<(), String>) -> Option<Seq<char>> {
    match outcome {
        Ok(()) => None,
        Err(e) => Some(e@),
    }
}

impl WritePlan {
    /// Plans the write of `target`, whose directory is `parent` and whose last component
    /// is `file_name`, by process `pid`. The temporary file lies in the same directory,
    /// and is another file than a target that is `file_name` in `parent`.
    pub fn new(
        target: &str,
        parent: Option<&str>,
        file_name: Option<&str>,
        pid: u32,
        config: &AtomicWriteConfig,
    ) -> (r: Self)
        ensures
            r@.target == target@,
            r@.parent == match parent {
                Some(p) => Some(p@),
                None => None,
            },
            r@.has_file_name == file_name is Some,
            r@.temp == match (parent, file_name) {
                (Some(p), Some(f)) => Some(
                    joined_path(p@, temp_name(f@, pid as nat)),
                ),
                _ => None,
            },
            r@.retry_count == config.retry_count,
            r@.cleanup == config.cleanup_tmp_files,
            match (parent, file_name) {
                (Some(p), Some(f)) => target@ == joined_path(p@, f@) ==> r@.temp != Some(target@),
                _ => true,
            },
    {
        proof {
            match (parent, file_name) {
                (Some(p), Some(f)) => {
                    lemma_temp_differs(p@, f@, pid as nat);
                },
                _ => {},
            }
        }
        let temp = match (parent, file_name) {
            (Some(p), Some(f)) => {
                let name = temp_file_name(f, pid);
                Some(join_path(p, name.as_str()))
            },
            _ => None,
        };
        Self {
            target: String::from_str(target),
            parent: match parent {
                Some(p) => Some(String::from_str(p)),
                None => None,
            },
            temp,
            has_file_name: file_name.is_some(),
            retry_count: config.retry_count,
            cleanup: config.cleanup_tmp_files,
        }
    }

    /// The state once the parent directory exists.
    fn after_parent(&self) -> (r: WriteState)
        ensures
            r@ == self@.after_parent(),
    {
        if self.parent.is_none() {
            WriteState::Failed(
                MigrationError::PathResolution(String::from_str("Path has no parent directory")),
            )
        } else if !self.has_file_name || self.temp.is_none() {
            WriteState::Failed(
                MigrationError::PathResolution(String::from_str("Path has no file name")),
            )
        } else {
            WriteState::CreateTemp
        }
    }

    /// The first step of the write.
    pub fn first(&self) -> (r: WriteState)
        ensures
            r@ == self@.first(),
    {
        if self.parent.is_some() {
            WriteState::EnsureParent
        } else {
            self.after_parent()
        }
    }

    /// A failure of `operation` on an optional path.
    fn failure(operation: IoOperationKind, path: &Option<String>, context: Option<String>, error: String) -> (r:
        WriteState)
        ensures
            r@ == io_failure(operation, path_text(opt_text(*path)), opt_text(context), error@),
    {
        let path = match path {
            Some(p) => p.clone(),
            None => String::new(),
        };
        WriteState::Failed(MigrationError::IoError { operation, path, context, error })
    }

    /// The failure of a write whose rename attempts are used up.
    fn exhausted(&self, error: String) -> (r: WriteState)
        ensures
            r@ == self@.exhausted(error@),
    {
        let count = decimal_string(self.retry_count as u64);
        let context = concat3("after ", count.as_str(), " retries");
        WriteState::Failed(
            MigrationError::IoError {
                operation: IoOperationKind::Rename,
                path: self.target.clone(),
                context: Some(context),
                error,
            },
        )
    }

    /// The step that follows `state`, once it was performed with `outcome`: `Ok` where
    /// it succeeded, the failure's message where it did not. Only the rename is tried
    /// again, and at most `retry_count` times in all: with a count of zero the write
    /// fails after the sync, before any attempt.
    pub fn advance(&self, state: WriteState, outcome: Result<(), String>) -> (r: WriteState)
        ensures
            r@ == self@.next(state@, outcome_text(outcome)),
    {
        match state {
            WriteState::EnsureParent => match outcome {
                Ok(()) => self.after_parent(),
                Err(e) => Self::failure(IoOperationKind::CreateDir, &self.parent, None, e),
            },
            WriteState::CreateTemp => match outcome {
                Ok(()) => WriteState::WriteTemp,
                Err(e) => Self::failure(
                    IoOperationKind::Create,
                    &self.temp,
                    Some(String::from_str("temporary file")),
                    e,
                ),
            },
            WriteState::WriteTemp => match outcome {
                Ok(()) => WriteState::SyncTemp,
                Err(e) => Self::failure(
                    IoOperationKind::Write,
                    &self.temp,
                    Some(String::from_str("temporary file")),
                    e,
                ),
            },
            WriteState::SyncTemp => match outcome {
                Ok(()) => if self.retry_count == 0 {
                    self.exhausted(String::from_str("no rename attempt is allowed"))
                } else {
                    WriteState::Rename { failed: 0 }
                },
                Err(e) => Self::failure(
                    IoOperationKind::Sync,
                    &self.temp,
                    Some(String::from_str("temporary file")),
                    e,
                ),
            },
            WriteState::Rename { failed } => match outcome {
                Ok(()) => if self.cleanup {
                    WriteState::Cleanup
                } else {
                    WriteState::Done
                },
                Err(e) => if failed < usize::MAX && failed + 1 < self.retry_count {
                    WriteState::Rename { failed: failed + 1 }
                } else {
                    self.exhausted(e)
                },
            },
            WriteState::Cleanup => WriteState::Done,
            WriteState::Done => WriteState::Done,
            WriteState::Failed(e) => WriteState::Failed(e),
        }
    }
}


/// The files of a disk: what each path holds.
pub type Files = Map<Seq<char>, Seq<char>>;

/// Whether two disks agree on what `path` holds, or both lack it.
pub open spec fn same_at(a: Files, b: Files, path: Seq<char>) -> bool {
    a.dom().contains(path) == b.dom().contains(path) && (a.dom().contains(path) ==> a[path]
        == b[path])
}

/// Whether `path` holds exactly `content`.
pub open spec fn holds(files: Files, path: Seq<char>, content: Seq<char>) -> bool {
    files.dom().contains(path) && files[path] == content
}

/// What performing one step may do to the disk, as far as the protocol relies on it.
///
/// Only the rename changes what the target path holds, and it does so at once: after
/// a successful rename the target holds what the temporary file held and the temporary
/// file is gone; after a failed one nothing has changed. A successful write leaves the
/// whole content in the temporary file, a sync does not change it, and cleaning up only
/// removes files.
pub open spec fn step_effect(
    plan: PlanModel,
    state: StateModel,
    outcome: Option<Seq<char>>,
    before: Files,
    after: Files,
    content: Seq<char>,
) -> bool {
    let temp = path_text(plan.temp);
    match state {
        StateModel::WriteTemp => same_at(after, before, plan.target) && (outcome is None ==> holds(
            after,
            temp,
            content,
        )),
        StateModel::SyncTemp => after == before,
        StateModel::Rename { failed } => if outcome is None {
            before.dom().contains(temp) && after == before.insert(plan.target, before[temp]).remove(
                temp,
            )
        } else {
            after == before
        },
        StateModel::Cleanup => same_at(after, before, plan.target) && after.dom().subset_of(
            before.dom(),
        ),
        StateModel::Done => after == before,
        StateModel::Failed(_) => after == before,
        _ => same_at(after, before, plan.target),
    }
}

/// A run of the protocol: the state before each step, the outcome of each step, and the
/// disk before and after each step.
pub open spec fn is_run(
    plan: PlanModel,
    content: Seq<char>,
    states: Seq<StateModel>,
    outcomes: Seq<Option<Seq<char>>>,
    disks: Seq<Files>,
) -> bool {
    &&& states.len() == outcomes.len() + 1
    &&& disks.len() == states.len()
    &&& states[0] == plan.first()
    &&& forall|i: int|
        0 <= i < outcomes.len() ==> #[trigger] states[i + 1] == plan.next(states[i], outcomes[i])
    &&& forall|i: int|
        0 <= i < outcomes.len() ==> step_effect(
            plan,
            states[i],
            outcomes[i],
            disks[i],
            #[trigger] disks[i + 1],
            content,
        )
}

/// What holds of the disk in each state of a run.
pub open spec fn disk_invariant(
    plan: PlanModel,
    content: Seq<char>,
    state: StateModel,
    first: Files,
    now: Files,
) -> bool {
    match state {
        StateModel::Cleanup => holds(now, plan.target, content) && !now.dom().contains(
            path_text(plan.temp),
        ),
        StateModel::Done => holds(now, plan.target, content) && !now.dom().contains(
            path_text(plan.temp),
        ),
        StateModel::SyncTemp => same_at(now, first, plan.target) && holds(
            now,
            path_text(plan.temp),
            content,
        ),
        StateModel::Rename { failed } => same_at(now, first, plan.target) && holds(
            now,
            path_text(plan.temp),
            content,
        ),
        _ => same_at(now, first, plan.target),
    }
}

/// At every point of a run the target path holds either what it held before the write
/// or the complete new content, never anything else. It holds the new content exactly
/// from the successful rename on, so a write that fails leaves the target as it was,
/// and a write that is done has replaced it and left no temporary file of its own.
pub proof fn lemma_write_never_partial(
    plan: PlanModel,
    content: Seq<char>,
    states: Seq<StateModel>,
    outcomes: Seq<Option<Seq<char>>>,
    disks: Seq<Files>,
    k: int,
)
    requires
        is_run(plan, content, states, outcomes, disks),
        plan.temp is Some ==> plan.temp->0 != plan.target,
        0 <= k < states.len(),
    ensures
        disk_invariant(plan, content, states[k], disks[0], disks[k]),
        same_at(disks[k], disks[0], plan.target) || holds(disks[k], plan.target, content),
        states[k] is Failed ==> same_at(disks[k], disks[0], plan.target),
        states[k] is Done ==> holds(disks[k], plan.target, content) && !disks[k].dom().contains(
            path_text(plan.temp),
        ),
    decreases k,
{
    if k > 0 {
        lemma_write_never_partial(plan, content, states, outcomes, disks, k - 1);
        let i = k - 1;
        assert(states[i + 1] == plan.next(states[i], outcomes[i]));
        assert(step_effect(plan, states[i], outcomes[i], disks[i], disks[i + 1], content));
        match states[i] {
            StateModel::Rename { failed } => {
                if outcomes[i] is None {
                    assert(plan.temp is Some) by {
                        lemma_rename_has_temp(plan, content, states, outcomes, disks, i);
                    }
                }
            },
            _ => {},
        }
    }
}

/// A run reaches the rename only with a temporary file planned.
proof fn lemma_rename_has_temp(
    plan: PlanModel,
    content: Seq<char>,
    states: Seq<StateModel>,
    outcomes: Seq<Option<Seq<char>>>,
    disks: Seq<Files>,
    k: int,
)
    requires
        is_run(plan, content, states, outcomes, disks),
        0 <= k < states.len(),
    ensures
        (states[k] is CreateTemp || states[k] is WriteTemp || states[k] is SyncTemp || states[k]
            is Rename) ==> plan.temp is Some,
    decreases k,
{
    if k > 0 {
        lemma_rename_has_temp(plan, content, states, outcomes, disks, k - 1);
        assert(states[k - 1 + 1] == plan.next(states[k - 1], outcomes[k - 1]));
    }
}

/// The decimal digits of a number are at least one.
pub proof fn lemma_decimal_nonempty(n: nat)
    ensures
        decimal(n).len() >= 1,
    decreases n,
{
    if n >= 10 {
        lemma_decimal_nonempty(n / 10);
    }
}

/// The temporary file of a write is not the target: beside a target that is `file_name`
/// in `parent`, the temporary file has a longer path.
pub proof fn lemma_temp_differs(parent: Seq<char>, file_name: Seq<char>, pid: nat)
    ensures
        joined_path(parent, temp_name(file_name, pid)).len() > joined_path(parent, file_name).len(),
        joined_path(parent, temp_name(file_name, pid)) != joined_path(parent, file_name),
{
    reveal_strlit(".");
    reveal_strlit(".tmp.");
    reveal_strlit("/");
    lemma_decimal_nonempty(pid);
    let name = temp_name(file_name, pid);
    assert(name.len() == 1 + file_name.len() + 5 + decimal(pid).len());
    assert(name[0] == '.');
}

/// The state after the rename failed `n` times in a row, each time with its own message.
pub open spec fn after_failures(plan: PlanModel, errors: Seq<Seq<char>>, n: nat) -> StateModel
    decreases n,
{
    if n == 0 {
        StateModel::Rename { failed: 0 }
    } else {
        plan.next(after_failures(plan, errors, (n - 1) as nat), Some(errors[n - 1]))
    }
}

/// The rename is tried again after each failure below the configured count, and a
/// success then completes the write; the failure that exhausts the count ends it with
/// an I/O error that names the count and carries the last message. A count of zero is
/// exhausted at once: the synced write fails with that error and no rename is tried.
pub proof fn lemma_retry_bound(plan: PlanModel, errors: Seq<Seq<char>>, n: nat)
    requires
        n <= plan.retry_count,
    ensures
        n < plan.retry_count ==> after_failures(plan, errors, n) == (StateModel::Rename {
            failed: n,
        }),
        n < plan.retry_count ==> plan.next(after_failures(plan, errors, n), None) == (if plan.cleanup {
            StateModel::Cleanup
        } else {
            StateModel::Done
        }),
        1 <= n == plan.retry_count ==> after_failures(plan, errors, n) == plan.exhausted(
            errors[n - 1],
        ),
        plan.retry_count == 0 ==> plan.next(StateModel::SyncTemp, None) == plan.exhausted(
            no_attempt(),
        ),
        plan.retry_count >= 1 ==> plan.next(StateModel::SyncTemp, None) == (StateModel::Rename {
            failed: 0,
        }),
    decreases n,
{
    if n > 0 {
        lemma_retry_bound(plan, errors, (n - 1) as nat);
    }
}

/// A write that is allowed no rename attempt never asks for one: no state of its run is
/// a rename, so it never completes, and the target holds what it held throughout.
pub proof fn lemma_no_attempt_no_rename(
    plan: PlanModel,
    content: Seq<char>,
    states: Seq<StateModel>,
    outcomes: Seq<Option<Seq<char>>>,
    disks: Seq<Files>,
    k: int,
)
    requires
        is_run(plan, content, states, outcomes, disks),
        plan.retry_count == 0,
        0 <= k < states.len(),
    ensures
        !(states[k] is Rename),
        !(states[k] is Cleanup),
        !(states[k] is Done),
        same_at(disks[k], disks[0], plan.target),
    decreases k,
{
    if k > 0 {
        lemma_no_attempt_no_rename(plan, content, states, outcomes, disks, k - 1);
        assert(states[k - 1 + 1] == plan.next(states[k - 1], outcomes[k - 1]));
        assert(step_effect(plan, states[k - 1], outcomes[k - 1], disks[k - 1], disks[k - 1 + 1], content));
    }
}

} // verus!
