//! ZFS: dataset snapshots, `zfs send` backups and `zfs receive` restores.
use vstd::prelude::*;

use crate::backend::Backend;
use crate::error::{Error, Fault, Result, fault, outcome};
use crate::host::{decode_utf8_lossy, snapshot_time, path_exists, utf8_lossy};
use crate::mount::MountManager;
use crate::platform::{StubBackend, unsupported};
use crate::text::{
    chars_eq_str, chars_of, concat3, decimal, find_char, find_char_exec, lines, lines_exec,
    opt_str, push_decimal, push_str, push_str_owned, push_string, slice_chars, split_char,
    split_char_exec, starts_with, starts_with_exec, string_of, string_of_range, strs, trim,
    trim_bounds, lemma_trim_nonempty, lemma_trim_ends, lemma_trim_plain, lemma_decimal_digits,
    lemma_decimal_last, lemma_find_char_is, is_ws,
};
use crate::types::{
    BackupPlan, BackupSource, BackupTarget, Capability, MountHandle, MountRequest, RestorePlan,
    SnapshotHandle, SnapshotInfo, SnapshotInfoView, SnapshotKind, SnapshotPolicy, SnapshotRequest,
    VolumeRef, copy_opt_string, info_views, sanitize_snapshot_label, sanitized_label,
    lemma_sanitized_shape,
};

verus! {

/// The capabilities of the ZFS backend.
pub open spec fn zfs_capabilities_spec() -> Seq<Capability> {
    seq![
        Capability::CrashConsistentSnapshot,
        Capability::BlockLevelBackup,
        Capability::BlockLevelRestore,
        Capability::IncrementalSend,
        Capability::DirectDeviceAccess,
    ]
}

fn zfs_capabilities() -> (r: &'static [Capability])
    ensures
        r@ == zfs_capabilities_spec(),
{
    &[
        Capability::CrashConsistentSnapshot,
        Capability::BlockLevelBackup,
        Capability::BlockLevelRestore,
        Capability::IncrementalSend,
        Capability::DirectDeviceAccess,
    ]
}

#[derive(Debug)]
pub struct ZfsBackend(StubBackend);

impl Clone for ZfsBackend {
    /// Every ZFS backend is the same: a copy is a new one.
    fn clone(&self) -> (r: Self) {
        ZfsBackend::new()
    }
}

#[derive(Debug, Clone, PartialEq, Eq)]
pub struct ZfsDatasetRef {
    pub name: String,
    pub mount_point: Option<String>,
}

/// A `zfs` invocation.
#[derive(Debug, Clone, PartialEq, Eq)]
pub struct ZfsCommand {
    pub program: &'static str,
    pub args: Vec<String>,
}

#[derive(Debug, Clone, PartialEq, Eq)]
pub struct ZfsSnapshotPlan {
    pub dataset: ZfsDatasetRef,
    pub snapshot_name: String,
    pub snapshot_id: String,
    pub read_only: bool,
    pub command: ZfsCommand,
}

#[derive(Debug, Clone, PartialEq, Eq)]
pub struct ZfsSnapshotRef {
    pub dataset: String,
    pub snapshot: String,
    pub snapshot_id: String,
}

#[derive(Debug, Clone, PartialEq, Eq)]
pub struct ZfsSendPlan {
    pub snapshot: ZfsSnapshotRef,
    pub target: String,
    pub parent_snapshot: Option<ZfsSnapshotRef>,
    pub temporary_snapshot: Option<ZfsSnapshotPlan>,
    pub command: ZfsCommand,
}

#[derive(Debug, Clone, PartialEq, Eq)]
pub struct ZfsReceivePlan {
    pub stream: String,
    pub destination_dataset: String,
    pub command: ZfsCommand,
}

pub struct ZfsDatasetView {
    pub name: Seq<char>,
    pub mount_point: Option<Seq<char>>,
}

pub struct ZfsSnapshotPlanView {
    pub dataset: ZfsDatasetView,
    pub snapshot_name: Seq<char>,
    pub snapshot_id: Seq<char>,
    pub read_only: bool,
    pub args: Seq<Seq<char>>,
}

pub struct ZfsSnapshotRefView {
    pub dataset: Seq<char>,
    pub snapshot: Seq<char>,
    pub snapshot_id: Seq<char>,
}

pub struct ZfsSendPlanView {
    pub snapshot: ZfsSnapshotRefView,
    pub target: Seq<char>,
    pub parent_snapshot: Option<ZfsSnapshotRefView>,
    pub temporary_snapshot: Option<ZfsSnapshotPlanView>,
    pub args: Seq<Seq<char>>,
}

pub struct ZfsReceivePlanView {
    pub stream: Seq<char>,
    pub destination_dataset: Seq<char>,
    pub args: Seq<Seq<char>>,
}

impl View for ZfsDatasetRef {
    type V = ZfsDatasetView;

    open spec fn view(&self) -> ZfsDatasetView {
        ZfsDatasetView { name: self.name@, mount_point: opt_str(self.mount_point) }
    }
}

impl View for ZfsSnapshotPlan {
    type V = ZfsSnapshotPlanView;

    open spec fn view(&self) -> ZfsSnapshotPlanView {
        ZfsSnapshotPlanView {
            dataset: self.dataset@,
            snapshot_name: self.snapshot_name@,
            snapshot_id: self.snapshot_id@,
            read_only: self.read_only,
            args: strs(self.command.args@),
        }
    }
}

impl View for ZfsSnapshotRef {
    type V = ZfsSnapshotRefView;

    open spec fn view(&self) -> ZfsSnapshotRefView {
        ZfsSnapshotRefView {
            dataset: self.dataset@,
            snapshot: self.snapshot@,
            snapshot_id: self.snapshot_id@,
        }
    }
}

impl View for ZfsSendPlan {
    type V = ZfsSendPlanView;

    open spec fn view(&self) -> ZfsSendPlanView {
        ZfsSendPlanView {
            snapshot: self.snapshot@,
            target: self.target@,
            parent_snapshot: match self.parent_snapshot {
                Some(p) => Some(p@),
                None => None,
            },
            temporary_snapshot: match self.temporary_snapshot {
                Some(p) => Some(p@),
                None => None,
            },
            args: strs(self.command.args@),
        }
    }
}

impl View for ZfsReceivePlan {
    type V = ZfsReceivePlanView;

    open spec fn view(&self) -> ZfsReceivePlanView {
        ZfsReceivePlanView {
            stream: self.stream@,
            destination_dataset: self.destination_dataset@,
            args: strs(self.command.args@),
        }
    }
}

pub open spec fn opt_plan_view(o: Option<ZfsSnapshotPlan>) -> Option<ZfsSnapshotPlanView> {
    match o {
        Some(p) => Some(p@),
        None => None,
    }
}

pub open spec fn opt_ref_view(o: Option<ZfsSnapshotRef>) -> Option<ZfsSnapshotRefView> {
    match o {
        Some(p) => Some(p@),
        None => None,
    }
}

/// A command of the ZFS backend: `zfs` with the given arguments.
pub open spec fn is_zfs_command(c: ZfsCommand, args: Seq<Seq<char>>) -> bool {
    c.program@ == "zfs"@ && strs(c.args@) == args
}

/// Every command held by a send plan is a `zfs` command.
pub open spec fn send_plan_programs(p: ZfsSendPlan) -> bool {
    p.command.program@ == "zfs"@ && match p.temporary_snapshot {
        Some(s) => s.command.program@ == "zfs"@,
        None => true,
    }
}

// ---------------------------------------------------------------------------
// What the planner computes
// ---------------------------------------------------------------------------

/// A dataset reference: the trimmed id, with its mount point when it is a path.
pub open spec fn zfs_dataset(id: Seq<char>) -> std::result::Result<ZfsDatasetView, Fault> {
    let raw = trim(id);
    if raw.len() == 0 {
        Err(Fault::InvalidVolume { volume: id })
    } else if raw.contains('@') {
        Err(
            Fault::InvalidArgument {
                message: "zfs provider expects a dataset name or mount path, not a snapshot id: `"@
                    + raw + "`"@,
            },
        )
    } else if raw[0] == '/' {
        Ok(ZfsDatasetView { name: raw, mount_point: Some(raw) })
    } else {
        Ok(ZfsDatasetView { name: raw, mount_point: None })
    }
}

/// A snapshot reference `datasetsnapshot`, both parts non-empty.
pub open spec fn zfs_snapshot_ref(id: Seq<char>) -> std::result::Result<ZfsSnapshotRefView, Fault> {
    let raw = trim(id);
    if raw.len() == 0 {
        Err(Fault::InvalidVolume { volume: id })
    } else {
        match find_char(raw, '@') {
            None => Err(
                Fault::InvalidArgument {
                    message: "zfs send requires a snapshot source like `pool/fs@snap`, got `"@
                        + raw + "`"@,
                },
            ),
            Some(i) => if i == 0 || i + 1 == raw.len() {
                Err(
                    Fault::InvalidArgument {
                        message: "invalid zfs snapshot identifier `"@ + raw + "`"@,
                    },
                )
            } else {
                Ok(
                    ZfsSnapshotRefView {
                        dataset: raw.subrange(0, i),
                        snapshot: raw.subrange(i + 1, raw.len() as int),
                        snapshot_id: raw,
                    },
                )
            },
        }
    }
}

/// The name of a new snapshot: the sanitised label, or `snapshot-<seconds>`.
pub open spec fn zfs_snapshot_name(label: Option<Seq<char>>, ts: u64) -> Seq<char> {
    match label {
        Some(l) => sanitized_label(l),
        None => "snapshot-"@ + decimal(ts as nat),
    }
}

/// The snapshot plan for a source, kind, label and mode, given the time.
pub open spec fn zfs_create_plan(
    source: Seq<char>,
    kind: SnapshotKind,
    label: Option<Seq<char>>,
    read_only: bool,
    ts: u64,
) -> std::result::Result<ZfsSnapshotPlanView, Fault> {
    if kind == SnapshotKind::ApplicationConsistent {
        Err(
            Fault::MissingCapability {
                capability: "application_consistent_snapshot"@,
                backend: "linux-zfs"@,
            },
        )
    } else {
        match zfs_dataset(source) {
            Err(f) => Err(f),
            Ok(d) => {
                let name = zfs_snapshot_name(label, ts);
                let id = d.name + "@"@ + name;
                Ok(
                    ZfsSnapshotPlanView {
                        dataset: d,
                        snapshot_name: name,
                        snapshot_id: id,
                        read_only,
                        args: seq!["snapshot"@] + (if read_only {
                            seq!["-r"@]
                        } else {
                            Seq::<Seq<char>>::empty()
                        }) + seq![id],
                    },
                )
            },
        }
    }
}

/// The arguments of `zfs` that destroy the snapshot a handle names: `destroy <id>`, unless
/// the id is blank.
pub open spec fn zfs_delete_args(id: Seq<char>) -> std::result::Result<Seq<Seq<char>>, Fault> {
    if trim(id).len() == 0 {
        Err(Fault::InvalidArgument { message: "snapshot id must not be empty"@ })
    } else {
        Ok(seq!["destroy"@, id])
    }
}

/// Deleting the snapshot that a create plan makes destroys that very snapshot: the id
/// that the create command names is never blank, and the delete command names it.
pub proof fn lemma_zfs_delete_undoes_create(
    source: Seq<char>,
    kind: SnapshotKind,
    label: Option<Seq<char>>,
    read_only: bool,
    ts: u64,
)
    requires
        zfs_create_plan(source, kind, label, read_only, ts) is Ok,
    ensures
        ({
            let p = zfs_create_plan(source, kind, label, read_only, ts)->Ok_0;
            &&& p.args.last() == p.snapshot_id
            &&& zfs_delete_args(p.snapshot_id) == Ok::<Seq<Seq<char>>, Fault>(
                seq!["destroy"@, p.snapshot_id],
            )
        }),
{
    let p = zfs_create_plan(source, kind, label, read_only, ts)->Ok_0;
    reveal_strlit("@");
    let d = p.dataset.name;
    assert(p.snapshot_id[d.len() as int] == '@');
    lemma_trim_nonempty(p.snapshot_id, d.len() as int);
}

/// The id of the snapshot that a create plan makes reads back as a snapshot reference:
/// the plan's dataset, `@`, and the plan's snapshot name.
pub proof fn lemma_zfs_snapshot_id_reads_back(
    source: Seq<char>,
    kind: SnapshotKind,
    label: Option<Seq<char>>,
    read_only: bool,
    ts: u64,
)
    requires
        zfs_create_plan(source, kind, label, read_only, ts) is Ok,
    ensures
        ({
            let p = zfs_create_plan(source, kind, label, read_only, ts)->Ok_0;
            zfs_snapshot_ref(p.snapshot_id) == Ok::<ZfsSnapshotRefView, Fault>(
                ZfsSnapshotRefView {
                    dataset: p.dataset.name,
                    snapshot: p.snapshot_name,
                    snapshot_id: p.snapshot_id,
                },
            )
        }),
{
    let p = zfs_create_plan(source, kind, label, read_only, ts)->Ok_0;
    let d = p.dataset.name;
    let name = p.snapshot_name;
    let id = p.snapshot_id;
    reveal_strlit("@");
    reveal_strlit("snapshot-");
    assert(d == trim(source));
    lemma_trim_ends(source);
    assert(forall|j: int| 0 <= j < d.len() ==> d[j] != '@');
    match label {
        Some(l) => {
            lemma_sanitized_shape(l, true, true);
        },
        None => {
            lemma_decimal_digits(ts as nat);
            lemma_decimal_last(ts as nat);
            let dec = decimal(ts as nat);
            assert forall|j: int| 0 <= j < name.len() implies #[trigger] name[j] != '@' by {
                if j >= 9 {
                    assert(name[j] == dec[j - 9]);
                }
            }
            assert(name.last() == dec.last());
        },
    }
    assert(forall|j: int| 0 <= j < name.len() ==> #[trigger] name[j] != '@');
    assert(name.len() > 0);
    assert(!is_ws(name.last()));
    assert(id[0] == d[0]);
    assert(id.last() == name.last());
    lemma_trim_plain(id);
    assert forall|j: int| 0 <= j < d.len() implies id[j] != '@' by {
        assert(id[j] == d[j]);
    }
    lemma_find_char_is(id, '@', d.len() as int);
    assert(id.subrange(0, d.len() as int) =~= d);
    assert(id.subrange(d.len() as int + 1, id.len() as int) =~= name);
}

/// A backup of a volume to an image file, with no parent snapshot, sends a temporary
/// snapshot: without a snapshot policy it is refused; with the temporary policy it fails
/// as the create plan for the same request fails, and otherwise sends exactly the
/// snapshot that the create plan makes, with `zfs send <id>`, to the image file.
pub proof fn lemma_zfs_backup_sends_temporary(plan: BackupPlan, ts: u64)
    requires
        plan.parent_snapshot is None,
    ensures
        match (plan.source, plan.target, plan.snapshot_policy) {
            (BackupSource::Volume(v), BackupTarget::ImageFile(_), SnapshotPolicy::Disabled) => zfs_backup_plan(plan, ts)
                == Err::<ZfsSendPlanView, Fault>(
                Fault::InvalidArgument {
                    message: "zfs send backup requires a snapshot source or temporary snapshot policy for `"@
                        + v.id@ + "`"@,
                },
            ),
            (
                BackupSource::Volume(v),
                BackupTarget::ImageFile(t),
                SnapshotPolicy::Temporary { kind, label, read_only },
            ) => match zfs_create_plan(v.id@, kind, opt_str(label), read_only, ts) {
                Err(f) => zfs_backup_plan(plan, ts) == Err::<ZfsSendPlanView, Fault>(f),
                Ok(tp) => zfs_backup_plan(plan, ts) == Ok::<ZfsSendPlanView, Fault>(
                    ZfsSendPlanView {
                        snapshot: ZfsSnapshotRefView {
                            dataset: tp.dataset.name,
                            snapshot: tp.snapshot_name,
                            snapshot_id: tp.snapshot_id,
                        },
                        target: t@,
                        parent_snapshot: None,
                        temporary_snapshot: Some(tp),
                        args: seq!["send"@, tp.snapshot_id],
                    },
                ),
            },
            _ => true,
        },
{
    match (plan.source, plan.target, plan.snapshot_policy) {
        (
            BackupSource::Volume(v),
            BackupTarget::ImageFile(t),
            SnapshotPolicy::Temporary { kind, label, read_only },
        ) => {
            if zfs_create_plan(v.id@, kind, opt_str(label), read_only, ts) is Ok {
                lemma_zfs_snapshot_id_reads_back(v.id@, kind, opt_str(label), read_only, ts);
                let tp = zfs_create_plan(v.id@, kind, opt_str(label), read_only, ts)->Ok_0;
                assert(seq!["send"@] + Seq::<Seq<char>>::empty() + seq![tp.snapshot_id] =~= seq![
                    "send"@,
                    tp.snapshot_id,
                ]);
            }
        },
        _ => {},
    }
}

/// The temporary snapshot a backup plan asks for, given the time.
pub open spec fn zfs_backup_temporary(plan: BackupPlan, ts: u64) -> std::result::Result<
    Option<ZfsSnapshotPlanView>,
    Fault,
> {
    match (plan.source, plan.snapshot_policy) {
        (BackupSource::Volume(v), SnapshotPolicy::Temporary { kind, label, read_only }) => match zfs_create_plan(
            v.id@,
            kind,
            opt_str(label),
            read_only,
            ts,
        ) {
            Err(f) => Err(f),
            Ok(p) => Ok(Some(p)),
        },
        _ => Ok(None),
    }
}

/// The snapshot a backup sends.
pub open spec fn zfs_backup_snapshot(
    plan: BackupPlan,
    tmp: Option<ZfsSnapshotPlanView>,
) -> std::result::Result<ZfsSnapshotRefView, Fault> {
    match plan.source {
        BackupSource::Snapshot(s) => zfs_snapshot_ref(s.id@),
        BackupSource::Volume(v) => match tmp {
            Some(t) => zfs_snapshot_ref(t.snapshot_id),
            None => Err(
                Fault::InvalidArgument {
                    message: "zfs send backup requires a snapshot source or temporary snapshot policy for `"@
                        + v.id@ + "`"@,
                },
            ),
        },
    }
}

/// The send plan of a backup plan, given the time.
pub open spec fn zfs_backup_plan(plan: BackupPlan, ts: u64) -> std::result::Result<
    ZfsSendPlanView,
    Fault,
> {
    match zfs_backup_temporary(plan, ts) {
        Err(f) => Err(f),
        Ok(tmp) => match zfs_backup_snapshot(plan, tmp) {
            Err(f) => Err(f),
            Ok(snap) => match plan.target {
                BackupTarget::Device(p) => Err(
                    Fault::InvalidArgument {
                        message: "zfs send backup requires an image file target, got device `"@
                            + p@ + "`"@,
                    },
                ),
                BackupTarget::ImageFile(target) => {
                    let parent: std::result::Result<Option<ZfsSnapshotRefView>, Fault> = match plan.parent_snapshot {
                        Some(s) => match zfs_snapshot_ref(s.id@) {
                            Err(f) => Err(f),
                            Ok(r) => Ok(Some(r)),
                        },
                        None => Ok(None),
                    };
                    match parent {
                        Err(f) => Err(f),
                        Ok(par) => Ok(
                            ZfsSendPlanView {
                                snapshot: snap,
                                target: target@,
                                parent_snapshot: par,
                                temporary_snapshot: tmp,
                                args: seq!["send"@] + match par {
                                    Some(p) => seq!["-i"@, p.snapshot_id],
                                    None => Seq::<Seq<char>>::empty(),
                                } + seq![snap.snapshot_id],
                            },
                        ),
                    }
                },
            },
        },
    }
}

/// The dataset a receive writes into: the trimmed id, neither a snapshot nor a path.
pub open spec fn zfs_receive_destination(id: Seq<char>) -> std::result::Result<Seq<char>, Fault> {
    let raw = trim(id);
    if raw.len() == 0 {
        Err(Fault::InvalidVolume { volume: id })
    } else if raw.contains('@') {
        Err(
            Fault::InvalidArgument {
                message: "zfs receive expects a dataset destination, not a snapshot id: `"@ + raw
                    + "`"@,
            },
        )
    } else if raw[0] == '/' {
        Err(
            Fault::InvalidArgument {
                message: "zfs receive expects a dataset name like `pool/fs`, not a mount path: `"@
                    + raw + "`"@,
            },
        )
    } else {
        Ok(raw)
    }
}

/// The receive plan of a restore plan, given whether the stream exists.
pub open spec fn zfs_restore_plan(plan: RestorePlan, stream_exists: bool) -> std::result::Result<
    ZfsReceivePlanView,
    Fault,
> {
    match plan.source {
        BackupTarget::Device(p) => Err(
            Fault::InvalidArgument {
                message: "zfs receive restore requires an image file source, got device `"@ + p@
                    + "`"@,
            },
        ),
        BackupTarget::ImageFile(stream) => if !stream_exists {
            Err(Fault::MissingPath { path: stream@ })
        } else {
            match zfs_receive_destination(plan.destination.id@) {
                Err(f) => Err(f),
                Ok(d) => Ok(
                    ZfsReceivePlanView {
                        stream: stream@,
                        destination_dataset: d,
                        args: seq!["receive"@] + (if plan.force {
                            seq!["-F"@]
                        } else {
                            Seq::<Seq<char>>::empty()
                        }) + seq![d],
                    },
                ),
            }
        },
    }
}

/// The record one line of `zfs list -H -o name,mountpoint` gives for `dataset`: lines
/// whose name is a snapshot of the dataset; a mount point of `-`, `legacy` or `none`
/// gives no path.
pub open spec fn zfs_list_entry(line: Seq<char>, dataset: Seq<char>) -> Option<SnapshotInfoView> {
    let l = trim(line);
    if l.len() == 0 {
        None
    } else {
        let parts = split_char(l, '\t');
        let name = parts[0];
        let mount = if parts.len() > 1 {
            parts[1]
        } else {
            "-"@
        };
        if !starts_with(name, dataset + "@"@) {
            None
        } else {
            Some(
                SnapshotInfoView {
                    id: name,
                    source: Some(dataset),
                    backend: "linux-zfs"@,
                    path_hint: if mount == "-"@ || mount == "legacy"@ || mount == "none"@ {
                        None
                    } else {
                        Some(mount)
                    },
                    read_only: true,
                },
            )
        }
    }
}

/// A snapshot of `dataset` is named `<dataset>@<snapshot>`.
pub open spec fn names_snapshot_of(id: Seq<char>, dataset: Seq<char>) -> bool {
    &&& id.len() > dataset.len()
    &&& forall|i: int| 0 <= i < dataset.len() ==> id[i] == dataset[i]
    &&& id[dataset.len() as int] == '@'
}

/// A line of the listing gives a record only for a snapshot of the dataset itself: its
/// id is the dataset's name followed at once by `@`, so the snapshots of a child dataset
/// (`<dataset>/child@x`) or of a dataset whose name merely begins the same way
/// (`<dataset>x@y`) give none. The record is of the dataset, read only, by this backend.
pub proof fn lemma_zfs_entry_names_dataset_snapshot(line: Seq<char>, dataset: Seq<char>)
    ensures
        zfs_list_entry(line, dataset) matches Some(e) ==> {
            &&& names_snapshot_of(e.id, dataset)
            &&& e.source == Some(dataset)
            &&& e.read_only
        },
{
    reveal_strlit("@");
    let l = trim(line);
    if l.len() > 0 {
        let name = split_char(l, '\t')[0];
        let p = dataset + "@"@;
        if starts_with(name, p) {
            assert forall|i: int| 0 <= i < dataset.len() implies name[i] == dataset[i] by {
                assert(name.subrange(0, p.len() as int)[i] == p[i]);
            }
            assert(name.subrange(0, p.len() as int)[dataset.len() as int] == p[dataset.len() as int]);
        }
    }
}

/// Every record of a listing names a snapshot of the dataset itself.
pub proof fn lemma_zfs_entries_name_dataset_snapshots(ls: Seq<Seq<char>>, dataset: Seq<char>)
    ensures
        forall|k: int|
            0 <= k < zfs_list_entries(ls, dataset).len() ==> names_snapshot_of(
                #[trigger] zfs_list_entries(ls, dataset)[k].id,
                dataset,
            ),
    decreases ls.len(),
{
    if ls.len() > 0 {
        lemma_zfs_entries_name_dataset_snapshots(ls.drop_last(), dataset);
        lemma_zfs_entry_names_dataset_snapshot(ls.last(), dataset);
        let before = zfs_list_entries(ls.drop_last(), dataset);
        assert forall|k: int| 0 <= k < zfs_list_entries(ls, dataset).len() implies names_snapshot_of(
            #[trigger] zfs_list_entries(ls, dataset)[k].id,
            dataset,
        ) by {
            if k < before.len() {
                assert(zfs_list_entries(ls, dataset)[k] == before[k]);
            }
        }
    }
}

/// The records the lines give, in order.
pub open spec fn zfs_list_entries(ls: Seq<Seq<char>>, dataset: Seq<char>) -> Seq<SnapshotInfoView>
    decreases ls.len(),
{
    if ls.len() == 0 {
        Seq::empty()
    } else {
        zfs_list_entries(ls.drop_last(), dataset) + match zfs_list_entry(ls.last(), dataset) {
            Some(e) => seq![e],
            None => Seq::<SnapshotInfoView>::empty(),
        }
    }
}

// ---------------------------------------------------------------------------
// The backend
// ---------------------------------------------------------------------------

impl ZfsCommand {
    /// A `zfs` invocation with these arguments.
    fn new(args: Vec<String>) -> (r: ZfsCommand)
        ensures
            r.program@ == "zfs"@,
            r.args@ == args@,
    {
        ZfsCommand { program: "zfs", args }
    }
}

/// The trimmed id, its bounds and characters.
fn trimmed(id: &String) -> (r: Vec<char>)
    ensures
        r@ == trim(id@),
{
    let v = chars_of(id);
    let (a, b) = trim_bounds(v.as_slice());
    slice_chars(v.as_slice(), a, b)
}

impl ZfsBackend {
    #[verifier::type_invariant]
    spec fn well_formed(self) -> bool {
        self.0.name()@ == "linux-zfs"@ && self.0.caps()@ == zfs_capabilities_spec()
    }

    /// The stub this backend answers with.
    pub closed spec fn stub(&self) -> StubBackend {
        self.0
    }

    pub fn new() -> (r: Self)
        ensures
            r.stub().name()@ == "linux-zfs"@,
            r.stub().caps()@ == zfs_capabilities_spec(),
    {
        ZfsBackend(StubBackend::new("linux-zfs", zfs_capabilities()))
    }

    pub fn backend_name(&self) -> (r: &'static str)
        ensures
            r@ == "linux-zfs"@,
    {
        proof {
            use_type_invariant(self);
        }
        self.0.backend_name()
    }

    pub fn capabilities(&self) -> (r: &'static [Capability])
        ensures
            r@ == zfs_capabilities_spec(),
    {
        proof {
            use_type_invariant(self);
        }
        self.0.capabilities()
    }

    pub fn parse_dataset_ref(&self, source: &VolumeRef) -> (r: Result<ZfsDatasetRef>)
        ensures
            outcome(r) == zfs_dataset(source.id@),
    {
        let raw = trimmed(&source.id);
        if raw.len() == 0 {
            return Err(Error::InvalidVolume { volume: source.id.clone() });
        }
        let rs = string_of(raw.as_slice());
        if crate::text::contains_char(raw.as_slice(), '@') {
            return Err(
                Error::InvalidArgument {
                    message: concat3(
                        "zfs provider expects a dataset name or mount path, not a snapshot id: `",
                        &rs,
                        "`",
                    ),
                },
            );
        }
        if raw[0] == '/' {
            Ok(ZfsDatasetRef { name: rs.clone(), mount_point: Some(rs) })
        } else {
            Ok(ZfsDatasetRef { name: rs, mount_point: None })
        }
    }

    pub fn plan_create_snapshot(&self, request: &SnapshotRequest) -> (r: Result<ZfsSnapshotPlan>)
        ensures
            exists|t: u64|
                #[trigger] zfs_create_plan(
                    request.source.id@,
                    request.kind,
                    opt_str(request.label),
                    request.read_only,
                    t,
                ) == outcome(r),
            r matches Ok(p) ==> p.command.program@ == "zfs"@,
    {
        if let SnapshotKind::ApplicationConsistent = request.kind {
            let r = Err(
                Error::MissingCapability {
                    capability: Capability::ApplicationConsistentSnapshot.as_str(),
                    backend: self.backend_name(),
                },
            );
            assert(zfs_create_plan(request.source.id@, request.kind, opt_str(request.label), request.read_only, 0) == outcome(r));
            return r;
        }
        let dataset = match self.parse_dataset_ref(&request.source) {
            Ok(d) => d,
            Err(e) => {
                let r = Err(e);
                assert(zfs_create_plan(request.source.id@, request.kind, opt_str(request.label), request.read_only, 0) == outcome(r));
                return r;
            },
        };
        let (snapshot_name, Ghost(t)) = derive_snapshot_name(&request.label);
        let snapshot_id = concat3(&dataset.name, "@", &snapshot_name);
        let mut args: Vec<String> = Vec::new();
        push_str_owned(&mut args, "snapshot");
        if request.read_only {
            push_str_owned(&mut args, "-r");
        }
        push_string(&mut args, snapshot_id.clone());
        proof {
            assert(strs(args@) =~= seq!["snapshot"@] + (if request.read_only {
                seq!["-r"@]
            } else {
                Seq::<Seq<char>>::empty()
            }) + seq![snapshot_id@]);
        }
        let r = Ok(
            ZfsSnapshotPlan {
                dataset,
                snapshot_name,
                snapshot_id,
                read_only: request.read_only,
                command: ZfsCommand::new(args),
            },
        );
        assert(zfs_create_plan(request.source.id@, request.kind, opt_str(request.label), request.read_only, t) == outcome(r));
        r
    }

    pub fn plan_delete_snapshot(&self, snapshot: &SnapshotHandle) -> (r: Result<ZfsCommand>)
        ensures
            match zfs_delete_args(snapshot.id@) {
                Ok(args) => r is Ok && is_zfs_command(r->Ok_0, args),
                Err(f) => r is Err && fault(r->Err_0) == f,
            },
    {
        let raw = trimmed(&snapshot.id);
        if raw.len() == 0 {
            return Err(
                Error::InvalidArgument { message: String::from_str("snapshot id must not be empty") },
            );
        }
        let mut args: Vec<String> = Vec::new();
        push_str_owned(&mut args, "destroy");
        push_string(&mut args, snapshot.id.clone());
        assert(strs(args@) =~= seq!["destroy"@, snapshot.id@]);
        Ok(ZfsCommand::new(args))
    }

    pub fn plan_list_snapshots(&self, source: &VolumeRef) -> (r: Result<(ZfsDatasetRef, ZfsCommand)>)
        ensures
            match zfs_dataset(source.id@) {
                Ok(d) => r matches Ok((ds, c)) && ds@ == d && is_zfs_command(
                    c,
                    seq![
                        "list"@,
                        "-H"@,
                        "-t"@,
                        "snapshot"@,
                        "-o"@,
                        "name,mountpoint"@,
                        "-r"@,
                        d.name,
                    ],
                ),
                Err(f) => r matches Err(e) && fault(e) == f,
            },
    {
        let dataset = match self.parse_dataset_ref(source) {
            Ok(d) => d,
            Err(e) => return Err(e),
        };
        let mut args: Vec<String> = Vec::new();
        push_str_owned(&mut args, "list");
        push_str_owned(&mut args, "-H");
        push_str_owned(&mut args, "-t");
        push_str_owned(&mut args, "snapshot");
        push_str_owned(&mut args, "-o");
        push_str_owned(&mut args, "name,mountpoint");
        push_str_owned(&mut args, "-r");
        push_string(&mut args, dataset.name.clone());
        assert(strs(args@) =~= seq![
            "list"@,
            "-H"@,
            "-t"@,
            "snapshot"@,
            "-o"@,
            "name,mountpoint"@,
            "-r"@,
            dataset.name@,
        ]);
        Ok((dataset, ZfsCommand::new(args)))
    }

    fn parse_snapshot_id(&self, id: &String) -> (r: Result<ZfsSnapshotRef>)
        ensures
            outcome(r) == zfs_snapshot_ref(id@),
    {
        let raw = trimmed(id);
        if raw.len() == 0 {
            return Err(Error::InvalidVolume { volume: id.clone() });
        }
        let rs = string_of(raw.as_slice());
        match find_char_exec(raw.as_slice(), '@') {
            None => Err(
                Error::InvalidArgument {
                    message: concat3(
                        "zfs send requires a snapshot source like `pool/fs@snap`, got `",
                        &rs,
                        "`",
                    ),
                },
            ),
            Some(i) => {
                proof {
                    crate::text::lemma_find_char(raw@, '@');
                }
                if i == 0 || i + 1 == raw.len() {
                    Err(
                        Error::InvalidArgument {
                            message: concat3("invalid zfs snapshot identifier `", &rs, "`"),
                        },
                    )
                } else {
                    Ok(
                        ZfsSnapshotRef {
                            dataset: string_of_range(raw.as_slice(), 0, i),
                            snapshot: string_of_range(raw.as_slice(), i + 1, raw.len()),
                            snapshot_id: rs,
                        },
                    )
                }
            },
        }
    }

    pub fn parse_snapshot_ref(&self, source: &VolumeRef) -> (r: Result<ZfsSnapshotRef>)
        ensures
            outcome(r) == zfs_snapshot_ref(source.id@),
    {
        self.parse_snapshot_id(&source.id)
    }

    fn parse_receive_destination(&self, destination: &VolumeRef) -> (r: Result<String>)
        ensures
            outcome(r) == zfs_receive_destination(destination.id@),
    {
        let raw = trimmed(&destination.id);
        if raw.len() == 0 {
            return Err(Error::InvalidVolume { volume: destination.id.clone() });
        }
        let rs = string_of(raw.as_slice());
        if crate::text::contains_char(raw.as_slice(), '@') {
            return Err(
                Error::InvalidArgument {
                    message: concat3(
                        "zfs receive expects a dataset destination, not a snapshot id: `",
                        &rs,
                        "`",
                    ),
                },
            );
        }
        if raw[0] == '/' {
            return Err(
                Error::InvalidArgument {
                    message: concat3(
                        "zfs receive expects a dataset name like `pool/fs`, not a mount path: `",
                        &rs,
                        "`",
                    ),
                },
            );
        }
        Ok(rs)
    }
}

/// The name of a new snapshot, stamped with the current time when unlabelled.
fn derive_snapshot_name(label: &Option<String>) -> (r: (String, Ghost<u64>))
    ensures
        r.0@ == zfs_snapshot_name(opt_str(*label), r.1@),
{
    match label {
        Some(l) => (sanitize_snapshot_segment(l), Ghost(0)),
        None => {
            let mut out: Vec<char> = Vec::new();
            push_str(&mut out, "snapshot-");
            let ts = snapshot_time();
            push_decimal(&mut out, ts);
            (string_of(out.as_slice()), Ghost(ts))
        },
    }
}

fn sanitize_snapshot_segment(value: &str) -> (r: String)
    ensures
        r@ == sanitized_label(value@),
{
    sanitize_snapshot_label(value)
}

impl ZfsBackend {
    pub fn plan_backup(&self, plan: &BackupPlan) -> (r: Result<ZfsSendPlan>)
        ensures
            exists|t: u64| #[trigger] zfs_backup_plan(*plan, t) == outcome(r),
            r matches Ok(p) ==> send_plan_programs(p),
    {
        let ghost mut t: u64 = 0;
        let temporary_snapshot: Option<ZfsSnapshotPlan> = match (&plan.source, &plan.snapshot_policy) {
            (BackupSource::Volume(volume), SnapshotPolicy::Temporary { kind, label, read_only }) => {
                let request = SnapshotRequest {
                    source: volume.duplicate(),
                    kind: *kind,
                    label: copy_opt_string(label),
                    read_only: *read_only,
                };
                let sp = self.plan_create_snapshot(&request);
                let ghost tt = choose|tt: u64|
                    #[trigger] zfs_create_plan(
                        request.source.id@,
                        request.kind,
                        opt_str(request.label),
                        request.read_only,
                        tt,
                    ) == outcome(sp);
                proof {
                    t = tt;
                }
                match sp {
                    Ok(p) => Some(p),
                    Err(e) => {
                        let r = Err(e);
                        assert(zfs_backup_plan(*plan, t) == outcome(r));
                        return r;
                    },
                }
            },
            _ => None,
        };
        let ghost tmp_view: Option<ZfsSnapshotPlanView> = opt_plan_view(temporary_snapshot);
        assert(zfs_backup_temporary(*plan, t) == Ok::<Option<ZfsSnapshotPlanView>, Fault>(tmp_view));
        let snapshot_r = match &plan.source {
            BackupSource::Snapshot(s) => self.parse_snapshot_id(&s.id),
            BackupSource::Volume(v) => match &temporary_snapshot {
                Some(tp) => self.parse_snapshot_id(&tp.snapshot_id),
                None => Err(
                    Error::InvalidArgument {
                        message: concat3(
                            "zfs send backup requires a snapshot source or temporary snapshot policy for `",
                            &v.id,
                            "`",
                        ),
                    },
                ),
            },
        };
        assert(outcome(snapshot_r) == zfs_backup_snapshot(*plan, tmp_view));
        let snapshot = match snapshot_r {
            Ok(s) => s,
            Err(e) => {
                let r = Err(e);
                assert(zfs_backup_plan(*plan, t) == outcome(r));
                return r;
            },
        };
        let target = match &plan.target {
            BackupTarget::ImageFile(path) => path.clone(),
            BackupTarget::Device(path) => {
                let r = Err(
                    Error::InvalidArgument {
                        message: concat3(
                            "zfs send backup requires an image file target, got device `",
                            path,
                            "`",
                        ),
                    },
                );
                assert(zfs_backup_plan(*plan, t) == outcome(r));
                return r;
            },
        };
        let parent_snapshot: Option<ZfsSnapshotRef> = match &plan.parent_snapshot {
            Some(s) => match self.parse_snapshot_id(&s.id) {
                Ok(p) => Some(p),
                Err(e) => {
                    let r = Err(e);
                    assert(zfs_backup_plan(*plan, t) == outcome(r));
                    return r;
                },
            },
            None => None,
        };
        let mut args: Vec<String> = Vec::new();
        push_str_owned(&mut args, "send");
        match &parent_snapshot {
            Some(p) => {
                push_str_owned(&mut args, "-i");
                push_string(&mut args, p.snapshot_id.clone());
            },
            None => {},
        }
        push_string(&mut args, snapshot.snapshot_id.clone());
        let ghost par_view: Option<ZfsSnapshotRefView> = opt_ref_view(parent_snapshot);
        proof {
            assert(strs(args@) =~= seq!["send"@] + match par_view {
                Some(p) => seq!["-i"@, p.snapshot_id],
                None => Seq::<Seq<char>>::empty(),
            } + seq![snapshot.snapshot_id@]);
        }
        let r = Ok(
            ZfsSendPlan {
                snapshot,
                target,
                parent_snapshot,
                temporary_snapshot,
                command: ZfsCommand::new(args),
            },
        );
        assert(zfs_backup_plan(*plan, t) == outcome(r));
        r
    }

    /// Plan a restore on this machine: whether the stream file exists is read here.
    pub fn plan_restore(&self, plan: &RestorePlan) -> (r: Result<ZfsReceivePlan>)
        ensures
            exists|s: bool| #[trigger] zfs_restore_plan(*plan, s) == outcome(r),
            r matches Ok(p) ==> p.command.program@ == "zfs"@,
    {
        let stream_exists = match &plan.source {
            BackupTarget::ImageFile(path) => path_exists(path),
            BackupTarget::Device(_) => false,
        };
        self.plan_restore_with(plan, stream_exists)
    }

    /// Plan a restore, given whether the stream file exists.
    pub fn plan_restore_with(&self, plan: &RestorePlan, stream_exists: bool) -> (r: Result<ZfsReceivePlan>)
        ensures
            zfs_restore_plan(*plan, stream_exists) == outcome(r),
            r matches Ok(p) ==> p.command.program@ == "zfs"@,
    {
        let stream = match &plan.source {
            BackupTarget::ImageFile(path) => path.clone(),
            BackupTarget::Device(path) => {
                let r = Err(
                    Error::InvalidArgument {
                        message: concat3(
                            "zfs receive restore requires an image file source, got device `",
                            path,
                            "`",
                        ),
                    },
                );
                assert(zfs_restore_plan(*plan, stream_exists) == outcome(r));
                return r;
            },
        };
        if !stream_exists {
            let r = Err(Error::MissingPath { path: stream });
            assert(zfs_restore_plan(*plan, stream_exists) == outcome(r));
            return r;
        }
        let destination_dataset = match self.parse_receive_destination(&plan.destination) {
            Ok(d) => d,
            Err(e) => {
                let r = Err(e);
                assert(zfs_restore_plan(*plan, stream_exists) == outcome(r));
                return r;
            },
        };
        let mut args: Vec<String> = Vec::new();
        push_str_owned(&mut args, "receive");
        if plan.force {
            push_str_owned(&mut args, "-F");
        }
        push_string(&mut args, destination_dataset.clone());
        proof {
            assert(strs(args@) =~= seq!["receive"@] + (if plan.force {
                seq!["-F"@]
            } else {
                Seq::<Seq<char>>::empty()
            }) + seq![destination_dataset@]);
        }
        let r = Ok(ZfsReceivePlan { stream, destination_dataset, command: ZfsCommand::new(args) });
        assert(zfs_restore_plan(*plan, stream_exists) == outcome(r));
        r
    }

    /// The snapshots that the output of `zfs list` names for `dataset`.
    pub fn parse_list_output(&self, dataset: &ZfsDatasetRef, stdout: &[u8]) -> (r: Vec<
        SnapshotInfo,
    >)
        ensures
            info_views(r@) == zfs_list_entries(lines(utf8_lossy(stdout@)), dataset.name@),
    {
        let text = decode_utf8_lossy(stdout);
        self.parse_list_text(dataset, &text)
    }

    /// The snapshots that the text of a `zfs list` names for `dataset`.
    pub fn parse_list_text(&self, dataset: &ZfsDatasetRef, text: &str) -> (r: Vec<SnapshotInfo>)
        ensures
            info_views(r@) == zfs_list_entries(lines(text@), dataset.name@),
    {
        let tv = chars_of(text);
        let ls = lines_exec(tv.as_slice());
        let mut prefix = chars_of(&dataset.name);
        prefix.push('@');
        assert(prefix@ == dataset.name@ + "@"@) by {
            reveal_strlit("@");
            assert(prefix@ =~= dataset.name@ + "@"@);
        }
        let mut out: Vec<SnapshotInfo> = Vec::new();
        let mut i: usize = 0;
        while i < ls.len()
            invariant
                i <= ls@.len(),
                crate::text::views(ls@) == lines(text@),
                prefix@ == dataset.name@ + "@"@,
                info_views(out@) == zfs_list_entries(lines(text@).subrange(0, i as int), dataset.name@),
            decreases ls@.len() - i,
        {
            let line = &ls[i];
            let entry = self.list_entry(line.as_slice(), dataset, prefix.as_slice());
            proof {
                assert(lines(text@).subrange(0, i + 1).drop_last() =~= lines(text@).subrange(
                    0,
                    i as int,
                ));
                assert(lines(text@)[i as int] == line@);
            }
            match entry {
                Some(info) => {
                    let ghost before = info_views(out@);
                    out.push(info);
                    proof {
                        assert(info_views(out@) =~= before.push(info@));
                        assert(before.push(info@) =~= before + seq![info@]);
                    }
                },
                None => {
                    proof {
                        assert(zfs_list_entries(lines(text@).subrange(0, i + 1), dataset.name@)
                            =~= zfs_list_entries(lines(text@).subrange(0, i as int), dataset.name@));
                    }
                },
            }
            i = i + 1;
        }
        proof {
            assert(lines(text@).subrange(0, ls@.len() as int) =~= lines(text@));
        }
        out
    }

    fn list_entry(&self, line: &[char], dataset: &ZfsDatasetRef, prefix: &[char]) -> (r: Option<
        SnapshotInfo,
    >)
        requires
            prefix@ == dataset.name@ + "@"@,
        ensures
            match r {
                Some(info) => zfs_list_entry(line@, dataset.name@) == Some(info@),
                None => zfs_list_entry(line@, dataset.name@) is None,
            },
    {
        let (a, b) = trim_bounds(line);
        let l = slice_chars(line, a, b);
        if l.len() == 0 {
            return None;
        }
        let parts = split_char_exec(l.as_slice(), '\t');
        proof {
            crate::text::lemma_split_nonempty(l@, '\t');
            assert(parts@[0]@ == split_char(l@, '\t')[0]);
        }
        let name = &parts[0];
        let mount: Vec<char> = if parts.len() > 1 {
            assert(parts@[1]@ == split_char(l@, '\t')[1]);
            slice_chars(parts[1].as_slice(), 0, parts[1].len())
        } else {
            chars_of("-")
        };
        if !starts_with_exec(name.as_slice(), prefix) {
            return None;
        }
        let no_path = chars_eq_str(mount.as_slice(), "-") || chars_eq_str(mount.as_slice(), "legacy")
            || chars_eq_str(mount.as_slice(), "none");
        let path_hint = if no_path {
            None
        } else {
            Some(string_of(mount.as_slice()))
        };
        let info = SnapshotInfo {
            handle: SnapshotHandle {
                id: string_of(name.as_slice()),
                source: Some(VolumeRef { id: dataset.name.clone() }),
            },
            backend: self.backend_name(),
            path_hint,
            read_only: true,
        };
        proof {
            if parts.len() > 1 {
                assert(mount@ =~= parts@[1]@);
            }
        }
        Some(info)
    }

    /// The record of the snapshot that running `plan` (made for `request`) creates.
    pub fn created_snapshot_info(&self, request: &SnapshotRequest, plan: &ZfsSnapshotPlan) -> (r:
        SnapshotInfo)
        ensures
            r@ == (SnapshotInfoView {
                id: plan.snapshot_id@,
                source: Some(request.source.id@),
                backend: "linux-zfs"@,
                path_hint: opt_str(plan.dataset.mount_point),
                read_only: plan.read_only,
            }),
    {
        SnapshotInfo {
            handle: SnapshotHandle {
                id: plan.snapshot_id.clone(),
                source: Some(request.source.duplicate()),
            },
            backend: self.backend_name(),
            path_hint: copy_opt_string(&plan.dataset.mount_point),
            read_only: plan.read_only,
        }
    }

    /// The command that destroys the temporary snapshot of a send once the send is over.
    pub fn cleanup_command(&self, snapshot: &ZfsSnapshotPlan) -> (r: ZfsCommand)
        ensures
            is_zfs_command(r, seq!["destroy"@, snapshot.snapshot_id@]),
    {
        let mut args: Vec<String> = Vec::new();
        push_str_owned(&mut args, "destroy");
        push_string(&mut args, snapshot.snapshot_id.clone());
        assert(strs(args@) =~= seq!["destroy"@, snapshot.snapshot_id@]);
        ZfsCommand::new(args)
    }
}

impl Backend for ZfsBackend {
    open spec fn capability_set(&self) -> Seq<Capability> {
        zfs_capabilities_spec()
    }

    fn backend_name(&self) -> (r: &'static str)
        ensures
            r@ == "linux-zfs"@,
    {
        ZfsBackend::backend_name(self)
    }

    fn capabilities(&self) -> (r: &'static [Capability])
        ensures
            r@ == zfs_capabilities_spec(),
    {
        ZfsBackend::capabilities(self)
    }
}

impl MountManager for ZfsBackend {
    open spec fn mounting(&self, request: MountRequest, r: Result<MountHandle>) -> bool {
        r is Err && fault(r->Err_0) == (Fault::UnsupportedOperation {
            operation: "mount_snapshot"@,
            backend: "linux-zfs"@,
        })
    }

    open spec fn unmounting(&self, handle: MountHandle, r: Result<()>) -> bool {
        r is Err && fault(r->Err_0) == (Fault::UnsupportedOperation {
            operation: "unmount"@,
            backend: "linux-zfs"@,
        })
    }

    fn mount_snapshot(&self, _request: &MountRequest) -> (r: Result<MountHandle>)
        ensures
            r is Err && fault(r->Err_0) == (Fault::UnsupportedOperation {
                operation: "mount_snapshot"@,
                backend: "linux-zfs"@,
            }),
    {
        Err(unsupported("mount_snapshot", ZfsBackend::backend_name(self)))
    }

    fn unmount(&self, _handle: &MountHandle) -> (r: Result<()>)
        ensures
            r is Err && fault(r->Err_0) == (Fault::UnsupportedOperation {
                operation: "unmount"@,
                backend: "linux-zfs"@,
            }),
    {
        Err(unsupported("unmount", ZfsBackend::backend_name(self)))
    }
}

} // verus!
