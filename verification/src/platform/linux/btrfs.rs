//! Btrfs: subvolume snapshots, `btrfs send` backups and `btrfs receive` restores.
use vstd::prelude::*;

use crate::backend::Backend;
use crate::error::{Error, Fault, Result, fault, outcome};
use crate::host::{decode_utf8_lossy, snapshot_time, path_exists, utf8_lossy};
use crate::mount::MountManager;
use crate::path::{file_name, file_name_exec, is_absolute, is_absolute_exec, join, join_exec, parent, parent_exec};
use crate::platform::{StubBackend, unsupported};
use crate::text::{
    opt_str, push_str_owned, push_string,
    chars_of, concat3, decimal, find_seq, find_str, lines, lines_exec, push_chars, push_decimal,
    push_str, slice_chars, string_of, strs, trim, trim_bounds, lemma_trim_nonempty,
};
use crate::types::{
    BackupPlan, BackupSource, BackupTarget, Capability, MountHandle, MountRequest, RestorePlan,
    SnapshotHandle, SnapshotInfo, SnapshotInfoView, SnapshotKind, SnapshotPolicy, SnapshotRequest,
    VolumeRef, copy_opt_string, info_views, sanitize_with, sanitized,
};

verus! {

/// The capabilities of the Btrfs backend.
pub open spec fn btrfs_capabilities_spec() -> Seq<Capability> {
    seq![
        Capability::CrashConsistentSnapshot,
        Capability::ReadOnlySnapshotMount,
        Capability::WritableSnapshotMount,
        Capability::BlockLevelBackup,
        Capability::BlockLevelRestore,
        Capability::IncrementalSend,
    ]
}

fn btrfs_capabilities() -> (r: &'static [Capability])
    ensures
        r@ == btrfs_capabilities_spec(),
{
    &[
        Capability::CrashConsistentSnapshot,
        Capability::ReadOnlySnapshotMount,
        Capability::WritableSnapshotMount,
        Capability::BlockLevelBackup,
        Capability::BlockLevelRestore,
        Capability::IncrementalSend,
    ]
}

#[derive(Debug)]
pub struct BtrfsBackend(StubBackend);

impl Clone for BtrfsBackend {
    /// Every Btrfs backend is the same: a copy is a new one.
    fn clone(&self) -> (r: Self) {
        BtrfsBackend::new()
    }
}

/// A `btrfs` invocation.
#[derive(Debug, Clone, PartialEq, Eq)]
pub struct BtrfsCommand {
    pub program: &'static str,
    pub args: Vec<String>,
}

#[derive(Debug, Clone, PartialEq, Eq)]
pub struct BtrfsSnapshotPlan {
    pub source: String,
    pub snapshot_path: String,
    pub read_only: bool,
    pub command: BtrfsCommand,
}

#[derive(Debug, Clone, PartialEq, Eq)]
pub struct BtrfsSendPlan {
    pub source: String,
    pub target: String,
    pub parent: Option<String>,
    pub temporary_snapshot: Option<BtrfsSnapshotPlan>,
    pub command: BtrfsCommand,
}

#[derive(Debug, Clone, PartialEq, Eq)]
pub struct BtrfsReceivePlan {
    pub stream: String,
    pub destination_dir: String,
    pub command: BtrfsCommand,
}

/// A snapshot plan as plain values; `args` are the arguments of `btrfs`.
pub struct BtrfsSnapshotPlanView {
    pub source: Seq<char>,
    pub snapshot_path: Seq<char>,
    pub read_only: bool,
    pub args: Seq<Seq<char>>,
}

pub struct BtrfsSendPlanView {
    pub source: Seq<char>,
    pub target: Seq<char>,
    pub parent: Option<Seq<char>>,
    pub temporary_snapshot: Option<BtrfsSnapshotPlanView>,
    pub args: Seq<Seq<char>>,
}

pub struct BtrfsReceivePlanView {
    pub stream: Seq<char>,
    pub destination_dir: Seq<char>,
    pub args: Seq<Seq<char>>,
}

/// A command of the Btrfs backend: `btrfs` with the given arguments.
pub open spec fn is_btrfs_command(c: BtrfsCommand, args: Seq<Seq<char>>) -> bool {
    c.program@ == "btrfs"@ && strs(c.args@) == args
}

impl View for BtrfsSnapshotPlan {
    type V = BtrfsSnapshotPlanView;

    open spec fn view(&self) -> BtrfsSnapshotPlanView {
        BtrfsSnapshotPlanView {
            source: self.source@,
            snapshot_path: self.snapshot_path@,
            read_only: self.read_only,
            args: strs(self.command.args@),
        }
    }
}

impl View for BtrfsSendPlan {
    type V = BtrfsSendPlanView;

    open spec fn view(&self) -> BtrfsSendPlanView {
        BtrfsSendPlanView {
            source: self.source@,
            target: self.target@,
            parent: crate::text::opt_str(self.parent),
            temporary_snapshot: match self.temporary_snapshot {
                Some(p) => Some(p@),
                None => None,
            },
            args: strs(self.command.args@),
        }
    }
}

impl View for BtrfsReceivePlan {
    type V = BtrfsReceivePlanView;

    open spec fn view(&self) -> BtrfsReceivePlanView {
        BtrfsReceivePlanView {
            stream: self.stream@,
            destination_dir: self.destination_dir@,
            args: strs(self.command.args@),
        }
    }
}

/// Every command held by a send plan is a `btrfs` command.
pub open spec fn send_plan_programs(p: BtrfsSendPlan) -> bool {
    p.command.program@ == "btrfs"@ && match p.temporary_snapshot {
        Some(s) => s.command.program@ == "btrfs"@,
        None => true,
    }
}

// ---------------------------------------------------------------------------
// What the planner computes
// ---------------------------------------------------------------------------

/// A path naming a subvolume: not blank, and absolute.
pub open spec fn btrfs_volume_path(id: Seq<char>) -> std::result::Result<Seq<char>, Fault> {
    if trim(id).len() == 0 {
        Err(Fault::InvalidVolume { volume: id })
    } else if !is_absolute(id) {
        Err(
            Fault::InvalidArgument {
                message: "btrfs provider expects an absolute subvolume path, got `"@ + id + "`"@,
            },
        )
    } else {
        Ok(id)
    }
}

/// A snapshot handle's path: its id, unless blank.
pub open spec fn btrfs_handle_path(id: Seq<char>) -> std::result::Result<Seq<char>, Fault> {
    if trim(id).len() == 0 {
        Err(Fault::InvalidArgument { message: "snapshot id must not be empty"@ })
    } else {
        Ok(id)
    }
}

/// A snapshot reference's path: its id, unless blank or relative.
pub open spec fn btrfs_ref_path(id: Seq<char>) -> std::result::Result<Seq<char>, Fault> {
    if trim(id).len() == 0 {
        Err(Fault::InvalidArgument { message: "snapshot reference must not be empty"@ })
    } else if !is_absolute(id) {
        Err(
            Fault::InvalidArgument {
                message: "btrfs snapshot reference expects an absolute subvolume path, got `"@
                    + id + "`"@,
            },
        )
    } else {
        Ok(id)
    }
}

/// The name of an unlabelled snapshot: the source's file name (or `volume`), a dash, and
/// the time in seconds.
pub open spec fn btrfs_default_name(source: Seq<char>, ts: u64) -> Seq<char> {
    let stem = match file_name(source) {
        Some(n) => if n.len() > 0 {
            n
        } else {
            "volume"@
        },
        None => "volume"@,
    };
    stem + "-"@ + decimal(ts as nat)
}

/// Where a snapshot of `source` goes: `<parent>/.vb-snapshots/<name>`.
pub open spec fn btrfs_snapshot_path(
    source: Seq<char>,
    label: Option<Seq<char>>,
    ts: u64,
) -> std::result::Result<Seq<char>, Fault> {
    match parent(source) {
        None => Err(
            Fault::InvalidArgument {
                message: "cannot derive snapshot path from `"@ + source + "`"@,
            },
        ),
        Some(par) => {
            let name = match label {
                Some(l) => sanitized(l, false, false),
                None => btrfs_default_name(source, ts),
            };
            Ok(join(join(par, ".vb-snapshots"@), name))
        },
    }
}

/// The arguments of `btrfs subvolume snapshot`.
pub open spec fn btrfs_snapshot_args(source: Seq<char>, path: Seq<char>, read_only: bool) -> Seq<
    Seq<char>,
> {
    seq!["subvolume"@, "snapshot"@] + (if read_only {
        seq!["-r"@]
    } else {
        Seq::<Seq<char>>::empty()
    }) + seq![source, path]
}

/// The application-consistent refusal of the Btrfs backend.
pub open spec fn btrfs_no_app_consistency() -> Fault {
    Fault::MissingCapability {
        capability: "application_consistent_snapshot"@,
        backend: "linux-btrfs"@,
    }
}

/// The snapshot plan for a source, kind, label and mode, given whether the source exists
/// and the time.
pub open spec fn btrfs_create_plan(
    source: Seq<char>,
    kind: SnapshotKind,
    label: Option<Seq<char>>,
    read_only: bool,
    exists: bool,
    ts: u64,
) -> std::result::Result<BtrfsSnapshotPlanView, Fault> {
    if kind == SnapshotKind::ApplicationConsistent {
        Err(btrfs_no_app_consistency())
    } else {
        match btrfs_volume_path(source) {
            Err(f) => Err(f),
            Ok(p) => if !exists {
                Err(Fault::MissingPath { path: p })
            } else {
                match btrfs_snapshot_path(source, label, ts) {
                    Err(f) => Err(f),
                    Ok(path) => Ok(
                        BtrfsSnapshotPlanView {
                            source,
                            snapshot_path: path,
                            read_only,
                            args: btrfs_snapshot_args(source, path, read_only),
                        },
                    ),
                }
            },
        }
    }
}

/// Deleting the snapshot that a create plan makes removes that very subvolume: the path
/// that the snapshot command is given last is never blank, and the delete command names
/// it unchanged.
pub proof fn lemma_btrfs_delete_undoes_create(
    source: Seq<char>,
    kind: SnapshotKind,
    label: Option<Seq<char>>,
    read_only: bool,
    exists: bool,
    ts: u64,
)
    requires
        btrfs_create_plan(source, kind, label, read_only, exists, ts) is Ok,
    ensures
        ({
            let p = btrfs_create_plan(source, kind, label, read_only, exists, ts)->Ok_0;
            &&& p.args.last() == p.snapshot_path
            &&& btrfs_handle_path(p.snapshot_path) == Ok::<Seq<char>, Fault>(p.snapshot_path)
        }),
{
    let p = btrfs_create_plan(source, kind, label, read_only, exists, ts)->Ok_0;
    let par = parent(source)->Some_0;
    let name = match label {
        Some(l) => sanitized(l, false, false),
        None => btrfs_default_name(source, ts),
    };
    reveal_strlit(".vb-snapshots");
    let dir = join(par, ".vb-snapshots"@);
    assert(dir.len() > 0 && dir.last() == 's');
    let path = join(dir, name);
    assert(path == p.snapshot_path);
    if is_absolute(name) {
        lemma_trim_nonempty(path, 0);
    } else {
        assert(path[dir.len() - 1] == 's');
        lemma_trim_nonempty(path, dir.len() - 1);
    }
}

/// The image file a send writes to.
pub open spec fn btrfs_send_target(t: BackupTarget) -> std::result::Result<Seq<char>, Fault> {
    match t {
        BackupTarget::ImageFile(p) => Ok(p@),
        BackupTarget::Device(p) => Err(
            Fault::InvalidArgument {
                message: "btrfs send backup requires an image file target, got device `"@ + p@
                    + "`"@,
            },
        ),
    }
}

/// The subvolume a send reads and the temporary snapshot it needs, given whether the
/// source exists and the time.
pub open spec fn btrfs_send_source(plan: BackupPlan, exists: bool, ts: u64) -> std::result::Result<
    (Seq<char>, Option<BtrfsSnapshotPlanView>),
    Fault,
> {
    match plan.source {
        BackupSource::Snapshot(s) => match btrfs_ref_path(s.id@) {
            Err(f) => Err(f),
            Ok(p) => Ok((p, None)),
        },
        BackupSource::Volume(v) => match plan.snapshot_policy {
            SnapshotPolicy::Disabled => match btrfs_volume_path(v.id@) {
                Err(f) => Err(f),
                Ok(p) => if !exists {
                    Err(Fault::MissingPath { path: p })
                } else {
                    Ok((p, None))
                },
            },
            SnapshotPolicy::Temporary { kind, label, read_only } => match btrfs_create_plan(
                v.id@,
                kind,
                crate::text::opt_str(label),
                read_only,
                exists,
                ts,
            ) {
                Err(f) => Err(f),
                Ok(sp) => Ok((sp.snapshot_path, Some(sp))),
            },
        },
    }
}

/// The send plan of a backup plan, given whether the source exists and the time.
pub open spec fn btrfs_backup_plan(plan: BackupPlan, exists: bool, ts: u64) -> std::result::Result<
    BtrfsSendPlanView,
    Fault,
> {
    match btrfs_send_target(plan.target) {
        Err(f) => Err(f),
        Ok(target) => match btrfs_send_source(plan, exists, ts) {
            Err(f) => Err(f),
            Ok((source, tmp)) => {
                let parent: std::result::Result<Option<Seq<char>>, Fault> = match plan.parent_snapshot {
                    Some(s) => match btrfs_ref_path(s.id@) {
                        Err(f) => Err(f),
                        Ok(p) => Ok(Some(p)),
                    },
                    None => Ok(None),
                };
                match parent {
                    Err(f) => Err(f),
                    Ok(par) => Ok(
                        BtrfsSendPlanView {
                            source,
                            target,
                            parent: par,
                            temporary_snapshot: tmp,
                            args: seq!["send"@] + match par {
                                Some(p) => seq!["-p"@, p],
                                None => Seq::<Seq<char>>::empty(),
                            } + seq![source],
                        },
                    ),
                }
            },
        },
    }
}

/// A backup of a volume to an image file, with the temporary snapshot policy and no parent
/// snapshot, sends the snapshot that the create plan for the same request makes: it fails
/// as that plan fails, and otherwise its source is the plan's snapshot path, sent with
/// `btrfs send <path>` to the image file.
pub proof fn lemma_btrfs_backup_sends_temporary(plan: BackupPlan, exists: bool, ts: u64)
    requires
        plan.parent_snapshot is None,
    ensures
        match (plan.source, plan.target, plan.snapshot_policy) {
            (
                BackupSource::Volume(v),
                BackupTarget::ImageFile(t),
                SnapshotPolicy::Temporary { kind, label, read_only },
            ) => match btrfs_create_plan(v.id@, kind, opt_str(label), read_only, exists, ts) {
                Err(f) => btrfs_backup_plan(plan, exists, ts) == Err::<BtrfsSendPlanView, Fault>(f),
                Ok(tp) => btrfs_backup_plan(plan, exists, ts) == Ok::<BtrfsSendPlanView, Fault>(
                    BtrfsSendPlanView {
                        source: tp.snapshot_path,
                        target: t@,
                        parent: None,
                        temporary_snapshot: Some(tp),
                        args: seq!["send"@, tp.snapshot_path],
                    },
                ),
            },
            _ => true,
        },
{
    match (plan.source, plan.target, plan.snapshot_policy) {
        (
            BackupSource::Volume(v),
            BackupTarget::ImageFile(t),
            SnapshotPolicy::Temporary { kind, label, read_only },
        ) => {
            if btrfs_create_plan(v.id@, kind, opt_str(label), read_only, exists, ts) is Ok {
                let tp = btrfs_create_plan(v.id@, kind, opt_str(label), read_only, exists, ts)->Ok_0;
                assert(seq!["send"@] + Seq::<Seq<char>>::empty() + seq![tp.snapshot_path] =~= seq![
                    "send"@,
                    tp.snapshot_path,
                ]);
            }
        },
        _ => {},
    }
}

/// The receive plan of a restore plan, given whether the stream and the destination exist.
pub open spec fn btrfs_restore_plan(
    plan: RestorePlan,
    stream_exists: bool,
    destination_exists: bool,
) -> std::result::Result<BtrfsReceivePlanView, Fault> {
    match plan.source {
        BackupTarget::Device(p) => Err(
            Fault::InvalidArgument {
                message: "btrfs receive restore requires an image file source, got device `"@
                    + p@ + "`"@,
            },
        ),
        BackupTarget::ImageFile(stream) => if !stream_exists {
            Err(Fault::MissingPath { path: stream@ })
        } else {
            match btrfs_volume_path(plan.destination.id@) {
                Err(f) => Err(f),
                Ok(d) => if !destination_exists {
                    Err(Fault::MissingPath { path: d })
                } else {
                    Ok(
                        BtrfsReceivePlanView {
                            stream: stream@,
                            destination_dir: d,
                            args: seq!["receive"@, d],
                        },
                    )
                },
            }
        },
    }
}

/// The snapshot path a line of `btrfs subvolume list` names: the text after ` path `
/// (up to a further ` path `), trimmed, and joined to `base` when relative and `base`
/// is known.
pub open spec fn btrfs_list_line_path(line: Seq<char>, base: Option<Seq<char>>) -> Option<
    Seq<char>,
> {
    match find_seq(line, " path "@) {
        None => None,
        Some(i) => {
            let rest = line.subrange(i + 6, line.len() as int);
            let piece = match find_seq(rest, " path "@) {
                Some(j) => rest.subrange(0, j),
                None => rest,
            };
            let raw = trim(piece);
            Some(
                if is_absolute(raw) {
                    raw
                } else {
                    match base {
                        Some(b) => join(b, raw),
                        None => raw,
                    }
                },
            )
        },
    }
}

/// The snapshot paths named by the lines, in order.
pub open spec fn btrfs_list_paths(ls: Seq<Seq<char>>, base: Option<Seq<char>>) -> Seq<Seq<char>>
    decreases ls.len(),
{
    if ls.len() == 0 {
        Seq::empty()
    } else {
        btrfs_list_paths(ls.drop_last(), base) + match btrfs_list_line_path(ls.last(), base) {
            Some(p) => seq![p],
            None => Seq::<Seq<char>>::empty(),
        }
    }
}

/// The record of a listed Btrfs snapshot of `source` at `p`.
pub open spec fn btrfs_listed(source: Seq<char>, p: Seq<char>) -> SnapshotInfoView {
    SnapshotInfoView {
        id: p,
        source: Some(source),
        backend: "linux-btrfs"@,
        path_hint: Some(p),
        read_only: true,
    }
}

/// The records that the listing text gives for `source`.
pub open spec fn btrfs_list(source: Seq<char>, text: Seq<char>) -> Seq<SnapshotInfoView> {
    btrfs_list_paths(lines(text), parent(source)).map_values(|p: Seq<char>| btrfs_listed(source, p))
}

// ---------------------------------------------------------------------------
// The backend
// ---------------------------------------------------------------------------

impl BtrfsCommand {
    /// A `btrfs` invocation with these arguments.
    fn new(args: Vec<String>) -> (r: BtrfsCommand)
        ensures
            r.program@ == "btrfs"@,
            r.args@ == args@,
    {
        BtrfsCommand { program: "btrfs", args }
    }
}

fn owned(s: &str) -> (r: String)
    ensures
        r@ == s@,
{
    String::from_str(s)
}

impl BtrfsBackend {
    #[verifier::type_invariant]
    spec fn well_formed(self) -> bool {
        self.0.name()@ == "linux-btrfs"@ && self.0.caps()@ == btrfs_capabilities_spec()
    }

    /// The stub this backend answers with.
    pub closed spec fn stub(&self) -> StubBackend {
        self.0
    }

    pub fn new() -> (r: Self)
        ensures
            r.stub().name()@ == "linux-btrfs"@,
            r.stub().caps()@ == btrfs_capabilities_spec(),
    {
        BtrfsBackend(StubBackend::new("linux-btrfs", btrfs_capabilities()))
    }

    pub fn backend_name(&self) -> (r: &'static str)
        ensures
            r@ == "linux-btrfs"@,
    {
        proof {
            use_type_invariant(self);
        }
        self.0.backend_name()
    }

    pub fn capabilities(&self) -> (r: &'static [Capability])
        ensures
            r@ == btrfs_capabilities_spec(),
    {
        proof {
            use_type_invariant(self);
        }
        self.0.capabilities()
    }

    fn volume_path(&self, source: &VolumeRef) -> (r: Result<String>)
        ensures
            outcome(r) == btrfs_volume_path(source.id@),
    {
        let v = chars_of(&source.id);
        let (a, b) = trim_bounds(v.as_slice());
        if a == b {
            return Err(Error::InvalidVolume { volume: source.id.clone() });
        }
        if !is_absolute_exec(v.as_slice()) {
            return Err(
                Error::InvalidArgument {
                    message: concat3(
                        "btrfs provider expects an absolute subvolume path, got `",
                        &source.id,
                        "`",
                    ),
                },
            );
        }
        Ok(source.id.clone())
    }

    fn snapshot_handle_path(&self, snapshot: &SnapshotHandle) -> (r: Result<String>)
        ensures
            outcome(r) == btrfs_handle_path(snapshot.id@),
    {
        let v = chars_of(&snapshot.id);
        let (a, b) = trim_bounds(v.as_slice());
        if a == b {
            return Err(Error::InvalidArgument { message: owned("snapshot id must not be empty") });
        }
        Ok(snapshot.id.clone())
    }

    fn snapshot_ref_path(&self, id: &String) -> (r: Result<String>)
        ensures
            outcome(r) == btrfs_ref_path(id@),
    {
        let v = chars_of(id);
        let (a, b) = trim_bounds(v.as_slice());
        if a == b {
            return Err(
                Error::InvalidArgument { message: owned("snapshot reference must not be empty") },
            );
        }
        if !is_absolute_exec(v.as_slice()) {
            return Err(
                Error::InvalidArgument {
                    message: concat3(
                        "btrfs snapshot reference expects an absolute subvolume path, got `",
                        id,
                        "`",
                    ),
                },
            );
        }
        Ok(id.clone())
    }

    fn derive_snapshot_path(&self, label: &Option<String>, source: &String, now: u64) -> (r: Result<String>)
        ensures
            btrfs_snapshot_path(source@, opt_str(*label), now) == outcome(r),
    {
        let sv = chars_of(source);
        match parent_exec(sv.as_slice()) {
            None => {
                let r = Err(
                    Error::InvalidArgument {
                        message: concat3("cannot derive snapshot path from `", source, "`"),
                    },
                );
                r
            },
            Some(par) => {
                let hidden = chars_of(".vb-snapshots");
                let root = join_exec(par.as_slice(), hidden.as_slice());
                let name = match label {
                    Some(l) => sanitize_with(l, false, false),
                    None => default_snapshot_name(sv.as_slice(), now),
                };
                let nv = chars_of(&name);
                let full = join_exec(root.as_slice(), nv.as_slice());
                Ok(string_of(full.as_slice()))
            },
        }
    }

    /// Plan a snapshot of `request` on this machine: whether the source subvolume exists,
    /// and the time (for an unlabelled snapshot's name), are read here.
    pub fn plan_create_snapshot(&self, request: &SnapshotRequest) -> (r: Result<BtrfsSnapshotPlan>)
        ensures
            exists|e: bool, t: u64|
                #[trigger] btrfs_create_plan(
                    request.source.id@,
                    request.kind,
                    opt_str(request.label),
                    request.read_only,
                    e,
                    t,
                ) == outcome(r),
            r matches Ok(p) ==> p.command.program@ == "btrfs"@,
    {
        let source_exists = match request.kind {
            SnapshotKind::ApplicationConsistent => false,
            SnapshotKind::CrashConsistent => match self.volume_path(&request.source) {
                Ok(p) => path_exists(&p),
                Err(_) => false,
            },
        };
        let now = match &request.label {
            Some(_) => 0,
            None => snapshot_time(),
        };
        self.plan_create_snapshot_with(request, source_exists, now)
    }

    /// Plan a snapshot of `request`, given whether the source subvolume exists and the
    /// time in seconds since the epoch.
    pub fn plan_create_snapshot_with(&self, request: &SnapshotRequest, source_exists: bool, now: u64) -> (r: Result<BtrfsSnapshotPlan>)
        ensures
            btrfs_create_plan(
                request.source.id@,
                request.kind,
                opt_str(request.label),
                request.read_only,
                source_exists,
                now,
            ) == outcome(r),
            r matches Ok(p) ==> p.command.program@ == "btrfs"@,
    {
        if let SnapshotKind::ApplicationConsistent = request.kind {
            let r = Err(
                Error::MissingCapability {
                    capability: Capability::ApplicationConsistentSnapshot.as_str(),
                    backend: self.backend_name(),
                },
            );
            assert(btrfs_create_plan(request.source.id@, request.kind, opt_str(request.label), request.read_only, source_exists, now) == outcome(r));
            return r;
        }
        let checked = self.volume_path(&request.source);
        let p = match checked {
            Err(e) => {
                let r = Err(e);
                assert(btrfs_create_plan(request.source.id@, request.kind, opt_str(request.label), request.read_only, source_exists, now) == outcome(r));
                return r;
            },
            Ok(p) => p,
        };
        if !source_exists {
            let r = Err(Error::MissingPath { path: p });
            assert(btrfs_create_plan(request.source.id@, request.kind, opt_str(request.label), request.read_only, source_exists, now) == outcome(r));
            return r;
        }
        let source = request.source.id.clone();
        let derived = self.derive_snapshot_path(&request.label, &source, now);
        let snapshot_path = match derived {
            Err(e) => {
                let r = Err(e);
                assert(btrfs_create_plan(request.source.id@, request.kind, opt_str(request.label), request.read_only, source_exists, now) == outcome(r));
                return r;
            },
            Ok(sp) => sp,
        };
        let mut args: Vec<String> = Vec::new();
        push_str_owned(&mut args, "subvolume");
        push_str_owned(&mut args, "snapshot");
        if request.read_only {
            push_str_owned(&mut args, "-r");
        }
        push_string(&mut args, source.clone());
        push_string(&mut args, snapshot_path.clone());
        proof {
            assert(strs(args@) =~= btrfs_snapshot_args(source@, snapshot_path@, request.read_only));
        }
        let r = Ok(
            BtrfsSnapshotPlan {
                source,
                snapshot_path,
                read_only: request.read_only,
                command: BtrfsCommand::new(args),
            },
        );
        assert(btrfs_create_plan(request.source.id@, request.kind, opt_str(request.label), request.read_only, source_exists, now) == outcome(r));
        r
    }

    pub fn plan_delete_snapshot(&self, snapshot: &SnapshotHandle) -> (r: Result<BtrfsCommand>)
        ensures
            match btrfs_handle_path(snapshot.id@) {
                Ok(p) => r is Ok && is_btrfs_command(r->Ok_0, seq!["subvolume"@, "delete"@, p]),
                Err(f) => r is Err && fault(r->Err_0) == f,
            },
    {
        let path = match self.snapshot_handle_path(snapshot) {
            Ok(p) => p,
            Err(e) => return Err(e),
        };
        let mut args: Vec<String> = Vec::new();
        push_str_owned(&mut args, "subvolume");
        push_str_owned(&mut args, "delete");
        let ghost pv = path@;
        push_string(&mut args, path);
        assert(strs(args@) =~= seq!["subvolume"@, "delete"@, pv]);
        Ok(BtrfsCommand::new(args))
    }

    pub fn plan_list_snapshots(&self, source: &VolumeRef) -> (r: Result<BtrfsCommand>)
        ensures
            match btrfs_volume_path(source.id@) {
                Ok(p) => r is Ok && is_btrfs_command(
                    r->Ok_0,
                    seq!["subvolume"@, "list"@, "-s"@, p],
                ),
                Err(f) => r is Err && fault(r->Err_0) == f,
            },
    {
        let path = match self.volume_path(source) {
            Ok(p) => p,
            Err(e) => return Err(e),
        };
        let mut args: Vec<String> = Vec::new();
        push_str_owned(&mut args, "subvolume");
        push_str_owned(&mut args, "list");
        push_str_owned(&mut args, "-s");
        let ghost pv = path@;
        push_string(&mut args, path);
        assert(strs(args@) =~= seq!["subvolume"@, "list"@, "-s"@, pv]);
        Ok(BtrfsCommand::new(args))
    }
}

impl BtrfsBackend {
    /// The subvolume a send reads and the temporary snapshot it needs.
    fn send_source(&self, plan: &BackupPlan, source_exists: bool, now: u64) -> (r: Result<
        (String, Option<BtrfsSnapshotPlan>),
    >)
        ensures
            match btrfs_send_source(*plan, source_exists, now) {
                Ok((s, tmp)) => r matches Ok((es, et)) && es@ == s && match et {
                    Some(p) => tmp == Some(p@) && p.command.program@ == "btrfs"@,
                    None => tmp is None,
                },
                Err(f) => r matches Err(e) && fault(e) == f,
            },
    {
        match &plan.source {
            BackupSource::Snapshot(s) => match self.snapshot_ref_path(&s.id) {
                Ok(p) => Ok((p, None)),
                Err(e) => Err(e),
            },
            BackupSource::Volume(v) => match &plan.snapshot_policy {
                SnapshotPolicy::Disabled => match self.volume_path(v) {
                    Err(e) => Err(e),
                    Ok(p) => {
                        if !source_exists {
                            Err(Error::MissingPath { path: p })
                        } else {
                            Ok((p, None))
                        }
                    },
                },
                SnapshotPolicy::Temporary { kind, label, read_only } => {
                    let request = SnapshotRequest {
                        source: v.duplicate(),
                        kind: *kind,
                        label: copy_opt_string(label),
                        read_only: *read_only,
                    };
                    match self.plan_create_snapshot_with(&request, source_exists, now) {
                        Err(err) => Err(err),
                        Ok(p) => {
                            let path = p.snapshot_path.clone();
                            Ok((path, Some(p)))
                        },
                    }
                },
            },
        }
    }

    /// Plan a backup on this machine: whether the source volume's subvolume exists, and
    /// the time (for an unlabelled temporary snapshot's name), are read here.
    pub fn plan_backup(&self, plan: &BackupPlan) -> (r: Result<BtrfsSendPlan>)
        ensures
            exists|e: bool, t: u64| #[trigger] btrfs_backup_plan(*plan, e, t) == outcome(r),
            r matches Ok(p) ==> send_plan_programs(p),
    {
        let (source_exists, now) = match &plan.source {
            BackupSource::Volume(v) => {
                let exists = match self.volume_path(v) {
                    Ok(p) => path_exists(&p),
                    Err(_) => false,
                };
                let now = match &plan.snapshot_policy {
                    SnapshotPolicy::Temporary { label: None, .. } => snapshot_time(),
                    _ => 0,
                };
                (exists, now)
            },
            BackupSource::Snapshot(_) => (false, 0),
        };
        self.plan_backup_with(plan, source_exists, now)
    }

    /// Plan a backup, given whether the source volume's subvolume exists and the time in
    /// seconds since the epoch.
    pub fn plan_backup_with(&self, plan: &BackupPlan, source_exists: bool, now: u64) -> (r: Result<BtrfsSendPlan>)
        ensures
            btrfs_backup_plan(*plan, source_exists, now) == outcome(r),
            r matches Ok(p) ==> send_plan_programs(p),
    {
        let target = match &plan.target {
            BackupTarget::ImageFile(path) => path.clone(),
            BackupTarget::Device(path) => {
                return Err(
                    Error::InvalidArgument {
                        message: concat3(
                            "btrfs send backup requires an image file target, got device `",
                            path,
                            "`",
                        ),
                    },
                );
            },
        };
        let src = self.send_source(plan, source_exists, now);
        let (source, temporary_snapshot) = match src {
            Err(err) => {
                return Err(err);
            },
            Ok(x) => x,
        };
        let parent: Option<String> = match &plan.parent_snapshot {
            Some(s) => match self.snapshot_ref_path(&s.id) {
                Ok(p) => Some(p),
                Err(err) => {
                    return Err(err);
                },
            },
            None => None,
        };
        let mut args: Vec<String> = Vec::new();
        push_str_owned(&mut args, "send");
        match &parent {
            Some(p) => {
                push_str_owned(&mut args, "-p");
                push_string(&mut args, p.clone());
            },
            None => {},
        }
        push_string(&mut args, source.clone());
        proof {
            let par = opt_str(parent);
            assert(strs(args@) =~= seq!["send"@] + match par {
                Some(p) => seq!["-p"@, p],
                None => Seq::<Seq<char>>::empty(),
            } + seq![source@]);
        }
        let r = Ok(
            BtrfsSendPlan {
                source,
                target,
                parent,
                temporary_snapshot,
                command: BtrfsCommand::new(args),
            },
        );
        r
    }

    /// Plan a restore on this machine: whether the stream file and the destination
    /// subvolume exist is read here.
    pub fn plan_restore(&self, plan: &RestorePlan) -> (r: Result<BtrfsReceivePlan>)
        ensures
            exists|s: bool, d: bool| #[trigger] btrfs_restore_plan(*plan, s, d) == outcome(r),
            r matches Ok(p) ==> p.command.program@ == "btrfs"@,
    {
        let stream_exists = match &plan.source {
            BackupTarget::ImageFile(path) => path_exists(path),
            BackupTarget::Device(_) => false,
        };
        let destination_exists = stream_exists && match self.volume_path(&plan.destination) {
            Ok(d) => path_exists(&d),
            Err(_) => false,
        };
        self.plan_restore_with(plan, stream_exists, destination_exists)
    }

    /// Plan a restore, given whether the stream file exists and whether the destination
    /// subvolume exists.
    pub fn plan_restore_with(&self, plan: &RestorePlan, stream_exists: bool, destination_exists: bool) -> (r: Result<BtrfsReceivePlan>)
        ensures
            btrfs_restore_plan(*plan, stream_exists, destination_exists) == outcome(r),
            r matches Ok(p) ==> p.command.program@ == "btrfs"@,
    {
        let stream = match &plan.source {
            BackupTarget::ImageFile(path) => path.clone(),
            BackupTarget::Device(path) => {
                let r = Err(
                    Error::InvalidArgument {
                        message: concat3(
                            "btrfs receive restore requires an image file source, got device `",
                            path,
                            "`",
                        ),
                    },
                );
                assert(btrfs_restore_plan(*plan, stream_exists, destination_exists) == outcome(r));
                return r;
            },
        };
        if !stream_exists {
            let r = Err(Error::MissingPath { path: stream });
            assert(btrfs_restore_plan(*plan, stream_exists, destination_exists) == outcome(r));
            return r;
        }
        let destination_dir = match self.volume_path(&plan.destination) {
            Ok(d) => d,
            Err(err) => {
                let r = Err(err);
                assert(btrfs_restore_plan(*plan, stream_exists, destination_exists) == outcome(r));
                return r;
            },
        };
        if !destination_exists {
            let r = Err(Error::MissingPath { path: destination_dir });
            assert(btrfs_restore_plan(*plan, stream_exists, destination_exists) == outcome(r));
            return r;
        }
        let mut args: Vec<String> = Vec::new();
        push_str_owned(&mut args, "receive");
        push_string(&mut args, destination_dir.clone());
        assert(strs(args@) =~= seq!["receive"@, destination_dir@]);
        let r = Ok(BtrfsReceivePlan { stream, destination_dir, command: BtrfsCommand::new(args) });
        assert(btrfs_restore_plan(*plan, stream_exists, destination_exists) == outcome(r));
        r
    }

    /// The snapshots that the output of `btrfs subvolume list` names for `source`.
    pub fn parse_list_output(&self, source: &VolumeRef, stdout: &[u8]) -> (r: Vec<SnapshotInfo>)
        ensures
            info_views(r@) == btrfs_list(source.id@, utf8_lossy(stdout@)),
    {
        let text = decode_utf8_lossy(stdout);
        self.parse_list_text(source, &text)
    }

    /// The snapshots that the text of a `btrfs subvolume list` names for `source`.
    pub fn parse_list_text(&self, source: &VolumeRef, text: &str) -> (r: Vec<SnapshotInfo>)
        ensures
            info_views(r@) == btrfs_list(source.id@, text@),
    {
        let sv = chars_of(&source.id);
        let base = parent_exec(sv.as_slice());
        let ghost base_view: Option<Seq<char>> = crate::text::opt_chars(base);
        assert(base_view == parent(source.id@));
        let tv = chars_of(text);
        let ls = lines_exec(tv.as_slice());
        let mut out: Vec<SnapshotInfo> = Vec::new();
        let mut i: usize = 0;
        while i < ls.len()
            invariant
                i <= ls@.len(),
                crate::text::views(ls@) == lines(text@),
                base_view == parent(source.id@),
                base_view == crate::text::opt_chars(base),
                info_views(out@) == btrfs_list_paths(
                    lines(text@).subrange(0, i as int),
                    base_view,
                ).map_values(|p: Seq<char>| btrfs_listed(source.id@, p)),
            decreases ls@.len() - i,
        {
            let line = &ls[i];
            let found = list_line_path(line.as_slice(), &base);
            proof {
                assert(lines(text@).subrange(0, i + 1).drop_last() =~= lines(text@).subrange(
                    0,
                    i as int,
                ));
                assert(lines(text@)[i as int] == line@);
            }
            match found {
                Some(p) => {
                    let info = SnapshotInfo {
                        handle: SnapshotHandle {
                            id: string_of(p.as_slice()),
                            source: Some(source.duplicate()),
                        },
                        backend: self.backend_name(),
                        path_hint: Some(string_of(p.as_slice())),
                        read_only: true,
                    };
                    let ghost before = info_views(out@);
                    out.push(info);
                    proof {
                        assert(info_views(out@) =~= before.push(btrfs_listed(source.id@, p@)));
                        let ps = btrfs_list_paths(lines(text@).subrange(0, i as int), base_view);
                        assert(btrfs_list_paths(lines(text@).subrange(0, i + 1), base_view)
                            == ps.push(p@)) by {
                            assert(ps + seq![p@] =~= ps.push(p@));
                        }
                        assert(ps.push(p@).map_values(|q: Seq<char>| btrfs_listed(source.id@, q))
                            =~= ps.map_values(|q: Seq<char>| btrfs_listed(source.id@, q)).push(
                            btrfs_listed(source.id@, p@),
                        ));
                    }
                },
                None => {
                    proof {
                        let ps = btrfs_list_paths(lines(text@).subrange(0, i as int), base_view);
                        assert(btrfs_list_paths(lines(text@).subrange(0, i + 1), base_view)
                            =~= ps);
                    }
                },
            }
            i = i + 1;
        }
        proof {
            assert(lines(text@).subrange(0, ls@.len() as int) =~= lines(text@));
        }
        out
    }
}

/// The snapshot path one listing line names.
fn list_line_path(line: &[char], base: &Option<Vec<char>>) -> (r: Option<Vec<char>>)
    ensures
        match r {
            Some(p) => btrfs_list_line_path(line@, crate::text::opt_chars(*base)) == Some(p@),
            None => btrfs_list_line_path(line@, crate::text::opt_chars(*base)) is None,
        },
{
    proof {
        reveal_strlit(" path ");
    }
    let marker = chars_of(" path ");
    assert(marker@.len() == 6);
    let i = match find_str(line, " path ") {
        None => return None,
        Some(i) => i,
    };
    proof {
        crate::text::lemma_find_seq_bounds(line@, " path "@);
    }
    let n = line.len();
    let rest = slice_chars(line, i + 6, n);
    let piece = match find_str(rest.as_slice(), " path ") {
        Some(j) => {
            proof {
                crate::text::lemma_find_seq_bounds(rest@, " path "@);
            }
            slice_chars(rest.as_slice(), 0, j)
        },
        None => rest,
    };
    let (a, b) = trim_bounds(piece.as_slice());
    let raw = slice_chars(piece.as_slice(), a, b);
    if is_absolute_exec(raw.as_slice()) {
        Some(raw)
    } else {
        match base {
            Some(bv) => Some(join_exec(bv.as_slice(), raw.as_slice())),
            None => Some(raw),
        }
    }
}

/// The default name of a snapshot of `source`, stamped with the current time.
fn default_snapshot_name(source: &[char], now: u64) -> (r: String)
    ensures
        r@ == btrfs_default_name(source@, now),
{
    let mut out: Vec<char> = Vec::new();
    match file_name_exec(source) {
        Some(n) => {
            if n.len() > 0 {
                push_chars(&mut out, n.as_slice());
            } else {
                push_str(&mut out, "volume");
            }
        },
        None => push_str(&mut out, "volume"),
    }
    push_str(&mut out, "-");
    push_decimal(&mut out, now);
    proof {
        assert(out@ =~= btrfs_default_name(source@, now));
    }
    string_of(out.as_slice())
}

impl BtrfsBackend {
    /// The record of the snapshot that running `plan` (made for `request`) creates.
    pub fn created_snapshot_info(&self, request: &SnapshotRequest, plan: &BtrfsSnapshotPlan) -> (r:
        SnapshotInfo)
        ensures
            r@ == (SnapshotInfoView {
                id: plan.snapshot_path@,
                source: Some(request.source.id@),
                backend: "linux-btrfs"@,
                path_hint: Some(plan.snapshot_path@),
                read_only: plan.read_only,
            }),
    {
        SnapshotInfo {
            handle: SnapshotHandle {
                id: plan.snapshot_path.clone(),
                source: Some(request.source.duplicate()),
            },
            backend: self.backend_name(),
            path_hint: Some(plan.snapshot_path.clone()),
            read_only: plan.read_only,
        }
    }

    /// The command that removes the temporary snapshot of a send once the send is over.
    pub fn cleanup_command(&self, snapshot: &BtrfsSnapshotPlan) -> (r: BtrfsCommand)
        ensures
            is_btrfs_command(r, seq!["subvolume"@, "delete"@, snapshot.snapshot_path@]),
    {
        let mut args: Vec<String> = Vec::new();
        push_str_owned(&mut args, "subvolume");
        push_str_owned(&mut args, "delete");
        push_string(&mut args, snapshot.snapshot_path.clone());
        assert(strs(args@) =~= seq!["subvolume"@, "delete"@, snapshot.snapshot_path@]);
        BtrfsCommand::new(args)
    }
}

impl Backend for BtrfsBackend {
    open spec fn capability_set(&self) -> Seq<Capability> {
        btrfs_capabilities_spec()
    }

    fn backend_name(&self) -> (r: &'static str)
        ensures
            r@ == "linux-btrfs"@,
    {
        BtrfsBackend::backend_name(self)
    }

    fn capabilities(&self) -> (r: &'static [Capability])
        ensures
            r@ == btrfs_capabilities_spec(),
    {
        BtrfsBackend::capabilities(self)
    }
}

impl MountManager for BtrfsBackend {
    open spec fn mounting(&self, request: MountRequest, r: Result<MountHandle>) -> bool {
        r is Err && fault(r->Err_0) == (Fault::UnsupportedOperation {
            operation: "mount_snapshot"@,
            backend: "linux-btrfs"@,
        })
    }

    open spec fn unmounting(&self, handle: MountHandle, r: Result<()>) -> bool {
        r is Err && fault(r->Err_0) == (Fault::UnsupportedOperation {
            operation: "unmount"@,
            backend: "linux-btrfs"@,
        })
    }

    fn mount_snapshot(&self, _request: &MountRequest) -> (r: Result<MountHandle>)
        ensures
            r is Err && fault(r->Err_0) == (Fault::UnsupportedOperation {
                operation: "mount_snapshot"@,
                backend: "linux-btrfs"@,
            }),
    {
        Err(unsupported("mount_snapshot", BtrfsBackend::backend_name(self)))
    }

    fn unmount(&self, _handle: &MountHandle) -> (r: Result<()>)
        ensures
            r is Err && fault(r->Err_0) == (Fault::UnsupportedOperation {
                operation: "unmount"@,
                backend: "linux-btrfs"@,
            }),
    {
        Err(unsupported("unmount", BtrfsBackend::backend_name(self)))
    }
}

} // verus!
