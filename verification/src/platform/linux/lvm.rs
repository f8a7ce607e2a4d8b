//! LVM: logical-volume snapshots with `lvcreate`, `lvchange`, `lvremove` and `lvs`.
use vstd::prelude::*;

use crate::backend::Backend;
use crate::error::{Error, Fault, Result, fault, outcome};
use crate::host::{decode_utf8_lossy, snapshot_time, utf8_lossy};
use crate::mount::MountManager;
use crate::path::{components, components_exec, is_absolute, is_absolute_exec};
use crate::platform::{StubBackend, unsupported};
use crate::text::{
    chars_eq, chars_eq_str, chars_of, concat3, contains_char, decimal, lines, lines_exec, opt_str,
    push_chars, push_decimal, push_str, push_str_owned, push_string, slice_chars, split_char,
    split_char_exec, string_of, strs, trim, trim_bounds, views, lemma_decimal_last, lemma_trim_plain,
};
use crate::copy::{DEFAULT_BLOCK_SIZE, effective_block_size};
use crate::types::{
    BackupPlan, BackupSource, BackupTarget, Capability, MountHandle, MountRequest, RestorePlan, SnapshotHandle, SnapshotInfo,
    SnapshotInfoView, SnapshotKind, SnapshotRequest, VolumeRef, info_views, sanitize_with,
    sanitized, label_char_allowed, lemma_sanitized_shape, SnapshotPolicy, copy_opt_string,
};

verus! {

/// The capabilities of the LVM backend.
pub open spec fn lvm_capabilities_spec() -> Seq<Capability> {
    seq![
        Capability::CrashConsistentSnapshot,
        Capability::ReadOnlySnapshotMount,
        Capability::WritableSnapshotMount,
        Capability::BlockLevelBackup,
        Capability::BlockLevelRestore,
        Capability::DirectDeviceAccess,
    ]
}

fn lvm_capabilities() -> (r: &'static [Capability])
    ensures
        r@ == lvm_capabilities_spec(),
{
    &[
        Capability::CrashConsistentSnapshot,
        Capability::ReadOnlySnapshotMount,
        Capability::WritableSnapshotMount,
        Capability::BlockLevelBackup,
        Capability::BlockLevelRestore,
        Capability::DirectDeviceAccess,
    ]
}

#[derive(Debug)]
pub struct LvmBackend(StubBackend);

impl Clone for LvmBackend {
    /// Every LVM backend is the same: a copy is a new one.
    fn clone(&self) -> (r: Self) {
        LvmBackend::new()
    }
}

#[derive(Debug, Clone, PartialEq, Eq)]
pub struct LvmVolumeRef {
    pub vg_name: String,
    pub lv_name: String,
    pub lv_path: String,
}

#[derive(Debug, Clone, PartialEq, Eq)]
pub struct LvmCommand {
    pub program: &'static str,
    pub args: Vec<String>,
}

#[derive(Debug, Clone, PartialEq, Eq)]
pub struct LvmSnapshotPlan {
    pub source: LvmVolumeRef,
    pub snapshot_name: String,
    pub snapshot_path: String,
    pub read_only: bool,
    pub commands: Vec<LvmCommand>,
}

/// A block-level backup of a logical volume: the device copied, the file or device
/// written, the chunk size, and the temporary snapshot copied from, if any.
#[derive(Debug)]
pub struct LvmCopyPlan {
    pub source: String,
    pub target: String,
    pub block_size: usize,
    pub temporary_snapshot: Option<LvmSnapshotPlan>,
}

pub struct LvmVolumeView {
    pub vg_name: Seq<char>,
    pub lv_name: Seq<char>,
    pub lv_path: Seq<char>,
}

/// A command as plain values: the program and its arguments.
pub struct LvmCommandView {
    pub program: Seq<char>,
    pub args: Seq<Seq<char>>,
}

pub struct LvmSnapshotPlanView {
    pub source: LvmVolumeView,
    pub snapshot_name: Seq<char>,
    pub snapshot_path: Seq<char>,
    pub read_only: bool,
    pub commands: Seq<LvmCommandView>,
}

pub struct LvmCopyPlanView {
    pub source: Seq<char>,
    pub target: Seq<char>,
    pub block_size: usize,
    pub temporary_snapshot: Option<LvmSnapshotPlanView>,
}

impl View for LvmCopyPlan {
    type V = LvmCopyPlanView;

    open spec fn view(&self) -> LvmCopyPlanView {
        LvmCopyPlanView {
            source: self.source@,
            target: self.target@,
            block_size: self.block_size,
            temporary_snapshot: match self.temporary_snapshot {
                Some(p) => Some(p@),
                None => None,
            },
        }
    }
}

impl View for LvmVolumeRef {
    type V = LvmVolumeView;

    open spec fn view(&self) -> LvmVolumeView {
        LvmVolumeView { vg_name: self.vg_name@, lv_name: self.lv_name@, lv_path: self.lv_path@ }
    }
}

impl View for LvmCommand {
    type V = LvmCommandView;

    open spec fn view(&self) -> LvmCommandView {
        LvmCommandView { program: self.program@, args: strs(self.args@) }
    }
}

impl View for LvmSnapshotPlan {
    type V = LvmSnapshotPlanView;

    open spec fn view(&self) -> LvmSnapshotPlanView {
        LvmSnapshotPlanView {
            source: self.source@,
            snapshot_name: self.snapshot_name@,
            snapshot_path: self.snapshot_path@,
            read_only: self.read_only,
            commands: self.commands@.map_values(|c: LvmCommand| c@),
        }
    }
}

// ---------------------------------------------------------------------------
// What the planner computes
// ---------------------------------------------------------------------------

/// A logical volume path `/dev/<vg>/<lv>`: trimmed, absolute, with exactly the
/// components `/`, `dev`, the volume group and the logical volume.
pub open spec fn lvm_volume(id: Seq<char>) -> std::result::Result<LvmVolumeView, Fault> {
    let raw = trim(id);
    if raw.len() == 0 {
        Err(Fault::InvalidVolume { volume: id })
    } else if !is_absolute(raw) {
        Err(
            Fault::InvalidArgument {
                message: "lvm provider expects an absolute LV path, got `"@ + raw + "`"@,
            },
        )
    } else {
        let c = components(raw);
        if c.len() != 4 || c[1] != "dev"@ {
            Err(
                Fault::InvalidArgument {
                    message: "lvm provider expects `/dev/<vg>/<lv>` paths, got `"@ + raw + "`"@,
                },
            )
        } else {
            Ok(LvmVolumeView { vg_name: c[2], lv_name: c[3], lv_path: raw })
        }
    }
}

/// The name of a new snapshot: the sanitised label, or `<lv>-snap-<seconds>`.
pub open spec fn lvm_snapshot_name(lv_name: Seq<char>, label: Option<Seq<char>>, ts: u64) -> Seq<
    char,
> {
    match label {
        Some(l) => sanitized(l, true, false),
        None => lv_name + "-snap-"@ + decimal(ts as nat),
    }
}

/// The file or device a block copy reads from or writes to.
pub open spec fn block_path(t: BackupTarget) -> Seq<char> {
    match t {
        BackupTarget::ImageFile(p) => p@,
        BackupTarget::Device(p) => p@,
    }
}

/// The block-level backup of a plan, given the time: it copies a snapshot's logical
/// volume, the source volume itself without a snapshot policy, or a temporary snapshot
/// of it, made as the create plan for the same request says; it writes the image file or
/// device of the target, in chunks of the plan's size (4 MiB by default).
pub open spec fn lvm_backup_copy(plan: BackupPlan, ts: u64) -> std::result::Result<LvmCopyPlanView, Fault> {
    let source: std::result::Result<(Seq<char>, Option<LvmSnapshotPlanView>), Fault> = match plan.source {
        BackupSource::Snapshot(s) => match lvm_volume(s.id@) {
            Err(f) => Err(f),
            Ok(v) => Ok((v.lv_path, None)),
        },
        BackupSource::Volume(v) => match plan.snapshot_policy {
            SnapshotPolicy::Disabled => match lvm_volume(v.id@) {
                Err(f) => Err(f),
                Ok(l) => Ok((l.lv_path, None)),
            },
            SnapshotPolicy::Temporary { kind, label, read_only } => match lvm_create_plan(
                v.id@,
                kind,
                opt_str(label),
                read_only,
                ts,
            ) {
                Err(f) => Err(f),
                Ok(p) => Ok((p.snapshot_path, Some(p))),
            },
        },
    };
    match source {
        Err(f) => Err(f),
        Ok((s, tmp)) => Ok(
            LvmCopyPlanView {
                source: s,
                target: block_path(plan.target),
                block_size: match plan.block_size {
                    Some(b) => b,
                    None => DEFAULT_BLOCK_SIZE,
                },
                temporary_snapshot: tmp,
            },
        ),
    }
}

/// The block-level restore of a plan: it needs `force`, as it overwrites the destination
/// logical volume; it copies the image file or device of the source onto the
/// destination's volume path, in chunks of the plan's size (4 MiB by default).
pub open spec fn lvm_restore_copy(plan: RestorePlan) -> std::result::Result<(Seq<char>, Seq<char>, usize), Fault> {
    if !plan.force {
        Err(
            Fault::InvalidArgument {
                message: "lvm restore requires `--force` because it overwrites the destination volume"@,
            },
        )
    } else {
        match lvm_volume(plan.destination.id@) {
            Err(f) => Err(f),
            Ok(v) => Ok(
                (
                    block_path(plan.source),
                    v.lv_path,
                    match plan.block_size {
                        Some(b) => b,
                        None => DEFAULT_BLOCK_SIZE,
                    },
                ),
            ),
        }
    }
}

/// The command that removes the snapshot a handle names: `lvremove --yes` with the trimmed
/// id, unless the id is blank.
pub open spec fn lvm_delete_command(id: Seq<char>) -> std::result::Result<LvmCommandView, Fault> {
    if trim(id).len() == 0 {
        Err(Fault::InvalidArgument { message: "snapshot id must not be empty"@ })
    } else {
        Ok(LvmCommandView { program: "lvremove"@, args: seq!["--yes"@, trim(id)] })
    }
}

/// The snapshot plan for a source, kind, label and mode, given the time.
pub open spec fn lvm_create_plan(
    source: Seq<char>,
    kind: SnapshotKind,
    label: Option<Seq<char>>,
    read_only: bool,
    ts: u64,
) -> std::result::Result<LvmSnapshotPlanView, Fault> {
    if kind == SnapshotKind::ApplicationConsistent {
        Err(
            Fault::MissingCapability {
                capability: "application_consistent_snapshot"@,
                backend: "linux-lvm"@,
            },
        )
    } else {
        match lvm_volume(source) {
            Err(f) => Err(f),
            Ok(v) => {
                let name = lvm_snapshot_name(v.lv_name, label, ts);
                let path = "/dev/"@ + v.vg_name + "/"@ + name;
                let create = LvmCommandView {
                    program: "lvcreate"@,
                    args: seq![
                        "--snapshot"@,
                        "--extents"@,
                        "20%ORIGIN"@,
                        "--name"@,
                        name,
                        v.lv_path,
                    ],
                };
                let protect = LvmCommandView {
                    program: "lvchange"@,
                    args: seq!["--permission"@, "r"@, path],
                };
                Ok(
                    LvmSnapshotPlanView {
                        source: v,
                        snapshot_name: name,
                        snapshot_path: path,
                        read_only,
                        commands: if read_only {
                            seq![create, protect]
                        } else {
                            seq![create]
                        },
                    },
                )
            },
        }
    }
}

/// Deleting the snapshot that a create plan makes removes that very snapshot: the path
/// that the plan records is `/dev/<vg>/<name>` for the name that `lvcreate` is given, and
/// the delete command names that path unchanged.
pub proof fn lemma_lvm_delete_undoes_create(
    source: Seq<char>,
    kind: SnapshotKind,
    label: Option<Seq<char>>,
    read_only: bool,
    ts: u64,
)
    requires
        lvm_create_plan(source, kind, label, read_only, ts) is Ok,
    ensures
        ({
            let p = lvm_create_plan(source, kind, label, read_only, ts)->Ok_0;
            &&& p.commands[0].args[4] == p.snapshot_name
            &&& p.snapshot_path == "/dev/"@ + p.source.vg_name + "/"@ + p.snapshot_name
            &&& lvm_delete_command(p.snapshot_path) == Ok::<LvmCommandView, Fault>(
                LvmCommandView { program: "lvremove"@, args: seq!["--yes"@, p.snapshot_path] },
            )
        }),
{
    let p = lvm_create_plan(source, kind, label, read_only, ts)->Ok_0;
    let path = p.snapshot_path;
    let name = p.snapshot_name;
    reveal_strlit("/dev/");
    reveal_strlit("/");
    reveal_strlit("-snap-");
    assert(path[0] == '/');
    match label {
        Some(l) => {
            lemma_sanitized_shape(l, true, false);
            assert(label_char_allowed(name[name.len() - 1], true, false));
        },
        None => {
            lemma_decimal_last(ts as nat);
            assert(name.last() == decimal(ts as nat).last());
        },
    }
    assert(path.last() == name.last());
    lemma_trim_plain(path);
}

/// The record one line of `lvs` output gives for `source`: four `|`-separated fields
/// (lv_name, origin, lv_path, lv_attr), a snapshot (`s`/`S` attribute) of `source`.
pub open spec fn lvm_list_entry(line: Seq<char>, source: LvmVolumeView) -> Option<
    SnapshotInfoView,
> {
    let l = trim(line);
    if l.len() == 0 {
        None
    } else {
        let parts = split_char(l, '|').map_values(|p: Seq<char>| trim(p));
        if parts.len() != 4 {
            None
        } else if parts[1] != source.lv_name {
            None
        } else if !(parts[3].len() > 0 && (parts[3][0] == 's' || parts[3][0] == 'S')) {
            None
        } else {
            Some(
                SnapshotInfoView {
                    id: parts[2],
                    source: Some(source.lv_path),
                    backend: "linux-lvm"@,
                    path_hint: Some(parts[2]),
                    read_only: parts[3].contains('r'),
                },
            )
        }
    }
}

/// The records the lines give, in order.
pub open spec fn lvm_list_entries(ls: Seq<Seq<char>>, source: LvmVolumeView) -> Seq<
    SnapshotInfoView,
>
    decreases ls.len(),
{
    if ls.len() == 0 {
        Seq::empty()
    } else {
        lvm_list_entries(ls.drop_last(), source) + match lvm_list_entry(ls.last(), source) {
            Some(e) => seq![e],
            None => Seq::<SnapshotInfoView>::empty(),
        }
    }
}

// ---------------------------------------------------------------------------
// The backend
// ---------------------------------------------------------------------------

impl LvmCommand {
    /// An invocation of `program` with these arguments.
    fn new(program: &'static str, args: Vec<String>) -> (r: LvmCommand)
        ensures
            r.program == program,
            r.args@ == args@,
    {
        LvmCommand { program, args }
    }
}

impl LvmBackend {
    #[verifier::type_invariant]
    spec fn well_formed(self) -> bool {
        self.0.name()@ == "linux-lvm"@ && self.0.caps()@ == lvm_capabilities_spec()
    }

    /// The stub this backend answers with.
    pub closed spec fn stub(&self) -> StubBackend {
        self.0
    }

    pub fn new() -> (r: Self)
        ensures
            r.stub().name()@ == "linux-lvm"@,
            r.stub().caps()@ == lvm_capabilities_spec(),
    {
        LvmBackend(StubBackend::new("linux-lvm", lvm_capabilities()))
    }

    pub fn backend_name(&self) -> (r: &'static str)
        ensures
            r@ == "linux-lvm"@,
    {
        proof {
            use_type_invariant(self);
        }
        self.0.backend_name()
    }

    pub fn capabilities(&self) -> (r: &'static [Capability])
        ensures
            r@ == lvm_capabilities_spec(),
    {
        proof {
            use_type_invariant(self);
        }
        self.0.capabilities()
    }

    pub fn parse_volume_ref(&self, source: &VolumeRef) -> (r: Result<LvmVolumeRef>)
        ensures
            outcome(r) == lvm_volume(source.id@),
    {
        let v = chars_of(&source.id);
        let (a, b) = trim_bounds(v.as_slice());
        if a == b {
            return Err(Error::InvalidVolume { volume: source.id.clone() });
        }
        let raw = slice_chars(v.as_slice(), a, b);
        let rs = string_of(raw.as_slice());
        if !is_absolute_exec(raw.as_slice()) {
            return Err(
                Error::InvalidArgument {
                    message: concat3("lvm provider expects an absolute LV path, got `", &rs, "`"),
                },
            );
        }
        let comps = components_exec(raw.as_slice());
        if comps.len() != 4 || !chars_eq_str(comps[1].as_slice(), "dev") {
            return Err(
                Error::InvalidArgument {
                    message: concat3("lvm provider expects `/dev/<vg>/<lv>` paths, got `", &rs, "`"),
                },
            );
        }
        proof {
            assert(views(comps@)[2] == comps@[2]@);
            assert(views(comps@)[3] == comps@[3]@);
        }
        Ok(
            LvmVolumeRef {
                vg_name: string_of(comps[2].as_slice()),
                lv_name: string_of(comps[3].as_slice()),
                lv_path: rs,
            },
        )
    }

    pub fn plan_create_snapshot(&self, request: &SnapshotRequest) -> (r: Result<LvmSnapshotPlan>)
        ensures
            exists|t: u64|
                #[trigger] lvm_create_plan(
                    request.source.id@,
                    request.kind,
                    opt_str(request.label),
                    request.read_only,
                    t,
                ) == outcome(r),
    {
        if let SnapshotKind::ApplicationConsistent = request.kind {
            let r = Err(
                Error::MissingCapability {
                    capability: Capability::ApplicationConsistentSnapshot.as_str(),
                    backend: self.backend_name(),
                },
            );
            assert(lvm_create_plan(request.source.id@, request.kind, opt_str(request.label), request.read_only, 0) == outcome(r));
            return r;
        }
        let source = match self.parse_volume_ref(&request.source) {
            Ok(s) => s,
            Err(e) => {
                let r = Err(e);
                assert(lvm_create_plan(request.source.id@, request.kind, opt_str(request.label), request.read_only, 0) == outcome(r));
                return r;
            },
        };
        let (snapshot_name, Ghost(t)) = derive_snapshot_name(&source.lv_name, &request.label);
        let mut pv: Vec<char> = Vec::new();
        push_str(&mut pv, "/dev/");
        push_chars(&mut pv, chars_of(&source.vg_name).as_slice());
        push_str(&mut pv, "/");
        push_chars(&mut pv, chars_of(&snapshot_name).as_slice());
        let snapshot_path = string_of(pv.as_slice());
        let mut create_args: Vec<String> = Vec::new();
        push_str_owned(&mut create_args, "--snapshot");
        push_str_owned(&mut create_args, "--extents");
        push_str_owned(&mut create_args, "20%ORIGIN");
        push_str_owned(&mut create_args, "--name");
        push_string(&mut create_args, snapshot_name.clone());
        push_string(&mut create_args, source.lv_path.clone());
        let mut commands: Vec<LvmCommand> = Vec::new();
        let create = LvmCommand::new("lvcreate", create_args);
        let ghost create_view = create@;
        commands.push(create);
        let mut change_args: Vec<String> = Vec::new();
        push_str_owned(&mut change_args, "--permission");
        push_str_owned(&mut change_args, "r");
        push_string(&mut change_args, snapshot_path.clone());
        let protect = LvmCommand::new("lvchange", change_args);
        let ghost protect_view = protect@;
        if request.read_only {
            commands.push(protect);
            proof {
                assert(commands@.map_values(|c: LvmCommand| c@) =~= seq![create_view, protect_view]);
            }
        } else {
            proof {
                assert(commands@.map_values(|c: LvmCommand| c@) =~= seq![create_view]);
            }
        }
        let ghost spec_plan = lvm_create_plan(request.source.id@, request.kind, opt_str(request.label), request.read_only, t);
        let r = Ok(
            LvmSnapshotPlan {
                source,
                snapshot_name,
                snapshot_path,
                read_only: request.read_only,
                commands,
            },
        );
        proof {
            let sp = spec_plan->Ok_0;
            let rp = r->Ok_0@;
            assert(spec_plan is Ok);
            assert(rp.source == sp.source);
            assert(rp.snapshot_name == sp.snapshot_name);
            assert(rp.snapshot_path =~= sp.snapshot_path);
            assert(create_view.args =~= sp.commands[0].args);
            assert(create_view == sp.commands[0]);
            assert(protect_view.args =~= seq!["--permission"@, "r"@, sp.snapshot_path]);
            assert(rp.commands =~= sp.commands);
        }
        assert(spec_plan == outcome(r));
        r
    }

    /// Plan a block-level backup.
    pub fn plan_backup_copy(&self, plan: &BackupPlan) -> (r: Result<LvmCopyPlan>)
        ensures
            exists|t: u64| #[trigger] lvm_backup_copy(*plan, t) == outcome(r),
    {
        let block_size = effective_block_size(plan.block_size);
        let ghost mut t: u64 = 0;
        let source: Result<(String, Option<LvmSnapshotPlan>)> = match &plan.source {
            BackupSource::Snapshot(s) => match self.parse_volume_ref(&VolumeRef { id: s.id.clone() }) {
                Err(e) => Err(e),
                Ok(v) => Ok((v.lv_path, None)),
            },
            BackupSource::Volume(v) => match &plan.snapshot_policy {
                SnapshotPolicy::Disabled => match self.parse_volume_ref(v) {
                    Err(e) => Err(e),
                    Ok(l) => Ok((l.lv_path, None)),
                },
                SnapshotPolicy::Temporary { kind, label, read_only } => {
                    let request = SnapshotRequest {
                        source: v.duplicate(),
                        kind: *kind,
                        label: copy_opt_string(label),
                        read_only: *read_only,
                    };
                    let created = self.plan_create_snapshot(&request);
                    proof {
                        t = choose|tt: u64|
                            #[trigger] lvm_create_plan(
                                request.source.id@,
                                request.kind,
                                opt_str(request.label),
                                request.read_only,
                                tt,
                            ) == outcome(created);
                    }
                    match created {
                        Err(e) => Err(e),
                        Ok(p) => {
                            let path = p.snapshot_path.clone();
                            Ok((path, Some(p)))
                        },
                    }
                },
            },
        };
        let r = match source {
            Err(e) => Err(e),
            Ok((s, tmp)) => {
                let target = match &plan.target {
                    BackupTarget::ImageFile(p) => p.clone(),
                    BackupTarget::Device(p) => p.clone(),
                };
                Ok(LvmCopyPlan { source: s, target, block_size, temporary_snapshot: tmp })
            },
        };
        assert(lvm_backup_copy(*plan, t) == outcome(r));
        r
    }

    /// Plan a block-level restore: the image file or device copied, the volume path
    /// written, and the chunk size.
    pub fn plan_restore_copy(&self, plan: &RestorePlan) -> (r: Result<(String, String, usize)>)
        ensures
            match lvm_restore_copy(*plan) {
                Ok((s, d, b)) => r matches Ok((es, ed, eb)) && es@ == s && ed@ == d && eb == b,
                Err(f) => r matches Err(e) && fault(e) == f,
            },
    {
        if !plan.force {
            return Err(
                Error::InvalidArgument {
                    message: String::from_str(
                        "lvm restore requires `--force` because it overwrites the destination volume",
                    ),
                },
            );
        }
        let destination = self.parse_volume_ref(&plan.destination)?;
        let source = match &plan.source {
            BackupTarget::ImageFile(p) => p.clone(),
            BackupTarget::Device(p) => p.clone(),
        };
        Ok((source, destination.lv_path, effective_block_size(plan.block_size)))
    }

    /// The command that removes a temporary snapshot once the copy is over.
    pub fn cleanup_command(&self, snapshot: &LvmSnapshotPlan) -> (r: LvmCommand)
        ensures
            r@ == (LvmCommandView { program: "lvremove"@, args: seq!["--yes"@, snapshot.snapshot_path@] }),
    {
        let mut args: Vec<String> = Vec::new();
        push_str_owned(&mut args, "--yes");
        push_string(&mut args, snapshot.snapshot_path.clone());
        assert(strs(args@) =~= seq!["--yes"@, snapshot.snapshot_path@]);
        LvmCommand::new("lvremove", args)
    }

    pub fn plan_delete_snapshot(&self, snapshot: &SnapshotHandle) -> (r: Result<LvmCommand>)
        ensures
            match lvm_delete_command(snapshot.id@) {
                Ok(c) => r is Ok && r->Ok_0@ == c,
                Err(f) => r is Err && fault(r->Err_0) == f,
            },
    {
        let v = chars_of(&snapshot.id);
        let (a, b) = trim_bounds(v.as_slice());
        if a == b {
            return Err(
                Error::InvalidArgument { message: String::from_str("snapshot id must not be empty") },
            );
        }
        let path = crate::text::string_of_range(v.as_slice(), a, b);
        let mut args: Vec<String> = Vec::new();
        push_str_owned(&mut args, "--yes");
        let ghost pv = path@;
        push_string(&mut args, path);
        assert(strs(args@) =~= seq!["--yes"@, pv]);
        Ok(LvmCommand::new("lvremove", args))
    }

    pub fn plan_list_snapshots(&self, source: &VolumeRef) -> (r: Result<(LvmVolumeRef, LvmCommand)>)
        ensures
            match lvm_volume(source.id@) {
                Ok(v) => r matches Ok((vr, c)) && vr@ == v && c@ == (LvmCommandView {
                    program: "lvs"@,
                    args: seq![
                        "--noheadings"@,
                        "--separator"@,
                        "|"@,
                        "--options"@,
                        "lv_name,origin,lv_path,lv_attr"@,
                        v.vg_name,
                    ],
                }),
                Err(f) => r matches Err(e) && fault(e) == f,
            },
    {
        let volume = match self.parse_volume_ref(source) {
            Ok(v) => v,
            Err(e) => return Err(e),
        };
        let mut args: Vec<String> = Vec::new();
        push_str_owned(&mut args, "--noheadings");
        push_str_owned(&mut args, "--separator");
        push_str_owned(&mut args, "|");
        push_str_owned(&mut args, "--options");
        push_str_owned(&mut args, "lv_name,origin,lv_path,lv_attr");
        push_string(&mut args, volume.vg_name.clone());
        assert(strs(args@) =~= seq![
            "--noheadings"@,
            "--separator"@,
            "|"@,
            "--options"@,
            "lv_name,origin,lv_path,lv_attr"@,
            volume.vg_name@,
        ]);
        Ok((volume, LvmCommand::new("lvs", args)))
    }

    /// The snapshots of `source` that the output of `lvs` lists.
    pub fn parse_list_output(&self, source: &LvmVolumeRef, stdout: &[u8]) -> (r: Vec<SnapshotInfo>)
        ensures
            info_views(r@) == lvm_list_entries(lines(utf8_lossy(stdout@)), source@),
    {
        let text = decode_utf8_lossy(stdout);
        self.parse_list_text(source, &text)
    }

    /// The snapshots of `source` that the text of an `lvs` listing names.
    pub fn parse_list_text(&self, source: &LvmVolumeRef, text: &str) -> (r: Vec<SnapshotInfo>)
        ensures
            info_views(r@) == lvm_list_entries(lines(text@), source@),
    {
        let tv = chars_of(text);
        let ls = lines_exec(tv.as_slice());
        let mut out: Vec<SnapshotInfo> = Vec::new();
        let mut i: usize = 0;
        while i < ls.len()
            invariant
                i <= ls@.len(),
                views(ls@) == lines(text@),
                info_views(out@) == lvm_list_entries(lines(text@).subrange(0, i as int), source@),
            decreases ls@.len() - i,
        {
            let line = &ls[i];
            let entry = self.list_entry(line.as_slice(), source);
            proof {
                assert(lines(text@).subrange(0, i + 1).drop_last() =~= lines(text@).subrange(
                    0,
                    i as int,
                ));
                assert(lines(text@)[i as int] == line@);
            }
            match entry {
                Some(info) => {
                    let ghost before = info_views(out@);
                    out.push(info);
                    proof {
                        assert(info_views(out@) =~= before.push(info@));
                        assert(before.push(info@) =~= before + seq![info@]);
                    }
                },
                None => {
                    proof {
                        assert(lvm_list_entries(lines(text@).subrange(0, i + 1), source@)
                            =~= lvm_list_entries(lines(text@).subrange(0, i as int), source@));
                    }
                },
            }
            i = i + 1;
        }
        proof {
            assert(lines(text@).subrange(0, ls@.len() as int) =~= lines(text@));
        }
        out
    }

    fn list_entry(&self, line: &[char], source: &LvmVolumeRef) -> (r: Option<SnapshotInfo>)
        ensures
            match r {
                Some(info) => lvm_list_entry(line@, source@) == Some(info@),
                None => lvm_list_entry(line@, source@) is None,
            },
    {
        let (a, b) = trim_bounds(line);
        let l = slice_chars(line, a, b);
        if l.len() == 0 {
            return None;
        }
        let pieces = split_char_exec(l.as_slice(), '|');
        let ghost parts = split_char(l@, '|').map_values(|p: Seq<char>| trim(p));
        if pieces.len() != 4 {
            return None;
        }
        let origin = trimmed_piece(&pieces[1]);
        let lv_path = trimmed_piece(&pieces[2]);
        let lv_attr = trimmed_piece(&pieces[3]);
        proof {
            assert(parts[1] == origin@);
            assert(parts[2] == lv_path@);
            assert(parts[3] == lv_attr@);
        }
        let lv = chars_of(&source.lv_name);
        if !chars_eq(origin.as_slice(), lv.as_slice()) {
            return None;
        }
        if !(lv_attr.len() > 0 && (lv_attr[0] == 's' || lv_attr[0] == 'S')) {
            return None;
        }
        let read_only = contains_char(lv_attr.as_slice(), 'r');
        Some(
            SnapshotInfo {
                handle: SnapshotHandle {
                    id: string_of(lv_path.as_slice()),
                    source: Some(VolumeRef { id: source.lv_path.clone() }),
                },
                backend: self.backend_name(),
                path_hint: Some(string_of(lv_path.as_slice())),
                read_only,
            },
        )
    }

    /// The record of the snapshot that running `plan` (made for `request`) creates.
    pub fn created_snapshot_info(&self, request: &SnapshotRequest, plan: &LvmSnapshotPlan) -> (r:
        SnapshotInfo)
        ensures
            r@ == (SnapshotInfoView {
                id: plan.snapshot_path@,
                source: Some(request.source.id@),
                backend: "linux-lvm"@,
                path_hint: Some(plan.snapshot_path@),
                read_only: plan.read_only,
            }),
    {
        SnapshotInfo {
            handle: SnapshotHandle {
                id: plan.snapshot_path.clone(),
                source: Some(request.source.duplicate()),
            },
            backend: self.backend_name(),
            path_hint: Some(plan.snapshot_path.clone()),
            read_only: plan.read_only,
        }
    }
}

/// A piece of a listing line, trimmed.
fn trimmed_piece(piece: &Vec<char>) -> (r: Vec<char>)
    ensures
        r@ == trim(piece@),
{
    let (a, b) = trim_bounds(piece.as_slice());
    slice_chars(piece.as_slice(), a, b)
}

/// The name of a new snapshot of `lv_name`, stamped with the current time when unlabelled.
fn derive_snapshot_name(lv_name: &String, label: &Option<String>) -> (r: (String, Ghost<u64>))
    ensures
        r.0@ == lvm_snapshot_name(lv_name@, opt_str(*label), r.1@),
{
    match label {
        Some(l) => (sanitize_snapshot_segment(l), Ghost(0)),
        None => {
            let mut out = chars_of(lv_name);
            push_str(&mut out, "-snap-");
            let ts = snapshot_time();
            push_decimal(&mut out, ts);
            (string_of(out.as_slice()), Ghost(ts))
        },
    }
}

fn sanitize_snapshot_segment(value: &str) -> (r: String)
    ensures
        r@ == sanitized(value@, true, false),
{
    sanitize_with(value, true, false)
}

impl Backend for LvmBackend {
    open spec fn capability_set(&self) -> Seq<Capability> {
        lvm_capabilities_spec()
    }

    fn backend_name(&self) -> (r: &'static str)
        ensures
            r@ == "linux-lvm"@,
    {
        LvmBackend::backend_name(self)
    }

    fn capabilities(&self) -> (r: &'static [Capability])
        ensures
            r@ == lvm_capabilities_spec(),
    {
        LvmBackend::capabilities(self)
    }
}

impl MountManager for LvmBackend {
    open spec fn mounting(&self, request: MountRequest, r: Result<MountHandle>) -> bool {
        r is Err && fault(r->Err_0) == (Fault::UnsupportedOperation {
            operation: "mount_snapshot"@,
            backend: "linux-lvm"@,
        })
    }

    open spec fn unmounting(&self, handle: MountHandle, r: Result<()>) -> bool {
        r is Err && fault(r->Err_0) == (Fault::UnsupportedOperation {
            operation: "unmount"@,
            backend: "linux-lvm"@,
        })
    }

    fn mount_snapshot(&self, _request: &MountRequest) -> (r: Result<MountHandle>)
        ensures
            r is Err && fault(r->Err_0) == (Fault::UnsupportedOperation {
                operation: "mount_snapshot"@,
                backend: "linux-lvm"@,
            }),
    {
        Err(unsupported("mount_snapshot", LvmBackend::backend_name(self)))
    }

    fn unmount(&self, _handle: &MountHandle) -> (r: Result<()>)
        ensures
            r is Err && fault(r->Err_0) == (Fault::UnsupportedOperation {
                operation: "unmount"@,
                backend: "linux-lvm"@,
            }),
    {
        Err(unsupported("unmount", LvmBackend::backend_name(self)))
    }
}

} // verus!
