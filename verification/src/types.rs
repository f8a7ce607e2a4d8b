//! The provider-neutral model: volumes, snapshots, backup and restore plans, mounts.
use vstd::prelude::*;

use crate::error::{Error, Result, is_invalid_argument};
use crate::text::{chars_eq_str, chars_of, concat3, copy_string, opt_str, string_of};

verus! {

// ---------------------------------------------------------------------------
// Label sanitising
// ---------------------------------------------------------------------------

/// A character kept as is by a sanitiser: ASCII letters and digits, `-`, `_`, `.`,
/// and `+` and `:` where the sanitiser allows them.
pub open spec fn label_char_allowed(c: char, plus: bool, colon: bool) -> bool {
    ('a' <= c && c <= 'z') || ('A' <= c && c <= 'Z') || ('0' <= c && c <= '9') || c == '-' || c
        == '_' || c == '.' || (plus && c == '+') || (colon && c == ':')
}

/// Each character replaced by `-` unless it is allowed.
pub open spec fn label_chars(s: Seq<char>, plus: bool, colon: bool) -> Seq<char> {
    s.map_values(|c: char| if label_char_allowed(c, plus, colon) { c } else { '-' })
}

/// Every character is `-` (the empty sequence included).
pub open spec fn all_dashes(s: Seq<char>) -> bool {
    forall|i: int| 0 <= i < s.len() ==> s[i] == '-'
}

/// The sanitised label: the replaced characters, or `snapshot` when only dashes remain.
pub open spec fn sanitized(s: Seq<char>, plus: bool, colon: bool) -> Seq<char> {
    if all_dashes(label_chars(s, plus, colon)) {
        "snapshot"@
    } else {
        label_chars(s, plus, colon)
    }
}

/// What `sanitize_snapshot_label` returns.
pub open spec fn sanitized_label(s: Seq<char>) -> Seq<char> {
    sanitized(s, true, true)
}

fn label_char_allowed_exec(c: char, plus: bool, colon: bool) -> (r: bool)
    ensures
        r == label_char_allowed(c, plus, colon),
{
    ('a' <= c && c <= 'z') || ('A' <= c && c <= 'Z') || ('0' <= c && c <= '9') || c == '-' || c
        == '_' || c == '.' || (plus && c == '+') || (colon && c == ':')
}

/// Sanitises `label` for the allowed set chosen by `plus` and `colon`.
pub fn sanitize_with(label: &str, plus: bool, colon: bool) -> (r: String)
    ensures
        r@ == sanitized(label@, plus, colon),
{
    let v = chars_of(label);
    let mut out: Vec<char> = Vec::new();
    let mut only_dashes = true;
    let mut i: usize = 0;
    while i < v.len()
        invariant
            v@ == label@,
            i <= v@.len(),
            out@ == label_chars(v@.subrange(0, i as int), plus, colon),
            only_dashes == all_dashes(out@),
        decreases v@.len() - i,
    {
        let c = v[i];
        let d = if label_char_allowed_exec(c, plus, colon) {
            c
        } else {
            '-'
        };
        let ghost old_out = out@;
        out.push(d);
        proof {
            if !all_dashes(old_out) {
                let k = choose|k: int| 0 <= k < old_out.len() && old_out[k] != '-';
                assert(out@[k] == old_out[k]);
            }
            if d != '-' {
                assert(out@[old_out.len() as int] == d);
            }
            if all_dashes(old_out) && d == '-' {
                assert forall|j: int| 0 <= j < out@.len() implies out@[j] == '-' by {
                    if j < old_out.len() {
                        assert(out@[j] == old_out[j]);
                    }
                }
            }
        }
        if d != '-' {
            only_dashes = false;
        }
        proof {
            assert(label_chars(v@.subrange(0, i + 1), plus, colon) =~= label_chars(
                v@.subrange(0, i as int),
                plus,
                colon,
            ).push(d));
        }
        i = i + 1;
    }
    assert(v@.subrange(0, v@.len() as int) =~= v@);
    if only_dashes {
        String::from_str("snapshot")
    } else {
        string_of(out.as_slice())
    }
}

/// Sanitize a user-provided label into a safe snapshot name component.
///
/// Replaces characters outside `[a-zA-Z0-9\-_.+:]` with `-`.
/// Returns `"snapshot"` if the result would be empty or all dashes.
pub fn sanitize_snapshot_label(label: &str) -> (r: String)
    ensures
        r@ == sanitized_label(label@),
{
    sanitize_with(label, true, true)
}

/// Whether `c` may stay in a snapshot name: an ASCII letter of either case, a digit, `-`,
/// `_` or `.`, and `+` or `:` where those are kept.
pub open spec fn name_char(c: char, plus: bool, colon: bool) -> bool {
    ||| 'a' <= c <= 'z'
    ||| 'A' <= c <= 'Z'
    ||| '0' <= c <= '9'
    ||| c == '-' || c == '_' || c == '.'
    ||| plus && c == '+'
    ||| colon && c == ':'
}

/// A label made only of characters that may stay in a name, and not only of dashes, is
/// its own sanitised form.
pub proof fn lemma_sanitize_keeps_clean_labels(s: Seq<char>, plus: bool, colon: bool)
    requires
        forall|i: int| 0 <= i < s.len() ==> name_char(#[trigger] s[i], plus, colon),
        exists|i: int| 0 <= i < s.len() && #[trigger] s[i] != '-',
    ensures
        sanitized(s, plus, colon) == s,
{
    let l = label_chars(s, plus, colon);
    assert(l =~= s);
    let k = choose|i: int| 0 <= i < s.len() && #[trigger] s[i] != '-';
    assert(l[k] != '-');
}

/// Sanitising replaces exactly the characters that may not stay in a name by `-`, and
/// keeps the others in place; only a label left with nothing but dashes becomes
/// `snapshot`.
pub proof fn lemma_sanitize_replaces_only_others(s: Seq<char>, plus: bool, colon: bool)
    ensures
        sanitized(s, plus, colon) == "snapshot"@ || {
            &&& sanitized(s, plus, colon).len() == s.len()
            &&& forall|i: int|
                0 <= i < s.len() ==> #[trigger] sanitized(s, plus, colon)[i] == if name_char(
                    s[i],
                    plus,
                    colon,
                ) {
                    s[i]
                } else {
                    '-'
                }
        },
        (forall|i: int| 0 <= i < s.len() ==> #[trigger] s[i] == '-' || !name_char(s[i], plus, colon))
            ==> sanitized(s, plus, colon) == "snapshot"@,
{
    let l = label_chars(s, plus, colon);
    if forall|i: int| 0 <= i < s.len() ==> #[trigger] s[i] == '-' || !name_char(s[i], plus, colon) {
        assert forall|i: int| 0 <= i < l.len() implies l[i] == '-' by {
            assert(s[i] == '-' || !name_char(s[i], plus, colon));
        }
    }
}

/// Sanitising twice changes nothing more than sanitising once.
pub proof fn lemma_sanitize_idempotent(s: Seq<char>, plus: bool, colon: bool)
    ensures
        sanitized(sanitized(s, plus, colon), plus, colon) == sanitized(s, plus, colon),
{
    let t = sanitized(s, plus, colon);
    reveal_strlit("snapshot");
    if all_dashes(label_chars(s, plus, colon)) {
        assert(label_chars(t, plus, colon) =~= t);
        assert(t[0] == 's');
    } else {
        assert(label_chars(t, plus, colon) =~= t);
    }
}

/// A sanitised label is never empty, holds only allowed characters, and is not all dashes.
pub proof fn lemma_sanitized_shape(s: Seq<char>, plus: bool, colon: bool)
    ensures
        sanitized(s, plus, colon).len() > 0,
        !all_dashes(sanitized(s, plus, colon)),
        forall|i: int|
            0 <= i < sanitized(s, plus, colon).len() ==> label_char_allowed(
                #[trigger] sanitized(s, plus, colon)[i],
                plus,
                colon,
            ),
{
    reveal_strlit("snapshot");
    let t = sanitized(s, plus, colon);
    if all_dashes(label_chars(s, plus, colon)) {
        assert(t[0] == 's');
    } else {
        let l = label_chars(s, plus, colon);
        let k = choose|k: int| 0 <= k < l.len() && l[k] != '-';
        assert(l.len() > 0);
    }
}

// ---------------------------------------------------------------------------
// Volumes and capabilities
// ---------------------------------------------------------------------------

/// Stable identifier for a live volume, filesystem, dataset, or provider-specific source.
#[derive(Debug, Clone, PartialEq, Eq, Hash)]
pub struct VolumeRef {
    pub id: String,
}

impl VolumeRef {
    pub fn new(id: &str) -> (r: Self)
        ensures
            r.id@ == id@,
    {
        VolumeRef { id: String::from_str(id) }
    }

    /// A copy of this reference.
    pub fn duplicate(&self) -> (r: Self)
        ensures
            r.id@ == self.id@,
    {
        VolumeRef { id: copy_string(&self.id) }
    }

    /// The reference as it is shown: its id.
    pub fn as_str(&self) -> (r: &str)
        ensures
            r@ == self.id@,
    {
        self.id.as_str()
    }
}

impl From<String> for VolumeRef {
    /// A reference to the volume with this id.
    fn from(id: String) -> (r: Self) {
        VolumeRef { id }
    }
}

impl vstd::std_specs::convert::FromSpecImpl<String> for VolumeRef {
    open spec fn obeys_from_spec() -> bool {
        true
    }

    open spec fn from_spec(id: String) -> VolumeRef {
        VolumeRef { id }
    }
}

/// The id of an optional volume.
pub open spec fn opt_volume(o: Option<VolumeRef>) -> Option<Seq<char>> {
    match o {
        Some(v) => Some(v.id@),
        None => None,
    }
}

/// A copy of an optional string.
pub fn copy_opt_string(o: &Option<String>) -> (r: Option<String>)
    ensures
        opt_str(r) == opt_str(*o),
{
    match o {
        Some(s) => Some(copy_string(s)),
        None => None,
    }
}

/// A copy of an optional volume.
pub fn copy_opt_volume(o: &Option<VolumeRef>) -> (r: Option<VolumeRef>)
    ensures
        opt_volume(r) == opt_volume(*o),
{
    match o {
        Some(v) => Some(v.duplicate()),
        None => None,
    }
}

#[derive(Debug, Clone, Copy, PartialEq, Eq, Hash)]
pub enum Capability {
    CrashConsistentSnapshot,
    ApplicationConsistentSnapshot,
    WritableSnapshotMount,
    ReadOnlySnapshotMount,
    BlockLevelBackup,
    BlockLevelRestore,
    IncrementalSend,
    DirectDeviceAccess,
}

/// The name of each capability.
pub open spec fn capability_name(c: Capability) -> Seq<char> {
    match c {
        Capability::CrashConsistentSnapshot => "crash_consistent_snapshot"@,
        Capability::ApplicationConsistentSnapshot => "application_consistent_snapshot"@,
        Capability::WritableSnapshotMount => "writable_snapshot_mount"@,
        Capability::ReadOnlySnapshotMount => "read_only_snapshot_mount"@,
        Capability::BlockLevelBackup => "block_level_backup"@,
        Capability::BlockLevelRestore => "block_level_restore"@,
        Capability::IncrementalSend => "incremental_send"@,
        Capability::DirectDeviceAccess => "direct_device_access"@,
    }
}

impl Capability {
    pub fn as_str(self) -> (r: &'static str)
        ensures
            r@ == capability_name(self),
    {
        match self {
            Capability::CrashConsistentSnapshot => "crash_consistent_snapshot",
            Capability::ApplicationConsistentSnapshot => "application_consistent_snapshot",
            Capability::WritableSnapshotMount => "writable_snapshot_mount",
            Capability::ReadOnlySnapshotMount => "read_only_snapshot_mount",
            Capability::BlockLevelBackup => "block_level_backup",
            Capability::BlockLevelRestore => "block_level_restore",
            Capability::IncrementalSend => "incremental_send",
            Capability::DirectDeviceAccess => "direct_device_access",
        }
    }

    /// A copy of this capability.
    pub fn copied(&self) -> (r: Self)
        ensures
            r == *self,
    {
        match self {
            Capability::CrashConsistentSnapshot => Capability::CrashConsistentSnapshot,
            Capability::ApplicationConsistentSnapshot => Capability::ApplicationConsistentSnapshot,
            Capability::WritableSnapshotMount => Capability::WritableSnapshotMount,
            Capability::ReadOnlySnapshotMount => Capability::ReadOnlySnapshotMount,
            Capability::BlockLevelBackup => Capability::BlockLevelBackup,
            Capability::BlockLevelRestore => Capability::BlockLevelRestore,
            Capability::IncrementalSend => Capability::IncrementalSend,
            Capability::DirectDeviceAccess => Capability::DirectDeviceAccess,
        }
    }
}

/// Two capabilities are the same variant.
pub fn capability_eq(a: Capability, b: Capability) -> (r: bool)
    ensures
        r == (a == b),
{
    match (a, b) {
        (Capability::CrashConsistentSnapshot, Capability::CrashConsistentSnapshot) => true,
        (Capability::ApplicationConsistentSnapshot, Capability::ApplicationConsistentSnapshot) => true,
        (Capability::WritableSnapshotMount, Capability::WritableSnapshotMount) => true,
        (Capability::ReadOnlySnapshotMount, Capability::ReadOnlySnapshotMount) => true,
        (Capability::BlockLevelBackup, Capability::BlockLevelBackup) => true,
        (Capability::BlockLevelRestore, Capability::BlockLevelRestore) => true,
        (Capability::IncrementalSend, Capability::IncrementalSend) => true,
        (Capability::DirectDeviceAccess, Capability::DirectDeviceAccess) => true,
        _ => false,
    }
}

/// The capability occurs in the list.
pub fn capabilities_contain(caps: &[Capability], c: Capability) -> (r: bool)
    ensures
        r == caps@.contains(c),
{
    let mut i: usize = 0;
    while i < caps.len()
        invariant
            i <= caps@.len(),
            forall|j: int| 0 <= j < i ==> caps@[j] != c,
        decreases caps@.len() - i,
    {
        if capability_eq(caps[i], c) {
            return true;
        }
        i = i + 1;
    }
    false
}

/// Snapshot consistency intent shared across providers.
#[derive(Debug, Clone, Copy, PartialEq, Eq, Hash)]
pub enum SnapshotKind {
    CrashConsistent,
    ApplicationConsistent,
}

/// The name of each snapshot kind.
pub open spec fn snapshot_kind_name(k: SnapshotKind) -> Seq<char> {
    match k {
        SnapshotKind::CrashConsistent => "crash-consistent"@,
        SnapshotKind::ApplicationConsistent => "application-consistent"@,
    }
}

/// What `SnapshotKind::from_str` accepts, and the kind it gives.
pub open spec fn snapshot_kind_of(s: Seq<char>) -> Option<SnapshotKind> {
    if s == "crash"@ || s == "crash-consistent"@ {
        Some(SnapshotKind::CrashConsistent)
    } else if s == "app"@ || s == "application"@ || s == "application-consistent"@ {
        Some(SnapshotKind::ApplicationConsistent)
    } else {
        None
    }
}

/// The message of an unknown snapshot kind.
pub open spec fn unknown_kind_message(s: Seq<char>) -> Seq<char> {
    "unknown snapshot kind `"@ + s + "`; expected `crash` or `application`"@
}

impl SnapshotKind {
    pub fn as_str(self) -> (r: &'static str)
        ensures
            r@ == snapshot_kind_name(self),
    {
        match self {
            SnapshotKind::CrashConsistent => "crash-consistent",
            SnapshotKind::ApplicationConsistent => "application-consistent",
        }
    }

    /// Parses a snapshot kind, as `FromStr` does.
    pub fn parse(value: &str) -> (r: Result<SnapshotKind>)
        ensures
            match snapshot_kind_of(value@) {
                Some(k) => r == Ok::<SnapshotKind, Error>(k),
                None => r is Err && is_invalid_argument(r->Err_0, unknown_kind_message(value@)),
            },
    {
        let v = chars_of(value);
        if chars_eq_str(v.as_slice(), "crash") || chars_eq_str(v.as_slice(), "crash-consistent") {
            Ok(SnapshotKind::CrashConsistent)
        } else if chars_eq_str(v.as_slice(), "app") || chars_eq_str(v.as_slice(), "application")
            || chars_eq_str(v.as_slice(), "application-consistent") {
            Ok(SnapshotKind::ApplicationConsistent)
        } else {
            Err(
                Error::InvalidArgument {
                    message: concat3(
                        "unknown snapshot kind `",
                        value,
                        "`; expected `crash` or `application`",
                    ),
                },
            )
        }
    }
}

impl std::str::FromStr for SnapshotKind {
    type Err = Error;

    /// What `SnapshotKind::parse` gives.
    fn from_str(value: &str) -> (r: Result<Self>)
        ensures
            match snapshot_kind_of(value@) {
                Some(k) => r == Ok::<SnapshotKind, Error>(k),
                None => r is Err && is_invalid_argument(r->Err_0, unknown_kind_message(value@)),
            },
    {
        SnapshotKind::parse(value)
    }
}

/// A kind parses back from its own name.
pub proof fn lemma_snapshot_kind_round_trip(k: SnapshotKind)
    ensures
        snapshot_kind_of(snapshot_kind_name(k)) == Some(k),
{
    reveal_strlit("crash");
    reveal_strlit("crash-consistent");
    reveal_strlit("app");
    reveal_strlit("application");
    reveal_strlit("application-consistent");
    match k {
        SnapshotKind::CrashConsistent => {},
        SnapshotKind::ApplicationConsistent => {
            assert("crash"@.len() != "application-consistent"@.len());
            assert("crash-consistent"@ != "application-consistent"@) by {
                assert("crash-consistent"@[0] != "application-consistent"@[0]);
            }
        },
    }
}

// ---------------------------------------------------------------------------
// Snapshots
// ---------------------------------------------------------------------------

/// Generic request for creating a provider-managed snapshot.
#[derive(Debug, Clone, PartialEq, Eq)]
pub struct SnapshotRequest {
    pub source: VolumeRef,
    pub kind: SnapshotKind,
    pub label: Option<String>,
    pub read_only: bool,
}

/// Concrete snapshot handle returned by snapshot providers.
#[derive(Debug, Clone, PartialEq, Eq)]
pub struct SnapshotHandle {
    pub id: String,
    pub source: Option<VolumeRef>,
}

/// Reference to an existing snapshot used by backup/restore planning.
///
/// This is separate from [`SnapshotHandle`] so plans can refer to snapshots that may
/// have been created outside the current process.
#[derive(Debug, Clone, PartialEq, Eq, Hash)]
pub struct SnapshotRef {
    pub id: String,
    pub origin: Option<VolumeRef>,
}

impl SnapshotRef {
    pub fn new(id: &str) -> (r: Self)
        ensures
            r.id@ == id@,
            r.origin is None,
    {
        SnapshotRef { id: String::from_str(id), origin: None }
    }

    pub fn with_origin(self, origin: VolumeRef) -> (r: Self)
        ensures
            r.id == self.id,
            r.origin == Some(origin),
    {
        SnapshotRef { id: self.id, origin: Some(origin) }
    }

    /// The reference as it is shown: its id.
    pub fn as_str(&self) -> (r: &str)
        ensures
            r@ == self.id@,
    {
        self.id.as_str()
    }
}

/// Provider-reported snapshot metadata.
#[derive(Debug, Clone, PartialEq, Eq)]
pub struct SnapshotInfo {
    pub handle: SnapshotHandle,
    pub backend: &'static str,
    pub path_hint: Option<String>,
    pub read_only: bool,
}

/// What a snapshot record says, as plain values.
pub struct SnapshotInfoView {
    pub id: Seq<char>,
    pub source: Option<Seq<char>>,
    pub backend: Seq<char>,
    pub path_hint: Option<Seq<char>>,
    pub read_only: bool,
}

impl View for SnapshotInfo {
    type V = SnapshotInfoView;

    open spec fn view(&self) -> SnapshotInfoView {
        SnapshotInfoView {
            id: self.handle.id@,
            source: opt_volume(self.handle.source),
            backend: self.backend@,
            path_hint: opt_str(self.path_hint),
            read_only: self.read_only,
        }
    }
}

/// The records of a list of snapshots.
pub open spec fn info_views(v: Seq<SnapshotInfo>) -> Seq<SnapshotInfoView> {
    v.map_values(|x: SnapshotInfo| x@)
}

/// Backup destination target.
#[derive(Debug, Clone, PartialEq, Eq)]
pub enum BackupTarget {
    ImageFile(String),
    Device(String),
}

/// Backup source can be either a live volume or an explicit snapshot.
///
/// Providers may support different combinations:
///
/// - Btrfs supports live volume backup with optional temporary snapshots.
/// - ZFS requires a snapshot source for send-based backup unless a temporary snapshot
///   policy is provided.
#[derive(Debug, Clone, PartialEq, Eq)]
pub enum BackupSource {
    Volume(VolumeRef),
    Snapshot(SnapshotRef),
}

impl BackupSource {
    /// The source as it is shown: the id of the volume or snapshot.
    pub fn as_str(&self) -> (r: &str)
        ensures
            r@ == match self {
                BackupSource::Volume(v) => v.id@,
                BackupSource::Snapshot(s) => s.id@,
            },
    {
        match self {
            BackupSource::Volume(v) => v.as_str(),
            BackupSource::Snapshot(s) => s.as_str(),
        }
    }
}

/// Policy for how a provider should obtain a snapshot for backup.
///
/// `Disabled` means the provider should use the source as-is. `Temporary` tells the
/// provider to create a temporary snapshot first when that backend supports it.
#[derive(Debug, Clone, PartialEq, Eq)]
pub enum SnapshotPolicy {
    Disabled,
    Temporary { kind: SnapshotKind, label: Option<String>, read_only: bool },
}

impl SnapshotPolicy {
    pub fn disabled() -> (r: Self)
        ensures
            r is Disabled,
    {
        SnapshotPolicy::Disabled
    }

    pub fn temporary(kind: SnapshotKind, label: Option<String>, read_only: bool) -> (r: Self)
        ensures
            r == (SnapshotPolicy::Temporary { kind, label, read_only }),
    {
        SnapshotPolicy::Temporary { kind, label, read_only }
    }
}

/// Provider-neutral backup/export plan.
///
/// `parent_snapshot` is used by incremental-capable providers such as Btrfs and ZFS
/// when planning send-style backups.
///
/// `block_size` controls the I/O chunk size for block-level copy operations (e.g. LVM dd).
/// `None` uses the provider default (4 MiB).
#[derive(Debug, Clone, PartialEq, Eq)]
pub struct BackupPlan {
    pub source: BackupSource,
    pub target: BackupTarget,
    pub snapshot_policy: SnapshotPolicy,
    pub parent_snapshot: Option<SnapshotRef>,
    pub block_size: Option<usize>,
}

/// Provider-neutral restore/import plan.
///
/// `base_snapshot` is reserved for providers that need an explicit base reference during
/// incremental restore workflows.
///
/// `block_size` controls the I/O chunk size for block-level copy operations (e.g. LVM dd).
/// `None` uses the provider default (4 MiB).
#[derive(Debug, Clone, PartialEq, Eq)]
pub struct RestorePlan {
    pub source: BackupTarget,
    pub destination: VolumeRef,
    pub force: bool,
    pub base_snapshot: Option<SnapshotRef>,
    pub block_size: Option<usize>,
}

/// Mount mode for snapshot browsing or copy-mount flows.
#[derive(Debug, Clone, Copy, PartialEq, Eq, Hash)]
pub enum MountMode {
    ReadOnly,
    ReadWrite,
}

/// Request to mount an existing snapshot.
#[derive(Debug, Clone, PartialEq, Eq)]
pub struct MountRequest {
    pub snapshot: SnapshotHandle,
    pub mode: MountMode,
    pub target: Option<String>,
}

/// Handle returned by mount-capable providers.
#[derive(Debug, Clone, PartialEq, Eq)]
pub struct MountHandle {
    pub id: String,
    pub mount_point: String,
}

/// A copy of a snapshot handle.
pub fn copy_handle(h: &SnapshotHandle) -> (r: SnapshotHandle)
    ensures
        r.id@ == h.id@,
        opt_volume(r.source) == opt_volume(h.source),
{
    SnapshotHandle { id: copy_string(&h.id), source: copy_opt_volume(&h.source) }
}

} // verus!
