//! Copy-mount: a temporary snapshot, mounted for browsing or copying out, and taken down
//! again in the reverse order.
use vstd::prelude::*;

use crate::error::{Error, Result};
use crate::mount::MountManager;
use crate::snapshot::SnapshotProvider;
use crate::text::opt_str;
use crate::types::{
    MountHandle, MountMode, MountRequest, SnapshotHandle, SnapshotInfo, SnapshotKind,
    SnapshotRequest, VolumeRef, copy_handle, copy_opt_string, opt_volume,
};

verus! {

/// Request for creating a temporary snapshot and mounting it for browsing or copy-out.
#[derive(Debug, Clone, PartialEq, Eq)]
pub struct CopyMountRequest {
    pub source: VolumeRef,
    pub kind: SnapshotKind,
    pub label: Option<String>,
    pub mode: MountMode,
    pub target: Option<String>,
}

/// Result of a temporary snapshot + mount workflow.
#[derive(Debug, Clone, PartialEq, Eq)]
pub struct CopyMountSession {
    pub snapshot: SnapshotInfo,
    pub mount: MountHandle,
}

/// The snapshot a copy-mount asks for: of its source, of its kind and label, read-only
/// exactly when the mount is.
pub open spec fn is_copy_snapshot_request(q: SnapshotRequest, request: CopyMountRequest) -> bool {
    &&& q.source.id@ == request.source.id@
    &&& q.kind == request.kind
    &&& opt_str(q.label) == opt_str(request.label)
    &&& q.read_only == (request.mode == MountMode::ReadOnly)
}

/// The mount a copy-mount asks for: of the snapshot that was created, in the requested
/// mode, at the requested target.
pub open spec fn is_copy_mount_request(
    m: MountRequest,
    request: CopyMountRequest,
    snapshot: SnapshotInfo,
) -> bool {
    &&& m.snapshot.id@ == snapshot.handle.id@
    &&& opt_volume(m.snapshot.source) == opt_volume(snapshot.handle.source)
    &&& m.mode == request.mode
    &&& opt_str(m.target) == opt_str(request.target)
}

/// The snapshot request of a copy-mount.
pub fn copy_snapshot_request(request: &CopyMountRequest) -> (r: SnapshotRequest)
    ensures
        is_copy_snapshot_request(r, *request),
{
    SnapshotRequest {
        source: request.source.duplicate(),
        kind: request.kind,
        label: copy_opt_string(&request.label),
        read_only: match request.mode {
            MountMode::ReadOnly => true,
            MountMode::ReadWrite => false,
        },
    }
}

/// The mount request of a copy-mount, once its snapshot exists.
pub fn copy_mount_request(request: &CopyMountRequest, snapshot: &SnapshotInfo) -> (r: MountRequest)
    ensures
        is_copy_mount_request(r, *request, *snapshot),
{
    MountRequest {
        snapshot: copy_handle(&snapshot.handle),
        mode: request.mode,
        target: copy_opt_string(&request.target),
    }
}

// ---------------------------------------------------------------------------
// The steps of opening and closing a copy-mount
// ---------------------------------------------------------------------------

/// Two snapshot handles that name the same snapshot of the same volume.
pub open spec fn same_handle(a: SnapshotHandle, b: SnapshotHandle) -> bool {
    a.id@ == b.id@ && opt_volume(a.source) == opt_volume(b.source)
}

/// Where the opening of a copy-mount stands.
#[derive(Debug)]
pub enum OpenStage {
    /// The snapshot is being created.
    Creating,
    /// The created snapshot is being mounted.
    Mounting { snapshot: SnapshotInfo },
    /// The mount failed with `error`; the created snapshot is being deleted again.
    Releasing { error: Error },
    /// The opening is over.
    Done,
}

/// What the last step of an opening gave.
#[derive(Debug)]
pub enum OpenEvent {
    Created(Result<SnapshotInfo>),
    Mounted(Result<MountHandle>),
    Deleted(Result<()>),
}

/// What the caller does next to open a copy-mount.
#[derive(Debug)]
pub enum OpenAction {
    /// Create a snapshot as asked.
    CreateSnapshot(SnapshotRequest),
    /// Mount the created snapshot as asked.
    Mount(MountRequest),
    /// Delete the created snapshot.
    DeleteSnapshot(SnapshotHandle),
    /// The opening is over with this result.
    Finish(Result<CopyMountSession>),
    /// The event does not belong to the current stage; nothing changes.
    Ignored,
}

/// The first stage of an opening: the snapshot that `request` asks for is created.
pub open spec fn open_start(request: CopyMountRequest, stage: OpenStage, action: OpenAction) -> bool {
    &&& stage is Creating
    &&& action matches OpenAction::CreateSnapshot(q)
    &&& is_copy_snapshot_request(q, request)
}

/// One step of an opening. A created snapshot is mounted; a successful mount ends the
/// opening with the snapshot and the mount, and nothing is deleted; a failed mount has
/// the created snapshot deleted, and then ends the opening with the mount's error,
/// whatever the deletion gave; a failed creation ends it with that error.
pub open spec fn open_step_is(
    request: CopyMountRequest,
    stage: OpenStage,
    event: OpenEvent,
    next: OpenStage,
    action: OpenAction,
) -> bool {
    match (stage, event) {
        (OpenStage::Creating, OpenEvent::Created(Ok(s))) => {
            &&& next == (OpenStage::Mounting { snapshot: s })
            &&& action matches OpenAction::Mount(m)
            &&& is_copy_mount_request(m, request, s)
        },
        (OpenStage::Creating, OpenEvent::Created(Err(e))) => next is Done && action
            == OpenAction::Finish(Err(e)),
        (OpenStage::Mounting { snapshot }, OpenEvent::Mounted(Ok(m))) => next is Done && action
            == OpenAction::Finish(Ok(CopyMountSession { snapshot, mount: m })),
        (OpenStage::Mounting { snapshot }, OpenEvent::Mounted(Err(e))) => {
            &&& next == (OpenStage::Releasing { error: e })
            &&& action matches OpenAction::DeleteSnapshot(h)
            &&& same_handle(h, snapshot.handle)
        },
        (OpenStage::Releasing { error }, OpenEvent::Deleted(_)) => next is Done && action
            == OpenAction::Finish(Err(error)),
        _ => next == stage && action is Ignored,
    }
}

impl OpenStage {
    /// The first stage and action of opening `request`.
    pub fn begin(request: &CopyMountRequest) -> (r: (OpenStage, OpenAction))
        ensures
            open_start(*request, r.0, r.1),
    {
        (OpenStage::Creating, OpenAction::CreateSnapshot(copy_snapshot_request(request)))
    }

    /// The next stage and action of opening `request`, given what the last action gave.
    pub fn step(self, event: OpenEvent, request: &CopyMountRequest) -> (r: (OpenStage, OpenAction))
        ensures
            open_step_is(*request, self, event, r.0, r.1),
    {
        match self {
            OpenStage::Creating => match event {
                OpenEvent::Created(Ok(s)) => {
                    let m = copy_mount_request(request, &s);
                    (OpenStage::Mounting { snapshot: s }, OpenAction::Mount(m))
                },
                OpenEvent::Created(Err(e)) => (OpenStage::Done, OpenAction::Finish(Err(e))),
                _ => (OpenStage::Creating, OpenAction::Ignored),
            },
            OpenStage::Mounting { snapshot } => match event {
                OpenEvent::Mounted(Ok(m)) => (
                    OpenStage::Done,
                    OpenAction::Finish(Ok(CopyMountSession { snapshot, mount: m })),
                ),
                OpenEvent::Mounted(Err(e)) => {
                    let h = copy_handle(&snapshot.handle);
                    (OpenStage::Releasing { error: e }, OpenAction::DeleteSnapshot(h))
                },
                _ => (OpenStage::Mounting { snapshot }, OpenAction::Ignored),
            },
            OpenStage::Releasing { error } => match event {
                OpenEvent::Deleted(_) => (OpenStage::Done, OpenAction::Finish(Err(error))),
                _ => (OpenStage::Releasing { error }, OpenAction::Ignored),
            },
            OpenStage::Done => (OpenStage::Done, OpenAction::Ignored),
        }
    }
}

/// Where the closing of a copy-mount stands.
#[derive(Debug)]
pub enum CloseStage {
    /// The mount is being taken down.
    Unmounting,
    /// The unmount succeeded; the snapshot is being deleted.
    Deleting,
    /// The closing is over.
    Done,
}

/// What the last step of a closing gave.
#[derive(Debug)]
pub enum CloseEvent {
    Unmounted(Result<()>),
    Deleted(Result<()>),
}

/// What the caller does next to close a copy-mount.
#[derive(Debug)]
pub enum CloseAction {
    /// Unmount the mount.
    Unmount,
    /// Delete the snapshot.
    DeleteSnapshot,
    /// The closing is over with this result.
    Finish(Result<()>),
    /// The event does not belong to the current stage; nothing changes.
    Ignored,
}

/// One step of a closing: a successful unmount is followed by the deletion of the
/// snapshot, a failed one ends the closing with its error and deletes nothing; the
/// deletion's result ends the closing.
pub open spec fn close_step(stage: CloseStage, event: CloseEvent) -> (CloseStage, CloseAction) {
    match (stage, event) {
        (CloseStage::Unmounting, CloseEvent::Unmounted(Ok(_))) => (
            CloseStage::Deleting,
            CloseAction::DeleteSnapshot,
        ),
        (CloseStage::Unmounting, CloseEvent::Unmounted(Err(e))) => (
            CloseStage::Done,
            CloseAction::Finish(Err(e)),
        ),
        (CloseStage::Deleting, CloseEvent::Deleted(d)) => (CloseStage::Done, CloseAction::Finish(d)),
        (s, _) => (s, CloseAction::Ignored),
    }
}

impl CloseStage {
    /// The first stage and action of a closing: the unmount comes first.
    pub fn begin() -> (r: (CloseStage, CloseAction))
        ensures
            r == (CloseStage::Unmounting, CloseAction::Unmount),
    {
        (CloseStage::Unmounting, CloseAction::Unmount)
    }

    /// The next stage and action of a closing, given what the last action gave.
    pub fn step(self, event: CloseEvent) -> (r: (CloseStage, CloseAction))
        ensures
            r == close_step(self, event),
    {
        match (self, event) {
            (CloseStage::Unmounting, CloseEvent::Unmounted(Ok(_))) => (
                CloseStage::Deleting,
                CloseAction::DeleteSnapshot,
            ),
            (CloseStage::Unmounting, CloseEvent::Unmounted(Err(e))) => (
                CloseStage::Done,
                CloseAction::Finish(Err(e)),
            ),
            (CloseStage::Deleting, CloseEvent::Deleted(d)) => (CloseStage::Done, CloseAction::Finish(d)),
            (s, _) => (s, CloseAction::Ignored),
        }
    }
}

/// After a successful mount the opening is over with the session, and no deletion is
/// asked for; after a failed mount the created snapshot is deleted, and the opening then
/// ends with the mount's error whatever the deletion gave.
pub proof fn lemma_open_deletes_only_after_failed_mount(
    request: CopyMountRequest,
    snapshot: SnapshotInfo,
    mount: Result<MountHandle>,
    deleted: Result<()>,
    next: OpenStage,
    action: OpenAction,
    next2: OpenStage,
    action2: OpenAction,
)
    requires
        open_step_is(request, OpenStage::Mounting { snapshot }, OpenEvent::Mounted(mount), next, action),
        open_step_is(request, next, OpenEvent::Deleted(deleted), next2, action2),
    ensures
        mount matches Ok(m) ==> action == OpenAction::Finish(Ok(CopyMountSession { snapshot, mount: m })),
        mount is Ok ==> !(action is DeleteSnapshot),
        mount matches Err(e) ==> ({
            &&& action matches OpenAction::DeleteSnapshot(h)
            &&& same_handle(h, snapshot.handle)
            &&& action2 == OpenAction::Finish(Err::<CopyMountSession, Error>(e))
        }),
{
}

/// A closing unmounts first, deletes the snapshot only after a successful unmount, and
/// ends with the first error, or with success when both succeeded.
pub proof fn lemma_close_unmounts_before_deleting(unmounted: Result<()>, deleted: Result<()>)
    ensures
        close_step(CloseStage::Unmounting, CloseEvent::Unmounted(unmounted)).1 == (match unmounted {
            Ok(_) => CloseAction::DeleteSnapshot,
            Err(e) => CloseAction::Finish(Err(e)),
        }),
        unmounted is Ok ==> close_step(
            close_step(CloseStage::Unmounting, CloseEvent::Unmounted(unmounted)).0,
            CloseEvent::Deleted(deleted),
        ).1 == CloseAction::Finish(deleted),
{
}

// ---------------------------------------------------------------------------
// Opening and closing through a backend
// ---------------------------------------------------------------------------

/// What an opening may end with, given what the backend says of its operations: a
/// session whose snapshot the backend created as asked and whose mount it made as asked;
/// or the error of the creation; or the error of the mount, once the created snapshot was
/// handed back for deletion.
pub open spec fn open_outcome<T: SnapshotProvider + MountManager>(
    backend: &T,
    request: CopyMountRequest,
    r: Result<CopyMountSession>,
) -> bool {
    match r {
        Ok(s) => {
            &&& exists|q: SnapshotRequest|
                #[trigger] backend.creation(q, Ok::<SnapshotInfo, Error>(s.snapshot))
                    && is_copy_snapshot_request(q, request)
            &&& exists|m: MountRequest|
                #[trigger] backend.mounting(m, Ok::<MountHandle, Error>(s.mount))
                    && is_copy_mount_request(m, request, s.snapshot)
        },
        Err(e) => {
            ||| exists|q: SnapshotRequest|
                #[trigger] backend.creation(q, Err::<SnapshotInfo, Error>(e))
                    && is_copy_snapshot_request(q, request)
            ||| mount_failed(backend, request, e, true)
        },
    }
}

/// The backend created the snapshot `request` asks for, and mounting it as asked failed
/// with `e`; with `released`, the created snapshot was then handed back for deletion.
pub open spec fn mount_failed<T: SnapshotProvider + MountManager>(
    backend: &T,
    request: CopyMountRequest,
    e: Error,
    released: bool,
) -> bool {
    exists|q: SnapshotRequest, snapshot: SnapshotInfo, m: MountRequest|
        #![trigger backend.creation(q, Ok::<SnapshotInfo, Error>(snapshot)), backend.mounting(m, Err::<MountHandle, Error>(e))]
        {
            &&& backend.creation(q, Ok::<SnapshotInfo, Error>(snapshot))
            &&& is_copy_snapshot_request(q, request)
            &&& backend.mounting(m, Err::<MountHandle, Error>(e))
            &&& is_copy_mount_request(m, request, snapshot)
            &&& released ==> exists|h: SnapshotHandle, d: Result<()>|
                #[trigger] backend.deletion(h, d) && same_handle(h, snapshot.handle)
        }
}

/// How far an opening is from its end.
pub open spec fn open_rank(stage: OpenStage) -> nat {
    match stage {
        OpenStage::Creating => 3,
        OpenStage::Mounting { .. } => 2,
        OpenStage::Releasing { .. } => 1,
        OpenStage::Done => 0,
    }
}

/// What the stage and the pending action of an opening say of the steps so far.
pub open spec fn open_progress<T: SnapshotProvider + MountManager>(
    backend: &T,
    request: CopyMountRequest,
    stage: OpenStage,
    action: OpenAction,
) -> bool {
    match stage {
        OpenStage::Creating => action matches OpenAction::CreateSnapshot(q)
            && is_copy_snapshot_request(q, request),
        OpenStage::Mounting { snapshot } => {
            &&& action matches OpenAction::Mount(m)
            &&& is_copy_mount_request(m, request, snapshot)
            &&& exists|q: SnapshotRequest|
                #[trigger] backend.creation(q, Ok::<SnapshotInfo, Error>(snapshot))
                    && is_copy_snapshot_request(q, request)
        },
        OpenStage::Releasing { error } => {
            &&& action is DeleteSnapshot
            &&& exists|q: SnapshotRequest, snapshot: SnapshotInfo, m: MountRequest|
                #![trigger backend.creation(q, Ok::<SnapshotInfo, Error>(snapshot)), backend.mounting(m, Err::<MountHandle, Error>(error))]
                {
                    &&& backend.creation(q, Ok::<SnapshotInfo, Error>(snapshot))
                    &&& is_copy_snapshot_request(q, request)
                    &&& backend.mounting(m, Err::<MountHandle, Error>(error))
                    &&& is_copy_mount_request(m, request, snapshot)
                    &&& action matches OpenAction::DeleteSnapshot(h) && same_handle(h, snapshot.handle)
                }
        },
        OpenStage::Done => action matches OpenAction::Finish(r) && open_outcome(backend, request, r),
    }
}

/// One step of an opening keeps what `open_progress` says, once the backend answered the
/// pending action.
proof fn lemma_open_progress<T: SnapshotProvider + MountManager>(
    backend: &T,
    request: CopyMountRequest,
    stage: OpenStage,
    action: OpenAction,
    event: OpenEvent,
    next: OpenStage,
    next_action: OpenAction,
)
    requires
        open_progress(backend, request, stage, action),
        open_step_is(request, stage, event, next, next_action),
        match action {
            OpenAction::CreateSnapshot(q) => event matches OpenEvent::Created(c) && backend.creation(q, c),
            OpenAction::Mount(m) => event matches OpenEvent::Mounted(c) && backend.mounting(m, c),
            OpenAction::DeleteSnapshot(h) => event matches OpenEvent::Deleted(c) && backend.deletion(h, c),
            _ => false,
        },
    ensures
        open_progress(backend, request, next, next_action),
        open_rank(next) < open_rank(stage),
{
    match stage {
        OpenStage::Creating => {
            let q = action->CreateSnapshot_0;
            match event {
                OpenEvent::Created(Ok(s)) => {
                    assert(backend.creation(q, Ok::<SnapshotInfo, Error>(s)));
                    assert(open_progress(backend, request, next, next_action));
                },
                OpenEvent::Created(Err(e)) => {
                    assert(backend.creation(q, Err::<SnapshotInfo, Error>(e)));
                    assert(open_progress(backend, request, next, next_action));
                },
                _ => {},
            }
        },
        OpenStage::Mounting { snapshot } => {
            let m = action->Mount_0;
            let q = choose|q: SnapshotRequest|
                #[trigger] backend.creation(q, Ok::<SnapshotInfo, Error>(snapshot))
                    && is_copy_snapshot_request(q, request);
            match event {
                OpenEvent::Mounted(Ok(mh)) => {
                    assert(backend.mounting(m, Ok::<MountHandle, Error>(mh)));
                    assert(backend.creation(q, Ok::<SnapshotInfo, Error>(snapshot)));
                    let session = CopyMountSession { snapshot, mount: mh };
                    assert(next_action == OpenAction::Finish(Ok::<CopyMountSession, Error>(session)));
                    assert(is_copy_mount_request(m, request, session.snapshot));
                    assert(backend.mounting(m, Ok::<MountHandle, Error>(session.mount)));
                    assert(open_outcome(backend, request, Ok::<CopyMountSession, Error>(session)));
                    assert(open_progress(backend, request, next, next_action));
                },
                OpenEvent::Mounted(Err(e)) => {
                    assert(backend.mounting(m, Err::<MountHandle, Error>(e)));
                    assert(backend.creation(q, Ok::<SnapshotInfo, Error>(snapshot)));
                    assert(open_progress(backend, request, next, next_action));
                },
                _ => {},
            }
        },
        OpenStage::Releasing { error } => {
            let h = action->DeleteSnapshot_0;
            let (q, snapshot, m) = choose|q: SnapshotRequest, snapshot: SnapshotInfo, m: MountRequest|
                #![trigger backend.creation(q, Ok::<SnapshotInfo, Error>(snapshot)), backend.mounting(m, Err::<MountHandle, Error>(error))]
                {
                    &&& backend.creation(q, Ok::<SnapshotInfo, Error>(snapshot))
                    &&& is_copy_snapshot_request(q, request)
                    &&& backend.mounting(m, Err::<MountHandle, Error>(error))
                    &&& is_copy_mount_request(m, request, snapshot)
                    &&& action matches OpenAction::DeleteSnapshot(h) && same_handle(h, snapshot.handle)
                };
            let d = event->Deleted_0;
            assert(backend.deletion(h, d));
            assert(mount_failed(backend, request, error, true));
            assert(open_progress(backend, request, next, next_action));
        },
        OpenStage::Done => {},
    }
}

/// Opens a temporary snapshot-backed mount through a backend that supports both traits,
/// taking each step that `OpenStage` asks for: the snapshot is created as
/// `copy_snapshot_request` says and mounted as `copy_mount_request` says; when the mount
/// fails, the snapshot is deleted again and the mount's error is returned.
pub fn open_copy_mount<T>(backend: &T, request: &CopyMountRequest) -> (r: Result<CopyMountSession>)
    where
        T: SnapshotProvider + MountManager,
    ensures
        open_outcome(backend, *request, r),
{
    let (mut stage, mut action) = OpenStage::begin(request);
    loop
        invariant
            open_progress(backend, *request, stage, action),
        decreases open_rank(stage),
    {
        let ghost before = stage;
        let ghost pending = action;
        let event = match action {
            OpenAction::CreateSnapshot(q) => OpenEvent::Created(backend.create_snapshot(&q)),
            OpenAction::Mount(m) => OpenEvent::Mounted(backend.mount_snapshot(&m)),
            OpenAction::DeleteSnapshot(h) => OpenEvent::Deleted(backend.delete_snapshot(&h)),
            OpenAction::Finish(r) => return r,
            OpenAction::Ignored => {
                return Err(Error::Message { message: String::from_str("copy-mount step out of order") });
            },
        };
        let (next, next_action) = stage.step(event, request);
        proof {
            lemma_open_progress(backend, *request, before, pending, event, next, next_action);
        }
        stage = next;
        action = next_action;
    }
}

/// What a closing may end with, given what the backend says of its operations: success
/// once both the unmount and the deletion succeeded; otherwise the unmount's error, or,
/// after a successful unmount, the deletion's error.
pub open spec fn close_outcome<T: SnapshotProvider + MountManager>(
    backend: &T,
    snapshot: SnapshotHandle,
    mount: MountHandle,
    r: Result<()>,
) -> bool {
    &&& r is Ok ==> backend.deletion(snapshot, r) && exists|u: Result<()>|
        #[trigger] backend.unmounting(mount, u) && u is Ok
    &&& r matches Err(e) ==> {
        ||| backend.unmounting(mount, Err::<(), Error>(e))
        ||| backend.deletion(snapshot, Err::<(), Error>(e)) && exists|u: Result<()>|
            #[trigger] backend.unmounting(mount, u) && u is Ok
    }
}

/// How far a closing is from its end.
pub open spec fn close_rank(stage: CloseStage) -> nat {
    match stage {
        CloseStage::Unmounting => 2,
        CloseStage::Deleting => 1,
        CloseStage::Done => 0,
    }
}

/// Closes a temporary snapshot-backed mount, taking each step that `CloseStage` asks for:
/// the mount is taken down first, and the snapshot is deleted only once the unmount
/// succeeded; the first error is returned.
pub fn close_copy_mount<T>(backend: &T, snapshot: &SnapshotHandle, mount: &MountHandle) -> (r: Result<()>)
    where
        T: SnapshotProvider + MountManager,
    ensures
        close_outcome(backend, *snapshot, *mount, r),
{
    let (mut stage, mut action) = CloseStage::begin();
    loop
        invariant
            match stage {
                CloseStage::Unmounting => action is Unmount,
                CloseStage::Deleting => action is DeleteSnapshot && exists|u: Result<()>|
                    #[trigger] backend.unmounting(*mount, u) && u is Ok,
                CloseStage::Done => action matches CloseAction::Finish(r) && close_outcome(
                    backend,
                    *snapshot,
                    *mount,
                    r,
                ),
            },
        decreases close_rank(stage),
    {
        let event = match action {
            CloseAction::Unmount => CloseEvent::Unmounted(backend.unmount(mount)),
            CloseAction::DeleteSnapshot => CloseEvent::Deleted(backend.delete_snapshot(snapshot)),
            CloseAction::Finish(r) => return r,
            CloseAction::Ignored => {
                return Err(Error::Message { message: String::from_str("copy-mount step out of order") });
            },
        };
        let (next, next_action) = stage.step(event);
        stage = next;
        action = next_action;
    }
}

} // verus!
