# vpt_rs

A volume backup library with its command-line tool. Backends create, list and delete
snapshots, back volumes up to stream or image files and restore them: Btrfs, LVM and ZFS
on Linux, Volume Shadow Copy on Windows, and a macOS stub.

The library in `src/` is verified with Verus. It holds the decisions: which commands a
backend runs for a request, how their output is read, how command-line arguments are
read, what a Windows shadow copy's tools are asked and what their answers mean, and the
copy-mount workflow. Each public function states its result in its contract; laws that
relate several functions (a GUID's registry form reads back, a label sanitises once and
for all, a snapshot kind's name parses back, every Linux backend supports
crash-consistent snapshots, deleting the snapshot a Linux backend created removes exactly
that snapshot, a ZFS or Btrfs backup sends the snapshot its create plan makes, a
temporary snapshot is always cleaned up and the send's error wins) are proof functions.

`app/` is the `vptcli` program: it reads the arguments, runs the planned commands and the
block copies, and prints. On Windows it runs the shadow-copy tools (`wmic`, `vssadmin`)
for the VSS provider; the COM coordinator is not built, so deletion goes straight to the
command-line route. A backup that uses a temporary snapshot is run step by step as the
library's `backup::TemporaryBackup` directs, and a copy-mount opens and closes as
`copy_mount::OpenStage` and `copy_mount::CloseStage` direct. LVM backs up and restores
by block copy, planned by `LvmBackend::plan_backup_copy` and `plan_restore_copy`. Installed as `vb-copy-mount` or `vb-mount` it runs the
copy-mount and mount tools.

Layout of `src/`:

- `types.rs`, `error.rs`: the shared types and the error type.
- `backend.rs`, `snapshot.rs`, `backup.rs`, `restore.rs`, `mount.rs`: the backend traits.
- `platform/`: the backends; `platform/linux/` plans `btrfs`, `lvm`/`lvcreate` and `zfs`
  commands and reads their listings; `platform/windows/` holds the VSS provider's
  decisions: which requests it takes, what the tools are handed and what their answers
  mean. The platform the library reports is Linux; the program picks the Windows or macOS
  backend when it is built for those systems.
- `cli.rs`: command-line options, switches and positional arguments; block sizes.
- `copy.rs`, `copy_mount.rs`, `process.rs`: block copies, copy-mount, external commands.
- `text.rs`, `path.rs`: string and Unix path helpers with their specifications.
- `host.rs`: what the library asks of the machine (whether a path exists, the time, the
  decoding of command output).
