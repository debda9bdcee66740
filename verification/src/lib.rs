mod child;
pub mod command;
pub mod escape;
mod sys;
mod workspace;

pub use command::{Command, DiskWritePolicy, Hook, HookBox};

use vstd::prelude::*;

use child::{sys_clone_child, ChildPlan};
use command::DiskWritePolicy as Policy;
use escape::overlay_options;
use sys::{sys_abort, sys_kill, sys_mkdir, sys_mount, sys_umount, sys_waitpid};
use workspace::Workspace;

verus! {

/// How an isolated process ended, mirroring POSIX wait-status semantics:
/// each variant carries the process id first, then the exit code or the
/// signal number.
#[derive(Clone, Copy, Debug, PartialEq, Eq, Structural)]
pub enum WaitStatus {
    /// The process exited on its own with the given code.
    Exited(i32, i32),
    /// The process was terminated by the given signal; the flag tells
    /// whether a core dump was produced.
    Signaled(i32, i32, bool),
    /// The process was stopped by the given signal.
    Stopped(i32, i32),
    /// A ptrace event stopped the process.
    PtraceEvent(i32, i32, i32),
    /// A ptrace syscall stop.
    PtraceSyscall(i32),
    /// The process was resumed.
    Continued(i32),
    /// The process has not changed state.
    StillAlive,
}

/// A string is a valid path or argument component when it contains no
/// embedded null terminator.
pub open spec fn no_nul(s: Seq<char>) -> bool {
    forall|i: int| 0 <= i < s.len() ==> s[i] != '\0'
}

/// True when the string holds no embedded null terminator.
pub fn check_no_nul(s: &str) -> (r: bool)
    ensures
        r == no_nul(s@),
{
    let n: usize = s.unicode_len();
    let mut i: usize = 0;
    while i < n
        invariant
            0 <= i <= n,
            n == s@.len(),
            forall|j: int| 0 <= j < i ==> s@[j] != '\0',
        decreases n - i,
    {
        if s.get_char(i) == '\0' {
            return false;
        }
        i += 1;
    }
    true
}

/// Why a spawn failed before a process handle existed; each variant carries
/// the OS error of the failing step.
#[derive(Clone, Copy, Debug, PartialEq, Eq, Structural)]
pub enum SpawnError {
    /// The workspace directory tree could not be created.
    Workspace(i32),
    /// The overlay could not be mounted at the workspace mountpoint.
    Mount(i32),
    /// The namespace-creating clone failed; the overlay has been unmounted
    /// again and the workspace deleted.
    Clone(i32),
}

/// A handle to one spawned isolated process: its process id, the cached
/// terminal status once `wait` has observed it, and ownership of the
/// workspace and its overlay mount. Dropping the handle tears both down;
/// dropping it before a successful `wait` is a hard fault.
pub struct Process {
    /// The OS process id; meaningful only while no terminal status has
    /// been cached, since the id may be reused once the process is reaped.
    id: i32,
    /// The terminal status, cached by the first successful `wait`.
    status: Option<WaitStatus>,
    /// The directory tree and overlay mount backing the process.
    workspace: Workspace,
}

impl Process {
    /// The process id this handle tracks.
    pub closed spec fn spec_id(&self) -> i32 {
        self.id
    }

    /// The cached terminal status: `None` until `wait` first succeeds,
    /// then forever that first result.
    pub closed spec fn spec_status(&self) -> Option<WaitStatus> {
        self.status
    }

    /// Spawns the configured program into a fresh mount, PID and network
    /// namespace, on a root assembled from the configuration's layers:
    /// allocates the workspace, resolves the write target from the policy,
    /// mounts the overlay (read-only under the read-only policy), and
    /// clones the child, which switches its root and replaces its image.
    /// A malformed configuration (an embedded null terminator, an empty
    /// layer stack) is a hard fault. Each failing pipeline step maps to
    /// its own error variant and leaves no mount and no directory behind;
    /// on success the handle has not been waited on.
    pub fn spawn(cmd: Command) -> (r: Result<Process, SpawnError>)
        ensures
            r matches Ok(p) ==> p.spec_status() is None,
    {
        if !cmd.check_wf() {
            sys_abort();
            return Err(SpawnError::Workspace(0));
        }
        let Command { path, args, layers, disk_write, pre_pivot, pre_exec } = cmd;

        let ws = match Workspace::allocate() {
            Ok(w) => w,
            Err(e) => {
                return Err(SpawnError::Workspace(e));
            },
        };

        let rdonly = matches!(disk_write, Policy::ReadOnly);
        let writedir: String = match &disk_write {
            Policy::WriteDir(d) => String::from_str(d.as_str()),
            _ => {
                let mut w = String::from_str(ws.root.as_str());
                w.append("/write");
                if let Err(e) = sys_mkdir(w.as_str(), 0o700) {
                    return Err(SpawnError::Workspace(e));
                }
                w
            },
        };

        let options = overlay_options(ws.workdir.as_str(), &layers, writedir.as_str());
        if let Err(e) = sys_mount(
            Some("overlay"),
            ws.mountpoint.as_str(),
            Some("overlay"),
            false,
            rdonly,
            Some(options.as_str()),
        ) {
            return Err(SpawnError::Mount(e));
        }

        let plan = ChildPlan {
            mountpoint: String::from_str(ws.mountpoint.as_str()),
            path,
            args,
            pre_pivot,
            pre_exec,
        };
        match sys_clone_child(plan) {
            Ok(pid) => Ok(Process { id: pid, status: None, workspace: ws }),
            Err(e) => {
                let _ = sys_umount(&ws.mountpoint);
                Err(SpawnError::Clone(e))
            },
        }
    }

    /// Blocks until the process terminates and returns its terminal
    /// status, memoizing it: once a call has succeeded, every later call
    /// returns that same cached status, with no further inspection of OS
    /// state and no change to the handle. Until then a failure of the
    /// underlying wait leaves the handle unchanged.
    pub fn wait(&mut self) -> (r: Result<WaitStatus, i32>)
        ensures
            old(self).spec_status() matches Some(s) ==> r == Ok::<WaitStatus, i32>(s)
                && *final(self) == *old(self),
            old(self).spec_status() is None ==> match r {
                Ok(s) => final(self).spec_status() == Some(s) && final(self).spec_id()
                    == old(self).spec_id(),
                Err(_) => *final(self) == *old(self),
            },
    {
        if let Some(s) = self.status {
            Ok(s)
        } else {
            match sys_waitpid(self.id) {
                Ok(s) => {
                    self.status = Some(s);
                    Ok(s)
                },
                Err(e) => Err(e),
            }
        }
    }

    /// Delivers `signal` to the process. Signaling a handle whose terminal
    /// status has already been observed is a hard fault: the reaped id may
    /// have been reused by the kernel. The handle itself is unchanged.
    pub fn signal(&mut self, signal: nix::sys::signal::Signal) -> (r: Result<(), i32>)
        ensures
            *final(self) == *old(self),
    {
        if self.status.is_some() {
            sys_abort();
        }
        sys_kill(self.id, signal)
    }
}

impl Drop for Process {
    /// Teardown: dropping a handle that was never successfully waited on is
    /// a hard fault (an un-reaped process must not be abandoned). On valid
    /// teardown the overlay is unmounted first — a hard fault if that
    /// fails — and the owned workspace tree is deleted after it.
    fn drop(&mut self)
        opens_invariants none
        no_unwind
    {
        match self.status {
            None => sys_abort(),
            Some(_) => {
                if let Err(_e) = sys_umount(&self.workspace.mountpoint) {
                    sys_abort();
                }
            },
        }
    }
}

} // verus!
