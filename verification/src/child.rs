use vstd::prelude::*;

use crate::no_nul;
use crate::command::HookBox;
use nix::sched::CloneFlags;

use crate::sys::{
    sys_close, sys_execv, sys_fchdir, sys_mkdir, sys_mount, sys_open_dir, sys_pivot_root,
    sys_report, sys_umount_detach,
};

verus! {

/// The exit code with which the child reports a startup failure (a failing
/// hook, a failing root-switch step, or a failing image replacement). A
/// parent cannot tell it apart from the target program itself exiting with
/// this code; that ambiguity is a documented limitation.
pub const CHILD_FAILURE: i32 = 127;

/// Everything the child works on between the namespace-creating clone and
/// the replacement of its program image.
pub struct ChildPlan {
    /// The overlay mountpoint that becomes the new root.
    pub mountpoint: String,
    /// Program path inside the new root.
    pub path: String,
    /// Full argument vector handed to the program.
    pub args: Vec<String>,
    /// Run before the root switch, in order.
    pub pre_pivot: Vec<HookBox>,
    /// Run after the root switch, just before the image replacement, in order.
    pub pre_exec: Vec<HookBox>,
}

impl ChildPlan {
    /// The program path and every argument are free of embedded null
    /// terminators.
    pub open spec fn wf(&self) -> bool {
        &&& no_nul(self.path@)
        &&& forall|i: int| 0 <= i < self.args@.len() ==> no_nul(#[trigger] self.args@[i]@)
    }
}

/// Closes the held descriptor when it goes out of scope, on every exit
/// path; close errors are ignored.
struct AutoCloseFd {
    fd: i32,
}

impl Drop for AutoCloseFd {
    fn drop(&mut self)
        opens_invariants none
        no_unwind
    {
        let _ = sys_close(self.fd);
    }
}

/// Runs the stored hooks in registration order, consuming them; stops at
/// the first failure and returns its code, leaving the remaining hooks
/// unrun.
fn run_hooks(hooks: &mut Vec<HookBox>) -> (r: Result<(), i32>) {
    while hooks.len() > 0
        decreases hooks@.len(),
    {
        let mut h = hooks.remove(0);
        if let Err(code) = h.0.run() {
            return Err(code);
        }
    }
    Ok(())
}

/// Switches the calling process's root to `new_root`, strictly in this
/// order: open (and schedule the close of) descriptors to the old and new
/// roots, mark both mounts private so mount events do not propagate across
/// the namespace boundary, change directory to the new root, pivot with old
/// and new equal to the current directory, mount the /proc and /sys
/// pseudo-filesystems (a pre-existing directory is not an error), and
/// lazily detach the old root. Returns the first failing step's OS error.
fn setup_rootfs(new_root: &str) -> (r: Result<(), i32>) {
    let old_fd = sys_open_dir("/")?;
    AutoCloseFd { fd: old_fd };
    let new_fd = AutoCloseFd { fd: sys_open_dir(new_root)? };

    sys_mount(None, "/", None, true, false, None)?;
    sys_mount(None, new_root, None, true, false, None)?;

    sys_fchdir(new_fd.fd)?;
    sys_pivot_root(".", ".")?;

    let _ = sys_mkdir("/proc", 0o700);
    sys_mount(None, "/proc", Some("proc"), false, false, None)?;

    let _ = sys_mkdir("/sys", 0o700);
    sys_mount(None, "/sys", Some("sysfs"), false, false, None)?;

    sys_umount_detach("/")?;
    Ok(())
}

/// The child side of a spawn: runs the pre-root-switch hooks, switches the
/// root to the overlay mountpoint, runs the pre-exec hooks, and replaces
/// the process image. Each step's failure is final: a diagnostic is
/// printed and the child exits with the returned code; there is no channel
/// back to the parent. On success the call never returns.
pub(crate) fn child_main(plan: &mut ChildPlan) -> (r: i32)
    requires
        old(plan).wf(),
    ensures
        r == CHILD_FAILURE,
{
    if let Err(_code) = run_hooks(&mut plan.pre_pivot) {
        sys_report("isolated: a pre-pivot hook failed");
        return CHILD_FAILURE;
    }
    if let Err(_e) = setup_rootfs(plan.mountpoint.as_str()) {
        sys_report("isolated: switching to the new root failed");
        return CHILD_FAILURE;
    }
    if let Err(_code) = run_hooks(&mut plan.pre_exec) {
        sys_report("isolated: a pre-exec hook failed");
        return CHILD_FAILURE;
    }
    let _ = sys_execv(plan.path.as_str(), &plan.args);
    sys_report("isolated: replacing the process image failed");
    CHILD_FAILURE
}

/// Relies on nix::sched::clone with CLONE_VFORK | CLONE_NEWNS | CLONE_NEWPID
/// | CLONE_NEWNET and SIGCHLD: starts a child sharing no mount, PID or
/// network namespace with the caller, on a fixed-size stack owned by this
/// call, and suspends the caller until the child either replaces its program
/// image or exits. The child runs `child_main` on the plan and nothing
/// else; the call returns the new process id, or the OS error if no child
/// was created.
#[verifier::external_body]
pub(crate) fn sys_clone_child(plan: ChildPlan) -> (r: Result<i32, i32>)
    requires
        plan.wf(),
{
    let mut plan = plan;
    let mut stack = [0u8; 65536];
    let flags = CloneFlags::CLONE_VFORK | CloneFlags::CLONE_NEWNS | CloneFlags::CLONE_NEWPID
        | CloneFlags::CLONE_NEWNET;
    let r = nix::sched::clone(
        Box::new(move || child_main(&mut plan) as isize),
        &mut stack,
        flags,
        Some(nix::sys::signal::Signal::SIGCHLD as i32),
    );
    match r {
        Ok(p) => Ok(p.as_raw()),
        Err(e) => Err(e as i32),
    }
}

} // verus!
