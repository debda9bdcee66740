use vstd::prelude::*;

use crate::no_nul;
use nix::mount::MsFlags;
use nix::fcntl::OFlag;
use nix::sys::wait::WaitStatus as W;
use nix::sys::wait::waitpid;
use nix::unistd::Pid;
use std::io::Write;
use crate::WaitStatus as WS;

verus! {

// Failures of the underlying system calls are carried as raw OS error
// numbers (errno values).

#[verifier::external_type_specification]
#[verifier::external_body]
/// An ephemeral directory handle of the tempfile crate; dropping it deletes
/// the directory tree it owns.
pub struct ExTempDir(tempfile::TempDir);

#[verifier::external_type_specification]
#[verifier::external_body]
/// A POSIX signal number as the nix crate represents it.
pub struct ExSignal(nix::sys::signal::Signal);

/// Relies on tempfile::tempdir: creates a fresh, uniquely named directory
/// and returns the handle that deletes it when dropped, together with the
/// directory's path.
#[verifier::external_body]
pub(crate) fn sys_tempdir() -> (r: Result<(tempfile::TempDir, String), i32>) {
    match tempfile::tempdir() {
        Ok(d) => match d.path().to_str() {
            Some(s) => {
                let p = s.to_owned();
                Ok((d, p))
            },
            None => Err(0),
        },
        Err(e) => Err(e.raw_os_error().unwrap_or(0)),
    }
}

/// Relies on nix::unistd::mkdir: creates the directory at `path` with the
/// given permission bits; fails if it already exists or cannot be created.
#[verifier::external_body]
pub(crate) fn sys_mkdir(path: &str, mode: u32) -> (r: Result<(), i32>) {
    let m = nix::sys::stat::Mode::from_bits_truncate(mode);
    match nix::unistd::mkdir(path, m) {
        Ok(()) => Ok(()),
        Err(e) => Err(e as i32),
    }
}

/// Relies on nix::mount::mount: attaches a filesystem at `target`.
/// `private` selects MS_PRIVATE (stop mount-event propagation) and
/// `rdonly` selects MS_RDONLY (a read-only mount).
#[verifier::external_body]
pub(crate) fn sys_mount(
    source: Option<&str>,
    target: &str,
    fstype: Option<&str>,
    private: bool,
    rdonly: bool,
    data: Option<&str>,
) -> (r: Result<(), i32>) {
    let mut flags = MsFlags::empty();
    if private {
        flags |= MsFlags::MS_PRIVATE;
    }
    if rdonly {
        flags |= MsFlags::MS_RDONLY;
    }
    match nix::mount::mount(source, target, fstype, flags, data) {
        Ok(()) => Ok(()),
        Err(e) => Err(e as i32),
    }
}

/// Relies on nix::mount::umount: detaches the filesystem mounted at `target`.
#[verifier::external_body]
pub(crate) fn sys_umount(target: &String) -> (r: Result<(), i32>)
    opens_invariants none
    no_unwind
{
    match nix::mount::umount(target.as_str()) {
        Ok(()) => Ok(()),
        Err(e) => Err(e as i32),
    }
}

/// Relies on nix::mount::umount2 with MNT_DETACH: lazily detaches the
/// filesystem mounted at `target`.
#[verifier::external_body]
pub(crate) fn sys_umount_detach(target: &str) -> (r: Result<(), i32>) {
    match nix::mount::umount2(target, nix::mount::MntFlags::MNT_DETACH) {
        Ok(()) => Ok(()),
        Err(e) => Err(e as i32),
    }
}

/// Relies on nix::fcntl::open with O_DIRECTORY | O_RDONLY: opens a
/// descriptor to the directory at `path`.
#[verifier::external_body]
pub(crate) fn sys_open_dir(path: &str) -> (r: Result<i32, i32>) {
    let oflag = OFlag::O_DIRECTORY | OFlag::O_RDONLY;
    match nix::fcntl::open(path, oflag, nix::sys::stat::Mode::empty()) {
        Ok(fd) => Ok(fd),
        Err(e) => Err(e as i32),
    }
}

/// Relies on nix::unistd::close: closes the descriptor `fd`.
#[verifier::external_body]
pub(crate) fn sys_close(fd: i32) -> (r: Result<(), i32>)
    opens_invariants none
    no_unwind
{
    match nix::unistd::close(fd) {
        Ok(()) => Ok(()),
        Err(e) => Err(e as i32),
    }
}

/// Relies on nix::unistd::fchdir: makes the directory open at `fd` the
/// current working directory.
#[verifier::external_body]
pub(crate) fn sys_fchdir(fd: i32) -> (r: Result<(), i32>) {
    match nix::unistd::fchdir(fd) {
        Ok(()) => Ok(()),
        Err(e) => Err(e as i32),
    }
}

/// Relies on nix::unistd::pivot_root: atomically makes `new_root` the root
/// of the calling process's mount namespace, relocating the old root onto
/// `put_old`.
#[verifier::external_body]
pub(crate) fn sys_pivot_root(new_root: &str, put_old: &str) -> (r: Result<(), i32>) {
    match nix::unistd::pivot_root(new_root, put_old) {
        Ok(()) => Ok(()),
        Err(e) => Err(e as i32),
    }
}

/// Relies on nix::unistd::execv: replaces the process image with the program
/// at `path`, passing `args` as its argument vector; it returns only when
/// the replacement failed.
#[verifier::external_body]
pub(crate) fn sys_execv(path: &str, args: &Vec<String>) -> (r: Result<(), i32>)
    requires
        no_nul(path@),
        forall|i: int| 0 <= i < args@.len() ==> no_nul(args@[i]@),
    ensures
        r is Err,
{
    let pb = [path.as_bytes(), &[0]].concat();
    let cpath = core::ffi::CStr::from_bytes_with_nul(&pb).expect("embedded nul");
    let bufs: Vec<Vec<u8>> = args.iter().map(|a| [a.as_bytes(), &[0]].concat()).collect();
    let cargs: Vec<&core::ffi::CStr> = bufs.iter().map(|b| {
        core::ffi::CStr::from_bytes_with_nul(b).expect("embedded nul")
    }).collect();
    match nix::unistd::execv(cpath, &cargs) {
        Ok(_) => Ok(()),
        Err(e) => Err(e as i32),
    }
}

/// Relies on nix::sys::wait::waitpid: blocks until the process `pid`
/// terminates and reports how it ended, each variant carried over one
/// for one.
#[verifier::external_body]
pub(crate) fn sys_waitpid(pid: i32) -> (r: Result<WS, i32>) {
    let s = match waitpid(Pid::from_raw(pid), None) {
        Ok(s) => s,
        Err(e) => return Err(e as i32),
    };
    Ok(match s {
        W::Exited(p, code) => WS::Exited(p.as_raw(), code),
        W::Signaled(p, g, core) => WS::Signaled(p.as_raw(), g as i32, core),
        W::Stopped(p, g) => WS::Stopped(p.as_raw(), g as i32),
        W::PtraceEvent(p, g, ev) => WS::PtraceEvent(p.as_raw(), g as i32, ev),
        W::PtraceSyscall(p) => WS::PtraceSyscall(p.as_raw()),
        W::Continued(p) => WS::Continued(p.as_raw()),
        W::StillAlive => WS::StillAlive,
    })
}

/// Relies on nix::sys::signal::kill: delivers `signal` to the process `pid`.
#[verifier::external_body]
pub(crate) fn sys_kill(pid: i32, signal: nix::sys::signal::Signal) -> (r: Result<(), i32>) {
    match nix::sys::signal::kill(Pid::from_raw(pid), signal) {
        Ok(()) => Ok(()),
        Err(e) => Err(e as i32),
    }
}

/// Relies on std::io::Write::write_fmt, through writeln, on the standard
/// error stream: prints one diagnostic line.
#[verifier::external_body]
pub(crate) fn sys_report(msg: &str) {
    let _ = writeln!(std::io::stderr(), "{}", msg);
}

/// Relies on nix::sys::signal::raise with SIGABRT: delivers an abort signal
/// to the calling process, terminating it at once; a hard fault that no
/// caller can observe or recover from.
#[verifier::external_body]
pub(crate) fn sys_abort()
    opens_invariants none
    no_unwind
{
    let _ = nix::sys::signal::raise(nix::sys::signal::Signal::SIGABRT);
}

} // verus!
