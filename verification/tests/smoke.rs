use isolated::{Command, WaitStatus};
use nix::fcntl::{open, OFlag};
use nix::sys::stat::{stat, Mode};
use nix::unistd::{chdir, close, mkdir, read};

fn copy_file(src: &str, dst: &str) {
    let sfd = open(src, OFlag::O_RDONLY, Mode::empty()).expect("open source");
    let dfd = open(
        dst,
        OFlag::O_WRONLY | OFlag::O_CREAT | OFlag::O_TRUNC,
        Mode::from_bits_truncate(0o755),
    )
    .expect("open destination");
    let mut buf = [0u8; 65536];
    loop {
        let n = read(sfd, &mut buf).expect("read");
        if n == 0 {
            break;
        }
        let mut off = 0;
        while off < n {
            off += nix::unistd::write(dfd, &buf[off..n]).expect("write");
        }
    }
    let _ = close(sfd);
    let _ = close(dfd);
}

fn write_text(path: &str, text: &str) {
    let fd = open(
        path,
        OFlag::O_WRONLY | OFlag::O_CREAT | OFlag::O_TRUNC,
        Mode::from_bits_truncate(0o644),
    )
    .expect("open for writing");
    let bytes = text.as_bytes();
    let mut off = 0;
    while off < bytes.len() {
        off += nix::unistd::write(fd, &bytes[off..]).expect("write");
    }
    let _ = close(fd);
}

fn read_text(path: &str) -> String {
    let fd = open(path, OFlag::O_RDONLY, Mode::empty()).expect("open for reading");
    let mut out = Vec::new();
    let mut buf = [0u8; 4096];
    loop {
        let n = read(fd, &mut buf).expect("read");
        if n == 0 {
            break;
        }
        out.extend_from_slice(&buf[..n]);
    }
    let _ = close(fd);
    String::from_utf8(out).expect("utf8")
}


fn write_file(path: &str, text: &str) -> Result<(), ()> {
    let fd = match open(path, OFlag::O_WRONLY, Mode::empty()) {
        Ok(fd) => fd,
        Err(_) => return Err(()),
    };
    let r = nix::unistd::write(fd, text.as_bytes());
    let _ = close(fd);
    match r {
        Ok(n) if n == text.len() => Ok(()),
        _ => Err(()),
    }
}

/// Runs `f` in a child that owns fresh user and mount namespaces, where it
/// holds the privileges that mounting and namespace creation need; returns
/// how the child ended.
fn run_in_sandbox_raw(mut f: Box<dyn FnMut() -> isize + '_>) -> nix::sys::wait::WaitStatus {
    let uid = nix::unistd::getuid().as_raw();
    let gid = nix::unistd::getgid().as_raw();
    let mut stack = vec![0u8; 4 * 1024 * 1024];
    let cb = Box::new(move || {
        if write_file("/proc/self/setgroups", "deny").is_err() {
            return 125;
        }
        if write_file("/proc/self/gid_map", &format!("0 {} 1", gid)).is_err() {
            return 125;
        }
        if write_file("/proc/self/uid_map", &format!("0 {} 1", uid)).is_err() {
            return 125;
        }
        let none: Option<&str> = None;
        let _ = nix::mount::mount(
            none,
            "/",
            none,
            nix::mount::MsFlags::MS_REC | nix::mount::MsFlags::MS_PRIVATE,
            none,
        );
        f()
    });
    let pid = nix::sched::clone(
        cb,
        &mut stack,
        nix::sched::CloneFlags::CLONE_NEWUSER | nix::sched::CloneFlags::CLONE_NEWNS,
        Some(nix::sys::signal::Signal::SIGCHLD as i32),
    )
    .expect("clone for the test sandbox");
    nix::sys::wait::waitpid(pid, None).expect("waitpid")
}

/// Like `run_in_sandbox_raw`, but expects a plain exit and returns its code
/// (0 when every assertion in `f` held).
fn run_in_sandbox(f: Box<dyn FnMut() -> isize + '_>) -> i32 {
    match run_in_sandbox_raw(f) {
        nix::sys::wait::WaitStatus::Exited(_, c) => c,
        other => panic!("the test sandbox child did not exit plainly: {:?}", other),
    }
}

/// Assembles a minimal root layer under `base`: a shell, pwd, the C library
/// and its loader, and empty proc/ and sys/ mountpoint directories.
fn make_rootfs(base: &str) -> String {
    let root = format!("{}/rootfs", base);
    let dirs = [
        "".to_string(),
        "/bin".to_string(),
        "/lib".to_string(),
        "/lib/x86_64-linux-gnu".to_string(),
        "/lib64".to_string(),
        "/proc".to_string(),
        "/sys".to_string(),
    ];
    for d in dirs.iter() {
        mkdir(
            format!("{}{}", root, d).as_str(),
            Mode::from_bits_truncate(0o755),
        )
        .expect("mkdir rootfs subdir");
    }
    copy_file("/bin/pwd", &format!("{}/bin/pwd", root));
    copy_file("/bin/sh", &format!("{}/bin/sh", root));
    copy_file(
        "/lib/x86_64-linux-gnu/libc.so.6",
        &format!("{}/lib/x86_64-linux-gnu/libc.so.6", root),
    );
    copy_file(
        "/lib64/ld-linux-x86-64.so.2",
        &format!("{}/lib64/ld-linux-x86-64.so.2", root),
    );
    root
}

#[test]
fn smoke_test() {
    let tmp = tempfile::tempdir().unwrap();
    let base = tmp.path().to_str().unwrap();
    make_rootfs(base);
    let code = run_in_sandbox(Box::new(|| {
        chdir(base).unwrap();
        let status = Command::new("rootfs", "/bin/pwd")
            .spawn()
            .expect("spawn")
            .wait()
            .expect("wait");
        assert!(matches!(status, WaitStatus::Exited(_, 0)));
        0
    }));
    assert_eq!(code, 0);
}

#[test]
fn exit_code_is_reported() {
    let tmp = tempfile::tempdir().unwrap();
    let base = tmp.path().to_str().unwrap();
    let root = make_rootfs(base);
    let code = run_in_sandbox(Box::new(|| {
        let status = Command::new(&root, "/bin/sh")
            .args(&vec!["-c".to_string(), "exit 7".to_string()])
            .spawn()
            .expect("spawn")
            .wait()
            .expect("wait");
        assert!(matches!(status, WaitStatus::Exited(_, 7)));
        0
    }));
    assert_eq!(code, 0);
}

#[test]
fn wait_is_idempotent() {
    let tmp = tempfile::tempdir().unwrap();
    let base = tmp.path().to_str().unwrap();
    let root = make_rootfs(base);
    let code = run_in_sandbox(Box::new(|| {
        let mut p = Command::new(&root, "/bin/sh")
            .args(&vec!["-c".to_string(), "exit 3".to_string()])
            .spawn()
            .expect("spawn");
        let first = p.wait().expect("first wait");
        let second = p.wait().expect("second wait");
        assert_eq!(first, second);
        assert!(matches!(first, WaitStatus::Exited(_, 3)));
        0
    }));
    assert_eq!(code, 0);
}

#[test]
fn read_only_policy_rejects_writes() {
    let tmp = tempfile::tempdir().unwrap();
    let base = tmp.path().to_str().unwrap();
    let root = make_rootfs(base);
    let code = run_in_sandbox(Box::new(|| {
        let status = Command::new(&root, "/bin/sh")
            .args(&vec!["-c".to_string(), "echo x > /f.txt".to_string()])
            .spawn()
            .expect("spawn")
            .wait()
            .expect("wait");
        // The write fails on the read-only root.
        assert!(matches!(status, WaitStatus::Exited(_, c) if c != 0));
        0
    }));
    assert_eq!(code, 0);
    // Nothing shows up in the layer directory.
    assert!(stat(format!("{}/f.txt", root).as_str()).is_err());
}

#[test]
fn tempdir_policy_leaves_no_trace() {
    let tmp = tempfile::tempdir().unwrap();
    let base = tmp.path().to_str().unwrap();
    let root = make_rootfs(base);
    let code = run_in_sandbox(Box::new(|| {
        let status = Command::new(&root, "/bin/sh")
            .args(&vec!["-c".to_string(), "echo x > /f.txt".to_string()])
            .disk_write_tempdir()
            .spawn()
            .expect("spawn")
            .wait()
            .expect("wait");
        // The write succeeds on the ephemeral upper layer.
        assert!(matches!(status, WaitStatus::Exited(_, 0)));
        0
    }));
    assert_eq!(code, 0);
    // The layer directory still has no such file.
    assert!(stat(format!("{}/f.txt", root).as_str()).is_err());
}

#[test]
fn explicit_write_dir_keeps_files_and_shadows_layers() {
    let tmp = tempfile::tempdir().unwrap();
    let base = tmp.path().to_str().unwrap();
    let root = make_rootfs(base);
    // The layer carries a file the child will overwrite.
    write_text(&format!("{}/f.txt", root), "lower\n");
    let wdir = format!("{}/write", base);
    mkdir(wdir.as_str(), Mode::from_bits_truncate(0o755)).unwrap();

    let code = run_in_sandbox(Box::new(|| {
        let status = Command::new(&root, "/bin/sh")
            .args(&vec!["-c".to_string(), "echo upper > /f.txt".to_string()])
            .disk_write_to(&wdir)
            .spawn()
            .expect("spawn")
            .wait()
            .expect("wait");
        assert!(matches!(status, WaitStatus::Exited(_, 0)));

        // A second spawn over the same stack sees the upper content, not
        // the same-named file of the read-only layer.
        let status = Command::new(&root, "/bin/sh")
            .args(&vec![
                "-c".to_string(),
                "read x < /f.txt && [ \"$x\" = upper ]".to_string(),
            ])
            .disk_write_to(&wdir)
            .spawn()
            .expect("spawn")
            .wait()
            .expect("wait");
        assert!(matches!(status, WaitStatus::Exited(_, 0)));
        0
    }));
    assert_eq!(code, 0);
    // The file persists in the configured directory after exit.
    assert_eq!(read_text(&format!("{}/f.txt", wdir)), "upper\n");
}

#[test]
fn distinct_write_dirs_stay_independent() {
    let tmp = tempfile::tempdir().unwrap();
    let base = tmp.path().to_str().unwrap();
    let root = make_rootfs(base);
    let w1 = format!("{}/w1", base);
    let w2 = format!("{}/w2", base);
    mkdir(w1.as_str(), Mode::from_bits_truncate(0o755)).unwrap();
    mkdir(w2.as_str(), Mode::from_bits_truncate(0o755)).unwrap();

    let code = run_in_sandbox(Box::new(|| {
        let s1 = Command::new(&root, "/bin/sh")
            .args(&vec!["-c".to_string(), "echo one > /a.txt".to_string()])
            .disk_write_to(&w1)
            .spawn()
            .expect("spawn one")
            .wait()
            .expect("wait one");
        let s2 = Command::new(&root, "/bin/sh")
            .args(&vec!["-c".to_string(), "echo two > /b.txt".to_string()])
            .disk_write_to(&w2)
            .spawn()
            .expect("spawn two")
            .wait()
            .expect("wait two");
        assert!(matches!(s1, WaitStatus::Exited(_, 0)));
        assert!(matches!(s2, WaitStatus::Exited(_, 0)));
        0
    }));
    assert_eq!(code, 0);
    // Each file is in its own write directory and absent from the other.
    assert!(stat(format!("{}/a.txt", w1).as_str()).is_ok());
    assert!(stat(format!("{}/a.txt", w2).as_str()).is_err());
    assert!(stat(format!("{}/b.txt", w2).as_str()).is_ok());
    assert!(stat(format!("{}/b.txt", w1).as_str()).is_err());
}

#[test]
fn signal_terminates_the_child() {
    let tmp = tempfile::tempdir().unwrap();
    let base = tmp.path().to_str().unwrap();
    let root = make_rootfs(base);
    let code = run_in_sandbox(Box::new(|| {
        let mut p = Command::new(&root, "/bin/sh")
            .args(&vec!["-c".to_string(), "while :; do :; done".to_string()])
            .spawn()
            .expect("spawn");
        p.signal(nix::sys::signal::Signal::SIGKILL).expect("signal");
        let status = p.wait().expect("wait");
        assert!(matches!(status, WaitStatus::Signaled(_, 9, _)));
        0
    }));
    assert_eq!(code, 0);
}

struct TouchHook {
    path: String,
}

impl isolated::Hook for TouchHook {
    fn run(&mut self) -> Result<(), i32> {
        match open(
            self.path.as_str(),
            OFlag::O_WRONLY | OFlag::O_CREAT,
            Mode::from_bits_truncate(0o644),
        ) {
            Ok(fd) => {
                let _ = close(fd);
                Ok(())
            }
            Err(_) => Err(1),
        }
    }
}

struct FailHook;

impl isolated::Hook for FailHook {
    fn run(&mut self) -> Result<(), i32> {
        Err(5)
    }
}

#[test]
fn pre_pivot_hook_runs_before_the_program() {
    let tmp = tempfile::tempdir().unwrap();
    let base = tmp.path().to_str().unwrap();
    let root = make_rootfs(base);
    let marker = format!("{}/marker.txt", base);
    let code = run_in_sandbox(Box::new(|| {
        let status = Command::new(&root, "/bin/sh")
            .args(&vec!["-c".to_string(), "exit 0".to_string()])
            .hook_pre_pivot(Box::new(TouchHook { path: marker.clone() }))
            .spawn()
            .expect("spawn")
            .wait()
            .expect("wait");
        assert!(matches!(status, WaitStatus::Exited(_, 0)));
        0
    }));
    assert_eq!(code, 0);
    assert!(stat(marker.as_str()).is_ok());
}

#[test]
fn failing_hook_aborts_startup() {
    let tmp = tempfile::tempdir().unwrap();
    let base = tmp.path().to_str().unwrap();
    let root = make_rootfs(base);
    let marker = format!("{}/marker.txt", base);
    let code = run_in_sandbox(Box::new(|| {
        let status = Command::new(&root, "/bin/sh")
            .args(&vec!["-c".to_string(), "exit 0".to_string()])
            .hook_pre_pivot(Box::new(FailHook))
            .hook_pre_pivot(Box::new(TouchHook { path: marker.clone() }))
            .spawn()
            .expect("spawn")
            .wait()
            .expect("wait");
        // The child reports a startup failure.
        assert!(matches!(status, WaitStatus::Exited(_, 127)));
        0
    }));
    assert_eq!(code, 0);
    // The hook after the failing one never ran.
    assert!(stat(marker.as_str()).is_err());
}

#[test]
fn failed_image_replacement_reports_child_failure() {
    let tmp = tempfile::tempdir().unwrap();
    let base = tmp.path().to_str().unwrap();
    let root = make_rootfs(base);
    let code = run_in_sandbox(Box::new(|| {
        let status = Command::new(&root, "/bin/no-such-program")
            .spawn()
            .expect("spawn")
            .wait()
            .expect("wait");
        // The program does not exist, so the child fails at the image
        // replacement and exits with the startup-failure code.
        assert!(matches!(status, WaitStatus::Exited(_, 127)));
        0
    }));
    assert_eq!(code, 0);
}

#[test]
fn missing_layer_surfaces_a_mount_error() {
    let tmp = tempfile::tempdir().unwrap();
    let base = tmp.path().to_str().unwrap();
    let missing = format!("{}/no-such-layer", base);
    let r = Command::new(&missing, "/bin/sh").spawn();
    assert!(matches!(r, Err(isolated::SpawnError::Mount(_))));
}

#[test]
fn nul_in_path_or_argument_faults_at_construction() {
    // Construction, not spawn, is where an embedded null terminator
    // hard-faults: the faulting child never reaches its return.
    let mut stack = vec![0u8; 1024 * 1024];
    let pid = nix::sched::clone(
        Box::new(|| {
            let _c = Command::new("rootfs", "/bin/p\0wd");
            0
        }),
        &mut stack,
        nix::sched::CloneFlags::empty(),
        Some(nix::sys::signal::Signal::SIGCHLD as i32),
    )
    .expect("clone");
    let status = nix::sys::wait::waitpid(pid, None).expect("waitpid");
    assert!(matches!(
        status,
        nix::sys::wait::WaitStatus::Signaled(_, nix::sys::signal::Signal::SIGABRT, _)
    ));

    let mut stack = vec![0u8; 1024 * 1024];
    let pid = nix::sched::clone(
        Box::new(|| {
            let _c = Command::new("rootfs", "/bin/sh").args(&vec!["a\0b".to_string()]);
            0
        }),
        &mut stack,
        nix::sched::CloneFlags::empty(),
        Some(nix::sys::signal::Signal::SIGCHLD as i32),
    )
    .expect("clone");
    let status = nix::sys::wait::waitpid(pid, None).expect("waitpid");
    assert!(matches!(
        status,
        nix::sys::wait::WaitStatus::Signaled(_, nix::sys::signal::Signal::SIGABRT, _)
    ));
}

#[test]
fn dropping_an_unwaited_handle_faults() {
    let tmp = tempfile::tempdir().unwrap();
    let base = tmp.path().to_str().unwrap();
    let root = make_rootfs(base);
    let status = run_in_sandbox_raw(Box::new(|| {
        let p = Command::new(&root, "/bin/sh")
            .args(&vec!["-c".to_string(), "exit 0".to_string()])
            .spawn()
            .expect("spawn");
        // The handle was never waited on: teardown is a hard fault.
        drop(p);
        0
    }));
    assert!(matches!(
        status,
        nix::sys::wait::WaitStatus::Signaled(_, nix::sys::signal::Signal::SIGABRT, _)
    ));
}

#[test]
fn signaling_a_reaped_process_faults() {
    let tmp = tempfile::tempdir().unwrap();
    let base = tmp.path().to_str().unwrap();
    let root = make_rootfs(base);
    let status = run_in_sandbox_raw(Box::new(|| {
        let mut p = Command::new(&root, "/bin/sh")
            .args(&vec!["-c".to_string(), "exit 0".to_string()])
            .spawn()
            .expect("spawn");
        let _ = p.wait().expect("wait");
        // The status has been observed as terminal: signaling is a hard
        // fault, since the reaped id may have been reused.
        let _ = p.signal(nix::sys::signal::Signal::SIGTERM);
        0
    }));
    assert!(matches!(
        status,
        nix::sys::wait::WaitStatus::Signaled(_, nix::sys::signal::Signal::SIGABRT, _)
    ));
}
