use vstd::prelude::*;

use crate::sys::{sys_mkdir, sys_tempdir};

verus! {

/// The ephemeral directory tree backing one spawn: a uniquely named root
/// holding the overlay mountpoint `mount/` and the overlay bookkeeping
/// directory `work/`. The whole tree is deleted as a unit when the
/// workspace drops, so the overlay must be unmounted strictly before then.
pub(crate) struct Workspace {
    /// Owns the root directory; dropping it deletes the tree.
    pub(crate) tmp: tempfile::TempDir,
    /// The root directory's path.
    pub(crate) root: String,
    /// `<root>/mount`, where the overlay is mounted.
    pub(crate) mountpoint: String,
    /// `<root>/work`, the overlay's internal bookkeeping directory.
    pub(crate) workdir: String,
}

impl Workspace {
    /// The mountpoint and the bookkeeping directory lie under the root.
    pub(crate) open spec fn wf(&self) -> bool {
        &&& self.mountpoint@ == self.root@ + "/mount"@
        &&& self.workdir@ == self.root@ + "/work"@
    }

    /// Creates the directory tree: a fresh uniquely named root with
    /// `mount/` and `work/` under it. Any creation failure aborts the
    /// spawn before a mount or namespace exists, and returns the step's
    /// OS error; the partially created tree is deleted when the handle
    /// drops.
    pub(crate) fn allocate() -> (r: Result<Workspace, i32>)
        ensures
            r matches Ok(ws) ==> ws.wf(),
    {
        let (tmp, root) = match sys_tempdir() {
            Ok(t) => t,
            Err(e) => {
                return Err(e);
            },
        };
        let mut mountpoint = String::from_str(root.as_str());
        mountpoint.append("/mount");
        let mut workdir = String::from_str(root.as_str());
        workdir.append("/work");
        if let Err(e) = sys_mkdir(mountpoint.as_str(), 0o700) {
            return Err(e);
        }
        if let Err(e) = sys_mkdir(workdir.as_str(), 0o700) {
            return Err(e);
        }
        Ok(Workspace { tmp, root, mountpoint, workdir })
    }
}

} // verus!
