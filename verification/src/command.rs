use vstd::prelude::*;

use crate::no_nul;
use crate::check_no_nul;
use crate::sys::sys_abort;
use crate::{Process, SpawnError};

verus! {

/// Where the spawned program's filesystem writes land.
#[derive(Debug)]
pub enum DiskWritePolicy {
    /// No write access to any part of the filesystem.
    ReadOnly,
    /// Writes land in an ephemeral directory deleted at teardown.
    TempDir,
    /// Writes land in this caller-supplied directory, which must already
    /// exist, and persist there after the process exits.
    WriteDir(String),
}

/// A caller-supplied fallible startup action, run once at a defined point
/// of the child's startup sequence. Nothing is assumed of what it does.
pub trait Hook {
    /// Runs the action; an error carries a caller-chosen code and aborts
    /// the remaining startup sequence.
    fn run(&mut self) -> Result<(), i32>;
}

/// One stored startup action; the box owns the caller's action object.
pub struct HookBox(pub Box<dyn Hook>);

/// An isolated process being configured: the program path, its argument
/// list, the read-only layer stack (outermost first), the write policy and
/// the startup hooks. Consumed by `spawn`.
#[must_use]
pub struct Command {
    /// Program path inside the isolated filesystem.
    pub path: String,
    /// Full argument vector; the first entry is the program path.
    pub args: Vec<String>,
    /// Overlay layers from outermost (lowest priority) to innermost.
    pub layers: Vec<String>,
    /// Where the program's writes land.
    pub disk_write: DiskWritePolicy,
    /// Run in the child just before the root switch, in order.
    pub pre_pivot: Vec<HookBox>,
    /// Run in the child after the root switch, just before the program
    /// image is replaced, in order.
    pub pre_exec: Vec<HookBox>,
}

impl Command {
    /// Every path and argument is free of embedded null terminators and the
    /// layer stack has at least one entry.
    pub open spec fn wf(&self) -> bool {
        &&& no_nul(self.path@)
        &&& forall|i: int| 0 <= i < self.args@.len() ==> no_nul(#[trigger] self.args@[i]@)
        &&& self.layers@.len() >= 1
        &&& forall|i: int| 0 <= i < self.layers@.len() ==> no_nul(#[trigger] self.layers@[i]@)
        &&& (self.disk_write matches DiskWritePolicy::WriteDir(d) ==> no_nul(d@))
    }

    /// Starts a configuration for the program at `path`, run on a single
    /// read-only layer `root_fs`, with no write access and no hooks; the
    /// argument list holds the program path alone. An embedded null
    /// terminator in either string is a hard fault here, never deferred
    /// to spawn time.
    pub fn new(root_fs: &str, path: &str) -> (r: Command)
        ensures
            r.path@ == path@,
            r.args@.len() == 1 && r.args@[0]@ == path@,
            r.layers@.len() == 1 && r.layers@[0]@ == root_fs@,
            r.disk_write is ReadOnly,
            r.pre_pivot@.len() == 0,
            r.pre_exec@.len() == 0,
    {
        if !check_no_nul(path) || !check_no_nul(root_fs) {
            sys_abort();
        }
        let p = String::from_str(path);
        let arg0 = String::from_str(path);
        let root = String::from_str(root_fs);
        Command {
            path: p,
            args: vec![arg0],
            layers: vec![root],
            disk_write: DiskWritePolicy::ReadOnly,
            pre_pivot: Vec::new(),
            pre_exec: Vec::new(),
        }
    }

    /// Replaces the argument list with the program path followed by `args`.
    /// An embedded null terminator in any argument is a hard fault.
    pub fn args(self, args: &Vec<String>) -> (r: Command)
        ensures
            r.args@.len() == args@.len() + 1,
            r.args@[0]@ == self.path@,
            forall|i: int| 0 <= i < args@.len() ==> r.args@[i + 1]@ == args@[i]@,
            r.path == self.path,
            r.layers == self.layers,
            r.disk_write == self.disk_write,
            r.pre_pivot == self.pre_pivot,
            r.pre_exec == self.pre_exec,
    {
        let mut new_args: Vec<String> = Vec::new();
        let arg0 = String::from_str(self.path.as_str());
        new_args.push(arg0);
        let n = args.len();
        let mut i: usize = 0;
        while i < n
            invariant
                0 <= i <= n,
                n == args@.len(),
                new_args@.len() == i + 1,
                new_args@[0]@ == self.path@,
                forall|j: int| 0 <= j < i ==> new_args@[j + 1]@ == args@[j]@,
            decreases n - i,
        {
            if !check_no_nul(args[i].as_str()) {
                sys_abort();
            }
            let a = String::from_str(args[i].as_str());
            new_args.push(a);
            i += 1;
        }
        Command { args: new_args, ..self }
    }

    /// Appends one read-only overlay layer, innermost so far. An embedded
    /// null terminator in the path is a hard fault.
    pub fn layer(self, path: &str) -> (r: Command)
        ensures
            r.layers@.len() == self.layers@.len() + 1,
            forall|i: int| 0 <= i < self.layers@.len() ==> r.layers@[i] == self.layers@[i],
            r.layers@[self.layers@.len() as int]@ == path@,
            r.path == self.path,
            r.args == self.args,
            r.disk_write == self.disk_write,
            r.pre_pivot == self.pre_pivot,
            r.pre_exec == self.pre_exec,
    {
        if !check_no_nul(path) {
            sys_abort();
        }
        let Command { path: p, args, layers: mut layers, disk_write, pre_pivot, pre_exec } = self;
        layers.push(String::from_str(path));
        Command { path: p, args, layers, disk_write, pre_pivot, pre_exec }
    }

    /// Selects writes to an ephemeral directory deleted at teardown.
    pub fn disk_write_tempdir(self) -> (r: Command)
        ensures
            r.disk_write is TempDir,
            r.path == self.path,
            r.args == self.args,
            r.layers == self.layers,
            r.pre_pivot == self.pre_pivot,
            r.pre_exec == self.pre_exec,
    {
        Command { disk_write: DiskWritePolicy::TempDir, ..self }
    }

    /// Selects writes to `path`, a directory that must already exist; it is
    /// not created at spawn time. An embedded null terminator in the path
    /// is a hard fault.
    pub fn disk_write_to(self, path: &str) -> (r: Command)
        ensures
            r.disk_write matches DiskWritePolicy::WriteDir(d) && d@ == path@,
            r.path == self.path,
            r.args == self.args,
            r.layers == self.layers,
            r.pre_pivot == self.pre_pivot,
            r.pre_exec == self.pre_exec,
    {
        if !check_no_nul(path) {
            sys_abort();
        }
        Command { disk_write: DiskWritePolicy::WriteDir(String::from_str(path)), ..self }
    }

    /// True when the configuration is well formed: every stored path and
    /// argument is free of embedded null terminators and the layer stack
    /// is not empty.
    pub fn check_wf(&self) -> (r: bool)
        ensures
            r == self.wf(),
    {
        if !check_no_nul(self.path.as_str()) {
            return false;
        }
        let mut i: usize = 0;
        while i < self.args.len()
            invariant
                0 <= i <= self.args@.len(),
                forall|j: int| 0 <= j < i ==> no_nul(#[trigger] self.args@[j]@),
            decreases self.args@.len() - i,
        {
            if !check_no_nul(self.args[i].as_str()) {
                return false;
            }
            i += 1;
        }
        if self.layers.len() == 0 {
            return false;
        }
        let mut k: usize = 0;
        while k < self.layers.len()
            invariant
                0 <= k <= self.layers@.len(),
                forall|j: int| 0 <= j < k ==> no_nul(#[trigger] self.layers@[j]@),
            decreases self.layers@.len() - k,
        {
            if !check_no_nul(self.layers[k].as_str()) {
                return false;
            }
            k += 1;
        }
        match &self.disk_write {
            DiskWritePolicy::WriteDir(d) => check_no_nul(d.as_str()),
            _ => true,
        }
    }

    /// Appends a hook run in the child just before the root switch. Hooks
    /// run in registration order; the first failure aborts startup.
    pub fn hook_pre_pivot(self, hook: Box<dyn Hook>) -> (r: Command)
        ensures
            r.pre_pivot@.len() == self.pre_pivot@.len() + 1,
            r.path == self.path,
            r.args == self.args,
            r.layers == self.layers,
            r.disk_write == self.disk_write,
            r.pre_exec == self.pre_exec,
    {
        self.push_pre_pivot(HookBox(hook))
    }

    /// Stores one pre-root-switch hook at the end of the list.
    fn push_pre_pivot(self, hook: HookBox) -> (r: Command)
        ensures
            r.pre_pivot@.len() == self.pre_pivot@.len() + 1,
            r.path == self.path,
            r.args == self.args,
            r.layers == self.layers,
            r.disk_write == self.disk_write,
            r.pre_exec == self.pre_exec,
    {
        let Command { path, args, layers, disk_write, mut pre_pivot, pre_exec } = self;
        pre_pivot.push(hook);
        Command { path, args, layers, disk_write, pre_pivot, pre_exec }
    }

    /// Appends a hook run in the child after the root switch, just before
    /// the program image is replaced. Hooks run in registration order; the
    /// first failure aborts startup.
    pub fn hook_pre_exec(self, hook: Box<dyn Hook>) -> (r: Command)
        ensures
            r.pre_exec@.len() == self.pre_exec@.len() + 1,
            r.path == self.path,
            r.args == self.args,
            r.layers == self.layers,
            r.disk_write == self.disk_write,
            r.pre_pivot == self.pre_pivot,
    {
        self.push_pre_exec(HookBox(hook))
    }

    /// Stores one pre-exec hook at the end of the list.
    fn push_pre_exec(self, hook: HookBox) -> (r: Command)
        ensures
            r.pre_exec@.len() == self.pre_exec@.len() + 1,
            r.path == self.path,
            r.args == self.args,
            r.layers == self.layers,
            r.disk_write == self.disk_write,
            r.pre_pivot == self.pre_pivot,
    {
        let Command { path, args, layers, disk_write, pre_pivot, mut pre_exec } = self;
        pre_exec.push(hook);
        Command { path, args, layers, disk_write, pre_pivot, pre_exec }
    }

    /// Finalizes the configuration and spawns the isolated process,
    /// consuming the builder; the returned handle has not been waited on.
    pub fn spawn(self) -> (r: Result<Process, SpawnError>)
        ensures
            r matches Ok(p) ==> p.spec_status() is None,
    {
        Process::spawn(self)
    }
}

} // verus!

