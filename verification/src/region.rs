//! The region model: one mapped extent of a process's address space, and the label
//! under which its backing object is shown and grouped.

use crate::text::{decimal, decimal_text, signed_decimal_text};
use vstd::prelude::*;
use vstd::string::StringExecFns;

verus! {

/// What backs a mapped region.
#[derive(Debug)]
pub enum BackingPath {
    /// A file, by the text of its path.
    Path(String),
    /// The process heap.
    Heap,
    /// The stack of the main thread.
    Stack,
    /// The stack of the thread with this id.
    TStack(u32),
    /// The virtual dynamic shared object.
    Vdso,
    /// Shared kernel variables.
    Vvar,
    /// The obsolete virtual system-call page.
    Vsyscall,
    /// The summary over all regions of the process.
    Rollup,
    /// A mapping without a backing object.
    Anonymous,
    /// A shared memory segment with this key.
    Vsys(i32),
    /// Any other pseudo-path, kept as it was read.
    Other(String),
}

/// The mathematical value of a [`BackingPath`].
pub enum BackingPathView {
    Path(Seq<char>),
    Heap,
    Stack,
    TStack(u32),
    Vdso,
    Vvar,
    Vsyscall,
    Rollup,
    Anonymous,
    Vsys(i32),
    Other(Seq<char>),
}

impl View for BackingPath {
    type V = BackingPathView;

    open spec fn view(&self) -> BackingPathView {
        match *self {
            BackingPath::Path(p) => BackingPathView::Path(p@),
            BackingPath::Heap => BackingPathView::Heap,
            BackingPath::Stack => BackingPathView::Stack,
            BackingPath::TStack(tid) => BackingPathView::TStack(tid),
            BackingPath::Vdso => BackingPathView::Vdso,
            BackingPath::Vvar => BackingPathView::Vvar,
            BackingPath::Vsyscall => BackingPathView::Vsyscall,
            BackingPath::Rollup => BackingPathView::Rollup,
            BackingPath::Anonymous => BackingPathView::Anonymous,
            BackingPath::Vsys(key) => BackingPathView::Vsys(key),
            BackingPath::Other(text) => BackingPathView::Other(text@),
        }
    }
}

impl DeepView for BackingPath {
    type V = BackingPathView;

    open spec fn deep_view(&self) -> BackingPathView {
        self@
    }
}

impl BackingPathView {
    /// The label of a backing object: the one key by which regions are grouped.
    /// A file shows its path and another pseudo-path its own text; the fixed kinds
    /// show a fixed word; a thread stack and a shared segment show a word, a colon,
    /// a space and their number in decimal.
    pub open spec fn label(self) -> Seq<char> {
        match self {
            BackingPathView::Path(p) => p,
            BackingPathView::Heap => "heap"@,
            BackingPathView::Stack => "stack"@,
            BackingPathView::TStack(tid) => "thread stack: "@ + decimal(tid as int),
            BackingPathView::Vdso => "vdso"@,
            BackingPathView::Vvar => "vvar"@,
            BackingPathView::Vsyscall => "vsyscall"@,
            BackingPathView::Rollup => "rollup"@,
            BackingPathView::Anonymous => "anonymous"@,
            BackingPathView::Vsys(key) => "vsys: "@ + decimal(key as int),
            BackingPathView::Other(text) => text,
        }
    }
}

impl Clone for BackingPath {
    fn clone(&self) -> (copy: Self)
        ensures
            copy@ == self@,
    {
        match self {
            BackingPath::Path(p) => BackingPath::Path(p.clone()),
            BackingPath::Heap => BackingPath::Heap,
            BackingPath::Stack => BackingPath::Stack,
            BackingPath::TStack(tid) => BackingPath::TStack(*tid),
            BackingPath::Vdso => BackingPath::Vdso,
            BackingPath::Vvar => BackingPath::Vvar,
            BackingPath::Vsyscall => BackingPath::Vsyscall,
            BackingPath::Rollup => BackingPath::Rollup,
            BackingPath::Anonymous => BackingPath::Anonymous,
            BackingPath::Vsys(key) => BackingPath::Vsys(*key),
            BackingPath::Other(text) => BackingPath::Other(text.clone()),
        }
    }
}

/// The label of a backing object as text. It is defined for every value and is the
/// only key used for grouping.
pub fn mmpath_to_string(name: &BackingPath) -> (label: String)
    ensures
        label@ == name@.label(),
{
    match name {
        BackingPath::Path(p) => p.clone(),
        BackingPath::Heap => String::from_str("heap"),
        BackingPath::Stack => String::from_str("stack"),
        BackingPath::TStack(tid) => {
            let mut label = String::from_str("thread stack: ");
            let number = decimal_text(*tid as u64);
            label.append(number.as_str());
            label
        },
        BackingPath::Vdso => String::from_str("vdso"),
        BackingPath::Vvar => String::from_str("vvar"),
        BackingPath::Vsyscall => String::from_str("vsyscall"),
        BackingPath::Rollup => String::from_str("rollup"),
        BackingPath::Anonymous => String::from_str("anonymous"),
        BackingPath::Vsys(key) => {
            let mut label = String::from_str("vsys: ");
            let number = signed_decimal_text(*key as i64);
            label.append(number.as_str());
            label
        },
        BackingPath::Other(text) => text.clone(),
    }
}

/// The access rights of a mapped region.
#[derive(Clone, Copy, Debug, PartialEq, Eq, Structural)]
pub struct Permissions {
    pub read: bool,
    pub write: bool,
    pub execute: bool,
    /// The memory is shared with other processes.
    pub shared: bool,
    /// The memory is private and copied on write.
    pub private: bool,
}

impl Permissions {
    /// The four characters that show the rights: `r`, `w` and `x` where the right is
    /// held and `-` where it is not, then `s` for shared, else `p` for private, else `-`.
    pub open spec fn text(self) -> Seq<char> {
        seq![
            if self.read { 'r' } else { '-' },
            if self.write { 'w' } else { '-' },
            if self.execute { 'x' } else { '-' },
            if self.shared { 's' } else if self.private { 'p' } else { '-' },
        ]
    }

    /// The rights as text.
    pub fn as_str(&self) -> (s: String)
        ensures
            s@ == self.text(),
    {
        let mut s = String::new();
        s.push(if self.read { 'r' } else { '-' });
        s.push(if self.write { 'w' } else { '-' });
        s.push(if self.execute { 'x' } else { '-' });
        s.push(if self.shared { 's' } else if self.private { 'p' } else { '-' });
        s
    }
}

/// One mapped extent of a process's virtual memory, as read once from the process.
#[derive(Debug)]
pub struct MemoryRegion {
    /// Start and end address; the start lies below the end.
    pub address: (u64, u64),
    pub perms: Permissions,
    /// Offset into the backing object.
    pub offset: u64,
    /// Backing device, major and minor number.
    pub dev: (i32, i32),
    /// Inode on that device; zero where there is none.
    pub inode: u64,
    pub pathname: BackingPath,
    /// The numeric metrics of the region, each a name and a count of bytes, in any
    /// order. The source gives each name once. Where a name occurs more than once,
    /// a lookup by name takes the first entry of that name, and the detail panel
    /// shows every entry.
    pub metrics: Vec<(String, u64)>,
    /// The names of the boolean flags that are set.
    pub flags: Vec<String>,
}

/// The mathematical value of a [`MemoryRegion`].
pub struct RegionView {
    pub address: (u64, u64),
    pub perms: Permissions,
    pub offset: u64,
    pub dev: (i32, i32),
    pub inode: u64,
    pub pathname: BackingPathView,
    pub metrics: Seq<(Seq<char>, u64)>,
    pub flags: Seq<Seq<char>>,
}

impl RegionView {
    /// The label under which the region is shown and grouped.
    pub open spec fn label(self) -> Seq<char> {
        self.pathname.label()
    }

    /// The count of bytes under the first metric of that name, or zero without one.
    pub open spec fn metric(self, name: Seq<char>) -> u64 {
        metric_in(self.metrics, name)
    }
}

/// The count of bytes under the first entry of that name, or zero without one.
pub open spec fn metric_in(metrics: Seq<(Seq<char>, u64)>, name: Seq<char>) -> u64
    decreases metrics.len(),
{
    if metrics.len() == 0 {
        0
    } else if metrics[0].0 == name {
        metrics[0].1
    } else {
        metric_in(metrics.drop_first(), name)
    }
}

impl View for MemoryRegion {
    type V = RegionView;

    open spec fn view(&self) -> RegionView {
        RegionView {
            address: self.address,
            perms: self.perms,
            offset: self.offset,
            dev: self.dev,
            inode: self.inode,
            pathname: self.pathname@,
            metrics: self.metrics.deep_view(),
            flags: self.flags.deep_view(),
        }
    }
}

impl DeepView for MemoryRegion {
    type V = RegionView;

    open spec fn deep_view(&self) -> RegionView {
        self@
    }
}

impl Clone for MemoryRegion {
    fn clone(&self) -> (copy: Self)
        ensures
            copy@ == self@,
    {
        let mut metrics: Vec<(String, u64)> = Vec::new();
        let mut i: usize = 0;
        while i < self.metrics.len()
            invariant
                i <= self.metrics.len(),
                metrics.deep_view() == self.metrics.deep_view().take(i as int),
            decreases self.metrics.len() - i,
        {
            let ghost before = metrics.deep_view();
            metrics.push((self.metrics[i].0.clone(), self.metrics[i].1));
            proof {
                assert(self.metrics.deep_view().take(i + 1) =~= before.push(
                    self.metrics[i as int].deep_view(),
                ));
            }
            i = i + 1;
        }
        let mut flags: Vec<String> = Vec::new();
        let mut j: usize = 0;
        while j < self.flags.len()
            invariant
                j <= self.flags.len(),
                flags.deep_view() == self.flags.deep_view().take(j as int),
            decreases self.flags.len() - j,
        {
            let ghost before = flags.deep_view();
            flags.push(self.flags[j].clone());
            proof {
                assert(self.flags.deep_view().take(j + 1) =~= before.push(
                    self.flags[j as int].deep_view(),
                ));
            }
            j = j + 1;
        }
        proof {
            assert(self.metrics.deep_view().take(i as int) =~= self.metrics.deep_view());
            assert(self.flags.deep_view().take(j as int) =~= self.flags.deep_view());
        }
        MemoryRegion {
            address: self.address,
            perms: self.perms,
            offset: self.offset,
            dev: self.dev,
            inode: self.inode,
            pathname: self.pathname.clone(),
            metrics,
            flags,
        }
    }
}

impl MemoryRegion {
    /// The label under which the region is shown and grouped.
    pub fn label(&self) -> (label: String)
        ensures
            label@ == self@.label(),
    {
        mmpath_to_string(&self.pathname)
    }

    /// The count of bytes under the first metric of that name, or zero without one.
    pub fn metric(&self, name: &str) -> (bytes: u64)
        ensures
            bytes == self@.metric(name@),
    {
        let wanted = String::from_str(name);
        let mut i: usize = 0;
        proof {
            assert(self.metrics.deep_view().skip(0) =~= self.metrics.deep_view());
        }
        while i < self.metrics.len()
            invariant
                i <= self.metrics.len(),
                wanted@ == name@,
                metric_in(self.metrics.deep_view(), name@) == metric_in(
                    self.metrics.deep_view().skip(i as int),
                    name@,
                ),
            decreases self.metrics.len() - i,
        {
            let ghost rest = self.metrics.deep_view().skip(i as int);
            proof {
                assert(rest.drop_first() =~= self.metrics.deep_view().skip(i + 1));
            }
            if self.metrics[i].0 == wanted {
                return self.metrics[i].1;
            }
            i = i + 1;
        }
        0
    }
}

} // verus!
