//! The data model: stack frames, per-thread interpreter traces, and the plain
//! values a capture driver hands in — per-address symbolication outcomes and
//! per-thread unwind snapshots.

use vstd::prelude::*;

verus! {

/// The view of an optional owned string.
pub open spec fn opt_view(o: Option<String>) -> Option<Seq<char>> {
    match o {
        Some(s) => Some(s@),
        None => None,
    }
}

pub(crate) fn clone_opt(o: &Option<String>) -> (r: Option<String>)
    ensures
        opt_view(r) == opt_view(*o),
{
    match o {
        Some(s) => Some(s.clone()),
        None => None,
    }
}

/// One frame of a stack: either a managed interpreter frame or a native frame
/// built during classification.  Immutable once constructed.
#[derive(Debug)]
pub struct Frame {
    pub name: String,
    pub filename: String,
    pub module: Option<String>,
    pub short_filename: Option<String>,
    pub line: i32,
}

/// The mathematical value of a [`Frame`].
pub ghost struct FrameV {
    pub name: Seq<char>,
    pub filename: Seq<char>,
    pub module: Option<Seq<char>>,
    pub short_filename: Option<Seq<char>>,
    pub line: i32,
}

impl View for Frame {
    type V = FrameV;

    open spec fn view(&self) -> FrameV {
        FrameV {
            name: self.name@,
            filename: self.filename@,
            module: opt_view(self.module),
            short_filename: opt_view(self.short_filename),
            line: self.line,
        }
    }
}

impl Frame {
    /// An owned copy; merged output clones managed frames verbatim.
    pub fn duplicate(&self) -> (r: Frame)
        ensures
            r@ == self@,
    {
        Frame {
            name: self.name.clone(),
            filename: self.filename.clone(),
            module: clone_opt(&self.module),
            short_filename: clone_opt(&self.short_filename),
            line: self.line,
        }
    }
}

/// The view of a sequence of frames.
pub open spec fn frames_view(s: Seq<Frame>) -> Seq<FrameV> {
    s.map_values(|f: Frame| f@)
}

/// One interpreter-level thread's trace: its interpreter thread id, its
/// managed frames leaf-to-root, and, once merged, the OS thread it was
/// correlated with.
#[derive(Debug)]
pub struct StackTrace {
    pub thread_id: u64,
    pub os_thread_id: Option<u64>,
    pub frames: Vec<Frame>,
}

/// The mathematical value of a [`StackTrace`].
pub ghost struct StackTraceV {
    pub thread_id: u64,
    pub os_thread_id: Option<u64>,
    pub frames: Seq<FrameV>,
}

impl View for StackTrace {
    type V = StackTraceV;

    open spec fn view(&self) -> StackTraceV {
        StackTraceV {
            thread_id: self.thread_id,
            os_thread_id: self.os_thread_id,
            frames: frames_view(self.frames@),
        }
    }
}

/// Symbol metadata resolved for one raw address, as the driver's symbolication
/// collaborator reported it.  `resolved_filename` is the answer of the
/// filename-resolution collaborator for `(filename, module)`; `None` when
/// there was no filename to resolve or the resolver declined.
#[derive(Debug)]
pub struct SymbolInfo {
    pub addr: u64,
    pub module: String,
    pub function: Option<String>,
    pub filename: Option<String>,
    pub resolved_filename: Option<String>,
    pub line: Option<i32>,
}

/// The mathematical value of a [`SymbolInfo`].
pub ghost struct SymbolInfoV {
    pub addr: u64,
    pub module: Seq<char>,
    pub function: Option<Seq<char>>,
    pub filename: Option<Seq<char>>,
    pub resolved_filename: Option<Seq<char>>,
    pub line: Option<i32>,
}

impl View for SymbolInfo {
    type V = SymbolInfoV;

    open spec fn view(&self) -> SymbolInfoV {
        SymbolInfoV {
            addr: self.addr,
            module: self.module@,
            function: opt_view(self.function),
            filename: opt_view(self.filename),
            resolved_filename: opt_view(self.resolved_filename),
            line: self.line,
        }
    }
}

/// The symbolication outcome for one raw address of a thread's native stack:
/// the address itself and its metadata, or `None` when resolution failed.
#[derive(Debug)]
pub struct AddressInfo {
    pub addr: u64,
    pub symbol: Option<SymbolInfo>,
}

/// The mathematical value of an [`AddressInfo`].
pub ghost struct AddressInfoV {
    pub addr: u64,
    pub symbol: Option<SymbolInfoV>,
}

impl View for AddressInfo {
    type V = AddressInfoV;

    open spec fn view(&self) -> AddressInfoV {
        AddressInfoV {
            addr: self.addr,
            symbol: match self.symbol {
                Some(s) => Some(s@),
                None => None,
            },
        }
    }
}

/// The view of a sequence of per-address outcomes.
pub open spec fn addresses_view(s: Seq<AddressInfo>) -> Seq<AddressInfoV> {
    s.map_values(|a: AddressInfo| a@)
}

/// One OS thread's part of a consistent snapshot: the thread's id, the
/// symbolication outcome for every raw address of its native stack
/// leaf-to-root, and the correlation candidate sampled while unwinding it
/// (0 when none was seen).
#[derive(Debug)]
pub struct ThreadSnapshot {
    pub os_thread_id: u64,
    pub candidate: u64,
    pub addresses: Vec<AddressInfo>,
}

/// The mathematical value of a [`ThreadSnapshot`].
pub ghost struct ThreadSnapshotV {
    pub os_thread_id: u64,
    pub candidate: u64,
    pub addresses: Seq<AddressInfoV>,
}

impl View for ThreadSnapshot {
    type V = ThreadSnapshotV;

    open spec fn view(&self) -> ThreadSnapshotV {
        ThreadSnapshotV {
            os_thread_id: self.os_thread_id,
            candidate: self.candidate,
            addresses: addresses_view(self.addresses@),
        }
    }
}

/// The view of a sequence of snapshots.
pub open spec fn snapshots_view(s: Seq<ThreadSnapshot>) -> Seq<ThreadSnapshotV> {
    s.map_values(|t: ThreadSnapshot| t@)
}

/// One step of walking an unwind cursor with the primary backend: either the
/// next instruction pointer together with the candidate register sampled after
/// it, or the cursor's failure, which notes whether the failure was an address
/// with no known owning binary.
#[derive(Clone, Copy, PartialEq, Eq, Structural, Debug)]
pub enum UnwindStep {
    Address { ip: u64, bx: u64 },
    Failure { missing_module: bool },
}

/// One step of walking the secondary (fallback) backend's cursor: the next
/// instruction pointer together with the candidate register where that
/// backend could read it.
#[derive(Clone, Copy, PartialEq, Eq, Structural, Debug)]
pub enum SecondaryUnwindStep {
    Address { ip: u64, bx_valid: bool, bx: u64 },
    Failure,
}

/// Why a capture failed.  Every other condition degrades to a best-effort
/// substitute instead of an error.
#[derive(Clone, Copy, PartialEq, Eq, Structural, Debug)]
pub enum Error {
    /// A thread's native unwind failed and no fallback absorbed it.
    ThreadUnwind { missing_module: bool },
    /// A thread's interpreter-marker count differed from its managed frame
    /// count; both counts are reported.
    FrameCountMismatch { native: usize, managed: usize },
}

} // verus!
