//! Process-lifetime orchestrator state and the per-thread snapshot logic: the
//! reload flag, the walk of an unwind cursor's recorded steps for the primary
//! and the secondary backend, the fallback policy between the two, and the
//! correlation of interpreter threads with OS threads.

use vstd::prelude::*;
use crate::classify::{ignore_frame, is_interpreter_module, is_marker_name, Platform};
use crate::demangle::demangle_name;
use crate::frame::{
    addresses_view,
    frames_view,
    opt_view,
    AddressInfo,
    Error,
    Frame,
    FrameV,
    SecondaryUnwindStep,
    StackTrace,
    StackTraceV,
    SymbolInfo,
    ThreadSnapshot,
    ThreadSnapshotV,
    UnwindStep,
    snapshots_view,
};
use crate::merge::{
    classified_view,
    merged_view,
    spec_bulk_translate,
    spec_flatten,
    spec_markers_before,
    spec_merge_thread,
    spec_merged_before,
    spec_merged_trace,
    spec_payload,
    spec_step_out,
    spec_stub_frame,
    Classified,
    MergedFrame,
    MergedV,
};
use crate::sourcemap::{SourceMaps, SourceMapsV, SourceMapEntryV, spec_can_add, wf_maps};
use crate::text::hex_address;

verus! {

/// Process-lifetime state of the capture orchestrator: the interpreter's
/// paths, the platform, whether a secondary unwind backend exists, the
/// compiled-source-map cache, the reload flag, and the once-written flag that
/// a missing secondary backend was already warned about.
pub struct NativeStack {
    should_reload: bool,
    interpreter_path: String,
    interpreter_library_path: Option<String>,
    source_maps: SourceMaps,
    platform: Platform,
    has_secondary: bool,
    warned_missing_secondary: bool,
}

/// The mathematical value of a [`NativeStack`].
pub ghost struct NativeStackV {
    pub should_reload: bool,
    pub interpreter_path: Seq<char>,
    pub interpreter_library_path: Option<Seq<char>>,
    pub source_maps: SourceMapsV,
    pub platform: Platform,
    pub has_secondary: bool,
    pub warned_missing_secondary: bool,
}

impl View for NativeStack {
    type V = NativeStackV;

    closed spec fn view(&self) -> NativeStackV {
        NativeStackV {
            should_reload: self.should_reload,
            interpreter_path: self.interpreter_path@,
            interpreter_library_path: opt_view(self.interpreter_library_path),
            source_maps: self.source_maps@,
            platform: self.platform,
            has_secondary: self.has_secondary,
            warned_missing_secondary: self.warned_missing_secondary,
        }
    }
}

/// Whether a primary unwind step records a failure.
pub open spec fn step_is_failure(s: UnwindStep) -> bool {
    match s {
        UnwindStep::Failure { missing_module: _ } => true,
        UnwindStep::Address { ip: _, bx: _ } => false,
    }
}

/// Whether a primary unwind step records a failure for an address with no
/// known owning binary.
pub open spec fn step_missing_module(s: UnwindStep) -> bool {
    match s {
        UnwindStep::Failure { missing_module } => missing_module,
        UnwindStep::Address { ip: _, bx: _ } => false,
    }
}

/// The first failing step at or after `from`.
pub open spec fn spec_first_failure(steps: Seq<UnwindStep>, from: int) -> Option<int>
    decreases steps.len() - from,
{
    if from < 0 || from >= steps.len() {
        None
    } else if step_is_failure(steps[from]) {
        Some(from)
    } else {
        spec_first_failure(steps, from + 1)
    }
}

/// `spec_first_failure` is the first failure, and `None` means none at all.
pub proof fn lemma_first_failure(steps: Seq<UnwindStep>, from: int)
    requires
        0 <= from <= steps.len(),
    ensures
        match spec_first_failure(steps, from) {
            Some(k) => from <= k < steps.len() && step_is_failure(steps[k]) && forall|j: int|
                from <= j < k ==> !step_is_failure(#[trigger] steps[j]),
            None => forall|j: int|
                from <= j < steps.len() ==> !step_is_failure(#[trigger] steps[j]),
        },
    decreases steps.len() - from,
{
    if from < steps.len() && !step_is_failure(steps[from]) {
        lemma_first_failure(steps, from + 1);
    }
}

/// The raw addresses recorded by the first `i` primary steps.
pub open spec fn spec_stack_before(steps: Seq<UnwindStep>, i: int) -> Seq<u64>
    decreases i,
{
    if i <= 0 {
        Seq::empty()
    } else {
        spec_stack_before(steps, i - 1) + (match steps[i - 1] {
            UnwindStep::Address { ip, bx: _ } => seq![ip],
            UnwindStep::Failure { missing_module: _ } => Seq::empty(),
        })
    }
}

/// The correlation candidate after the first `i` primary steps: the last
/// non-zero candidate register that named a known interpreter thread.
pub open spec fn spec_bx_before(steps: Seq<UnwindStep>, threadids: Seq<u64>, i: int) -> u64
    decreases i,
{
    if i <= 0 {
        0
    } else {
        match steps[i - 1] {
            UnwindStep::Address { ip: _, bx } => if bx != 0 && threadids.contains(bx) {
                bx
            } else {
                spec_bx_before(steps, threadids, i - 1)
            },
            UnwindStep::Failure { missing_module: _ } => spec_bx_before(steps, threadids, i - 1),
        }
    }
}

/// What walking the primary backend's recorded steps yields: the stack and
/// the candidate, or — at the first failing step — that failure's
/// missing-module mark.
pub open spec fn spec_walk_primary(steps: Seq<UnwindStep>, threadids: Seq<u64>) -> Result<
    (Seq<u64>, u64),
    bool,
> {
    match spec_first_failure(steps, 0) {
        None => Ok(
            (spec_stack_before(steps, steps.len() as int), spec_bx_before(
                steps,
                threadids,
                steps.len() as int,
            )),
        ),
        Some(k) => Err(step_missing_module(steps[k])),
    }
}

/// Whether a secondary unwind step records a failure.
pub open spec fn sec_step_is_failure(s: SecondaryUnwindStep) -> bool {
    match s {
        SecondaryUnwindStep::Failure => true,
        SecondaryUnwindStep::Address { ip: _, bx_valid: _, bx: _ } => false,
    }
}

/// The first failing step at or after `from`, for the secondary backend.
pub open spec fn sec_first_failure(steps: Seq<SecondaryUnwindStep>, from: int) -> Option<int>
    decreases steps.len() - from,
{
    if from < 0 || from >= steps.len() {
        None
    } else if sec_step_is_failure(steps[from]) {
        Some(from)
    } else {
        sec_first_failure(steps, from + 1)
    }
}

/// `sec_first_failure` is the first failure, and `None` means none at all.
pub proof fn lemma_sec_first_failure(steps: Seq<SecondaryUnwindStep>, from: int)
    requires
        0 <= from <= steps.len(),
    ensures
        match sec_first_failure(steps, from) {
            Some(k) => from <= k < steps.len() && sec_step_is_failure(steps[k]) && forall|j: int|
                from <= j < k ==> !sec_step_is_failure(#[trigger] steps[j]),
            None => forall|j: int|
                from <= j < steps.len() ==> !sec_step_is_failure(#[trigger] steps[j]),
        },
    decreases steps.len() - from,
{
    if from < steps.len() && !sec_step_is_failure(steps[from]) {
        lemma_sec_first_failure(steps, from + 1);
    }
}

/// The raw addresses recorded by the first `i` secondary steps.
pub open spec fn sec_stack_before(steps: Seq<SecondaryUnwindStep>, i: int) -> Seq<u64>
    decreases i,
{
    if i <= 0 {
        Seq::empty()
    } else {
        sec_stack_before(steps, i - 1) + (match steps[i - 1] {
            SecondaryUnwindStep::Address { ip, bx_valid: _, bx: _ } => seq![ip],
            SecondaryUnwindStep::Failure => Seq::empty(),
        })
    }
}

/// The correlation candidate after the first `i` secondary steps; a step
/// whose candidate register could not be read contributes nothing.
pub open spec fn sec_bx_before(steps: Seq<SecondaryUnwindStep>, threadids: Seq<u64>, i: int) -> u64
    decreases i,
{
    if i <= 0 {
        0
    } else {
        match steps[i - 1] {
            SecondaryUnwindStep::Address { ip: _, bx_valid, bx } => if bx_valid && bx != 0
                && threadids.contains(bx) {
                bx
            } else {
                sec_bx_before(steps, threadids, i - 1)
            },
            SecondaryUnwindStep::Failure => sec_bx_before(steps, threadids, i - 1),
        }
    }
}

/// What walking the secondary backend's recorded steps yields: the stack and
/// the candidate, or `None` at the first failing step.
pub open spec fn spec_walk_secondary(steps: Seq<SecondaryUnwindStep>, threadids: Seq<u64>) -> Option<
    (Seq<u64>, u64),
> {
    match sec_first_failure(steps, 0) {
        None => Some(
            (sec_stack_before(steps, steps.len() as int), sec_bx_before(
                steps,
                threadids,
                steps.len() as int,
            )),
        ),
        Some(_) => None,
    }
}

/// Whether `x` occurs in `v`.
#[verifier::loop_isolation(false)]
fn contains_u64(v: &Vec<u64>, x: u64) -> (r: bool)
    ensures
        r == v@.contains(x),
{
    let mut i: usize = 0;
    while i < v.len()
        invariant
            i <= v@.len(),
            forall|j: int| 0 <= j < i ==> v@[j] != x,
        decreases v@.len() - i,
    {
        if v[i] == x {
            proof {
                assert(v@[i as int] == x);
            }
            return true;
        }
        i = i + 1;
    }
    false
}

/// The first snapshot at or after `from` whose candidate is `c`.
pub open spec fn spec_find_candidate(snaps: Seq<ThreadSnapshotV>, c: u64, from: int) -> Option<int>
    decreases snaps.len() - from,
{
    if from < 0 || from >= snaps.len() {
        None
    } else if snaps[from].candidate == c {
        Some(from)
    } else {
        spec_find_candidate(snaps, c, from + 1)
    }
}

/// `spec_find_candidate` is the first match, and `None` means none at all.
pub proof fn lemma_find_candidate(snaps: Seq<ThreadSnapshotV>, c: u64, from: int)
    requires
        0 <= from <= snaps.len(),
    ensures
        match spec_find_candidate(snaps, c, from) {
            Some(k) => from <= k < snaps.len() && snaps[k].candidate == c && forall|j: int|
                from <= j < k ==> (#[trigger] snaps[j]).candidate != c,
            None => forall|j: int|
                from <= j < snaps.len() ==> (#[trigger] snaps[j]).candidate != c,
        },
    decreases snaps.len() - from,
{
    if from < snaps.len() && snaps[from].candidate != c {
        lemma_find_candidate(snaps, c, from + 1);
    }
}

/// Which snapshot an interpreter thread id is bound to: the first snapshot
/// whose candidate equals the id, else — as an explicitly best-effort
/// fallback — the first snapshot whose candidate is 0.
pub open spec fn spec_correlate(snaps: Seq<ThreadSnapshotV>, thread_id: u64) -> Option<int> {
    match spec_find_candidate(snaps, thread_id, 0) {
        Some(i) => Some(i),
        None => spec_find_candidate(snaps, 0, 0),
    }
}

/// Binds an interpreter thread id to a snapshot index, exactly as
/// `spec_correlate` describes.
#[verifier::loop_isolation(false)]
pub fn correlate(snapshots: &Vec<ThreadSnapshot>, thread_id: u64) -> (r: Option<usize>)
    ensures
        match r {
            Some(i) => i < snapshots@.len() && spec_correlate(
                snapshots_view(snapshots@),
                thread_id,
            ) == Some(i as int),
            None => spec_correlate(snapshots_view(snapshots@), thread_id) is None,
        },
{
    let ghost snaps = snapshots_view(snapshots@);
    let mut i: usize = 0;
    while i < snapshots.len()
        invariant
            i <= snaps.len(),
            snaps.len() == snapshots@.len(),
            forall|j: int| 0 <= j < i ==> (#[trigger] snaps[j]).candidate != thread_id,
        decreases snaps.len() - i,
    {
        if snapshots[i].candidate == thread_id {
            proof {
                assert(snaps[i as int].candidate == thread_id);
                lemma_find_candidate(snaps, thread_id, 0);
            }
            return Some(i);
        }
        i = i + 1;
    }
    proof {
        lemma_find_candidate(snaps, thread_id, 0);
    }
    let mut k: usize = 0;
    while k < snapshots.len()
        invariant
            k <= snaps.len(),
            snaps.len() == snapshots@.len(),
            forall|j: int| 0 <= j < snaps.len() ==> (#[trigger] snaps[j]).candidate != thread_id,
            forall|j: int| 0 <= j < k ==> (#[trigger] snaps[j]).candidate != 0,
        decreases snaps.len() - k,
    {
        if snapshots[k].candidate == 0 {
            proof {
                assert(snaps[k as int].candidate == 0);
                lemma_find_candidate(snaps, 0, 0);
            }
            return Some(k);
        }
        k = k + 1;
    }
    proof {
        lemma_find_candidate(snaps, 0, 0);
    }
    None
}

impl NativeStack {
    /// Well-formedness: the source-map cache is well-formed.
    pub open spec fn wf(&self) -> bool {
        wf_maps(self@.source_maps)
    }

    /// Fresh orchestrator state for one target process.  The warning flag for
    /// a missing secondary backend is written once, here, so the driver warns
    /// at most once per process.
    pub fn new(
        interpreter_path: &str,
        interpreter_library_path: &Option<String>,
        platform: Platform,
        has_secondary: bool,
    ) -> (r: NativeStack)
        ensures
            r@.should_reload == false,
            r@.interpreter_path == interpreter_path@,
            r@.interpreter_library_path == opt_view(*interpreter_library_path),
            r@.source_maps.entries.len() == 0,
            r@.source_maps.ignored.len() == 0,
            r@.platform == platform,
            r@.has_secondary == has_secondary,
            r@.warned_missing_secondary == !has_secondary,
            r.wf(),
    {
        NativeStack {
            should_reload: false,
            interpreter_path: interpreter_path.to_owned(),
            interpreter_library_path: crate::frame::clone_opt(interpreter_library_path),
            source_maps: SourceMaps::new(),
            platform,
            has_secondary,
            warned_missing_secondary: !has_secondary,
        }
    }

    /// Whether the missing secondary backend was already warned about.
    pub fn missing_secondary_warned(&self) -> (r: bool)
        ensures
            r == self@.warned_missing_secondary,
    {
        self.warned_missing_secondary
    }

    /// Consumes the reload request: reports whether the module map must be
    /// refreshed before the next unwind, and clears the flag.
    pub fn take_should_reload(&mut self) -> (r: bool)
        ensures
            r == old(self)@.should_reload,
            final(self)@ == (NativeStackV { should_reload: false, ..old(self)@ }),
    {
        let r = self.should_reload;
        self.should_reload = false;
        r
    }

    /// Adds a compiled-source-map entry to the process-lifetime cache when it
    /// keeps the cache well-formed; reports whether it was added.
    pub fn add_source_mapping(&mut self, symbol: String, name: String, filename: String) -> (added:
        bool)
        requires
            old(self).wf(),
        ensures
            final(self).wf(),
            added == spec_can_add(old(self)@.source_maps, symbol@, name@),
            added ==> final(self)@ == (NativeStackV {
                source_maps: SourceMapsV {
                    entries: old(self)@.source_maps.entries.push(
                        SourceMapEntryV { symbol: symbol@, name: name@, filename: filename@ },
                    ),
                    ..old(self)@.source_maps
                },
                ..old(self)@
            }),
            !added ==> final(self)@ == old(self)@,
    {
        self.source_maps.add_mapping(symbol, name, filename)
    }

    /// Flags a name as synthetic/ignorable in the process-lifetime cache.
    pub fn add_ignored_symbol(&mut self, name: String)
        requires
            old(self).wf(),
        ensures
            final(self).wf(),
            final(self)@ == (NativeStackV {
                source_maps: SourceMapsV {
                    ignored: old(self)@.source_maps.ignored.push(name@),
                    ..old(self)@.source_maps
                },
                ..old(self)@
            }),
    {
        self.source_maps.add_ignored(name);
    }

    /// Walks the primary backend's recorded cursor steps for one thread:
    /// records the raw stack leaf-to-root and samples the correlation
    /// candidate.  A failing step fails the thread; when the failure is an
    /// address with no known owning binary, a module-map reload is scheduled
    /// for the next capture — it cannot happen mid-snapshot — and the failure
    /// still propagates.
    #[verifier::loop_isolation(false)]
    pub fn get_thread(&mut self, threadids: &Vec<u64>, steps: &Vec<UnwindStep>) -> (r: Result<
        (Vec<u64>, u64),
        Error,
    >)
        ensures
            match spec_walk_primary(steps@, threadids@) {
                Ok(sb) => (match r {
                    Ok(s) => s.0@ == sb.0 && s.1 == sb.1,
                    Err(_) => false,
                }) && final(self)@ == old(self)@,
                Err(mm) => r == Err::<(Vec<u64>, u64), Error>(
                    Error::ThreadUnwind { missing_module: mm },
                ) && final(self)@ == (NativeStackV {
                    should_reload: old(self)@.should_reload || mm,
                    ..old(self)@
                }),
            },
    {
        let mut stack: Vec<u64> = Vec::new();
        let mut bx: u64 = 0;
        let mut i: usize = 0;
        while i < steps.len()
            invariant
                i <= steps@.len(),
                forall|j: int| 0 <= j < i ==> !step_is_failure(#[trigger] steps@[j]),
                stack@ == spec_stack_before(steps@, i as int),
                bx == spec_bx_before(steps@, threadids@, i as int),
                self@ == old(self)@,
            decreases steps@.len() - i,
        {
            let step = steps[i];
            match step {
                UnwindStep::Address { ip, bx: next_bx } => {
                    stack.push(ip);
                    if next_bx != 0 && contains_u64(threadids, next_bx) {
                        bx = next_bx;
                    }
                    proof {
                        assert(spec_stack_before(steps@, i + 1) =~= spec_stack_before(
                            steps@,
                            i as int,
                        ) + seq![ip]);
                    }
                },
                UnwindStep::Failure { missing_module } => {
                    if missing_module {
                        self.should_reload = true;
                    }
                    proof {
                        lemma_first_failure(steps@, 0);
                        assert(step_is_failure(steps@[i as int]));
                        assert(spec_first_failure(steps@, 0) == Some(i as int));
                    }
                    return Err(Error::ThreadUnwind { missing_module });
                },
            }
            i = i + 1;
        }
        proof {
            lemma_first_failure(steps@, 0);
            assert(spec_first_failure(steps@, 0) is None);
        }
        Ok((stack, bx))
    }

    /// Walks the secondary (fallback) backend's recorded cursor steps for one
    /// thread, in the identical shape as the primary walk; a failing step
    /// fails the thread without scheduling a reload.
    #[verifier::loop_isolation(false)]
    pub fn get_libunwind_thread(&self, threadids: &Vec<u64>, steps: &Vec<SecondaryUnwindStep>) -> (r:
        Result<(Vec<u64>, u64), Error>)
        ensures
            match spec_walk_secondary(steps@, threadids@) {
                Some(sb) => match r {
                    Ok(s) => s.0@ == sb.0 && s.1 == sb.1,
                    Err(_) => false,
                },
                None => r == Err::<(Vec<u64>, u64), Error>(
                    Error::ThreadUnwind { missing_module: false },
                ),
            },
    {
        let mut stack: Vec<u64> = Vec::new();
        let mut bx: u64 = 0;
        let mut i: usize = 0;
        while i < steps.len()
            invariant
                i <= steps@.len(),
                forall|j: int| 0 <= j < i ==> !sec_step_is_failure(#[trigger] steps@[j]),
                stack@ == sec_stack_before(steps@, i as int),
                bx == sec_bx_before(steps@, threadids@, i as int),
            decreases steps@.len() - i,
        {
            let step = steps[i];
            match step {
                SecondaryUnwindStep::Address { ip, bx_valid, bx: next_bx } => {
                    if bx_valid && next_bx != 0 && contains_u64(threadids, next_bx) {
                        bx = next_bx;
                    }
                    stack.push(ip);
                    proof {
                        assert(sec_stack_before(steps@, i + 1) =~= sec_stack_before(
                            steps@,
                            i as int,
                        ) + seq![ip]);
                    }
                },
                SecondaryUnwindStep::Failure => {
                    proof {
                        lemma_sec_first_failure(steps@, 0);
                        assert(sec_step_is_failure(steps@[i as int]));
                        assert(sec_first_failure(steps@, 0) == Some(i as int));
                    }
                    return Err(Error::ThreadUnwind { missing_module: false });
                },
            }
            i = i + 1;
        }
        proof {
            lemma_sec_first_failure(steps@, 0);
            assert(sec_first_failure(steps@, 0) is None);
        }
        Ok((stack, bx))
    }

    /// Unwinds one thread: the primary backend's walk, retried in full with
    /// the secondary backend's recorded steps when the primary fails and a
    /// secondary backend exists; without one, the primary failure propagates.
    pub fn unwind_thread(
        &mut self,
        threadids: &Vec<u64>,
        primary: &Vec<UnwindStep>,
        secondary: Option<&Vec<SecondaryUnwindStep>>,
    ) -> (r: Result<(Vec<u64>, u64), Error>)
        ensures
            match spec_walk_primary(primary@, threadids@) {
                Ok(sb) => (match r {
                    Ok(s) => s.0@ == sb.0 && s.1 == sb.1,
                    Err(_) => false,
                }) && final(self)@ == old(self)@,
                Err(mm) => final(self)@ == (NativeStackV {
                    should_reload: old(self)@.should_reload || mm,
                    ..old(self)@
                }) && (match secondary {
                    Some(sec) if old(self)@.has_secondary => match spec_walk_secondary(
                        sec@,
                        threadids@,
                    ) {
                        Some(sb) => match r {
                            Ok(s) => s.0@ == sb.0 && s.1 == sb.1,
                            Err(_) => false,
                        },
                        None => r == Err::<(Vec<u64>, u64), Error>(
                            Error::ThreadUnwind { missing_module: false },
                        ),
                    },
                    _ => r == Err::<(Vec<u64>, u64), Error>(
                        Error::ThreadUnwind { missing_module: mm },
                    ),
                }),
            },
    {
        match self.get_thread(threadids, primary) {
            Ok(x) => Ok(x),
            Err(e) => {
                if self.has_secondary {
                    match secondary {
                        Some(sec) => self.get_libunwind_thread(threadids, sec),
                        None => Err(e),
                    }
                } else {
                    Err(e)
                }
            },
        }
    }
}

/// The stub frame for an address whose symbolication failed.
fn stub_frame(addr: u64) -> (r: Frame)
    ensures
        r@ == spec_stub_frame(addr),
{
    Frame {
        name: hex_address(addr),
        filename: "?".to_owned(),
        module: None,
        short_filename: None,
        line: 0,
    }
}

impl NativeStack {
    /// Classifies one resolved address, exactly as
    /// [`crate::merge::spec_classify`] describes: an interpreter marker, a
    /// dropped frame, or a native application frame built from its metadata —
    /// demangled, filename resolved, and translated through the source map.
    pub fn classify_symbol(&self, info: &SymbolInfo) -> (c: Classified)
        ensures
            classified_view(c) == crate::merge::spec_classify(self@, info@),
    {
        if is_interpreter_module(
            info.module.as_str(),
            self.interpreter_path.as_str(),
            &self.interpreter_library_path,
        ) {
            match &info.function {
                Some(f) => if is_marker_name(f.as_str()) {
                    Classified::Marker
                } else {
                    Classified::Dropped
                },
                None => Classified::Dropped,
            }
        } else {
            match &info.function {
                Some(f) => {
                    if ignore_frame(f.as_str(), info.module.as_str(), self.platform) {
                        return Classified::Dropped;
                    }
                    let name = demangle_name(f.as_str());
                    if self.source_maps.is_ignorable(name.as_str()) {
                        return Classified::Dropped;
                    }
                    let filename = match &info.filename {
                        Some(fname) => match &info.resolved_filename {
                            Some(r) => r.clone(),
                            None => fname.clone(),
                        },
                        None => info.module.clone(),
                    };
                    let line = match info.line {
                        Some(l) => l,
                        None => 0,
                    };
                    let mut frame = Frame {
                        name,
                        filename,
                        module: Some(info.module.clone()),
                        short_filename: None,
                        line,
                    };
                    self.source_maps.translate(&mut frame);
                    Classified::Native(frame)
                },
                None => Classified::Native(
                    Frame {
                        name: hex_address(info.addr),
                        filename: info.module.clone(),
                        module: Some(info.module.clone()),
                        short_filename: None,
                        line: 0,
                    },
                ),
            }
        }
    }

    /// Merges one thread's managed frames with the classified symbolication
    /// of its raw native stack; validates that the marker count equals the
    /// managed frame count; and runs the final translation pass over the
    /// native application frames.  Returns exactly what
    /// [`crate::merge::spec_merge_thread`] describes.
    #[verifier::loop_isolation(false)]
    pub fn merge_thread(&self, managed: &Vec<Frame>, addresses: &Vec<AddressInfo>) -> (r: Result<
        Vec<Frame>,
        Error,
    >)
        ensures
            match r {
                Ok(frames) => spec_merge_thread(
                    self@,
                    frames_view(managed@),
                    addresses_view(addresses@),
                ) == Ok::<Seq<FrameV>, Error>(frames_view(frames@)),
                Err(e) => spec_merge_thread(
                    self@,
                    frames_view(managed@),
                    addresses_view(addresses@),
                ) == Err::<Seq<FrameV>, Error>(e),
            },
    {
        let ghost cfg = self@;
        let ghost addrs = addresses_view(addresses@);
        let ghost mseq = frames_view(managed@);
        let mut merged: Vec<MergedFrame> = Vec::new();
        let mut cursor: usize = 0;
        let mut i: usize = 0;
        while i < addresses.len()
            invariant
                i <= addresses@.len(),
                cursor <= i,
                cursor == spec_markers_before(cfg, addrs, i as int),
                merged_view(merged@) == spec_merged_before(cfg, mseq, addrs, i as int),
            decreases addresses@.len() - i,
        {
            let a = &addresses[i];
            proof {
                assert(addrs[i as int] == a@);
            }
            let ghost merged_now = merged_view(merged@);
            match &a.symbol {
                None => {
                    merged.push(MergedFrame::Stub(stub_frame(a.addr)));
                    proof {
                        assert(merged_view(merged@) =~= merged_now + spec_step_out(
                            cfg,
                            mseq,
                            cursor as int,
                            addrs[i as int],
                        ));
                    }
                },
                Some(info) => {
                    match self.classify_symbol(info) {
                        Classified::Marker => {
                            if cursor < managed.len() {
                                merged.push(MergedFrame::Managed(managed[cursor].duplicate()));
                            }
                            proof {
                                assert(merged_view(merged@) =~= merged_now + spec_step_out(
                                    cfg,
                                    mseq,
                                    cursor as int,
                                    addrs[i as int],
                                ));
                            }
                            cursor = cursor + 1;
                        },
                        Classified::Dropped => {
                            proof {
                                assert(merged_view(merged@) =~= merged_now + spec_step_out(
                                    cfg,
                                    mseq,
                                    cursor as int,
                                    addrs[i as int],
                                ));
                            }
                        },
                        Classified::Native(f) => {
                            merged.push(MergedFrame::Native(f));
                            proof {
                                assert(merged_view(merged@) =~= merged_now + spec_step_out(
                                    cfg,
                                    mseq,
                                    cursor as int,
                                    addrs[i as int],
                                ));
                            }
                        },
                    }
                },
            }
            i = i + 1;
        }
        if cursor != managed.len() {
            return Err(Error::FrameCountMismatch { native: cursor, managed: managed.len() });
        }
        let ghost bulk = spec_bulk_translate(cfg.source_maps, merged_view(merged@));
        let mut out: Vec<Frame> = Vec::new();
        let mut k: usize = 0;
        while k < merged.len()
            invariant
                k <= merged@.len(),
                frames_view(out@) == spec_flatten(bulk).take(k as int),
            decreases merged@.len() - k,
        {
            let ghost out_now = frames_view(out@);
            match &merged[k] {
                MergedFrame::Managed(f) => {
                    out.push(f.duplicate());
                },
                MergedFrame::Stub(f) => {
                    out.push(f.duplicate());
                },
                MergedFrame::Native(f) => {
                    let mut g = f.duplicate();
                    self.source_maps.translate(&mut g);
                    out.push(g);
                },
            }
            proof {
                assert(bulk[k as int] == (match merged_view(merged@)[k as int] {
                    MergedV::Native(f) => MergedV::Native(
                        crate::sourcemap::spec_translate(cfg.source_maps, f),
                    ),
                    MergedV::Managed(f) => MergedV::Managed(f),
                    MergedV::Stub(f) => MergedV::Stub(f),
                }));
                assert(frames_view(out@) =~= out_now.push(spec_payload(bulk[k as int])));
                assert(spec_flatten(bulk).take(k + 1) =~= spec_flatten(bulk).take(k as int).push(
                    spec_payload(bulk[k as int]),
                ));
            }
            k = k + 1;
        }
        proof {
            assert(spec_flatten(bulk).take(merged@.len() as int) =~= spec_flatten(bulk));
        }
        Ok(out)
    }

    /// The merge phase of one capture.  Every interpreter trace is bound to
    /// an OS thread by the correlation heuristic, its managed frames are
    /// merged with that thread's classified native stack, and the trace is
    /// returned with its frames replaced; the first thread whose marker count
    /// disagrees with its managed frame count fails the whole capture.
    #[verifier::loop_isolation(false)]
    pub fn get_native_stack_traces(&self, traces: Vec<StackTrace>, snapshots: &Vec<ThreadSnapshot>) -> (r:
        Result<Vec<StackTrace>, Error>)
        requires
            forall|k: int|
                0 <= k < traces@.len() ==> spec_correlate(
                    snapshots_view(snapshots@),
                    (#[trigger] traces@[k])@.thread_id,
                ) is Some,
        ensures
            match r {
                Ok(out) => out@.len() == traces@.len() && forall|k: int|
                    0 <= k < traces@.len() ==> spec_merged_trace(
                        self@,
                        snapshots_view(snapshots@),
                        (#[trigger] traces@[k])@,
                    ) == Ok::<StackTraceV, Error>(out@[k]@),
                Err(e) => exists|k: int|
                    0 <= k < traces@.len() && spec_merged_trace(
                        self@,
                        snapshots_view(snapshots@),
                        (#[trigger] traces@[k])@,
                    ) == Err::<StackTraceV, Error>(e) && forall|j: int|
                        0 <= j < k ==> spec_merged_trace(
                            self@,
                            snapshots_view(snapshots@),
                            (#[trigger] traces@[j])@,
                        ) is Ok,
            },
    {
        let ghost cfg = self@;
        let ghost snaps = snapshots_view(snapshots@);
        let mut out: Vec<StackTrace> = Vec::new();
        let mut k: usize = 0;
        while k < traces.len()
            invariant
                k <= traces@.len(),
                out@.len() == k,
                forall|j: int|
                    0 <= j < k ==> spec_merged_trace(cfg, snaps, (#[trigger] traces@[j])@)
                        == Ok::<StackTraceV, Error>(out@[j]@),
            decreases traces@.len() - k,
        {
            let t = &traces[k];
            let idx = match correlate(snapshots, t.thread_id) {
                Some(i) => i,
                None => {
                    proof {
                        assert(spec_correlate(snaps, traces@[k as int]@.thread_id) is Some);
                        assert(false);
                    }
                    return Err(Error::ThreadUnwind { missing_module: false });
                },
            };
            proof {
                assert(snaps[idx as int] == snapshots@[idx as int]@);
            }
            match self.merge_thread(&t.frames, &snapshots[idx].addresses) {
                Ok(frames) => {
                    out.push(
                        StackTrace {
                            thread_id: t.thread_id,
                            os_thread_id: Some(snapshots[idx].os_thread_id),
                            frames,
                        },
                    );
                    proof {
                        assert(spec_merged_trace(cfg, snaps, traces@[k as int]@) == Ok::<
                            StackTraceV,
                            Error,
                        >(out@[k as int]@));
                    }
                },
                Err(e) => {
                    proof {
                        assert(spec_merged_trace(cfg, snaps, traces@[k as int]@) == Err::<
                            StackTraceV,
                            Error,
                        >(e));
                    }
                    return Err(e);
                },
            }
            k = k + 1;
        }
        Ok(out)
    }
}

} // verus!
