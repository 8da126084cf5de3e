//! The mathematical description of the merge: how one resolved address is
//! classified, what one thread's merged stack is, and what a whole capture's
//! merge returns.  The executable merge in [`crate::capture`] is proved to
//! return exactly these values.

use vstd::prelude::*;
use vstd::pervasive::arbitrary;
use crate::capture::{NativeStackV, spec_correlate};
use crate::classify::{spec_ignore_frame, spec_is_interpreter_module, spec_is_marker_name};
use crate::demangle::spec_demangle_step;
use crate::frame::{AddressInfoV, Error, Frame, FrameV, StackTraceV, SymbolInfoV, ThreadSnapshotV};
use crate::sourcemap::{spec_is_ignorable, spec_translate};
use crate::text::spec_hex_address;

verus! {

/// How the merge treats one resolved address.
pub enum Classified {
    /// An interpreter frame-evaluation entry point: the next managed frame is
    /// spliced in here.
    Marker,
    /// Contributes nothing: an interpreter-internal frame, an entry of the
    /// platform ignorable-frame table, or a name the source map flags.
    Dropped,
    /// A native application frame, fully built: demangled, filename resolved,
    /// and translated through the source map.
    Native(Frame),
}

/// The mathematical value of a [`Classified`].
pub ghost enum ClassifiedV {
    Marker,
    Dropped,
    Native(FrameV),
}

/// The view of a classification outcome.
pub open spec fn classified_view(c: Classified) -> ClassifiedV {
    match c {
        Classified::Marker => ClassifiedV::Marker,
        Classified::Dropped => ClassifiedV::Dropped,
        Classified::Native(f) => ClassifiedV::Native(f@),
    }
}

/// One entry of a merged stack, tagged with where it came from: a clone of a
/// managed frame, a native application frame, or a stub for an address whose
/// symbolication failed.
pub enum MergedFrame {
    Managed(Frame),
    Native(Frame),
    Stub(Frame),
}

/// The mathematical value of a [`MergedFrame`].
pub ghost enum MergedV {
    Managed(FrameV),
    Native(FrameV),
    Stub(FrameV),
}

/// The view of one merged entry.
pub open spec fn merged_entry_view(e: MergedFrame) -> MergedV {
    match e {
        MergedFrame::Managed(f) => MergedV::Managed(f@),
        MergedFrame::Native(f) => MergedV::Native(f@),
        MergedFrame::Stub(f) => MergedV::Stub(f@),
    }
}

/// The view of a merged sequence.
pub open spec fn merged_view(s: Seq<MergedFrame>) -> Seq<MergedV> {
    s.map_values(|e: MergedFrame| merged_entry_view(e))
}

/// The frame carried by a merged entry.
pub open spec fn spec_payload(e: MergedV) -> FrameV {
    match e {
        MergedV::Managed(f) => f,
        MergedV::Native(f) => f,
        MergedV::Stub(f) => f,
    }
}

/// The filename of a native application frame: the resolver's answer when it
/// gave one, else the raw filename, else the owning module's path.
pub open spec fn spec_native_filename(info: SymbolInfoV) -> Seq<char> {
    match info.filename {
        Some(f) => match info.resolved_filename {
            Some(r) => r,
            None => f,
        },
        None => info.module,
    }
}

/// The line of a native application frame; 0 when none was resolved.
pub open spec fn spec_line(info: SymbolInfoV) -> i32 {
    match info.line {
        Some(l) => l,
        None => 0,
    }
}

/// The stub frame for an address whose symbolication failed: filename "?",
/// the address as its name, no line, no module.
pub open spec fn spec_stub_frame(addr: u64) -> FrameV {
    FrameV {
        name: spec_hex_address(addr),
        filename: "?"@,
        module: None,
        short_filename: None,
        line: 0,
    }
}

/// Classification of one resolved address.  An interpreter-module frame is a
/// marker when its function is a frame-evaluation entry point, and is dropped
/// otherwise.  Any other frame with a function name is dropped when the
/// platform table or the source map's ignore list says so, and otherwise
/// becomes a native application frame — demangled, filename resolved, and
/// passed once through source-map translation.  A frame without a function
/// name becomes a native frame named by its address.
pub open spec fn spec_classify(cfg: NativeStackV, info: SymbolInfoV) -> ClassifiedV {
    if spec_is_interpreter_module(info.module, cfg.interpreter_path, cfg.interpreter_library_path) {
        if info.function matches Some(f) && spec_is_marker_name(f) {
            ClassifiedV::Marker
        } else {
            ClassifiedV::Dropped
        }
    } else {
        match info.function {
            Some(f) => if spec_ignore_frame(f, info.module, cfg.platform) {
                ClassifiedV::Dropped
            } else {
                let name = spec_demangle_step(f);
                if spec_is_ignorable(cfg.source_maps, name) {
                    ClassifiedV::Dropped
                } else {
                    ClassifiedV::Native(
                        spec_translate(
                            cfg.source_maps,
                            FrameV {
                                name,
                                filename: spec_native_filename(info),
                                module: Some(info.module),
                                short_filename: None,
                                line: spec_line(info),
                            },
                        ),
                    )
                }
            },
            None => ClassifiedV::Native(
                FrameV {
                    name: spec_hex_address(info.addr),
                    filename: info.module,
                    module: Some(info.module),
                    short_filename: None,
                    line: 0,
                },
            ),
        }
    }
}

/// Whether one address counts as an interpreter marker.
pub open spec fn spec_is_marker(cfg: NativeStackV, a: AddressInfoV) -> bool {
    a.symbol matches Some(info) && spec_classify(cfg, info) is Marker
}

/// What one address contributes to the merged stack, given how many markers
/// came before it: a stub when symbolication failed; at a marker, a clone of
/// the next unconsumed managed frame (nothing when the managed list is
/// already exhausted — the parity check reports that later); nothing for a
/// dropped frame; the built frame for a native one.
pub open spec fn spec_step_out(
    cfg: NativeStackV,
    managed: Seq<FrameV>,
    cursor: int,
    a: AddressInfoV,
) -> Seq<MergedV> {
    match a.symbol {
        None => seq![MergedV::Stub(spec_stub_frame(a.addr))],
        Some(info) => match spec_classify(cfg, info) {
            ClassifiedV::Marker => if 0 <= cursor < managed.len() {
                seq![MergedV::Managed(managed[cursor])]
            } else {
                Seq::empty()
            },
            ClassifiedV::Dropped => Seq::empty(),
            ClassifiedV::Native(f) => seq![MergedV::Native(f)],
        },
    }
}

/// How many of the first `i` addresses are interpreter markers.
pub open spec fn spec_markers_before(cfg: NativeStackV, addrs: Seq<AddressInfoV>, i: int) -> int
    decreases i,
{
    if i <= 0 {
        0
    } else {
        spec_markers_before(cfg, addrs, i - 1) + if spec_is_marker(cfg, addrs[i - 1]) {
            1int
        } else {
            0int
        }
    }
}

/// The merged entries contributed by the first `i` addresses.
pub open spec fn spec_merged_before(
    cfg: NativeStackV,
    managed: Seq<FrameV>,
    addrs: Seq<AddressInfoV>,
    i: int,
) -> Seq<MergedV>
    decreases i,
{
    if i <= 0 {
        Seq::empty()
    } else {
        spec_merged_before(cfg, managed, addrs, i - 1) + spec_step_out(
            cfg,
            managed,
            spec_markers_before(cfg, addrs, i - 1),
            addrs[i - 1],
        )
    }
}

/// The final translation pass: every native application frame is translated
/// once more; managed clones and stubs are left untouched.
pub open spec fn spec_bulk_translate(maps: crate::sourcemap::SourceMapsV, m: Seq<MergedV>) -> Seq<
    MergedV,
> {
    m.map_values(
        |e: MergedV|
            match e {
                MergedV::Native(f) => MergedV::Native(spec_translate(maps, f)),
                MergedV::Managed(f) => MergedV::Managed(f),
                MergedV::Stub(f) => MergedV::Stub(f),
            },
    )
}

/// The frames of a merged sequence, tags stripped.
pub open spec fn spec_flatten(m: Seq<MergedV>) -> Seq<FrameV> {
    m.map_values(|e: MergedV| spec_payload(e))
}

/// One thread's merge: when the marker count equals the managed frame count,
/// the classified entries with the final translation pass applied; otherwise
/// a frame-count mismatch reporting both counts.
pub open spec fn spec_merge_thread(
    cfg: NativeStackV,
    managed: Seq<FrameV>,
    addrs: Seq<AddressInfoV>,
) -> Result<Seq<FrameV>, Error> {
    let count = spec_markers_before(cfg, addrs, addrs.len() as int);
    if count == managed.len() {
        Ok(
            spec_flatten(
                spec_bulk_translate(
                    cfg.source_maps,
                    spec_merged_before(cfg, managed, addrs, addrs.len() as int),
                ),
            ),
        )
    } else {
        Err(Error::FrameCountMismatch { native: count as usize, managed: managed.len() as usize })
    }
}

/// One interpreter trace's merged result: the trace bound to its correlated
/// OS thread with its frames replaced by the merged stack, or that thread's
/// frame-count mismatch.
pub open spec fn spec_merged_trace(
    cfg: NativeStackV,
    snaps: Seq<ThreadSnapshotV>,
    t: StackTraceV,
) -> Result<StackTraceV, Error> {
    match spec_correlate(snaps, t.thread_id) {
        Some(i) => match spec_merge_thread(cfg, t.frames, snaps[i].addresses) {
            Ok(frames) => Ok(
                StackTraceV {
                    thread_id: t.thread_id,
                    os_thread_id: Some(snaps[i].os_thread_id),
                    frames,
                },
            ),
            Err(e) => Err(e),
        },
        None => arbitrary(),
    }
}

} // verus!
