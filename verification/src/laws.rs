//! The library's stated laws, proved from the merge specification: managed
//! frames are spliced in order; merged native and stub frames carry usable
//! names; ignorable runtime frames contribute nothing; translation and
//! demangling are idempotent; a missed correlation falls back; a reported
//! missing module mapping schedules exactly one reload.

use vstd::prelude::*;
use crate::capture::{lemma_find_candidate, spec_correlate, NativeStackV};
use crate::classify::lemma_denylist_never_marker;
use crate::classify::spec_ignore_frame;
use crate::demangle::{demangled_of, spec_demangle_step};
use crate::frame::{AddressInfoV, FrameV, ThreadSnapshotV};
use crate::merge::{
    spec_bulk_translate,
    spec_classify,
    spec_is_marker,
    spec_markers_before,
    spec_merged_before,
    spec_step_out,
    ClassifiedV,
    MergedV,
};
use crate::sourcemap::{lemma_find_from, spec_find, spec_translate, wf_maps, SourceMapsV};
use crate::text::{hex_digit_char, spec_hex_address, spec_nibble};

verus! {

/// The managed entries of a merged sequence, in order.
pub open spec fn spec_managed_entries(m: Seq<MergedV>) -> Seq<FrameV>
    decreases m.len(),
{
    if m.len() == 0 {
        Seq::empty()
    } else {
        spec_managed_entries(m.drop_last()) + (match m.last() {
            MergedV::Managed(f) => seq![f],
            MergedV::Native(_) => Seq::<FrameV>::empty(),
            MergedV::Stub(_) => Seq::<FrameV>::empty(),
        })
    }
}

proof fn lemma_managed_entries_add(a: Seq<MergedV>, b: Seq<MergedV>)
    ensures
        spec_managed_entries(a + b) == spec_managed_entries(a) + spec_managed_entries(b),
    decreases b.len(),
{
    if b.len() == 0 {
        assert(a + b =~= a);
        assert(spec_managed_entries(a) + spec_managed_entries(b) =~= spec_managed_entries(a));
    } else {
        assert((a + b).drop_last() =~= a + b.drop_last());
        lemma_managed_entries_add(a, b.drop_last());
        assert((a + b).last() == b.last());
        let t = match b.last() {
            MergedV::Managed(f) => seq![f],
            MergedV::Native(_) => Seq::<FrameV>::empty(),
            MergedV::Stub(_) => Seq::<FrameV>::empty(),
        };
        assert((spec_managed_entries(a) + spec_managed_entries(b.drop_last())) + t
            =~= spec_managed_entries(a) + (spec_managed_entries(b.drop_last()) + t));
    }
}

proof fn lemma_managed_entries_singleton(e: MergedV)
    ensures
        spec_managed_entries(seq![e]) == (match e {
            MergedV::Managed(f) => seq![f],
            MergedV::Native(_) => Seq::<FrameV>::empty(),
            MergedV::Stub(_) => Seq::<FrameV>::empty(),
        }),
{
    let s = seq![e];
    assert(s.drop_last() =~= Seq::<MergedV>::empty());
    assert(spec_managed_entries(Seq::<MergedV>::empty()) == Seq::<FrameV>::empty());
    assert(s.last() == e);
    assert(Seq::<FrameV>::empty() + (match e {
        MergedV::Managed(f) => seq![f],
        MergedV::Native(_) => Seq::<FrameV>::empty(),
        MergedV::Stub(_) => Seq::<FrameV>::empty(),
    }) =~= (match e {
        MergedV::Managed(f) => seq![f],
        MergedV::Native(_) => Seq::<FrameV>::empty(),
        MergedV::Stub(_) => Seq::<FrameV>::empty(),
    }));
}

proof fn lemma_managed_prefix(
    cfg: NativeStackV,
    managed: Seq<FrameV>,
    addrs: Seq<AddressInfoV>,
    i: int,
)
    requires
        0 <= i <= addrs.len(),
    ensures
        0 <= spec_markers_before(cfg, addrs, i),
        spec_managed_entries(spec_merged_before(cfg, managed, addrs, i)) == managed.take(
            vstd::math::min(spec_markers_before(cfg, addrs, i), managed.len() as int),
        ),
    decreases i,
{
    if i == 0 {
        assert(managed.take(0) =~= Seq::<FrameV>::empty());
    } else {
        lemma_managed_prefix(cfg, managed, addrs, i - 1);
        let prev = spec_merged_before(cfg, managed, addrs, i - 1);
        let c = spec_markers_before(cfg, addrs, i - 1);
        let s = spec_step_out(cfg, managed, c, addrs[i - 1]);
        lemma_managed_entries_add(prev, s);
        if spec_is_marker(cfg, addrs[i - 1]) && c < managed.len() {
            assert(s =~= seq![MergedV::Managed(managed[c])]);
            lemma_managed_entries_singleton(MergedV::Managed(managed[c]));
            assert(managed.take(vstd::math::min(c + 1, managed.len() as int)) =~= managed.take(
                vstd::math::min(c, managed.len() as int),
            ) + seq![managed[c]]);
        } else {
            if s.len() != 0 {
                lemma_managed_entries_singleton(s[0]);
                assert(s =~= seq![s[0]]);
            }
            assert(spec_managed_entries(s) =~= Seq::<FrameV>::empty());
            assert(spec_managed_entries(prev) + spec_managed_entries(s) =~= spec_managed_entries(
                prev,
            ));
        }
    }
}

proof fn lemma_managed_entries_bulk(maps: SourceMapsV, m: Seq<MergedV>)
    ensures
        spec_managed_entries(spec_bulk_translate(maps, m)) == spec_managed_entries(m),
    decreases m.len(),
{
    let b = spec_bulk_translate(maps, m);
    if m.len() == 0 {
        assert(b =~= Seq::<MergedV>::empty());
    } else {
        lemma_managed_entries_bulk(maps, m.drop_last());
        assert(b.drop_last() =~= spec_bulk_translate(maps, m.drop_last()));
        assert(b.last() == (match m.last() {
            MergedV::Native(f) => MergedV::Native(spec_translate(maps, f)),
            MergedV::Managed(f) => MergedV::Managed(f),
            MergedV::Stub(f) => MergedV::Stub(f),
        }));
    }
}

/// For any thread where the marker count equals the managed frame count, the
/// managed entries of the merged stack — also after the final translation
/// pass, which never touches them — are exactly the managed frames, in their
/// original relative order.
pub proof fn lemma_managed_frames_in_order(
    cfg: NativeStackV,
    managed: Seq<FrameV>,
    addrs: Seq<AddressInfoV>,
)
    requires
        spec_markers_before(cfg, addrs, addrs.len() as int) == managed.len(),
    ensures
        spec_managed_entries(
            spec_bulk_translate(
                cfg.source_maps,
                spec_merged_before(cfg, managed, addrs, addrs.len() as int),
            ),
        ) == managed,
{
    lemma_managed_prefix(cfg, managed, addrs, addrs.len() as int);
    lemma_managed_entries_bulk(
        cfg.source_maps,
        spec_merged_before(cfg, managed, addrs, addrs.len() as int),
    );
    assert(managed.take(vstd::math::min(managed.len() as int, managed.len() as int))
        =~= managed);
}

/// The shape of a rendered address: "0x", then sixteen hexadecimal digits.
pub proof fn lemma_hex_address_shape(addr: u64)
    ensures
        spec_hex_address(addr).len() == 18,
        spec_hex_address(addr)[0] == '0',
        spec_hex_address(addr)[1] == 'x',
        forall|j: int|
            0 <= j < 16 ==> 0 <= #[trigger] spec_nibble(addr, j) < 16 && spec_hex_address(addr)[j
                + 2] == hex_digit_char(spec_nibble(addr, j)),
{
    assert forall|j: int| 0 <= j < 16 implies 0 <= #[trigger] spec_nibble(addr, j) < 16
        && spec_hex_address(addr)[j + 2] == hex_digit_char(spec_nibble(addr, j)) by {
        let s = (4 * (15 - j)) as u64;
        assert((addr >> s) & 0xf < 16) by (bit_vector);
    }
}

/// Whether every function name an address carries is usable: symbolication
/// never reports an empty function name, and the demangler never renders a
/// symbol as the empty string.
pub open spec fn spec_symbol_names_ok(a: AddressInfoV) -> bool {
    match a.symbol {
        Some(info) => match info.function {
            Some(f) => f.len() > 0 && (match demangled_of(f) {
                Some(d) => d.len() > 0,
                None => true,
            }),
            None => true,
        },
        None => true,
    }
}

/// Whether every address of a thread carries usable names.
pub open spec fn spec_names_nonempty(addrs: Seq<AddressInfoV>) -> bool {
    forall|i: int| 0 <= i < addrs.len() ==> spec_symbol_names_ok(#[trigger] addrs[i])
}

/// What every merged native or stub frame promises: a native frame carries a
/// non-empty name; a stub frame carries filename "?" and some address
/// rendered as its name.
pub open spec fn spec_entry_names_ok(e: MergedV) -> bool {
    match e {
        MergedV::Native(f) => f.name.len() > 0,
        MergedV::Stub(f) => f.filename == "?"@ && f.name.len() == 18 && (exists|a: u64|
            f.name == spec_hex_address(a)),
        MergedV::Managed(_) => true,
    }
}

proof fn lemma_translate_keeps_nonempty(maps: SourceMapsV, f: FrameV)
    requires
        wf_maps(maps),
        f.name.len() > 0,
    ensures
        spec_translate(maps, f).name.len() > 0,
{
    lemma_find_from(maps.entries, f.name, 0);
    match spec_find(maps.entries, f.name) {
        Some(i) => {
            assert(maps.entries[i].name.len() > 0);
        },
        None => {},
    }
}

proof fn lemma_entries_names_ok(
    cfg: NativeStackV,
    managed: Seq<FrameV>,
    addrs: Seq<AddressInfoV>,
    i: int,
)
    requires
        wf_maps(cfg.source_maps),
        spec_names_nonempty(addrs),
        0 <= i <= addrs.len(),
    ensures
        forall|k: int|
            0 <= k < spec_merged_before(cfg, managed, addrs, i).len() ==> spec_entry_names_ok(
                #[trigger] spec_merged_before(cfg, managed, addrs, i)[k],
            ),
    decreases i,
{
    if i > 0 {
        lemma_entries_names_ok(cfg, managed, addrs, i - 1);
        let prev = spec_merged_before(cfg, managed, addrs, i - 1);
        let c = spec_markers_before(cfg, addrs, i - 1);
        let a = addrs[i - 1];
        let s = spec_step_out(cfg, managed, c, a);
        assert(spec_symbol_names_ok(a));
        assert forall|k: int| 0 <= k < s.len() implies spec_entry_names_ok(#[trigger] s[k]) by {
            match a.symbol {
                None => {
                    lemma_hex_address_shape(a.addr);
                    assert(s[k] == MergedV::Stub(crate::merge::spec_stub_frame(a.addr)));
                },
                Some(info) => {
                    match spec_classify(cfg, info) {
                        ClassifiedV::Native(f) => {
                            match info.function {
                                Some(func) => {
                                    let base_name = spec_demangle_step(func);
                                    assert(base_name.len() > 0);
                                    lemma_translate_keeps_nonempty(
                                        cfg.source_maps,
                                        FrameV {
                                            name: base_name,
                                            filename: crate::merge::spec_native_filename(info),
                                            module: Some(info.module),
                                            short_filename: None,
                                            line: crate::merge::spec_line(info),
                                        },
                                    );
                                },
                                None => {
                                    lemma_hex_address_shape(info.addr);
                                },
                            }
                        },
                        ClassifiedV::Marker => {},
                        ClassifiedV::Dropped => {},
                    }
                },
            }
        }
        assert forall|k: int|
            0 <= k < spec_merged_before(cfg, managed, addrs, i).len() implies spec_entry_names_ok(
            #[trigger] spec_merged_before(cfg, managed, addrs, i)[k],
        ) by {
            if k < prev.len() {
                assert(spec_merged_before(cfg, managed, addrs, i)[k] == prev[k]);
            } else {
                assert(spec_merged_before(cfg, managed, addrs, i)[k] == s[k - prev.len()]);
            }
        }
    }
}

/// Every merged native frame carries a non-empty name, and every merged stub
/// frame carries filename "?" and an address rendered as "0x" and sixteen
/// hexadecimal digits — provided symbolication reported no empty function
/// name and the demangler rendered no symbol as the empty string.
pub proof fn lemma_merged_names(cfg: NativeStackV, managed: Seq<FrameV>, addrs: Seq<AddressInfoV>)
    requires
        wf_maps(cfg.source_maps),
        spec_names_nonempty(addrs),
    ensures
        forall|k: int|
            0 <= k < spec_bulk_translate(
                cfg.source_maps,
                spec_merged_before(cfg, managed, addrs, addrs.len() as int),
            ).len() ==> spec_entry_names_ok(
                #[trigger] spec_bulk_translate(
                    cfg.source_maps,
                    spec_merged_before(cfg, managed, addrs, addrs.len() as int),
                )[k],
            ),
{
    lemma_entries_names_ok(cfg, managed, addrs, addrs.len() as int);
    let m = spec_merged_before(cfg, managed, addrs, addrs.len() as int);
    let b = spec_bulk_translate(cfg.source_maps, m);
    assert forall|k: int| 0 <= k < b.len() implies spec_entry_names_ok(#[trigger] b[k]) by {
        assert(spec_entry_names_ok(m[k]));
        match m[k] {
            MergedV::Native(f) => {
                lemma_translate_keeps_nonempty(cfg.source_maps, f);
            },
            MergedV::Managed(_) => {},
            MergedV::Stub(_) => {},
        }
    }
}

/// An address matching the platform table of ignorable runtime frames is
/// always dropped: it can be neither a marker — the two fixed name sets are
/// disjoint — nor a native application frame.
pub proof fn lemma_denylisted_dropped(cfg: NativeStackV, info: crate::frame::SymbolInfoV)
    requires
        info.function matches Some(f) && spec_ignore_frame(f, info.module, cfg.platform),
    ensures
        spec_classify(cfg, info) is Dropped,
{
    let f = info.function->0;
    lemma_denylist_never_marker(f, info.module, cfg.platform);
}

/// An address matching the platform ignorable-frame table contributes
/// nothing to the merged output and nothing to the marker total.
pub proof fn lemma_denylisted_contributes_nothing(
    cfg: NativeStackV,
    managed: Seq<FrameV>,
    addrs: Seq<AddressInfoV>,
    j: int,
)
    requires
        0 <= j < addrs.len(),
        addrs[j].symbol matches Some(info) && info.function matches Some(f) && spec_ignore_frame(
            f,
            info.module,
            cfg.platform,
        ),
    ensures
        !spec_is_marker(cfg, addrs[j]),
        spec_markers_before(cfg, addrs, j + 1) == spec_markers_before(cfg, addrs, j),
        spec_merged_before(cfg, managed, addrs, j + 1) == spec_merged_before(
            cfg,
            managed,
            addrs,
            j,
        ),
{
    let info = addrs[j].symbol->0;
    lemma_denylisted_dropped(cfg, info);
    assert(spec_merged_before(cfg, managed, addrs, j + 1) =~= spec_merged_before(
        cfg,
        managed,
        addrs,
        j,
    ) + spec_step_out(cfg, managed, spec_markers_before(cfg, addrs, j), addrs[j]));
    assert(spec_merged_before(cfg, managed, addrs, j) + Seq::<MergedV>::empty()
        =~= spec_merged_before(cfg, managed, addrs, j));
}

/// An interpreter trace none of whose candidates match its thread id is
/// still bound: to the first snapshot whose candidate is 0, the explicitly
/// best-effort fallback.
pub proof fn lemma_correlate_fallback(snaps: Seq<ThreadSnapshotV>, thread_id: u64)
    requires
        forall|j: int| 0 <= j < snaps.len() ==> (#[trigger] snaps[j]).candidate != thread_id,
        exists|j: int| 0 <= j < snaps.len() && (#[trigger] snaps[j]).candidate == 0,
    ensures
        spec_correlate(snaps, thread_id) matches Some(i) && 0 <= i < snaps.len()
            && snaps[i].candidate == 0 && forall|j: int|
            0 <= j < i ==> (#[trigger] snaps[j]).candidate != 0,
{
    lemma_find_candidate(snaps, thread_id, 0);
    lemma_find_candidate(snaps, 0, 0);
}

/// A primary walk that fails on an address with no known owning binary
/// leaves the reload flag set whatever it was before, and consuming the flag
/// — which the driver does right before the next capture's unwind, reloading
/// the module map then — leaves it cleared.
pub proof fn lemma_missing_module_schedules_reload(
    s: NativeStackV,
    steps: Seq<crate::frame::UnwindStep>,
    threadids: Seq<u64>,
)
    requires
        crate::capture::spec_walk_primary(steps, threadids) == Err::<(Seq<u64>, u64), bool>(true),
    ensures
        (NativeStackV { should_reload: s.should_reload || true, ..s }).should_reload,
        (NativeStackV { should_reload: false, ..s }).should_reload == false,
{
}

} // verus!
