//! Source-map translation for natively-compiled extension code.  The map is a
//! process-lifetime table from compiled symbol names to their original source
//! location, together with a list of synthetic names whose frames are dropped.
//! Loading such metadata from disk is the driver's work; the table itself and
//! both rewrite operations are plain verified logic.

use vstd::prelude::*;
use crate::frame::{Frame, FrameV};
use crate::text::str_eq;

verus! {

/// One mapping: a compiled symbol and the name and filename that replace it.
pub struct SourceMapEntry {
    pub symbol: String,
    pub name: String,
    pub filename: String,
}

/// The mathematical value of a [`SourceMapEntry`].
pub ghost struct SourceMapEntryV {
    pub symbol: Seq<char>,
    pub name: Seq<char>,
    pub filename: Seq<char>,
}

impl View for SourceMapEntry {
    type V = SourceMapEntryV;

    open spec fn view(&self) -> SourceMapEntryV {
        SourceMapEntryV { symbol: self.symbol@, name: self.name@, filename: self.filename@ }
    }
}

/// The compiled-source-map table: translation entries consulted first match
/// first, and the names flagged as synthetic/ignorable.
pub struct SourceMaps {
    entries: Vec<SourceMapEntry>,
    ignored: Vec<String>,
}

/// The mathematical value of a [`SourceMaps`].
pub ghost struct SourceMapsV {
    pub entries: Seq<SourceMapEntryV>,
    pub ignored: Seq<Seq<char>>,
}

impl View for SourceMaps {
    type V = SourceMapsV;

    closed spec fn view(&self) -> SourceMapsV {
        SourceMapsV {
            entries: self.entries@.map_values(|e: SourceMapEntry| e@),
            ignored: self.ignored@.map_values(|s: String| s@),
        }
    }
}

/// Well-formedness of a map: every replacement name is non-empty, and no
/// replacement name is itself a mapped symbol, so translation cannot rewrite
/// its own output.
pub open spec fn wf_maps(m: SourceMapsV) -> bool {
    (forall|i: int| 0 <= i < m.entries.len() ==> (#[trigger] m.entries[i]).name.len() > 0)
        && (forall|i: int, j: int|
        0 <= i < m.entries.len() && 0 <= j < m.entries.len() ==> (#[trigger] m.entries[i]).name
            != (#[trigger] m.entries[j]).symbol)
}

/// The first entry at or after `from` whose symbol is `name`.
pub open spec fn spec_find_from(entries: Seq<SourceMapEntryV>, name: Seq<char>, from: int) -> Option<
    int,
>
    decreases entries.len() - from,
{
    if from < 0 || from >= entries.len() {
        None
    } else if entries[from].symbol == name {
        Some(from)
    } else {
        spec_find_from(entries, name, from + 1)
    }
}

/// The first entry whose symbol is `name`.
pub open spec fn spec_find(entries: Seq<SourceMapEntryV>, name: Seq<char>) -> Option<int> {
    spec_find_from(entries, name, 0)
}

/// `spec_find_from` returns the first match at or after `from`, and `None`
/// exactly when there is none.
pub proof fn lemma_find_from(entries: Seq<SourceMapEntryV>, name: Seq<char>, from: int)
    requires
        0 <= from <= entries.len(),
    ensures
        match spec_find_from(entries, name, from) {
            Some(k) => from <= k < entries.len() && entries[k].symbol == name && forall|j: int|
                from <= j < k ==> (#[trigger] entries[j]).symbol != name,
            None => forall|j: int|
                from <= j < entries.len() ==> (#[trigger] entries[j]).symbol != name,
        },
    decreases entries.len() - from,
{
    if from < entries.len() && entries[from].symbol != name {
        lemma_find_from(entries, name, from + 1);
    }
}

/// A frame after translation: when its name is a mapped symbol, the name and
/// filename of the first matching entry replace the frame's; otherwise the
/// frame is unchanged.
pub open spec fn spec_translate(m: SourceMapsV, f: FrameV) -> FrameV {
    match spec_find(m.entries, f.name) {
        Some(i) => FrameV { name: m.entries[i].name, filename: m.entries[i].filename, ..f },
        None => f,
    }
}

/// Whether `name` is flagged as synthetic/ignorable.
pub open spec fn spec_is_ignorable(m: SourceMapsV, name: Seq<char>) -> bool {
    exists|i: int| 0 <= i < m.ignored.len() && m.ignored[i] == name
}

/// Whether a new mapping may be added without breaking well-formedness.
pub open spec fn spec_can_add(m: SourceMapsV, symbol: Seq<char>, name: Seq<char>) -> bool {
    name.len() > 0 && name != symbol && (forall|j: int|
        0 <= j < m.entries.len() ==> (#[trigger] m.entries[j]).symbol != name) && (forall|j: int|
        0 <= j < m.entries.len() ==> (#[trigger] m.entries[j]).name != symbol)
}

impl SourceMaps {
    /// Well-formedness of this map.
    pub open spec fn wf(&self) -> bool {
        wf_maps(self@)
    }

    /// An empty map: nothing is translated, nothing is ignorable.
    pub fn new() -> (r: SourceMaps)
        ensures
            r@.entries == Seq::<SourceMapEntryV>::empty(),
            r@.ignored == Seq::<Seq<char>>::empty(),
            r.wf(),
    {
        let r = SourceMaps { entries: Vec::new(), ignored: Vec::new() };
        proof {
            assert(r@.entries =~= Seq::<SourceMapEntryV>::empty());
            assert(r@.ignored =~= Seq::<Seq<char>>::empty());
        }
        r
    }

    #[verifier::loop_isolation(false)]
    fn find_entry(&self, name: &str) -> (r: Option<usize>)
        ensures
            match r {
                Some(i) => i < self.entries@.len() && spec_find(self@.entries, name@) == Some(
                    i as int,
                ),
                None => spec_find(self@.entries, name@) is None,
            },
    {
        let mut i: usize = 0;
        while i < self.entries.len()
            invariant
                i <= self.entries.len(),
                forall|j: int| 0 <= j < i ==> (#[trigger] self@.entries[j]).symbol != name@,
            decreases self.entries.len() - i,
        {
            if str_eq(self.entries[i].symbol.as_str(), name) {
                proof {
                    assert(self@.entries[i as int].symbol == name@);
                    lemma_find_from(self@.entries, name@, 0);
                }
                return Some(i);
            }
            i = i + 1;
        }
        proof {
            lemma_find_from(self@.entries, name@, 0);
        }
        None
    }

    /// Whether `name` is flagged as synthetic/ignorable.
    #[verifier::loop_isolation(false)]
    pub fn is_ignorable(&self, name: &str) -> (r: bool)
        ensures
            r == spec_is_ignorable(self@, name@),
    {
        let mut i: usize = 0;
        while i < self.ignored.len()
            invariant
                i <= self.ignored.len(),
                forall|j: int| 0 <= j < i ==> self@.ignored[j] != name@,
            decreases self.ignored.len() - i,
        {
            if str_eq(self.ignored[i].as_str(), name) {
                proof {
                    assert(self@.ignored[i as int] == name@);
                }
                return true;
            }
            i = i + 1;
        }
        false
    }

    /// Rewrites `frame`'s name and filename through the map, exactly as
    /// `spec_translate` describes; a frame whose name is not mapped is kept
    /// unchanged.
    pub fn translate(&self, frame: &mut Frame)
        ensures
            final(frame)@ == spec_translate(self@, old(frame)@),
    {
        match self.find_entry(frame.name.as_str()) {
            Some(i) => {
                frame.name = self.entries[i].name.clone();
                frame.filename = self.entries[i].filename.clone();
            },
            None => {},
        }
    }

    /// Adds a mapping when doing so keeps the map well-formed; reports
    /// whether it was added.
    #[verifier::loop_isolation(false)]
    pub fn add_mapping(&mut self, symbol: String, name: String, filename: String) -> (added: bool)
        requires
            old(self).wf(),
        ensures
            final(self).wf(),
            added == spec_can_add(old(self)@, symbol@, name@),
            added ==> final(self)@.entries == old(self)@.entries.push(
                SourceMapEntryV { symbol: symbol@, name: name@, filename: filename@ },
            ),
            !added ==> final(self)@.entries == old(self)@.entries,
            final(self)@.ignored == old(self)@.ignored,
    {
        if name.as_str().is_empty() || str_eq(name.as_str(), symbol.as_str()) {
            return false;
        }
        let mut i: usize = 0;
        while i < self.entries.len()
            invariant
                i <= self.entries.len(),
                forall|j: int|
                    0 <= j < i ==> (#[trigger] self@.entries[j]).symbol != name@ && (
                    #[trigger] self@.entries[j]).name != symbol@,
            decreases self.entries.len() - i,
        {
            if str_eq(self.entries[i].symbol.as_str(), name.as_str()) {
                proof {
                    assert(self@.entries[i as int].symbol == name@);
                }
                return false;
            }
            if str_eq(self.entries[i].name.as_str(), symbol.as_str()) {
                proof {
                    assert(self@.entries[i as int].name == symbol@);
                }
                return false;
            }
            i = i + 1;
        }
        let ghost old_entries = self@.entries;
        let ghost e = SourceMapEntryV { symbol: symbol@, name: name@, filename: filename@ };
        self.entries.push(SourceMapEntry { symbol, name, filename });
        proof {
            assert(self@.entries =~= old_entries.push(e));
            assert(self@.ignored =~= old(self)@.ignored);
            assert forall|i2: int, j2: int|
                0 <= i2 < self@.entries.len() && 0 <= j2 < self@.entries.len() implies (
            #[trigger] self@.entries[i2]).name != (#[trigger] self@.entries[j2]).symbol by {
                if i2 < old_entries.len() && j2 < old_entries.len() {
                    assert(self@.entries[i2] == old_entries[i2]);
                    assert(self@.entries[j2] == old_entries[j2]);
                }
            }
        }
        true
    }

    /// Flags `name` as synthetic/ignorable.
    pub fn add_ignored(&mut self, name: String)
        requires
            old(self).wf(),
        ensures
            final(self).wf(),
            final(self)@.ignored == old(self)@.ignored.push(name@),
            final(self)@.entries == old(self)@.entries,
    {
        let ghost n = name@;
        self.ignored.push(name);
        proof {
            assert(self@.ignored =~= old(self)@.ignored.push(n));
            assert(self@.entries =~= old(self)@.entries);
        }
    }
}

/// Translation is idempotent: because no replacement name is itself a mapped
/// symbol, translating an already-translated frame changes nothing.
pub proof fn lemma_translate_idempotent(m: SourceMapsV, f: FrameV)
    requires
        wf_maps(m),
    ensures
        spec_translate(m, spec_translate(m, f)) == spec_translate(m, f),
{
    lemma_find_from(m.entries, f.name, 0);
    match spec_find(m.entries, f.name) {
        Some(i) => {
            let f1 = spec_translate(m, f);
            lemma_find_from(m.entries, f1.name, 0);
            match spec_find(m.entries, f1.name) {
                Some(k) => {
                    assert(m.entries[i].name != m.entries[k].symbol);
                },
                None => {},
            }
        },
        None => {},
    }
}

} // verus!
