//! The documents the pipeline loads and publishes: an ordered collection of
//! bar definitions for the layout configuration, a stylesheet blob for the
//! styles, and the error a failed load reports.

use vstd::prelude::*;

verus! {

/// Stable identity of one bar, derived from the configuration: the monitor
/// it sits on and its index among that monitor's bars. Used to match a
/// desired bar definition to a currently-open window across reconciliation
/// passes.
#[derive(Clone, Copy, PartialEq, Eq, Structural, Hash, Debug)]
pub struct BarKey {
    pub monitor: u32,
    pub index: u32,
}

/// The screen edge a bar is docked to.
#[derive(Clone, Copy, PartialEq, Eq, Structural, Debug)]
pub enum Edge {
    Top,
    Bottom,
    Left,
    Right,
}

/// One desired bar: its identity, placement, size, and widget layout
/// (widgets as an ordered list of widget identifiers).
#[derive(Debug)]
pub struct BarDef {
    pub key: BarKey,
    pub edge: Edge,
    pub thickness: u32,
    pub widgets: Vec<u32>,
}

/// Whether two bar definitions are the same in every field.
pub open spec fn def_eq(a: BarDef, b: BarDef) -> bool {
    &&& a.key == b.key
    &&& a.edge == b.edge
    &&& a.thickness == b.thickness
    &&& a.widgets@ == b.widgets@
}

impl BarDef {
    /// Compares two bar definitions field by field.
    pub fn same_def(&self, other: &BarDef) -> (result: bool)
        ensures
            result == def_eq(*self, *other),
    {
        if !(self.key == other.key && self.edge == other.edge && self.thickness
            == other.thickness) {
            return false;
        }
        if self.widgets.len() != other.widgets.len() {
            assert(self.widgets@ != other.widgets@);
            return false;
        }
        let mut i: usize = 0;
        while i < self.widgets.len()
            invariant
                i <= self.widgets.len(),
                self.widgets.len() == other.widgets.len(),
                forall|j: int| 0 <= j < i ==> self.widgets@[j] == other.widgets@[j],
            decreases self.widgets.len() - i,
        {
            if self.widgets[i] != other.widgets[i] {
                assert(self.widgets@ != other.widgets@);
                return false;
            }
            i += 1;
        }
        assert(self.widgets@ =~= other.widgets@);
        true
    }
}

impl Clone for BarDef {
    /// A copy equal to the original in every field.
    fn clone(&self) -> (result: Self)
        ensures
            def_eq(result, *self),
    {
        let mut widgets: Vec<u32> = Vec::new();
        let mut i: usize = 0;
        while i < self.widgets.len()
            invariant
                i <= self.widgets.len(),
                widgets@ == self.widgets@.subrange(0, i as int),
            decreases self.widgets.len() - i,
        {
            widgets.push(self.widgets[i]);
            assert(widgets@ =~= self.widgets@.subrange(0, i + 1 as int));
            i += 1;
        }
        assert(widgets@ =~= self.widgets@);
        BarDef { key: self.key, edge: self.edge, thickness: self.thickness, widgets }
    }
}

/// Whether every bar in a sequence has a distinct key.
pub open spec fn unique_keys(bars: Seq<BarDef>) -> bool {
    forall|i: int, j: int|
        0 <= i < j < bars.len() ==> (#[trigger] bars[i]).key != (#[trigger] bars[j]).key
}

/// The layout configuration document: an ordered collection of bar
/// definitions. Well-formed when every bar has a distinct key.
#[derive(Clone, Debug)]
pub struct ConfigDoc {
    pub bars: Vec<BarDef>,
}

impl ConfigDoc {
    /// Well-formedness: bar keys are distinct, so each desired bar matches
    /// at most one open window.
    pub open spec fn wf(self) -> bool {
        unique_keys(self.bars@)
    }
}

/// The stylesheet document: a single blob of stylesheet text.
#[derive(Debug)]
pub struct StyleDoc {
    pub css: String,
}

impl Clone for StyleDoc {
    /// A copy holding the same stylesheet text.
    fn clone(&self) -> (result: Self)
        ensures
            result.css@ == self.css@,
    {
        StyleDoc { css: self.css.clone() }
    }
}

/// Why a load failed. Either the file could not be read at all, or its
/// content was malformed (with the position of the first offence when the
/// parser knows it). `detail` carries the underlying error text for the log.
#[derive(Clone, Debug)]
pub enum LoadError {
    Io { detail: String },
    Syntax { line: u64, column: u64, detail: String },
}

} // verus!
