//! Shared application state: one cell per watched artifact, each holding the
//! last successfully loaded document. A cell is replaced wholesale by the
//! reload pipeline and read as a consistent snapshot by window-construction
//! code; the caller guards each cell with its own mutual-exclusion lock and
//! holds the lock only for the duration of one of these calls.

use vstd::prelude::*;
use crate::model::{ConfigDoc, StyleDoc};

verus! {

/// The cell holding the last successfully loaded layout configuration.
pub struct ConfigCell {
    doc: ConfigDoc,
}

impl ConfigCell {
    /// The configuration the cell currently publishes.
    pub closed spec fn snapshot(self) -> ConfigDoc {
        self.doc
    }

    /// A cell publishing the given initial configuration.
    pub fn new(doc: ConfigDoc) -> (cell: ConfigCell)
        ensures
            cell.snapshot() == doc,
    {
        ConfigCell { doc }
    }

    /// Atomically replaces the published configuration: the old document is
    /// given up entirely in favor of the new one, never partially.
    pub fn replace_config(&mut self, doc: ConfigDoc)
        ensures
            final(self).snapshot() == doc,
    {
        self.doc = doc;
    }

    /// Reads the currently published configuration snapshot.
    pub fn read_config(&self) -> (doc: &ConfigDoc)
        ensures
            *doc == self.snapshot(),
    {
        &self.doc
    }
}

/// The cell holding the last successfully loaded stylesheet.
pub struct StylesCell {
    doc: StyleDoc,
}

impl StylesCell {
    /// The stylesheet the cell currently publishes.
    pub closed spec fn snapshot(self) -> StyleDoc {
        self.doc
    }

    /// A cell publishing the given initial stylesheet.
    pub fn new(doc: StyleDoc) -> (cell: StylesCell)
        ensures
            cell.snapshot() == doc,
    {
        StylesCell { doc }
    }

    /// Atomically replaces the published stylesheet.
    pub fn replace_styles(&mut self, doc: StyleDoc)
        ensures
            final(self).snapshot() == doc,
    {
        self.doc = doc;
    }

    /// Reads the currently published stylesheet snapshot.
    pub fn read_styles(&self) -> (doc: &StyleDoc)
        ensures
            *doc == self.snapshot(),
    {
        &self.doc
    }
}

} // verus!
