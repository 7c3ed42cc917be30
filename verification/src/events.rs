//! Change-event vocabulary: the raw kinds the operating system reports for a
//! watched file, and the narrowed logical kinds that drive a reload. Only a
//! write or a removal settles into a logical event; renames, attribute
//! changes, rescans and the rest are deliberately ignored.

use vstd::prelude::*;

verus! {

/// Which of the two watched artifacts a path or an event belongs to.
#[derive(Clone, Copy, PartialEq, Eq, Structural, Debug)]
pub enum Artifact {
    Config,
    Styles,
}

/// A raw file-change kind as the operating system reports it.
#[derive(Clone, Copy, PartialEq, Eq, Structural, Debug)]
pub enum RawEventKind {
    Write,
    Remove,
    Create,
    Rename,
    Chmod,
    Rescan,
    Other,
}

/// A settled logical change: the only two kinds that trigger a reload.
#[derive(Clone, Copy, PartialEq, Eq, Structural, Debug)]
pub enum ChangeKind {
    Written,
    Removed,
}

/// The narrowing of the raw event vocabulary: a raw write settles to
/// `Written`, a raw removal to `Removed`, and every other kind to nothing.
pub open spec fn settles_to(kind: RawEventKind) -> Option<ChangeKind> {
    match kind {
        RawEventKind::Write => Some(ChangeKind::Written),
        RawEventKind::Remove => Some(ChangeKind::Removed),
        _ => None,
    }
}

/// Classifies a raw event kind into the logical kind it settles to, if any.
pub fn classify(kind: RawEventKind) -> (result: Option<ChangeKind>)
    ensures
        result == settles_to(kind),
{
    match kind {
        RawEventKind::Write => Some(ChangeKind::Written),
        RawEventKind::Remove => Some(ChangeKind::Removed),
        _ => None,
    }
}

} // verus!
