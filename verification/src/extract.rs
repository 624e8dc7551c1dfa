//! The per-entry decisions of the two archive decoders.
//!
//! The zip decoder tolerates bad entries: an unreadable or unnamed entry and
//! a directory entry are skipped, and the archive as a whole still succeeds.
//! The sequential decoder does not: the first structurally-bad entry fails
//! the whole archive. This asymmetry decides how failures surface per pack.

use vstd::prelude::*;

use crate::errors::ExtractFailure;

verus! {

/// What the zip decoder saw of one archive entry.
#[derive(Debug, Clone, Copy, PartialEq, Eq, Structural)]
pub struct ZipEntryInfo {
    /// The entry header could be read.
    pub readable: bool,
    /// The entry carries a safe, enclosed file name.
    pub named: bool,
    /// The entry is a directory.
    pub is_dir: bool,
}

/// Whether the zip decoder writes this entry into the output directory.
pub open spec fn zip_entry_extracted(e: ZipEntryInfo) -> bool {
    e.readable && e.named && !e.is_dir
}

/// The zip decoder's decision for one entry: written exactly when it is
/// readable, safely named, and not a directory; anything else is skipped,
/// never an error.
pub fn zip_entry_action(e: &ZipEntryInfo) -> (r: bool)
    ensures
        r == zip_entry_extracted(*e),
{
    e.readable && e.named && !e.is_dir
}

/// The zip decoder's plan over a whole archive: which entries get written.
/// The plan is total — per-entry trouble skips that entry and the archive as
/// a whole still counts as successfully processed.
pub fn zip_extraction_plan(entries: &Vec<ZipEntryInfo>) -> (r: Vec<bool>)
    ensures
        r@.len() == entries@.len(),
        forall|i: int| 0 <= i < entries@.len() ==> r@[i] == zip_entry_extracted(entries@[i]),
{
    let mut r: Vec<bool> = Vec::new();
    let mut i: usize = 0;
    while i < entries.len()
        invariant
            i <= entries@.len(),
            r@.len() == i,
            forall|j: int| 0 <= j < i ==> r@[j] == zip_entry_extracted(entries@[j]),
        decreases entries@.len() - i,
    {
        let e = entries[i];
        r.push(zip_entry_action(&e));
        i += 1;
    }
    r
}

/// What the sequential decoder saw of one entry, in stream order.
#[derive(Debug, Clone, Copy, PartialEq, Eq, Structural)]
pub struct StreamEntryInfo {
    /// The entry decoded without a structural error.
    pub structural_ok: bool,
    /// The entry is a directory.
    pub is_dir: bool,
}

/// Whether the sequential decoder writes this entry, provided the stream
/// survives that far: directories are skipped, files are written.
pub fn sevenzip_entry_action(is_dir: bool) -> (r: bool)
    ensures
        r == !is_dir,
{
    !is_dir
}

/// The sequential decoder's result over a whole archive. It succeeds exactly
/// when every entry is structurally sound, and then writes exactly the
/// non-directory entries; otherwise the first bad entry aborts the whole
/// archive as a single failure.
pub fn sevenzip_extraction_plan(entries: &Vec<StreamEntryInfo>) -> (r: Result<
    Vec<bool>,
    ExtractFailure,
>)
    ensures
        r is Ok <==> (forall|i: int| 0 <= i < entries@.len() ==> entries@[i].structural_ok),
        r matches Ok(plan) ==> plan@.len() == entries@.len() && (forall|i: int|
            0 <= i < entries@.len() ==> plan@[i] == !entries@[i].is_dir),
        r matches Err(f) ==> (f matches ExtractFailure::Corrupted(j) && j < entries@.len()
            && !entries@[j as int].structural_ok && (forall|k: int|
            0 <= k < j ==> entries@[k].structural_ok)),
{
    let mut plan: Vec<bool> = Vec::new();
    let mut i: usize = 0;
    while i < entries.len()
        invariant
            i <= entries@.len(),
            plan@.len() == i,
            forall|j: int| 0 <= j < i ==> entries@[j].structural_ok,
            forall|j: int| 0 <= j < i ==> plan@[j] == !entries@[j].is_dir,
        decreases entries@.len() - i,
    {
        let e = entries[i];
        if !e.structural_ok {
            return Err(ExtractFailure::Corrupted(i));
        }
        plan.push(sevenzip_entry_action(e.is_dir));
        i += 1;
    }
    Ok(plan)
}

} // verus!
