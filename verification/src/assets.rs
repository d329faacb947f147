//! Planning the copies of the assets into the output tree.

use crate::discovery::{classify, entry_views, kind_of, EntryKind, SourceEntry, SourceEntryView};
use crate::paths::{asset_output_path, asset_path};
use vstd::prelude::*;

verus! {

/// One asset to copy, byte for byte.
pub struct AssetCopy {
    /// The asset's path in the source tree.
    pub from: String,
    /// Its place in the output tree.
    pub to: String,
}

/// The mathematical reading of an `AssetCopy`.
pub ghost struct AssetCopyView {
    pub from: Seq<char>,
    pub to: Seq<char>,
}

impl View for AssetCopy {
    type V = AssetCopyView;

    open spec fn view(&self) -> AssetCopyView {
        AssetCopyView { from: self.from@, to: self.to@ }
    }
}

/// The copy that an entry asks for: one for each asset, none for any other
/// entry.
pub open spec fn copy_for(build_dir: Seq<char>, source_dir: Seq<char>, entry: SourceEntryView) -> Option<
    AssetCopyView,
> {
    if kind_of(entry.file_name, entry.is_file) == EntryKind::Asset {
        Some(
            AssetCopyView { from: entry.path, to: asset_path(build_dir, source_dir, entry.path) },
        )
    } else {
        None
    }
}

/// The readings of a list of copies.
pub open spec fn copy_views(copies: Seq<AssetCopy>) -> Seq<AssetCopyView> {
    copies.map_values(|c: AssetCopy| c@)
}

/// Plans the output tree's assets: one copy for each asset among `entries`,
/// in the order of the walk, each to its mapped place below `build_dir`.
/// Documents, reserved files and entries that are no regular files are
/// passed over.
pub fn generate_build_dir(build_dir: &str, source_dir: &str, entries: &Vec<SourceEntry>) -> (copies:
    Vec<AssetCopy>)
    ensures
        copy_views(copies@) == entry_views(entries@).filter_map(
            |e: SourceEntryView| copy_for(build_dir@, source_dir@, e),
        ),
{
    let ghost pick = |e: SourceEntryView| copy_for(build_dir@, source_dir@, e);
    let mut copies: Vec<AssetCopy> = Vec::new();
    let mut i: usize = 0;
    assert(entry_views(entries@).take(0).filter_map(pick) =~= copy_views(copies@));
    while i < entries.len()
        invariant
            i <= entries.len(),
            pick == |e: SourceEntryView| copy_for(build_dir@, source_dir@, e),
            copy_views(copies@) == entry_views(entries@).take(i as int).filter_map(pick),
        decreases entries.len() - i,
    {
        let entry = &entries[i];
        let ghost before = copy_views(copies@);
        proof {
            assert(entry_views(entries@).take(i + 1).drop_last() =~= entry_views(entries@).take(
                i as int,
            ));
            assert(entry_views(entries@).take(i + 1).last() == entry@);
        }
        let kind = classify(entry.file_name.as_str(), entry.is_file);
        if kind == EntryKind::Asset {
            let to = asset_output_path(build_dir, source_dir, entry.path.as_str());
            copies.push(AssetCopy { from: entry.path.clone(), to });
            assert(copy_views(copies@) =~= before.push(pick(entry@)->0));
        }
        i += 1;
    }
    assert(entry_views(entries@).take(entries@.len() as int) =~= entry_views(entries@));
    copies
}

} // verus!
