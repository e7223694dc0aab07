//! Releases of the upstream project and exact asset selection.

use vstd::prelude::*;

verus! {

/// A downloadable artifact attached to a release.
pub struct ReleaseAsset {
    /// File name of the artifact, as published.
    pub name: String,
    /// Where the artifact can be downloaded from.
    pub download_url: String,
}

/// A tagged release of the upstream project, with its attached assets.
pub struct Release {
    /// Version tag of the release.
    pub version: String,
    /// The artifacts attached to the release, in published order.
    pub assets: Vec<ReleaseAsset>,
}

/// True when the asset at index `i` carries exactly the wanted name.
pub open spec fn asset_matches(assets: Seq<ReleaseAsset>, i: int, wanted: Seq<char>) -> bool {
    assets[i].name@ == wanted
}

/// True when some asset carries exactly the wanted name.
pub open spec fn has_matching_asset(assets: Seq<ReleaseAsset>, wanted: Seq<char>) -> bool {
    exists|i: int| 0 <= i < assets.len() && asset_matches(assets, i, wanted)
}

/// True when index `i` is the first whose asset carries exactly the wanted
/// name.
pub open spec fn is_first_match(assets: Seq<ReleaseAsset>, i: int, wanted: Seq<char>) -> bool {
    &&& 0 <= i < assets.len()
    &&& asset_matches(assets, i, wanted)
    &&& forall|j: int| 0 <= j < i ==> !asset_matches(assets, j, wanted)
}

/// Finds the first asset whose name equals `wanted` exactly: case
/// sensitive, whole name, no fuzzy fallback. Returns its index.
pub fn find_asset(assets: &Vec<ReleaseAsset>, wanted: &String) -> (r: Option<usize>)
    ensures
        match r {
            Some(i) => is_first_match(assets@, i as int, wanted@),
            None => !has_matching_asset(assets@, wanted@),
        },
{
    let mut i: usize = 0;
    while i < assets.len()
        invariant
            0 <= i <= assets@.len(),
            forall|j: int| 0 <= j < i ==> !asset_matches(assets@, j, wanted@),
        decreases assets@.len() - i,
    {
        if assets[i].name == *wanted {
            return Some(i);
        }
        i = i + 1;
    }
    None
}

} // verus!
