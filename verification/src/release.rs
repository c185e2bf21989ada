//! Release descriptors from the upstream feed, the search for the asset that
//! matches the computed name, and the naming of the local install path.

use vstd::prelude::*;

verus! {

/// One downloadable file attached to a release.
pub struct Asset {
    pub name: String,
    pub download_url: String,
}

/// The release descriptor fetched from the feed: a version identifier and the
/// attached assets. Immutable for the duration of one resolution call.
pub struct Release {
    pub version: String,
    pub assets: Vec<Asset>,
}

/// Whether some asset in the list bears exactly the given name.
pub open spec fn has_asset(assets: Seq<Asset>, name: Seq<char>) -> bool {
    exists|i: int| 0 <= i < assets.len() && assets[i].name@ == name
}

/// Whether position `i` holds the first asset bearing the given name.
pub open spec fn is_first_asset(assets: Seq<Asset>, name: Seq<char>, i: int) -> bool {
    &&& 0 <= i < assets.len()
    &&& assets[i].name@ == name
    &&& forall|j: int| 0 <= j < i ==> assets[j].name@ != name
}

/// Returns the download URL of the first asset whose name equals `name`
/// exactly, or nothing when no asset matches.
pub fn find_asset_url(release: &Release, name: &String) -> (r: Option<String>)
    ensures
        r is Some <==> has_asset(release.assets@, name@),
        r matches Some(u) ==> exists|i: int|
            is_first_asset(release.assets@, name@, i) && u@ == release.assets@[i].download_url@,
{
    let n = release.assets.len();
    let mut i: usize = 0;
    while i < n
        invariant
            n == release.assets@.len(),
            i <= n,
            forall|j: int| 0 <= j < i ==> release.assets@[j].name@ != name@,
        decreases n - i,
    {
        if release.assets[i].name == *name {
            let url = release.assets[i].download_url.clone();
            assert(is_first_asset(release.assets@, name@, i as int));
            return Some(url);
        }
        i += 1;
    }
    None
}

/// The local install path for a release version: the binary's base name,
/// a dash, and the version identifier.
pub open spec fn install_path_of(version: Seq<char>) -> Seq<char> {
    "neocmakelsp-"@ + version
}

/// Computes the local install path for a release version.
pub fn install_path(version: &String) -> (r: String)
    ensures
        r@ == install_path_of(version@),
{
    String::from_str("neocmakelsp-").concat(version.as_str())
}

} // verus!
