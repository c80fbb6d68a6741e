//! Release data and asset lookup. A release is a version tag plus an ordered
//! collection of named, downloadable assets; `find_asset` locates the asset
//! whose name exactly matches the platform's expected asset name.

use vstd::prelude::*;
use crate::error::ErrorModel;
use crate::error::ProvisionError;

verus! {

/// One downloadable artifact attached to a release.
pub struct Asset {
    pub name: String,
    pub download_url: String,
}

/// The ghost mirror of `Asset`.
pub ghost struct AssetModel {
    pub name: Seq<char>,
    pub download_url: Seq<char>,
}

impl View for Asset {
    type V = AssetModel;

    open spec fn view(&self) -> AssetModel {
        AssetModel { name: self.name@, download_url: self.download_url@ }
    }
}

/// The latest qualifying release: a version tag and its assets.
pub struct ReleaseInfo {
    pub version: String,
    pub assets: Vec<Asset>,
}

/// The ghost mirror of `ReleaseInfo`.
pub ghost struct ReleaseModel {
    pub version: Seq<char>,
    pub assets: Seq<AssetModel>,
}

impl View for ReleaseInfo {
    type V = ReleaseModel;

    open spec fn view(&self) -> ReleaseModel {
        ReleaseModel { version: self.version@, assets: self.assets@.map_values(|a: Asset| a@) }
    }
}

/// The index of the first asset whose name is exactly `name`, or -1 when no
/// asset matches.
pub open spec fn first_match(assets: Seq<AssetModel>, name: Seq<char>) -> int
    decreases assets.len(),
{
    if assets.len() == 0 {
        -1
    } else if assets[0].name == name {
        0
    } else {
        let rest = first_match(assets.drop_first(), name);
        if rest < 0 {
            -1
        } else {
            1 + rest
        }
    }
}

/// Whether some asset's name is exactly `name`.
pub open spec fn has_matching_asset(assets: Seq<AssetModel>, name: Seq<char>) -> bool {
    exists|i: int| 0 <= i < assets.len() && assets[i].name == name
}

/// `first_match` returns a genuine first match exactly when one exists.
pub proof fn lemma_first_match_characterization(assets: Seq<AssetModel>, name: Seq<char>)
    ensures
        has_matching_asset(assets, name) ==> {
            let i = first_match(assets, name);
            0 <= i < assets.len() && assets[i].name == name && (forall|j: int|
                0 <= j < i ==> assets[j].name != name)
        },
        !has_matching_asset(assets, name) ==> first_match(assets, name) == -1,
    decreases assets.len(),
{
    if assets.len() > 0 && assets[0].name != name {
        let rest = assets.drop_first();
        lemma_first_match_characterization(rest, name);
        assert(forall|i: int| 1 <= i < assets.len() ==> assets[i] == #[trigger] rest[i - 1]);
        if has_matching_asset(assets, name) {
            let w = choose|i: int| 0 <= i < assets.len() && assets[i].name == name;
            assert(rest[w - 1].name == name);
            assert(has_matching_asset(rest, name));
            let r = first_match(rest, name);
            assert(first_match(assets, name) == 1 + r);
            assert(assets[1 + r].name == name);
            assert forall|j: int| 0 <= j < 1 + r implies assets[j].name != name by {
                if j >= 1 {
                    assert(rest[j - 1].name != name);
                }
            }
        }
        if has_matching_asset(rest, name) {
            let r = choose|i: int| 0 <= i < rest.len() && rest[i].name == name;
            assert(assets[r + 1].name == name);
            assert(has_matching_asset(assets, name));
        }
    }
}

/// Locates the first asset of `release` whose name is exactly `expected`.
/// Succeeds if and only if such an asset exists; otherwise the whole
/// provisioning attempt stops with `AssetNotFound`, carrying the name that
/// was looked for. No partial match and no alternate platform is accepted.
pub fn find_asset<'a>(release: &'a ReleaseInfo, expected: &String) -> (r: Result<
    &'a Asset,
    ProvisionError,
>)
    ensures
        match r {
            Ok(a) => {
                let i = first_match(release@.assets, expected@);
                0 <= i < release@.assets.len() && release@.assets[i].name == expected@
                    && a@ == release@.assets[i]
            },
            Err(e) => !has_matching_asset(release@.assets, expected@) && (e@ matches
                ErrorModel::AssetNotFound { expected_name } && expected_name == expected@),
        },
        r is Ok <==> has_matching_asset(release@.assets, expected@),
{
    let ghost assets = release@.assets;
    let n = release.assets.len();
    let mut k: usize = 0;
    while k < n
        invariant
            n == release.assets.len(),
            assets == release@.assets,
            k <= n,
            forall|j: int| 0 <= j < k ==> assets[j].name != expected@,
        decreases n - k,
    {
        if release.assets[k].name == *expected {
            proof {
                assert(assets[k as int].name == expected@);
                lemma_first_match_characterization(assets, expected@);
                let i = first_match(assets, expected@);
                assert(0 <= i < assets.len() && assets[i].name == expected@);
                assert(i >= k) by {
                    if i < k {
                        assert(assets[i].name != expected@);
                    }
                }
                assert(i <= k) by {
                    if i > k {
                        assert(assets[k as int].name != expected@);
                    }
                }
            }
            return Ok(&release.assets[k]);
        }
        k = k + 1;
    }
    proof {
        lemma_first_match_characterization(assets, expected@);
    }
    Err(ProvisionError::AssetNotFound(expected.clone()))
}

} // verus!
