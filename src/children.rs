//! The immediate children of container resources, in the order the backends
//! return them.
use crate::s3::S3Entry;
use crate::types::{
    asset_of, Asset, AssetFolder, AssetTypeError, DandiResource, Dandiset, DandisetVersion,
    RawAsset, ZarrEntry, ZarrFolder,
};
use vstd::prelude::*;

verus! {

/// The versions listed under a dandiset: the draft, then the latest
/// published version if there is one.
pub fn version_children(d: Dandiset) -> (r: Vec<DandisetVersion>)
    ensures
        r@ == match d.most_recent_published_version {
            Some(v) => seq![d.draft_version, v],
            None => seq![d.draft_version],
        },
{
    let mut r: Vec<DandisetVersion> = Vec::new();
    r.push(d.draft_version);
    if let Some(v) = d.most_recent_published_version {
        r.push(v);
    }
    r
}

/// The resource that a storage listing entry stands for.
pub open spec fn zarr_child(e: S3Entry) -> DandiResource {
    match e {
        S3Entry::Folder(f) => DandiResource::ZarrFolder(ZarrFolder { path: f.key_prefix }),
        S3Entry::Object(o) => DandiResource::ZarrEntry(
            ZarrEntry {
                path: o.key,
                size: o.size,
                modified: o.modified,
                etag: o.etag,
                url: o.download_url,
            },
        ),
    }
}

/// The children of a Zarr asset or Zarr folder, from a storage listing:
/// sub-prefixes become folders and objects become entries, in order.
pub fn zarr_children(entries: Vec<S3Entry>) -> (r: Vec<DandiResource>)
    ensures
        r@ == entries@.map_values(|e: S3Entry| zarr_child(e)),
{
    let mut r: Vec<DandiResource> = Vec::new();
    let mut rest = entries;
    let ghost all = rest@;
    let mut taken: usize = 0;
    let n = rest.len();
    assert(all.len() == n);
    while rest.len() > 0
        invariant
            all.len() <= usize::MAX,
            taken + rest@.len() == all.len(),
            rest@ == all.subrange(taken as int, all.len() as int),
            r@ == all.subrange(0, taken as int).map_values(|e: S3Entry| zarr_child(e)),
        decreases rest@.len(),
    {
        let e = rest.remove(0);
        r.push(DandiResource::from(e));
        taken = taken + 1;
        assert(rest@ =~= all.subrange(taken as int, all.len() as int));
        assert(r@ =~= all.subrange(0, taken as int).map_values(|e: S3Entry| zarr_child(e)));
    }
    assert(all.subrange(0, all.len() as int) =~= all);
    r
}

/// An entry of a folder's listing with the asset record fetched: a folder,
/// or the raw record of the asset there.
#[derive(Clone, Debug, PartialEq, Eq)]
pub enum RawChild {
    Folder(AssetFolder),
    Asset(RawAsset),
}

/// Whether a listing entry holds an asset record that names no backing
/// store, or both.
pub open spec fn is_bad_child(c: RawChild) -> bool {
    c matches RawChild::Asset(a) && asset_of(a) is Err
}

/// The resource that a valid listing entry stands for.
pub open spec fn folder_child(c: RawChild) -> DandiResource {
    match c {
        RawChild::Folder(f) => DandiResource::Folder(f),
        RawChild::Asset(a) => DandiResource::Asset(asset_of(a)->Ok_0),
    }
}

/// The children of a version's top folder or of an asset folder: folders as
/// they are and asset records as assets, in order. The first record that
/// names no backing store, or both, fails the whole listing.
pub fn folder_children(entries: Vec<RawChild>) -> (r: Result<Vec<DandiResource>, AssetTypeError>)
    ensures
        r is Ok <==> forall|j: int| 0 <= j < entries@.len() ==> !is_bad_child(#[trigger] entries@[j]),
        r matches Ok(v) ==> v@ == entries@.map_values(|c: RawChild| folder_child(c)),
        r matches Err(e) ==> exists|i: int|
            0 <= i < entries@.len() && is_bad_child(#[trigger] entries@[i]) && (forall|j: int|
                0 <= j < i ==> !is_bad_child(#[trigger] entries@[j])) && asset_of(
                entries@[i]->Asset_0,
            ) == Err::<Asset, AssetTypeError>(e),
{
    let mut r: Vec<DandiResource> = Vec::new();
    let mut rest = entries;
    let ghost all = rest@;
    let mut taken: usize = 0;
    let n = rest.len();
    assert(all.len() == n);
    while rest.len() > 0
        invariant
            entries@ == all,
            all.len() <= usize::MAX,
            taken + rest@.len() == all.len(),
            rest@ == all.subrange(taken as int, all.len() as int),
            forall|j: int| 0 <= j < taken ==> !is_bad_child(#[trigger] all[j]),
            r@ == all.subrange(0, taken as int).map_values(|c: RawChild| folder_child(c)),
        decreases rest@.len(),
    {
        let c = rest.remove(0);
        assert(c == all[taken as int]);
        match c {
            RawChild::Folder(f) => {
                r.push(DandiResource::Folder(f));
            },
            RawChild::Asset(a) => match Asset::try_from(a) {
                Ok(asset) => {
                    r.push(DandiResource::Asset(asset));
                },
                Err(e) => {
                    assert(is_bad_child(all[taken as int]));
                    assert(asset_of(all[taken as int]->Asset_0) == Err::<Asset, AssetTypeError>(e));
                    return Err(e);
                },
            },
        }
        taken = taken + 1;
        assert(rest@ =~= all.subrange(taken as int, all.len() as int));
        assert(r@ =~= all.subrange(0, taken as int).map_values(|c: RawChild| folder_child(c)));
    }
    assert(all.subrange(0, all.len() as int) =~= all);
    Ok(r)
}

} // verus!
