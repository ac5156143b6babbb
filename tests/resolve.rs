use dandidav::children::{folder_children, version_children, zarr_children, RawChild};
use dandidav::paths::{PureDirPath, PurePath};
use dandidav::resolve::{resolve_version, Action, Outcome, Walk};
use dandidav::s3::{S3Entry, S3Folder, S3Location, S3Object};
use dandidav::timestamp::Timestamp;
use dandidav::types::{
    Asset, AssetDigests, AssetFolder, AssetMetadata, AssetTypeError, DandiResource,
    DandiResourceWithS3, Dandiset, DandisetId, DandisetVersion, FolderEntry, RawAsset,
    RawFolderEntry, RawFolderEntryAsset, VersionId, VersionSpec, ZarrEntry, ZarrFolder,
};

fn t0() -> Timestamp {
    Timestamp::new(0, 0, 0).unwrap()
}

fn p(s: &str) -> PurePath {
    PurePath::parse(s).unwrap()
}

fn segs(v: &[&str]) -> Vec<PurePath> {
    v.iter().map(|s| p(s)).collect()
}

fn meta(urls: &[&str]) -> AssetMetadata {
    AssetMetadata {
        encoding_format: Some("application/x-nifti".to_string()),
        content_url: urls.iter().map(|s| s.to_string()).collect(),
        digest: AssetDigests { dandi_etag: Some("abc-1".to_string()) },
    }
}

fn raw(path: &str, blob: Option<&str>, zarr: Option<&str>, urls: &[&str]) -> RawAsset {
    RawAsset {
        asset_id: "asset-1".to_string(),
        blob: blob.map(|s| s.to_string()),
        zarr: zarr.map(|s| s.to_string()),
        path: p(path),
        size: 100,
        created: t0(),
        modified: t0(),
        metadata: meta(urls),
    }
}

fn folder_entry(path: &str) -> FolderEntry {
    FolderEntry::from(RawFolderEntry { path: p(path), asset: None })
}

fn asset_entry(path: &str, id: &str) -> FolderEntry {
    FolderEntry::from(RawFolderEntry {
        path: p(path),
        asset: Some(RawFolderEntryAsset { asset_id: id.to_string() }),
    })
}

const ZARR_URL: &str = "https://dandiarchive.s3.amazonaws.com/zarr/z1/";

#[test]
fn blob_only_gives_blob_asset() {
    let a = Asset::try_from(raw("a.nii", Some("b1"), None, &[])).unwrap();
    match &a {
        Asset::Blob(b) => {
            assert_eq!(b.blob_id, "b1");
            assert_eq!(b.asset_id, "asset-1");
            assert_eq!(b.content_type(), Some("application/x-nifti"));
            assert_eq!(b.etag(), Some("abc-1"));
        }
        Asset::Zarr(_) => panic!("expected a blob"),
    }
    assert_eq!(a.path().as_str(), "a.nii");
    assert_eq!(a.size(), 100);
    assert_eq!(a.created(), t0());
    assert_eq!(a.modified(), t0());
    assert_eq!(a.metadata(), &meta(&[]));
}

#[test]
fn zarr_only_gives_zarr_asset() {
    let a = Asset::try_from(raw("d.zarr", None, Some("z1"), &[])).unwrap();
    assert!(matches!(a, Asset::Zarr(ref z) if z.zarr_id == "z1"));
}

#[test]
fn neither_and_both_are_errors() {
    assert_eq!(
        Asset::try_from(raw("a", None, None, &[])),
        Err(AssetTypeError::Neither { asset_id: "asset-1".to_string() })
    );
    assert_eq!(
        Asset::try_from(raw("a", Some("b"), Some("z"), &[])),
        Err(AssetTypeError::Both { asset_id: "asset-1".to_string() })
    );
}

#[test]
fn storage_urls() {
    let l = S3Location::parse_url("https://bkt.s3.amazonaws.com/blobs/abc/def").unwrap();
    assert_eq!(l.bucket, "bkt");
    assert_eq!(l.key, "blobs/abc/def");
    assert!(S3Location::parse_url("https://api.example.org/blobs/abc").is_none());
    assert!(S3Location::parse_url("http://bkt.s3.amazonaws.com/x").is_none());
    assert!(S3Location::parse_url("https://.s3.amazonaws.com/x").is_none());
    let top = S3Location::parse_url("https://bkt.s3.amazonaws.com").unwrap();
    assert_eq!(top.key, "");
    let l = S3Location::parse_url("HTTPS://Bkt.S3.AmazonAWS.com:443/a/b?x=1#f").unwrap();
    assert_eq!(l.bucket, "bkt");
    assert_eq!(l.key, "a/b");
    assert!(S3Location::parse_url("not a url").is_none());
}

#[test]
fn storage_location_from_url_parts() {
    let l = S3Location::from_url_parts("https", Some("b.s3.amazonaws.com"), "/k/x").unwrap();
    assert_eq!(l.bucket, "b");
    assert_eq!(l.key, "k/x");
    assert!(S3Location::from_url_parts("http", Some("b.s3.amazonaws.com"), "/k").is_none());
    assert!(S3Location::from_url_parts("https", None, "/k").is_none());
    assert!(S3Location::from_url_parts("https", Some("s3.amazonaws.com"), "/k").is_none());
    assert!(S3Location::from_url_parts("https", Some("b.example.com"), "/k").is_none());
    assert!(S3Location::from_url_parts("https", Some("b.s3.amazonaws.com"), "k").is_none());
}

#[test]
fn download_url_is_first_storage_url() {
    let a = Asset::try_from(raw(
        "a.nii",
        Some("b1"),
        None,
        &["https://api.example.org/x", "https://b.s3.amazonaws.com/k1", "https://c.s3.amazonaws.com/k2"],
    ))
    .unwrap();
    let Asset::Blob(b) = a else { panic!("expected a blob") };
    assert_eq!(b.download_url().map(|s| s.as_str()), Some("https://b.s3.amazonaws.com/k1"));
}

#[test]
fn zarr_storage_location() {
    let a = Asset::try_from(raw("d.zarr", None, Some("z1"), &["https://x.org/", ZARR_URL])).unwrap();
    let Asset::Zarr(z) = a else { panic!("expected a zarr") };
    let l = z.s3location().unwrap();
    assert_eq!(l.bucket, "dandiarchive");
    assert_eq!(l.key, "zarr/z1/");
    let none = Asset::try_from(raw("d.zarr", None, Some("z1"), &["https://x.org/"])).unwrap();
    let Asset::Zarr(z) = none else { panic!("expected a zarr") };
    assert!(z.s3location().is_none());
}

#[test]
fn empty_path_is_root() {
    let (_, out) = Walk::start(vec![]);
    assert_eq!(out, Outcome::Root);
}

#[test]
fn missing_first_segment_is_not_found() {
    let (mut w, out) = Walk::start(segs(&["nope"]));
    assert_eq!(out, Outcome::Next(Action::ListChildren { path: None }));
    let out = w.on_children(vec![folder_entry("sub"), asset_entry("x.nii", "a9")]);
    assert_eq!(out, Outcome::NotFound);
}

#[test]
fn blob_with_leftover_segments_is_not_found() {
    let (mut w, _) = Walk::start(segs(&["x.nii", "more"]));
    let out = w.on_children(vec![asset_entry("x.nii", "a9")]);
    assert_eq!(out, Outcome::Next(Action::FetchAsset { id: "a9".to_string() }));
    let out = w.on_asset(raw("x.nii", Some("b1"), None, &[]));
    assert_eq!(out, Outcome::NotFound);
}

#[test]
fn invalid_record_fails_resolution() {
    let (mut w, _) = Walk::start(segs(&["x.nii"]));
    w.on_children(vec![asset_entry("x.nii", "a9")]);
    let out = w.on_asset(raw("x.nii", None, None, &[]));
    assert_eq!(out, Outcome::Invalid(AssetTypeError::Neither { asset_id: "asset-1".to_string() }));
}

#[test]
fn blob_in_folder_scenario() {
    // Resolving sub/img.nii.
    let listing = || vec![folder_entry("sub"), asset_entry("sub/img.nii", "a1")];
    let (mut w, _) = Walk::start(segs(&["sub", "img.nii"]));
    let out = w.on_children(listing());
    assert_eq!(out, Outcome::Next(Action::ListChildren { path: Some(p("sub")) }));
    let out = w.on_children(listing());
    assert_eq!(out, Outcome::Next(Action::FetchAsset { id: "a1".to_string() }));
    let out = w.on_asset(raw("sub/img.nii", Some("b1"), None, &[]));
    let expected = Asset::try_from(raw("sub/img.nii", Some("b1"), None, &[])).unwrap();
    assert_eq!(out, Outcome::Found(DandiResourceWithS3::Asset(expected.clone())));

    // Resolving sub, then listing it at depth one.
    let (mut w, _) = Walk::start(segs(&["sub"]));
    let out = w.on_children(listing());
    let folder = AssetFolder { path: PureDirPath::parse("sub/").unwrap() };
    assert_eq!(out, Outcome::Found(DandiResourceWithS3::Folder(folder.clone())));
    let children =
        folder_children(vec![RawChild::Asset(raw("sub/img.nii", Some("b1"), None, &[]))]).unwrap();
    assert_eq!(children, vec![DandiResource::Asset(expected)]);
    let res = dandidav::types::DandiResourceWithChildren::Folder { folder: folder.clone(), children };
    let out = dandidav::dav::listing(res, dandidav::dav::FiniteDepth::One);
    assert_eq!(out.len(), 2);
    assert_eq!(out[0], DandiResource::Folder(folder));
}

#[test]
fn zarr_scenario() {
    let zarr_record = || raw("data.zarr", None, Some("z1"), &[ZARR_URL]);
    let top = || vec![asset_entry("data.zarr", "az")];
    let object = S3Object {
        key: p("0/0"),
        size: 42,
        modified: t0(),
        etag: "etag-00".to_string(),
        download_url: "https://dandiarchive.s3.amazonaws.com/zarr/z1/0/0".to_string(),
    };
    let (mut w, _) = Walk::start(segs(&["data.zarr", "0", "0"]));
    w.on_children(top());
    let out = w.on_asset(zarr_record());
    let loc = S3Location { bucket: "dandiarchive".to_string(), key: "zarr/z1/".to_string() };
    assert_eq!(out, Outcome::Next(Action::ListZarr { location: loc.clone(), path: None }));
    assert!(w.in_zarr());
    let folder0 = S3Folder { key_prefix: PureDirPath::parse("0/").unwrap() };
    let out = w.on_zarr(vec![S3Entry::Folder(folder0.clone())]);
    assert_eq!(out, Outcome::Next(Action::ListZarr { location: loc.clone(), path: Some(p("0")) }));
    let out = w.on_zarr(vec![S3Entry::Object(object.clone())]);
    assert_eq!(
        out,
        Outcome::Found(DandiResourceWithS3::ZarrEntry(ZarrEntry {
            path: p("0/0"),
            size: 42,
            modified: t0(),
            etag: "etag-00".to_string(),
            url: "https://dandiarchive.s3.amazonaws.com/zarr/z1/0/0".to_string(),
        }))
    );

    let (mut w, _) = Walk::start(segs(&["data.zarr", "missing"]));
    w.on_children(top());
    w.on_asset(zarr_record());
    let out = w.on_zarr(vec![S3Entry::Folder(folder0.clone())]);
    assert_eq!(out, Outcome::NotFound);

    let (mut w, _) = Walk::start(segs(&["data.zarr", "0"]));
    w.on_children(top());
    w.on_asset(zarr_record());
    let out = w.on_zarr(vec![S3Entry::Folder(folder0)]);
    assert_eq!(
        out,
        Outcome::Found(DandiResourceWithS3::ZarrFolder {
            folder: ZarrFolder { path: PureDirPath::parse("0/").unwrap() },
            s3: loc,
        })
    );
}

#[test]
fn object_with_leftover_segments_is_not_found() {
    let (mut w, _) = Walk::start(segs(&["d.zarr", "a", "b"]));
    w.on_children(vec![asset_entry("d.zarr", "az")]);
    w.on_asset(raw("d.zarr", None, Some("z1"), &[ZARR_URL]));
    let object = S3Object {
        key: p("a"),
        size: 1,
        modified: t0(),
        etag: "e".to_string(),
        download_url: "u".to_string(),
    };
    assert_eq!(w.on_zarr(vec![S3Entry::Object(object)]), Outcome::NotFound);
}

#[test]
fn zarr_without_location_is_not_found() {
    let (mut w, _) = Walk::start(segs(&["d.zarr", "a"]));
    w.on_children(vec![asset_entry("d.zarr", "az")]);
    assert_eq!(w.on_asset(raw("d.zarr", None, Some("z1"), &["https://x.org/"])), Outcome::NotFound);
}

#[test]
fn zarr_children_keep_order() {
    let o = S3Object {
        key: p("b"),
        size: 3,
        modified: t0(),
        etag: "e".to_string(),
        download_url: "u".to_string(),
    };
    let f = S3Folder { key_prefix: PureDirPath::parse("a/").unwrap() };
    let out = zarr_children(vec![S3Entry::Object(o), S3Entry::Folder(f)]);
    assert_eq!(out.len(), 2);
    assert!(matches!(out[0], DandiResource::ZarrEntry(ref e) if e.size == 3));
    assert!(matches!(out[1], DandiResource::ZarrFolder(ref z) if z.path.as_str() == "a/"));
}

#[test]
fn folder_children_abort_on_bad_record() {
    let folder = AssetFolder { path: PureDirPath::parse("f/").unwrap() };
    let out = folder_children(vec![
        RawChild::Folder(folder),
        RawChild::Asset(raw("x", Some("b"), Some("z"), &[])),
        RawChild::Asset(raw("y", None, None, &[])),
    ]);
    assert_eq!(out, Err(AssetTypeError::Both { asset_id: "asset-1".to_string() }));
}

#[test]
fn versions_of_dandiset() {
    let v = |s: &str| DandisetVersion {
        version: VersionId::parse(s).unwrap(),
        size: 10,
        created: t0(),
        modified: t0(),
    };
    let d = Dandiset {
        identifier: DandisetId::parse("D1").unwrap(),
        created: t0(),
        modified: t0(),
        draft_version: v("draft"),
        most_recent_published_version: None,
    };
    assert_eq!(version_children(d.clone()), vec![v("draft")]);
    let mut d2 = d;
    d2.most_recent_published_version = Some(v("0.1"));
    assert_eq!(version_children(d2), vec![v("draft"), v("0.1")]);
}

#[test]
fn folder_entry_from_raw() {
    assert_eq!(
        folder_entry("a/b"),
        FolderEntry::Folder(AssetFolder { path: PureDirPath::parse("a/b/").unwrap() })
    );
    assert_eq!(asset_entry("a/c", "i"), FolderEntry::Asset { path: p("a/c"), id: "i".to_string() });
}

#[test]
fn version_selectors() {
    let v = |s: &str| DandisetVersion {
        version: VersionId::parse(s).unwrap(),
        size: 10,
        created: t0(),
        modified: t0(),
    };
    let d = Dandiset {
        identifier: DandisetId::parse("D1").unwrap(),
        created: t0(),
        modified: t0(),
        draft_version: v("draft"),
        most_recent_published_version: None,
    };
    assert_eq!(resolve_version(d.clone(), VersionSpec::Draft), Some(VersionId::parse("draft").unwrap()));
    assert_eq!(resolve_version(d.clone(), VersionSpec::Latest), None);
    let pv = VersionId::parse("0.2").unwrap();
    assert_eq!(resolve_version(d.clone(), VersionSpec::Published(pv.clone())), Some(pv));
    let mut d2 = d;
    d2.most_recent_published_version = Some(v("0.1"));
    assert_eq!(resolve_version(d2, VersionSpec::Latest), Some(VersionId::parse("0.1").unwrap()));
}
