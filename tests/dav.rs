use dandidav::dav::{
    listing, render_dandiset, render_version, version_path, FiniteDepth, Href, UnsupportedDepth,
};
use dandidav::paths::{PureDirPath, PurePath};
use dandidav::timestamp::{format_creationdate, format_modifieddate, Timestamp};
use dandidav::types::{
    Asset, AssetDigests, AssetFolder, AssetMetadata, BlobAsset, DandiResource,
    DandiResourceWithChildren, Dandiset, DandisetId, DandisetVersion, VersionId, VersionSpec,
    ZarrEntry, ZarrFolder,
};

fn instant(year: i32, month: time::Month, day: u8, h: u8, m: u8, s: u8, off_h: i8) -> Timestamp {
    let dt = time::Date::from_calendar_date(year, month, day)
        .unwrap()
        .with_hms(h, m, s)
        .unwrap()
        .assume_offset(time::UtcOffset::from_hms(off_h, 0, 0).unwrap());
    Timestamp::new(dt.unix_timestamp(), 0, i32::from(off_h) * 3600).unwrap()
}

fn blob(path: &str) -> BlobAsset {
    let t = Timestamp::new(0, 0, 0).unwrap();
    BlobAsset {
        asset_id: "a1".to_string(),
        blob_id: "b1".to_string(),
        path: PurePath::parse(path).unwrap(),
        size: 100,
        created: t,
        modified: t,
        metadata: AssetMetadata {
            encoding_format: None,
            content_url: vec![],
            digest: AssetDigests { dandi_etag: None },
        },
    }
}

#[test]
fn test_href_from_path() {
    let s = "/~cleesh/foo bar/baz_quux.gnusto/red&green?blue";
    assert_eq!(
        Href::from_path(s).as_ref(),
        "/~cleesh/foo%20bar/baz_quux.gnusto/red%26green%3Fblue"
    );
}

#[test]
fn href_renders_example_path() {
    let s = "/foo bar/baz_quux.gnusto/red&green?blue";
    assert_eq!(
        Href::from_path(s).as_str(),
        "/foo%20bar/baz_quux.gnusto/red%26green%3Fblue"
    );
}

#[test]
fn href_escapes_non_ascii_bytes() {
    assert_eq!(Href::from_path("é/A-z").as_str(), "%C3%A9/A-z");
    assert_eq!(Href::from_path("").as_str(), "");
}

#[test]
fn href_from_url_keeps_text() {
    let u = "https://example.org/a%20b";
    assert_eq!(Href::from_url(u).as_str(), u);
}

#[test]
fn test_format_modifieddate() {
    let dt = instant(1994, time::Month::November, 6, 3, 49, 37, -5);
    assert_eq!(format_modifieddate(dt), "Sun, 06 Nov 1994 08:49:37 GMT");
}

#[test]
fn creationdate_keeps_offset() {
    let dt = instant(1994, time::Month::November, 6, 3, 49, 37, -5);
    assert_eq!(format_creationdate(dt), "1994-11-06T03:49:37-05:00");
    let utc = instant(2021, time::Month::March, 1, 12, 0, 0, 0);
    assert_eq!(format_creationdate(utc), "2021-03-01T12:00:00Z");
}

#[test]
fn timestamp_rejects_out_of_range_parts() {
    assert!(Timestamp::new(0, 1_000_000_000, 0).is_none());
    assert!(Timestamp::new(0, 0, 30).is_none());
    assert!(Timestamp::new(0, 0, 86400).is_none());
    assert!(Timestamp::new(253402300800, 0, 0).is_none());
    assert!(Timestamp::new(253402300799, 0, 3600).is_none());
    assert!(Timestamp::new(-62167219200, 0, 0).is_some());
}

#[test]
fn version_paths() {
    let id = DandisetId::parse("000027").unwrap();
    assert_eq!(version_path(&id, &VersionSpec::Draft).as_str(), "dandisets/000027/draft/");
    assert_eq!(version_path(&id, &VersionSpec::Latest).as_str(), "dandisets/000027/latest/");
    let v = VersionId::parse("0.210831.2033").unwrap();
    assert_eq!(
        version_path(&id, &VersionSpec::Published(v)).as_str(),
        "dandisets/000027/releases/0.210831.2033/"
    );
}

#[test]
fn identifiers_are_single_segments() {
    assert!(DandisetId::parse("").is_none());
    assert!(DandisetId::parse("a/b").is_none());
    assert!(VersionId::parse("..").is_none());
    assert_eq!(VersionId::parse("draft").unwrap().as_str(), "draft");
}

#[test]
fn depth_header_values() {
    assert_eq!(FiniteDepth::from_header(Some(b"0")), Ok(FiniteDepth::Zero));
    assert_eq!(FiniteDepth::from_header(Some(b"1")), Ok(FiniteDepth::One));
    assert_eq!(FiniteDepth::from_header(Some(b"infinity")), Err(UnsupportedDepth));
    assert_eq!(FiniteDepth::from_header(None), Err(UnsupportedDepth));
    assert_eq!(FiniteDepth::from_header(Some(b"2")), Err(UnsupportedDepth));
    assert_eq!(FiniteDepth::from_header(Some(b"")), Err(UnsupportedDepth));
}

#[test]
fn depth_zero_lists_container_alone() {
    let folder = AssetFolder { path: PureDirPath::parse("sub/").unwrap() };
    let child = DandiResource::Asset(Asset::Blob(blob("sub/img.nii")));
    let res = DandiResourceWithChildren::Folder { folder: folder.clone(), children: vec![child] };
    let out = listing(res, FiniteDepth::Zero);
    assert_eq!(out, vec![DandiResource::Folder(folder)]);
}

#[test]
fn depth_one_lists_children_in_order() {
    let folder = ZarrFolder { path: PureDirPath::parse("0/").unwrap() };
    let t = Timestamp::new(0, 0, 0).unwrap();
    let e = |k: &str| {
        DandiResource::ZarrEntry(ZarrEntry {
            path: PurePath::parse(k).unwrap(),
            size: 1,
            modified: t,
            etag: "e".to_string(),
            url: "u".to_string(),
        })
    };
    let res = DandiResourceWithChildren::ZarrFolder {
        folder: folder.clone(),
        children: vec![e("0/b"), e("0/a")],
    };
    let out = listing(res, FiniteDepth::One);
    assert_eq!(out, vec![DandiResource::ZarrFolder(folder), e("0/b"), e("0/a")]);
}

#[test]
fn depth_one_on_leaf_has_no_children() {
    let b = blob("x.nwb");
    let out = listing(DandiResourceWithChildren::Blob(b.clone()), FiniteDepth::One);
    assert_eq!(out, vec![DandiResource::Asset(Asset::Blob(b))]);
}

#[test]
fn render_blob_properties() {
    let base = PureDirPath::parse("dandisets/000001/draft/").unwrap();
    let mut b = blob("sub dir/img&1.nii");
    b.metadata.digest.dandi_etag = Some("d41d8cd9-1".to_string());
    let dt = instant(1994, time::Month::November, 6, 3, 49, 37, -5);
    b.modified = dt;
    let p = dandidav::dav::render(&base, &DandiResource::Asset(Asset::Blob(b)));
    assert_eq!(p.href.as_str(), "/dandisets/000001/draft/sub%20dir/img%261.nii");
    assert!(!p.is_collection);
    assert_eq!(p.size, Some(100));
    assert_eq!(p.modified.as_deref(), Some("Sun, 06 Nov 1994 08:49:37 GMT"));
    assert_eq!(p.etag.as_deref(), Some("d41d8cd9-1"));
    assert_eq!(p.content_type.as_deref(), Some("application/octet-stream"));
}

#[test]
fn render_folder_properties() {
    let base = PureDirPath::parse("dandisets/000001/draft/").unwrap();
    let f = AssetFolder { path: PureDirPath::parse("sub/").unwrap() };
    let p = dandidav::dav::render(&base, &DandiResource::Folder(f));
    assert_eq!(p.href.as_str(), "/dandisets/000001/draft/sub/");
    assert!(p.is_collection);
    assert_eq!(p.size, None);
    assert_eq!(p.modified, None);
    assert_eq!(p.etag, None);
    assert_eq!(p.content_type, None);
}

#[test]
fn render_zarr_entry_and_listing() {
    let base = PureDirPath::parse("dandisets/000001/draft/data.zarr/").unwrap();
    let e = ZarrEntry {
        path: PurePath::parse("0/0").unwrap(),
        size: 42,
        modified: Timestamp::new(0, 0, 0).unwrap(),
        etag: "etag-00".to_string(),
        url: "https://b.s3.amazonaws.com/0/0".to_string(),
    };
    let folder = ZarrFolder { path: PureDirPath::parse("0/").unwrap() };
    let res = DandiResourceWithChildren::ZarrFolder {
        folder,
        children: vec![DandiResource::ZarrEntry(e)],
    };
    let out = dandidav::dav::render_listing(&base, res.clone(), FiniteDepth::One);
    assert_eq!(out.len(), 2);
    assert_eq!(out[0].href.as_str(), "/dandisets/000001/draft/data.zarr/0/");
    assert_eq!(out[1].href.as_str(), "/dandisets/000001/draft/data.zarr/0/0");
    assert_eq!(out[1].etag.as_deref(), Some("etag-00"));
    assert_eq!(out[1].modified.as_deref(), Some("Thu, 01 Jan 1970 00:00:00 GMT"));
    let only = dandidav::dav::render_listing(&base, res, FiniteDepth::Zero);
    assert_eq!(only.len(), 1);
}

#[test]
fn render_dandiset_and_version() {
    let dt = instant(1994, time::Month::November, 6, 3, 49, 37, -5);
    let id = DandisetId::parse("000027").unwrap();
    let v = DandisetVersion {
        version: VersionId::parse("draft").unwrap(),
        size: 5,
        created: dt,
        modified: dt,
    };
    let d = Dandiset {
        identifier: id.clone(),
        created: dt,
        modified: dt,
        draft_version: v.clone(),
        most_recent_published_version: None,
    };
    let p = render_dandiset(&d);
    assert_eq!(p.href.as_str(), "/dandisets/000027/");
    assert!(p.is_collection);
    assert_eq!(p.size, None);
    assert_eq!(p.modified.as_deref(), Some("Sun, 06 Nov 1994 08:49:37 GMT"));
    assert_eq!(p.etag, None);
    assert_eq!(p.content_type, None);
    let q = render_version(&version_path(&id, &VersionSpec::Draft), &v);
    assert_eq!(q.href.as_str(), "/dandisets/000027/draft/");
    assert!(q.is_collection);
    assert_eq!(q.modified.as_deref(), Some("Sun, 06 Nov 1994 08:49:37 GMT"));
}
