//! The archive's resources: dandisets, versions, assets and the entries inside
//! Zarr assets, with the validation of raw asset records.
use crate::paths::{PureDirPath, PurePath};
use crate::s3::{is_s3_url, parses_as_s3, S3Entry, S3Folder, S3Location, S3Object};
use crate::text::{chars_of, string_of};
use crate::timestamp::Timestamp;
use vstd::prelude::*;

verus! {

/// A single path segment: a file path without a separator.
pub open spec fn valid_segment(s: Seq<char>) -> bool {
    &&& crate::paths::valid_file_path(s)
    &&& forall|i: int| 0 <= i < s.len() ==> s[i] != '/'
}

/// Tests whether `s` is a single path segment.
fn is_segment(s: &Vec<char>) -> (r: bool)
    ensures
        r == valid_segment(s@),
{
    if !crate::paths::is_file_path(s) {
        return false;
    }
    let mut i: usize = 0;
    while i < s.len()
        invariant
            i <= s.len(),
            forall|j: int| 0 <= j < i ==> s@[j] != '/',
        decreases s.len() - i,
    {
        if s[i] == '/' {
            return false;
        }
        i = i + 1;
    }
    true
}

/// The identifier of a dandiset; it is one path segment.
#[derive(Debug, PartialEq, Eq)]
pub struct DandisetId(String);

/// The identifier of a version of a dandiset; it is one path segment.
#[derive(Debug, PartialEq, Eq)]
pub struct VersionId(String);

impl Clone for DandisetId {
    fn clone(&self) -> (r: DandisetId)
        ensures
            r == *self,
    {
        proof {
            use_type_invariant(self);
        }
        DandisetId(self.0.clone())
    }
}

impl View for DandisetId {
    type V = Seq<char>;

    closed spec fn view(&self) -> Seq<char> {
        self.0@
    }
}

impl Clone for VersionId {
    fn clone(&self) -> (r: VersionId)
        ensures
            r == *self,
    {
        proof {
            use_type_invariant(self);
        }
        VersionId(self.0.clone())
    }
}

impl View for VersionId {
    type V = Seq<char>;

    closed spec fn view(&self) -> Seq<char> {
        self.0@
    }
}

impl DandisetId {
    #[verifier::type_invariant]
    spec fn inv(&self) -> bool {
        valid_segment(self.0@)
    }

    /// Validates `s` as a dandiset identifier.
    pub fn parse(s: &str) -> (r: Option<DandisetId>)
        ensures
            r is Some <==> valid_segment(s@),
            r matches Some(d) ==> d@ == s@,
    {
        let cs = chars_of(s);
        if is_segment(&cs) {
            Some(DandisetId(string_of(&cs)))
        } else {
            None
        }
    }

    /// The identifier's text; it is always one path segment.
    pub fn as_str(&self) -> (r: &str)
        ensures
            r@ == self@,
            valid_segment(self@),
    {
        proof {
            use_type_invariant(self);
        }
        self.0.as_str()
    }
}

impl VersionId {
    #[verifier::type_invariant]
    spec fn inv(&self) -> bool {
        valid_segment(self.0@)
    }

    /// Validates `s` as a version identifier.
    pub fn parse(s: &str) -> (r: Option<VersionId>)
        ensures
            r is Some <==> valid_segment(s@),
            r matches Some(v) ==> v@ == s@,
    {
        let cs = chars_of(s);
        if is_segment(&cs) {
            Some(VersionId(string_of(&cs)))
        } else {
            None
        }
    }

    /// The identifier's text; it is always one path segment.
    pub fn as_str(&self) -> (r: &str)
        ensures
            r@ == self@,
            valid_segment(self@),
    {
        proof {
            use_type_invariant(self);
        }
        self.0.as_str()
    }
}

/// Which version of a dandiset a request names.
#[derive(Clone, Debug, PartialEq, Eq)]
pub enum VersionSpec {
    Draft,
    Published(VersionId),
    Latest,
}

/// A summary of one version of a dandiset.
#[derive(Clone, Debug, PartialEq, Eq)]
pub struct DandisetVersion {
    pub version: VersionId,
    pub size: i64,
    pub created: Timestamp,
    pub modified: Timestamp,
}

/// A dandiset with its draft version and its latest published one, if any.
#[derive(Clone, Debug, PartialEq, Eq)]
pub struct Dandiset {
    pub identifier: DandisetId,
    pub created: Timestamp,
    pub modified: Timestamp,
    pub draft_version: DandisetVersion,
    pub most_recent_published_version: Option<DandisetVersion>,
}

/// The metadata document of a version, as raw bytes.
#[derive(Clone, Debug, PartialEq, Eq)]
pub struct VersionMetadata(pub Vec<u8>);

impl VersionMetadata {
    /// The number of bytes in the document.
    pub fn len(&self) -> (r: usize)
        ensures
            r == self.0@.len(),
    {
        self.0.len()
    }
}

impl From<VersionMetadata> for Vec<u8> {
    fn from(value: VersionMetadata) -> (r: Vec<u8>) {
        value.0
    }
}

impl vstd::std_specs::convert::FromSpecImpl<VersionMetadata> for Vec<u8> {
    open spec fn obeys_from_spec() -> bool {
        true
    }

    open spec fn from_spec(v: VersionMetadata) -> Vec<u8> {
        v.0
    }
}

/// The digests recorded for an asset.
#[derive(Clone, Debug, PartialEq, Eq)]
pub struct AssetDigests {
    pub dandi_etag: Option<String>,
}

/// The metadata of an asset that rendering and storage lookup read.
#[derive(Clone, Debug, PartialEq, Eq)]
pub struct AssetMetadata {
    pub encoding_format: Option<String>,
    pub content_url: Vec<String>,
    pub digest: AssetDigests,
}

/// An asset record as the metadata API delivers it, before it is known to
/// name exactly one backing store.
#[derive(Clone, Debug, PartialEq, Eq)]
pub struct RawAsset {
    pub asset_id: String,
    pub blob: Option<String>,
    pub zarr: Option<String>,
    pub path: PurePath,
    pub size: i64,
    pub created: Timestamp,
    pub modified: Timestamp,
    pub metadata: AssetMetadata,
}

/// An asset backed by a single blob.
#[derive(Clone, Debug, PartialEq, Eq)]
pub struct BlobAsset {
    pub asset_id: String,
    pub blob_id: String,
    pub path: PurePath,
    pub size: i64,
    pub created: Timestamp,
    pub modified: Timestamp,
    pub metadata: AssetMetadata,
}

/// An asset backed by a Zarr hierarchy in object storage.
#[derive(Clone, Debug, PartialEq, Eq)]
pub struct ZarrAsset {
    pub asset_id: String,
    pub zarr_id: String,
    pub path: PurePath,
    pub size: i64,
    pub created: Timestamp,
    pub modified: Timestamp,
    pub metadata: AssetMetadata,
}

/// An asset: exactly one of a blob asset and a Zarr asset.
#[derive(Clone, Debug, PartialEq, Eq)]
pub enum Asset {
    Blob(BlobAsset),
    Zarr(ZarrAsset),
}

/// Why a raw asset record could not be turned into an asset.
#[derive(Clone, Debug, PartialEq, Eq)]
pub enum AssetTypeError {
    Neither { asset_id: String },
    Both { asset_id: String },
}

/// The asset that a raw record stands for, or the error that it names no
/// backing store or both.
pub open spec fn asset_of(value: RawAsset) -> Result<Asset, AssetTypeError> {
    match (value.blob, value.zarr) {
        (Some(blob_id), None) => Ok(
            Asset::Blob(
                BlobAsset {
                    asset_id: value.asset_id,
                    blob_id,
                    path: value.path,
                    size: value.size,
                    created: value.created,
                    modified: value.modified,
                    metadata: value.metadata,
                },
            ),
        ),
        (None, Some(zarr_id)) => Ok(
            Asset::Zarr(
                ZarrAsset {
                    asset_id: value.asset_id,
                    zarr_id,
                    path: value.path,
                    size: value.size,
                    created: value.created,
                    modified: value.modified,
                    metadata: value.metadata,
                },
            ),
        ),
        (None, None) => Err(AssetTypeError::Neither { asset_id: value.asset_id }),
        (Some(_), Some(_)) => Err(AssetTypeError::Both { asset_id: value.asset_id }),
    }
}

impl Asset {
    /// Turns a raw record into an asset, failing when it names no backing
    /// store or both.
    pub fn try_from(value: RawAsset) -> (r: Result<Asset, AssetTypeError>)
        ensures
            r == asset_of(value),
    {
        match (value.blob, value.zarr) {
            (Some(blob_id), None) => Ok(
                Asset::Blob(
                    BlobAsset {
                        asset_id: value.asset_id,
                        blob_id,
                        path: value.path,
                        size: value.size,
                        created: value.created,
                        modified: value.modified,
                        metadata: value.metadata,
                    },
                ),
            ),
            (None, Some(zarr_id)) => Ok(
                Asset::Zarr(
                    ZarrAsset {
                        asset_id: value.asset_id,
                        zarr_id,
                        path: value.path,
                        size: value.size,
                        created: value.created,
                        modified: value.modified,
                        metadata: value.metadata,
                    },
                ),
            ),
            (None, None) => Err(AssetTypeError::Neither { asset_id: value.asset_id }),
            (Some(_), Some(_)) => Err(AssetTypeError::Both { asset_id: value.asset_id }),
        }
    }

    /// The asset's path.
    pub open spec fn spec_path(&self) -> PurePath {
        match self {
            Asset::Blob(a) => a.path,
            Asset::Zarr(a) => a.path,
        }
    }

    /// The asset's path.
    pub fn path(&self) -> (r: &PurePath)
        ensures
            *r == self.spec_path(),
    {
        match self {
            Asset::Blob(a) => &a.path,
            Asset::Zarr(a) => &a.path,
        }
    }

    /// The asset's size in bytes.
    pub open spec fn spec_size(&self) -> i64 {
        match self {
            Asset::Blob(a) => a.size,
            Asset::Zarr(a) => a.size,
        }
    }

    /// The asset's size in bytes.
    pub fn size(&self) -> (r: i64)
        ensures
            r == self.spec_size(),
    {
        match self {
            Asset::Blob(a) => a.size,
            Asset::Zarr(a) => a.size,
        }
    }

    /// When the asset was created.
    pub open spec fn spec_created(&self) -> Timestamp {
        match self {
            Asset::Blob(a) => a.created,
            Asset::Zarr(a) => a.created,
        }
    }

    /// When the asset was created.
    pub fn created(&self) -> (r: Timestamp)
        ensures
            r == self.spec_created(),
    {
        match self {
            Asset::Blob(a) => a.created,
            Asset::Zarr(a) => a.created,
        }
    }

    /// When the asset was last modified.
    pub open spec fn spec_modified(&self) -> Timestamp {
        match self {
            Asset::Blob(a) => a.modified,
            Asset::Zarr(a) => a.modified,
        }
    }

    /// When the asset was last modified.
    pub fn modified(&self) -> (r: Timestamp)
        ensures
            r == self.spec_modified(),
    {
        match self {
            Asset::Blob(a) => a.modified,
            Asset::Zarr(a) => a.modified,
        }
    }

    /// The asset's metadata.
    pub open spec fn spec_metadata(&self) -> AssetMetadata {
        match self {
            Asset::Blob(a) => a.metadata,
            Asset::Zarr(a) => a.metadata,
        }
    }

    /// The asset's metadata.
    pub fn metadata(&self) -> (r: &AssetMetadata)
        ensures
            *r == self.spec_metadata(),
    {
        match self {
            Asset::Blob(a) => &a.metadata,
            Asset::Zarr(a) => &a.metadata,
        }
    }
}

/// Every raw record gives exactly one of an asset, the error that it names
/// no backing store, and the error that it names both.
pub proof fn lemma_asset_of_exclusive(value: RawAsset)
    ensures
        asset_of(value) is Ok <==> (value.blob is Some != value.zarr is Some),
        asset_of(value) matches Err(AssetTypeError::Neither { .. }) <==> (value.blob is None
            && value.zarr is None),
        asset_of(value) matches Err(AssetTypeError::Both { .. }) <==> (value.blob is Some
            && value.zarr is Some),
        asset_of(value) matches Ok(Asset::Blob(b)) ==> value.blob == Some(b.blob_id),
        asset_of(value) matches Ok(Asset::Zarr(z)) ==> value.zarr == Some(z.zarr_id),
        asset_of(value) matches Ok(a) ==> a.spec_path() == value.path && a.spec_size()
            == value.size && a.spec_created() == value.created && a.spec_modified()
            == value.modified && a.spec_metadata() == value.metadata,
{
}

impl BlobAsset {
    /// The declared content type, if any.
    pub fn content_type(&self) -> (r: Option<&str>)
        ensures
            r is Some <==> self.metadata.encoding_format is Some,
            r matches Some(t) ==> t@ == self.metadata.encoding_format->0@,
    {
        match &self.metadata.encoding_format {
            Some(t) => Some(t.as_str()),
            None => None,
        }
    }

    /// The entity tag derived from the content digest, if any.
    pub fn etag(&self) -> (r: Option<&str>)
        ensures
            r is Some <==> self.metadata.digest.dandi_etag is Some,
            r matches Some(t) ==> t@ == self.metadata.digest.dandi_etag->0@,
    {
        match &self.metadata.digest.dandi_etag {
            Some(t) => Some(t.as_str()),
            None => None,
        }
    }
}

/// Whether `i` is the first index of `urls` that holds a storage URL.
pub open spec fn is_first_s3(urls: Seq<String>, i: int) -> bool {
    &&& 0 <= i < urls.len()
    &&& parses_as_s3(urls[i]@)
    &&& forall|j: int| 0 <= j < i ==> !parses_as_s3(#[trigger] urls[j]@)
}

/// Finds the first of `urls` that is a storage URL.
fn first_s3_index(urls: &Vec<String>) -> (r: Option<usize>)
    ensures
        r is None <==> forall|j: int| 0 <= j < urls@.len() ==> !parses_as_s3(#[trigger] urls@[j]@),
        r matches Some(i) ==> is_first_s3(urls@, i as int),
{
    let mut i: usize = 0;
    while i < urls.len()
        invariant
            i <= urls.len(),
            forall|j: int| 0 <= j < i ==> !parses_as_s3(#[trigger] urls@[j]@),
        decreases urls.len() - i,
    {
        if S3Location::parse_url(urls[i].as_str()).is_some() {
            return Some(i);
        }
        i = i + 1;
    }
    None
}

impl BlobAsset {
    /// The first content URL that is a storage URL, if any.
    pub fn download_url(&self) -> (r: Option<&String>)
        ensures
            r is None <==> forall|j: int|
                0 <= j < self.metadata.content_url@.len() ==> !parses_as_s3(
                    #[trigger] self.metadata.content_url@[j]@,
                ),
            r matches Some(u) ==> exists|i: int|
                is_first_s3(self.metadata.content_url@, i) && self.metadata.content_url@[i] == *u,
    {
        match first_s3_index(&self.metadata.content_url) {
            Some(i) => Some(&self.metadata.content_url[i]),
            None => None,
        }
    }
}

impl ZarrAsset {
    /// The storage location of the first content URL that is a storage URL,
    /// if any.
    pub fn s3location(&self) -> (r: Option<S3Location>)
        ensures
            r is None <==> forall|j: int|
                0 <= j < self.metadata.content_url@.len() ==> !parses_as_s3(
                    #[trigger] self.metadata.content_url@[j]@,
                ),
            r matches Some(l) ==> exists|i: int|
                is_first_s3(self.metadata.content_url@, i) && is_s3_url(
                    self.metadata.content_url@[i]@,
                    l.bucket@,
                    l.key@,
                ),
    {
        match first_s3_index(&self.metadata.content_url) {
            Some(i) => S3Location::parse_url(self.metadata.content_url[i].as_str()),
            None => None,
        }
    }
}

/// A folder of assets: a directory path that some asset paths pass through.
#[derive(Clone, Debug, PartialEq, Eq)]
pub struct AssetFolder {
    pub path: PureDirPath,
}

/// The asset named in a raw listing entry.
#[derive(Clone, Debug, PartialEq, Eq)]
pub struct RawFolderEntryAsset {
    pub asset_id: String,
}

/// An entry of a "children at path" listing as delivered: a path, and the
/// asset there if it is an asset rather than a folder.
#[derive(Clone, Debug, PartialEq, Eq)]
pub struct RawFolderEntry {
    pub path: PurePath,
    pub asset: Option<RawFolderEntryAsset>,
}

/// An entry of a "children at path" listing: a folder or an asset's id.
#[derive(Clone, Debug, PartialEq, Eq)]
pub enum FolderEntry {
    Folder(AssetFolder),
    Asset { path: PurePath, id: String },
}

/// What a raw listing entry stands for: an asset with the entry's path and
/// id, or a folder at the entry's path with a separator appended.
pub open spec fn folder_entry_matches(v: RawFolderEntry, r: FolderEntry) -> bool {
    match v.asset {
        Some(a) => r == FolderEntry::Asset { path: v.path, id: a.asset_id },
        None => r matches FolderEntry::Folder(f) && f.path@ == v.path@.push('/'),
    }
}

impl FolderEntry {
    /// Reads a raw listing entry.
    pub fn from(entry: RawFolderEntry) -> (r: FolderEntry)
        ensures
            folder_entry_matches(entry, r),
    {
        if let Some(asset) = entry.asset {
            FolderEntry::Asset { path: entry.path, id: asset.asset_id }
        } else {
            let path = entry.path.to_dir_path();
            FolderEntry::Folder(AssetFolder { path })
        }
    }
}

/// What lies at a path of a version's asset tree.
#[derive(Clone, Debug, PartialEq, Eq)]
pub enum AtAssetPath {
    Folder(AssetFolder),
    Asset(Asset),
}

/// A folder inside a Zarr asset.
#[derive(Clone, Debug, PartialEq, Eq)]
pub struct ZarrFolder {
    pub path: PureDirPath,
}

/// An object inside a Zarr asset.
#[derive(Clone, Debug, PartialEq, Eq)]
pub struct ZarrEntry {
    pub path: PurePath,
    pub size: i64,
    pub modified: Timestamp,
    pub etag: String,
    pub url: String,
}

/// Anything that a path under a version can name.
#[derive(Clone, Debug, PartialEq, Eq)]
pub enum DandiResource {
    Folder(AssetFolder),
    Asset(Asset),
    ZarrFolder(ZarrFolder),
    ZarrEntry(ZarrEntry),
}

impl From<S3Folder> for ZarrFolder {
    fn from(value: S3Folder) -> (r: ZarrFolder) {
        ZarrFolder { path: value.key_prefix }
    }
}

impl vstd::std_specs::convert::FromSpecImpl<S3Folder> for ZarrFolder {
    open spec fn obeys_from_spec() -> bool {
        true
    }

    open spec fn from_spec(v: S3Folder) -> ZarrFolder {
        ZarrFolder { path: v.key_prefix }
    }
}

impl From<S3Object> for ZarrEntry {
    fn from(obj: S3Object) -> (r: ZarrEntry) {
        ZarrEntry {
            path: obj.key,
            size: obj.size,
            modified: obj.modified,
            etag: obj.etag,
            url: obj.download_url,
        }
    }
}

impl vstd::std_specs::convert::FromSpecImpl<S3Object> for ZarrEntry {
    open spec fn obeys_from_spec() -> bool {
        true
    }

    open spec fn from_spec(obj: S3Object) -> ZarrEntry {
        ZarrEntry {
            path: obj.key,
            size: obj.size,
            modified: obj.modified,
            etag: obj.etag,
            url: obj.download_url,
        }
    }
}

impl From<S3Entry> for DandiResource {
    fn from(value: S3Entry) -> (r: DandiResource) {
        match value {
            S3Entry::Folder(folder) => DandiResource::ZarrFolder(ZarrFolder::from(folder)),
            S3Entry::Object(obj) => DandiResource::ZarrEntry(ZarrEntry::from(obj)),
        }
    }
}

impl vstd::std_specs::convert::FromSpecImpl<S3Entry> for DandiResource {
    open spec fn obeys_from_spec() -> bool {
        true
    }

    open spec fn from_spec(v: S3Entry) -> DandiResource {
        match v {
            S3Entry::Folder(f) => DandiResource::ZarrFolder(ZarrFolder { path: f.key_prefix }),
            S3Entry::Object(obj) => DandiResource::ZarrEntry(
                ZarrEntry {
                    path: obj.key,
                    size: obj.size,
                    modified: obj.modified,
                    etag: obj.etag,
                    url: obj.download_url,
                },
            ),
        }
    }
}

/// A resource that, when it is a folder inside a Zarr asset, carries the
/// storage location that the further descent lists under.
#[derive(Clone, Debug, PartialEq, Eq)]
pub enum DandiResourceWithS3 {
    Folder(AssetFolder),
    Asset(Asset),
    ZarrFolder { folder: ZarrFolder, s3: S3Location },
    ZarrEntry(ZarrEntry),
}

impl DandiResource {
    /// Attaches a storage location to a Zarr folder; other resources pass
    /// through unchanged.
    pub fn with_s3(self, s3: S3Location) -> (r: DandiResourceWithS3)
        ensures
            r == (match self {
                DandiResource::Folder(f) => DandiResourceWithS3::Folder(f),
                DandiResource::Asset(a) => DandiResourceWithS3::Asset(a),
                DandiResource::ZarrFolder(folder) => DandiResourceWithS3::ZarrFolder { folder, s3 },
                DandiResource::ZarrEntry(e) => DandiResourceWithS3::ZarrEntry(e),
            }),
    {
        match self {
            DandiResource::Folder(r) => DandiResourceWithS3::Folder(r),
            DandiResource::Asset(r) => DandiResourceWithS3::Asset(r),
            DandiResource::ZarrFolder(folder) => DandiResourceWithS3::ZarrFolder { folder, s3 },
            DandiResource::ZarrEntry(r) => DandiResourceWithS3::ZarrEntry(r),
        }
    }
}

impl From<AtAssetPath> for DandiResourceWithS3 {
    fn from(value: AtAssetPath) -> (r: DandiResourceWithS3) {
        match value {
            AtAssetPath::Folder(r) => DandiResourceWithS3::Folder(r),
            AtAssetPath::Asset(r) => DandiResourceWithS3::Asset(r),
        }
    }
}

impl vstd::std_specs::convert::FromSpecImpl<AtAssetPath> for DandiResourceWithS3 {
    open spec fn obeys_from_spec() -> bool {
        true
    }

    open spec fn from_spec(v: AtAssetPath) -> DandiResourceWithS3 {
        match v {
            AtAssetPath::Folder(r) => DandiResourceWithS3::Folder(r),
            AtAssetPath::Asset(r) => DandiResourceWithS3::Asset(r),
        }
    }
}

impl From<DandiResourceWithS3> for DandiResource {
    fn from(value: DandiResourceWithS3) -> (r: DandiResource) {
        match value {
            DandiResourceWithS3::Folder(r) => DandiResource::Folder(r),
            DandiResourceWithS3::Asset(r) => DandiResource::Asset(r),
            DandiResourceWithS3::ZarrFolder { folder, .. } => DandiResource::ZarrFolder(folder),
            DandiResourceWithS3::ZarrEntry(r) => DandiResource::ZarrEntry(r),
        }
    }
}

impl vstd::std_specs::convert::FromSpecImpl<DandiResourceWithS3> for DandiResource {
    open spec fn obeys_from_spec() -> bool {
        true
    }

    open spec fn from_spec(v: DandiResourceWithS3) -> DandiResource {
        match v {
            DandiResourceWithS3::Folder(r) => DandiResource::Folder(r),
            DandiResourceWithS3::Asset(r) => DandiResource::Asset(r),
            DandiResourceWithS3::ZarrFolder { folder, .. } => DandiResource::ZarrFolder(folder),
            DandiResourceWithS3::ZarrEntry(r) => DandiResource::ZarrEntry(r),
        }
    }
}

/// A resource together with its immediate children.
#[derive(Clone, Debug, PartialEq, Eq)]
pub enum DandiResourceWithChildren {
    Folder { folder: AssetFolder, children: Vec<DandiResource> },
    Blob(BlobAsset),
    Zarr { zarr: ZarrAsset, children: Vec<DandiResource> },
    ZarrFolder { folder: ZarrFolder, children: Vec<DandiResource> },
    ZarrEntry(ZarrEntry),
}

} // verus!
