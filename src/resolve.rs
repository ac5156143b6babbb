//! The decisions of path resolution. A path under a version is walked one
//! segment at a time: first through the metadata API's listings of children,
//! then, inside a Zarr asset, through object-storage listings. The caller
//! performs each listing or fetch and hands the result to these functions,
//! which say what was found and what to do next.
use crate::paths::PurePath;
use crate::s3::{is_s3_url, parses_as_s3, S3Entry, S3Location};
use crate::types::{
    asset_of, is_first_s3, Asset, AssetFolder, AssetTypeError, DandiResourceWithS3, Dandiset,
    FolderEntry, RawAsset, VersionId, VersionSpec, ZarrAsset, ZarrEntry, ZarrFolder,
};
use vstd::prelude::*;

verus! {

/// The version that a version selector names in a dandiset: the draft, the
/// given published version, or the latest published one (none if the
/// dandiset has no published version).
pub open spec fn version_named(d: Dandiset, spec: VersionSpec) -> Option<VersionId> {
    match spec {
        VersionSpec::Draft => Some(d.draft_version.version),
        VersionSpec::Published(v) => Some(v),
        VersionSpec::Latest => match d.most_recent_published_version {
            Some(v) => Some(v.version),
            None => None,
        },
    }
}

/// Resolves a version selector against a dandiset; `None` means that the
/// version does not exist.
pub fn resolve_version(d: Dandiset, spec: VersionSpec) -> (r: Option<VersionId>)
    ensures
        r == version_named(d, spec),
{
    match spec {
        VersionSpec::Draft => Some(d.draft_version.version),
        VersionSpec::Published(v) => Some(v),
        VersionSpec::Latest => match d.most_recent_published_version {
            Some(v) => Some(v.version),
            None => None,
        },
    }
}

/// The path one segment below `current` (the top when `None`).
pub open spec fn child_path(current: Option<Seq<char>>, seg: Seq<char>) -> Seq<char> {
    match current {
        None => seg,
        Some(c) => c + seq!['/'] + seg,
    }
}

/// Builds the path one segment below `current`.
pub fn child_of(current: Option<&PurePath>, seg: &PurePath) -> (r: PurePath)
    ensures
        r@ == child_path(
            match current {
                Some(c) => Some(c@),
                None => None,
            },
            seg@,
        ),
{
    match current {
        None => seg.clone(),
        Some(c) => c.join_one(seg),
    }
}

/// Whether a listing entry is the one at `target`.
pub open spec fn entry_is(e: FolderEntry, target: Seq<char>) -> bool {
    match e {
        FolderEntry::Folder(f) => f.path@ == target.push('/'),
        FolderEntry::Asset { path, .. } => path@ == target,
    }
}

/// Finds the first listing entry at `target`.
pub fn find_entry(entries: &Vec<FolderEntry>, target: &PurePath) -> (r: Option<usize>)
    ensures
        r is None <==> forall|j: int| 0 <= j < entries@.len() ==> !entry_is(#[trigger] entries@[j], target@),
        r matches Some(i) ==> i < entries@.len() && entry_is(entries@[i as int], target@)
            && forall|j: int| 0 <= j < i ==> !entry_is(#[trigger] entries@[j], target@),
{
    let dir = target.to_dir_path();
    let mut i: usize = 0;
    while i < entries.len()
        invariant
            i <= entries@.len(),
            dir@ == target@.push('/'),
            forall|j: int| 0 <= j < i ==> !entry_is(#[trigger] entries@[j], target@),
        decreases entries.len() - i,
    {
        let hit = match &entries[i] {
            FolderEntry::Folder(f) => f.path == dir,
            FolderEntry::Asset { path, .. } => *path == *target,
        };
        if hit {
            return Some(i);
        }
        i = i + 1;
    }
    None
}

/// What a listing of children says about the next segment.
#[derive(Clone, Debug, PartialEq, Eq)]
pub enum ChildStep {
    /// Nothing in the listing is at the segment's path.
    NotFound,
    /// A folder is there: the result if this was the last segment, else the
    /// place to list next.
    Folder(AssetFolder),
    /// An asset is there, with this id: fetch its record next.
    Asset { path: PurePath, id: String },
}

/// Reads a listing of the children of `current` for the segment `seg`: the
/// first entry at the segment's path decides.
pub fn on_children(entries: Vec<FolderEntry>, current: Option<&PurePath>, seg: &PurePath) -> (r:
    ChildStep)
    ensures
        ({
            let target = child_path(
                match current {
                    Some(c) => Some(c@),
                    None => None,
                },
                seg@,
            );
            &&& r is NotFound <==> forall|j: int|
                0 <= j < entries@.len() ==> !entry_is(#[trigger] entries@[j], target)
            &&& !(r is NotFound) ==> exists|i: int|
                0 <= i < entries@.len() && entry_is(entries@[i], target) && (forall|j: int|
                    0 <= j < i ==> !entry_is(#[trigger] entries@[j], target)) && match r {
                    ChildStep::Folder(f) => entries@[i] == FolderEntry::Folder(f),
                    ChildStep::Asset { path, id } => entries@[i] == FolderEntry::Asset { path, id },
                    ChildStep::NotFound => false,
                }
        }),
{
    let target = child_of(current, seg);
    match find_entry(&entries, &target) {
        None => ChildStep::NotFound,
        Some(i) => {
            let mut entries = entries;
            match entries.remove(i) {
                FolderEntry::Folder(f) => ChildStep::Folder(f),
                FolderEntry::Asset { path, id } => ChildStep::Asset { path, id },
            }
        },
    }
}

/// What an asset record says when the walk reaches it.
#[derive(Clone, Debug, PartialEq, Eq)]
pub enum AssetStep {
    /// The record names no backing store, or both.
    Invalid(AssetTypeError),
    /// The asset is the result: no segments remain.
    Resolved(Asset),
    /// Segments remain but the asset has no inner structure to walk, or is a
    /// Zarr asset with no storage location.
    NotFound,
    /// Segments remain and the walk goes on in object storage, under the
    /// Zarr asset's storage location.
    Descend { zarr: ZarrAsset, location: S3Location },
}

/// Decides what an asset record reached by the walk means; `last` says that
/// it was reached by the path's last segment.
pub fn after_asset(record: RawAsset, last: bool) -> (r: AssetStep)
    ensures
        asset_of(record) matches Err(e) ==> r == AssetStep::Invalid(e),
        asset_of(record) matches Ok(a) ==> {
            &&& last ==> r == AssetStep::Resolved(a)
            &&& (!last && a is Blob) ==> r is NotFound
            &&& (!last && a is Zarr) ==> {
                let urls = a->Zarr_0.metadata.content_url@;
                &&& r is NotFound <==> forall|j: int|
                    0 <= j < urls.len() ==> !parses_as_s3(#[trigger] urls[j]@)
                &&& r matches AssetStep::Descend { zarr, location } ==> zarr == a->Zarr_0
                    && exists|i: int|
                    is_first_s3(urls, i) && is_s3_url(urls[i]@, location.bucket@, location.key@)
                &&& r is NotFound || r is Descend
            }
        },
{
    match Asset::try_from(record) {
        Err(e) => AssetStep::Invalid(e),
        Ok(a) => {
            if last {
                AssetStep::Resolved(a)
            } else {
                match a {
                    Asset::Blob(_) => AssetStep::NotFound,
                    Asset::Zarr(zarr) => match zarr.s3location() {
                        None => AssetStep::NotFound,
                        Some(location) => AssetStep::Descend { zarr, location },
                    },
                }
            }
        },
    }
}

/// Whether a storage listing entry is the one at `target`, relative to the
/// Zarr asset's storage location.
pub open spec fn s3_entry_is(e: S3Entry, target: Seq<char>) -> bool {
    match e {
        S3Entry::Folder(f) => f.key_prefix@ == target.push('/'),
        S3Entry::Object(o) => o.key@ == target,
    }
}

/// Finds the first storage listing entry at `target`.
fn find_s3_entry(entries: &Vec<S3Entry>, target: &PurePath) -> (r: Option<usize>)
    ensures
        r is None <==> forall|j: int|
            0 <= j < entries@.len() ==> !s3_entry_is(#[trigger] entries@[j], target@),
        r matches Some(i) ==> i < entries@.len() && s3_entry_is(entries@[i as int], target@)
            && forall|j: int| 0 <= j < i ==> !s3_entry_is(#[trigger] entries@[j], target@),
{
    let dir = target.to_dir_path();
    let mut i: usize = 0;
    while i < entries.len()
        invariant
            i <= entries@.len(),
            dir@ == target@.push('/'),
            forall|j: int| 0 <= j < i ==> !s3_entry_is(#[trigger] entries@[j], target@),
        decreases entries.len() - i,
    {
        let hit = match &entries[i] {
            S3Entry::Folder(f) => f.key_prefix == dir,
            S3Entry::Object(o) => o.key == *target,
        };
        if hit {
            return Some(i);
        }
        i = i + 1;
    }
    None
}

/// What a storage listing says about the next segment inside a Zarr asset.
#[derive(Clone, Debug, PartialEq, Eq)]
pub enum ZarrStep {
    /// Nothing in the listing is at the segment's path, or an object is there
    /// but segments remain after it.
    NotFound,
    /// A folder is there: the result if this was the last segment, else the
    /// prefix to list next.
    Folder(ZarrFolder),
    /// An object is there and this was the last segment.
    Entry(ZarrEntry),
}

/// Reads a storage listing of the children of `current` (relative to the
/// Zarr asset; its top when `None`) for the segment `seg`: the first entry at
/// the segment's path decides; `last` says that `seg` is the path's last.
pub fn on_zarr_listing(
    entries: Vec<S3Entry>,
    current: Option<&PurePath>,
    seg: &PurePath,
    last: bool,
) -> (r: ZarrStep)
    ensures
        ({
            let target = child_path(
                match current {
                    Some(c) => Some(c@),
                    None => None,
                },
                seg@,
            );
            let none_there = forall|j: int|
                0 <= j < entries@.len() ==> !s3_entry_is(#[trigger] entries@[j], target);
            &&& none_there ==> r is NotFound
            &&& !none_there ==> exists|i: int|
                0 <= i < entries@.len() && s3_entry_is(entries@[i], target) && (forall|j: int|
                    0 <= j < i ==> !s3_entry_is(#[trigger] entries@[j], target)) && match entries@[i] {
                    S3Entry::Folder(f) => r == ZarrStep::Folder(ZarrFolder { path: f.key_prefix }),
                    S3Entry::Object(o) => if last {
                        r == ZarrStep::Entry(
                            ZarrEntry {
                                path: o.key,
                                size: o.size,
                                modified: o.modified,
                                etag: o.etag,
                                url: o.download_url,
                            },
                        )
                    } else {
                        r is NotFound
                    },
                }
        }),
{
    let target = child_of(current, seg);
    match find_s3_entry(&entries, &target) {
        None => ZarrStep::NotFound,
        Some(i) => {
            let mut entries = entries;
            match entries.remove(i) {
                S3Entry::Folder(f) => ZarrStep::Folder(ZarrFolder::from(f)),
                S3Entry::Object(o) => if last {
                    ZarrStep::Entry(ZarrEntry::from(o))
                } else {
                    ZarrStep::NotFound
                },
            }
        },
    }
}

/// The view of an optional path.
pub open spec fn opt_view(p: Option<PurePath>) -> Option<Seq<char>> {
    match p {
        Some(c) => Some(c@),
        None => None,
    }
}

/// What the caller is to fetch next.
#[derive(Clone, Debug, PartialEq, Eq)]
pub enum Action {
    /// List the children at this path of the version's asset tree (its top
    /// when `None`), all pages in order.
    ListChildren { path: Option<PurePath> },
    /// Fetch the record of the asset with this id.
    FetchAsset { id: String },
    /// List the entries under this path (its top when `None`) of the Zarr
    /// asset stored at `location`, all pages in order.
    ListZarr { location: S3Location, path: Option<PurePath> },
}

/// Where a walk stands after a step.
#[derive(Clone, Debug, PartialEq, Eq)]
pub enum Outcome {
    /// The path is empty: it names the version's top folder.
    Root,
    /// The path names this resource.
    Found(DandiResourceWithS3),
    /// Nothing is at the path.
    NotFound,
    /// An asset record on the way names no backing store, or both.
    Invalid(AssetTypeError),
    /// The walk goes on once this has been fetched.
    Next(Action),
}

/// A walk down a path under a version, one segment at a time.
#[derive(Clone, Debug)]
pub struct Walk {
    segments: Vec<PurePath>,
    pos: usize,
    current: Option<PurePath>,
    location: Option<S3Location>,
}

/// Whether `i` is the first entry of a listing at `target`.
pub open spec fn first_entry_at(entries: Seq<FolderEntry>, target: Seq<char>, i: int) -> bool {
    &&& 0 <= i < entries.len()
    &&& entry_is(entries[i], target)
    &&& forall|j: int| 0 <= j < i ==> !entry_is(#[trigger] entries[j], target)
}

/// Whether `i` is the first entry of a storage listing at `target`.
pub open spec fn first_s3_entry_at(entries: Seq<S3Entry>, target: Seq<char>, i: int) -> bool {
    &&& 0 <= i < entries.len()
    &&& s3_entry_is(entries[i], target)
    &&& forall|j: int| 0 <= j < i ==> !s3_entry_is(#[trigger] entries[j], target)
}

/// Whether `new` is `old` moved down one segment, to the path `old.target()`.
pub open spec fn advanced(old: Walk, new: Walk) -> bool {
    &&& new.spec_segments() == old.spec_segments()
    &&& new.spec_location() == old.spec_location()
    &&& new.spec_pos() == old.spec_pos() + 1
    &&& new.spec_current() == Some(old.target())
}

/// What the walk does when the first entry at the next segment's path in a
/// listing of children is `e`: a folder is the result at the last segment and
/// is listed next otherwise; an asset's record is fetched next.
pub open spec fn children_step(old: Walk, new: Walk, e: FolderEntry, r: Outcome) -> bool {
    match e {
        FolderEntry::Folder(f) => if old.at_last() {
            new == old && r == Outcome::Found(DandiResourceWithS3::Folder(f))
        } else {
            advanced(old, new) && (r matches Outcome::Next(Action::ListChildren { path }) && opt_view(
                path,
            ) == Some(old.target()))
        },
        FolderEntry::Asset { id, .. } => new == old && r == Outcome::Next(Action::FetchAsset { id }),
    }
}

/// What the walk does when the first entry at the next segment's path in a
/// storage listing is `e`: a folder is the result at the last segment and is
/// listed next otherwise; an object is the result at the last segment and
/// nothing otherwise.
pub open spec fn zarr_step(old: Walk, new: Walk, e: S3Entry, r: Outcome) -> bool {
    match e {
        S3Entry::Folder(f) => if old.at_last() {
            new == old && r == Outcome::Found(
                DandiResourceWithS3::ZarrFolder {
                    folder: ZarrFolder { path: f.key_prefix },
                    s3: old.spec_location()->0,
                },
            )
        } else {
            advanced(old, new) && (r matches Outcome::Next(Action::ListZarr { location, path })
                && location == old.spec_location()->0 && opt_view(path) == Some(old.target()))
        },
        S3Entry::Object(o) => new == old && if old.at_last() {
            r == Outcome::Found(
                DandiResourceWithS3::ZarrEntry(
                    ZarrEntry {
                        path: o.key,
                        size: o.size,
                        modified: o.modified,
                        etag: o.etag,
                        url: o.download_url,
                    },
                ),
            )
        } else {
            r is NotFound
        },
    }
}

impl Walk {
    /// The segments of the path.
    pub closed spec fn spec_segments(&self) -> Seq<PurePath> {
        self.segments@
    }

    /// How many segments have been walked.
    pub closed spec fn spec_pos(&self) -> int {
        self.pos as int
    }

    /// The path reached so far: in the asset tree, or, once inside a Zarr
    /// asset, relative to it.
    pub closed spec fn spec_current(&self) -> Option<Seq<char>> {
        opt_view(self.current)
    }

    /// The storage location of the Zarr asset that the walk is inside, if any.
    pub closed spec fn spec_location(&self) -> Option<S3Location> {
        self.location
    }

    /// Whether a segment remains to be walked.
    pub open spec fn walking(&self) -> bool {
        self.spec_pos() < self.spec_segments().len()
    }

    /// The path of the next segment.
    pub open spec fn target(&self) -> Seq<char> {
        child_path(self.spec_current(), self.spec_segments()[self.spec_pos()]@)
    }

    /// Whether the next segment is the path's last.
    pub open spec fn at_last(&self) -> bool {
        self.spec_pos() + 1 == self.spec_segments().len()
    }

    /// Tests whether a segment remains to be walked.
    pub fn is_walking(&self) -> (r: bool)
        ensures
            r == self.walking(),
    {
        self.pos < self.segments.len()
    }

    /// Tests whether the walk is inside a Zarr asset.
    pub fn in_zarr(&self) -> (r: bool)
        ensures
            r == self.spec_location() is Some,
    {
        self.location.is_some()
    }

    /// Starts a walk down `segments`: an empty path names the top folder;
    /// otherwise the top of the asset tree is listed first.
    pub fn start(segments: Vec<PurePath>) -> (r: (Walk, Outcome))
        ensures
            r.0.spec_segments() == segments@,
            r.0.spec_pos() == 0,
            r.0.spec_current() is None,
            r.0.spec_location() is None,
            segments@.len() == 0 ==> r.1 == Outcome::Root,
            segments@.len() > 0 ==> r.1 == Outcome::Next(Action::ListChildren { path: None }),
    {
        let empty = segments.len() == 0;
        let w = Walk { segments, pos: 0, current: None, location: None };
        if empty {
            (w, Outcome::Root)
        } else {
            (w, Outcome::Next(Action::ListChildren { path: None }))
        }
    }

    /// Takes in the listing of the children of the current path.
    pub fn on_children(&mut self, entries: Vec<FolderEntry>) -> (r: Outcome)
        requires
            old(self).walking(),
            old(self).spec_location() is None,
        ensures
            (forall|j: int|
                0 <= j < entries@.len() ==> !entry_is(#[trigger] entries@[j], old(self).target()))
                ==> r is NotFound && *final(self) == *old(self),
            (exists|j: int|
                0 <= j < entries@.len() && entry_is(#[trigger] entries@[j], old(self).target()))
                ==> exists|i: int|
                first_entry_at(entries@, old(self).target(), i) && children_step(
                    *old(self),
                    *final(self),
                    #[trigger] entries@[i],
                    r,
                ),
    {
        let ghost pre = *self;
        let ghost es = entries@;
        let ghost target = self.target();
        let seg = self.segments[self.pos].clone();
        let last = self.pos == self.segments.len() - 1;
        match on_children(entries, self.current.as_ref(), &seg) {
            ChildStep::NotFound => Outcome::NotFound,
            ChildStep::Folder(f) => {
                let ghost i = choose|i: int|
                    first_entry_at(es, target, i) && es[i] == FolderEntry::Folder(f);
                let r = if last {
                    Outcome::Found(DandiResourceWithS3::Folder(f))
                } else {
                    let p = f.path.to_file_path();
                    self.pos = self.pos + 1;
                    self.current = Some(p.clone());
                    assert(target.push('/').drop_last() =~= target);
                    Outcome::Next(Action::ListChildren { path: Some(p) })
                };
                assert(first_entry_at(es, target, i) && children_step(pre, *self, es[i], r));
                r
            },
            ChildStep::Asset { path, id } => {
                let ghost i = choose|i: int|
                    first_entry_at(es, target, i) && es[i] == FolderEntry::Asset { path, id };
                let r = Outcome::Next(Action::FetchAsset { id });
                assert(first_entry_at(es, target, i) && children_step(pre, *self, es[i], r));
                r
            },
        }
    }

    /// Takes in the record of the asset at the next segment.
    pub fn on_asset(&mut self, record: RawAsset) -> (r: Outcome)
        requires
            old(self).walking(),
            old(self).spec_location() is None,
        ensures
            final(self).spec_segments() == old(self).spec_segments(),
            asset_of(record) matches Err(e) ==> r == Outcome::Invalid(e),
            asset_of(record) matches Ok(a) ==> {
                &&& old(self).at_last() ==> r == Outcome::Found(DandiResourceWithS3::Asset(a))
                &&& (!old(self).at_last() && a is Blob) ==> r is NotFound
                &&& (!old(self).at_last() && a is Zarr) ==> {
                    let urls = a->Zarr_0.metadata.content_url@;
                    &&& r is NotFound <==> forall|j: int|
                        0 <= j < urls.len() ==> !parses_as_s3(#[trigger] urls[j]@)
                    &&& r matches Outcome::Next(Action::ListZarr { location, path }) ==> {
                        &&& path is None
                        &&& final(self).spec_location() == Some(location)
                        &&& final(self).spec_pos() == old(self).spec_pos() + 1
                        &&& final(self).spec_current() is None
                        &&& exists|i: int|
                            is_first_s3(urls, i) && is_s3_url(
                                urls[i]@,
                                location.bucket@,
                                location.key@,
                            )
                    }
                    &&& r is NotFound || r matches Outcome::Next(Action::ListZarr { .. })
                }
            },
    {
        let last = self.pos == self.segments.len() - 1;
        match after_asset(record, last) {
            AssetStep::Invalid(e) => Outcome::Invalid(e),
            AssetStep::Resolved(a) => Outcome::Found(DandiResourceWithS3::Asset(a)),
            AssetStep::NotFound => Outcome::NotFound,
            AssetStep::Descend { zarr, location } => {
                self.pos = self.pos + 1;
                self.current = None;
                self.location = Some(location.clone());
                Outcome::Next(Action::ListZarr { location, path: None })
            },
        }
    }

    /// Takes in the storage listing of the current path inside a Zarr asset.
    pub fn on_zarr(&mut self, entries: Vec<S3Entry>) -> (r: Outcome)
        requires
            old(self).walking(),
            old(self).spec_location() is Some,
        ensures
            (forall|j: int|
                0 <= j < entries@.len() ==> !s3_entry_is(#[trigger] entries@[j], old(self).target()))
                ==> r is NotFound && *final(self) == *old(self),
            (exists|j: int|
                0 <= j < entries@.len() && s3_entry_is(#[trigger] entries@[j], old(self).target()))
                ==> exists|i: int|
                first_s3_entry_at(entries@, old(self).target(), i) && zarr_step(
                    *old(self),
                    *final(self),
                    #[trigger] entries@[i],
                    r,
                ),
    {
        let ghost pre = *self;
        let ghost es = entries@;
        let ghost target = self.target();
        let seg = self.segments[self.pos].clone();
        let last = self.pos == self.segments.len() - 1;
        match on_zarr_listing(entries, self.current.as_ref(), &seg, last) {
            ZarrStep::NotFound => {
                proof {
                    if exists|j: int| 0 <= j < es.len() && s3_entry_is(#[trigger] es[j], target) {
                        let i = choose|i: int|
                            0 <= i < es.len() && s3_entry_is(es[i], target) && (forall|j: int|
                                0 <= j < i ==> !s3_entry_is(#[trigger] es[j], target)) && match es[i] {
                                S3Entry::Folder(_) => false,
                                S3Entry::Object(_) => !last,
                            };
                        assert(first_s3_entry_at(es, target, i) && zarr_step(
                            pre,
                            *self,
                            es[i],
                            Outcome::NotFound,
                        ));
                    }
                }
                Outcome::NotFound
            },
            ZarrStep::Entry(e) => {
                let ghost i = choose|i: int|
                    0 <= i < es.len() && s3_entry_is(es[i], target) && (forall|j: int|
                        0 <= j < i ==> !s3_entry_is(#[trigger] es[j], target)) && match es[i] {
                        S3Entry::Folder(_) => false,
                        S3Entry::Object(o) => last && ZarrStep::Entry(e) == ZarrStep::Entry(
                            ZarrEntry {
                                path: o.key,
                                size: o.size,
                                modified: o.modified,
                                etag: o.etag,
                                url: o.download_url,
                            },
                        ),
                    };
                let r = Outcome::Found(DandiResourceWithS3::ZarrEntry(e));
                assert(first_s3_entry_at(es, target, i) && zarr_step(pre, *self, es[i], r));
                r
            },
            ZarrStep::Folder(folder) => {
                let ghost i = choose|i: int|
                    0 <= i < es.len() && s3_entry_is(es[i], target) && (forall|j: int|
                        0 <= j < i ==> !s3_entry_is(#[trigger] es[j], target)) && match es[i] {
                        S3Entry::Folder(f) => folder == ZarrFolder { path: f.key_prefix },
                        S3Entry::Object(_) => false,
                    };
                let location = self.location.clone().unwrap();
                let r = if last {
                    Outcome::Found(DandiResourceWithS3::ZarrFolder { folder, s3: location })
                } else {
                    let p = folder.path.to_file_path();
                    self.pos = self.pos + 1;
                    self.current = Some(p.clone());
                    assert(target.push('/').drop_last() =~= target);
                    Outcome::Next(Action::ListZarr { location, path: Some(p) })
                };
                assert(first_s3_entry_at(es, target, i) && zarr_step(pre, *self, es[i], r));
                r
            },
        }
    }

}

} // verus!
