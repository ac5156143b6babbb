//! The protocol-facing layer: the path of a version, resource addresses, the
//! traversal depth a request asks for, and which resources a response lists.
use crate::paths::{PureDirPath, PurePath};
use crate::text::{chars_of, string_of};
use crate::timestamp::{format_modifieddate, rfc1123_text, Timestamp};
use crate::types::{
    valid_segment, Asset, DandiResource, DandiResourceWithChildren, Dandiset, DandisetId,
    DandisetVersion, VersionSpec,
};
use vstd::string::StringExecFns;
use vstd::prelude::*;

verus! {

/// The directory path under which a version's assets are served:
/// `dandisets/<id>/draft/`, `dandisets/<id>/releases/<version>/` or
/// `dandisets/<id>/latest/`.
pub open spec fn version_path_text(id: Seq<char>, version: VersionSpec) -> Seq<char> {
    seq!['d', 'a', 'n', 'd', 'i', 's', 'e', 't', 's', '/'] + id + seq!['/'] + match version {
        VersionSpec::Draft => seq!['d', 'r', 'a', 'f', 't'],
        VersionSpec::Published(v) => seq!['r', 'e', 'l', 'e', 'a', 's', 'e', 's', '/'] + v@,
        VersionSpec::Latest => seq!['l', 'a', 't', 'e', 's', 't'],
    } + seq!['/']
}

/// A path made of one segment, spelled by `s`.
fn segment_path(s: &str) -> (r: PurePath)
    requires
        valid_segment(s@),
    ensures
        r@ == s@,
{
    let p = PurePath::parse(s);
    p.unwrap()
}

/// The directory path of a version of a dandiset.
pub fn version_path(dandiset_id: &DandisetId, version: &VersionSpec) -> (r: PureDirPath)
    ensures
        r@ == version_path_text(dandiset_id@, *version),
        r.wf(),
{
    proof {
        reveal_strlit("dandisets");
        reveal_strlit("draft");
        reveal_strlit("releases");
        reveal_strlit("latest");
    }
    let root = segment_path("dandisets");
    let id = segment_path(dandiset_id.as_str());
    let base = root.join_one(&id);
    let full = match version {
        VersionSpec::Draft => base.join_one(&segment_path("draft")),
        VersionSpec::Published(v) => {
            let rel = base.join_one(&segment_path("releases"));
            rel.join_one(&segment_path(v.as_str()))
        },
        VersionSpec::Latest => base.join_one(&segment_path("latest")),
    };
    let r = full.to_dir_path();
    assert(r@ =~= version_path_text(dandiset_id@, *version));
    r
}

/// The traversal depths that a listing request may ask for: the resource
/// alone, or the resource and its immediate children.
#[derive(Clone, Copy, Debug, PartialEq, Eq, Structural)]
pub enum FiniteDepth {
    Zero,
    One,
}

/// The refusal of a request whose depth is neither of the two served: an
/// absent header, `infinity`, or any other value.
#[derive(Clone, Copy, Debug, PartialEq, Eq, Structural)]
pub struct UnsupportedDepth;

/// The depth that a `Depth` header value asks for: `0` and `1` are served,
/// and every other value, as well as an absent header, is refused.
pub open spec fn depth_of(value: Option<Seq<u8>>) -> Result<FiniteDepth, UnsupportedDepth> {
    match value {
        Some(v) => if v == seq![48u8] {
            Ok(FiniteDepth::Zero)
        } else if v == seq![49u8] {
            Ok(FiniteDepth::One)
        } else {
            Err(UnsupportedDepth)
        },
        None => Err(UnsupportedDepth),
    }
}

/// Tests whether two byte strings are equal.
fn bytes_equal(a: &[u8], b: &[u8]) -> (r: bool)
    ensures
        r == (a@ == b@),
{
    if a.len() != b.len() {
        return false;
    }
    let mut i: usize = 0;
    while i < a.len()
        invariant
            a@.len() == b@.len(),
            i <= a@.len(),
            forall|j: int| 0 <= j < i ==> a@[j] == b@[j],
        decreases a.len() - i,
    {
        if a[i] != b[i] {
            return false;
        }
        i = i + 1;
    }
    assert(a@ =~= b@);
    true
}

impl FiniteDepth {
    /// Reads the value of a request's `Depth` header (`None` where it has
    /// none): `0` and `1` are the two depths served; anything else, and an
    /// absent header, is refused before any work is done.
    pub fn from_header(value: Option<&[u8]>) -> (r: Result<FiniteDepth, UnsupportedDepth>)
        ensures
            r == depth_of(
                match value {
                    Some(v) => Some(v@),
                    None => None,
                },
            ),
    {
        match value {
            None => Err(UnsupportedDepth),
            Some(v) => {
                let zero: [u8; 1] = [48u8];
                let one: [u8; 1] = [49u8];
                assert(zero@ =~= seq![48u8]);
                assert(one@ =~= seq![49u8]);
                if bytes_equal(v, zero.as_slice()) {
                    Ok(FiniteDepth::Zero)
                } else if bytes_equal(v, one.as_slice()) {
                    Ok(FiniteDepth::One)
                } else {
                    Err(UnsupportedDepth)
                }
            },
        }
    }
}

/// The hexadecimal digits, upper case.
pub open spec fn hex_digits() -> Seq<char> {
    seq!['0', '1', '2', '3', '4', '5', '6', '7', '8', '9', 'A', 'B', 'C', 'D', 'E', 'F']
}

/// Whether a byte stands for itself in an address: an ASCII letter or digit,
/// or one of `- . _ ~ /`.
pub open spec fn is_address_safe(b: u8) -> bool {
    ||| (48 <= b <= 57)
    ||| (65 <= b <= 90)
    ||| (97 <= b <= 122)
    ||| b == 45 || b == 46 || b == 95 || b == 126 || b == 47
}

/// `%` followed by the byte's two hexadecimal digits.
pub open spec fn escaped_byte(b: u8) -> Seq<char> {
    seq!['%', hex_digits()[(b / 16) as int], hex_digits()[(b % 16) as int]]
}

/// A byte as it stands in an address.
pub open spec fn address_byte(b: u8) -> Seq<char> {
    if is_address_safe(b) {
        seq![b as char]
    } else {
        escaped_byte(b)
    }
}

/// Bytes as they stand in an address, one after another.
pub open spec fn address_bytes(bs: Seq<u8>) -> Seq<char>
    decreases bs.len(),
{
    if bs.len() == 0 {
        seq![]
    } else {
        address_bytes(bs.drop_last()) + address_byte(bs.last())
    }
}

/// The address of a path: its UTF-8 bytes, each safe byte as itself and each
/// other byte percent-escaped.
pub open spec fn address_of(path: Seq<char>) -> Seq<char> {
    address_bytes(vstd::utf8::encode_utf8(path))
}

/// Relies on `percent_encoding::percent_encode_byte`: `%` and the byte's two
/// upper-case hexadecimal digits.
#[verifier::external_body]
fn percent_escape(b: u8) -> (r: &'static str)
    ensures
        r@ == escaped_byte(b),
{
    percent_encoding::percent_encode_byte(b)
}

/// Tests whether a byte stands for itself in an address.
fn address_safe(b: u8) -> (r: bool)
    ensures
        r == is_address_safe(b),
{
    (48 <= b && b <= 57) || (65 <= b && b <= 90) || (97 <= b && b <= 122) || b == 45 || b == 46
        || b == 95 || b == 126 || b == 47
}

/// A percent-encoded URI or URI path, as it appears in a link or in the
/// address of a listed resource.
#[derive(Clone, Debug, PartialEq, Eq)]
pub struct Href(String);

impl View for Href {
    type V = Seq<char>;

    closed spec fn view(&self) -> Seq<char> {
        self.0@
    }
}

impl Href {
    /// The address of a path that is not yet percent-encoded.
    pub fn from_path(path: &str) -> (r: Href)
        ensures
            r@ == address_of(path@),
    {
        let bytes = path.as_bytes();
        let mut out: Vec<char> = Vec::new();
        let mut i: usize = 0;
        while i < bytes.len()
            invariant
                i <= bytes@.len(),
                bytes@ == vstd::utf8::encode_utf8(path@),
                out@ == address_bytes(bytes@.subrange(0, i as int)),
            decreases bytes.len() - i,
        {
            let b = bytes[i];
            proof {
                assert(bytes@.subrange(0, i + 1).drop_last() =~= bytes@.subrange(0, i as int));
            }
            if address_safe(b) {
                out.push(b as char);
            } else {
                let e = chars_of(percent_escape(b));
                out.push(e[0]);
                out.push(e[1]);
                out.push(e[2]);
                assert(e@ =~= escaped_byte(b));
            }
            i = i + 1;
            assert(out@ =~= address_bytes(bytes@.subrange(0, i as int)));
        }
        assert(bytes@.subrange(0, bytes@.len() as int) =~= bytes@);
        Href(string_of(&out))
    }

    /// The address of an already encoded URL, as it is.
    pub fn from_url(url: &str) -> (r: Href)
        ensures
            r@ == url@,
    {
        Href(url.to_owned())
    }

    /// The address's text.
    pub fn as_str(&self) -> (r: &str)
        ensures
            r@ == self@,
    {
        self.0.as_str()
    }
}

impl AsRef<str> for Href {
    fn as_ref(&self) -> &str {
        self.0.as_str()
    }
}

/// The resource that a resource-with-children pairing is about.
pub open spec fn subject_of(res: DandiResourceWithChildren) -> DandiResource {
    match res {
        DandiResourceWithChildren::Folder { folder, .. } => DandiResource::Folder(folder),
        DandiResourceWithChildren::Blob(b) => DandiResource::Asset(Asset::Blob(b)),
        DandiResourceWithChildren::Zarr { zarr, .. } => DandiResource::Asset(Asset::Zarr(zarr)),
        DandiResourceWithChildren::ZarrFolder { folder, .. } => DandiResource::ZarrFolder(folder),
        DandiResourceWithChildren::ZarrEntry(e) => DandiResource::ZarrEntry(e),
    }
}

/// The immediate children in a pairing; a leaf has none.
pub open spec fn children_in(res: DandiResourceWithChildren) -> Seq<DandiResource> {
    match res {
        DandiResourceWithChildren::Folder { children, .. } => children@,
        DandiResourceWithChildren::Zarr { children, .. } => children@,
        DandiResourceWithChildren::ZarrFolder { children, .. } => children@,
        _ => seq![],
    }
}

/// What a response lists at a given depth: the resource itself, then, at
/// depth one, each of its immediate children in order.
pub open spec fn listed(res: DandiResourceWithChildren, depth: FiniteDepth) -> Seq<DandiResource> {
    match depth {
        FiniteDepth::Zero => seq![subject_of(res)],
        FiniteDepth::One => seq![subject_of(res)] + children_in(res),
    }
}

/// The resources that a response lists for `res` at `depth`.
pub fn listing(res: DandiResourceWithChildren, depth: FiniteDepth) -> (r: Vec<DandiResource>)
    ensures
        r@ == listed(res, depth),
{
    let (subject, mut children) = match res {
        DandiResourceWithChildren::Folder { folder, children } => (
            DandiResource::Folder(folder),
            children,
        ),
        DandiResourceWithChildren::Blob(b) => (DandiResource::Asset(Asset::Blob(b)), Vec::new()),
        DandiResourceWithChildren::Zarr { zarr, children } => (
            DandiResource::Asset(Asset::Zarr(zarr)),
            children,
        ),
        DandiResourceWithChildren::ZarrFolder { folder, children } => (
            DandiResource::ZarrFolder(folder),
            children,
        ),
        DandiResourceWithChildren::ZarrEntry(e) => (DandiResource::ZarrEntry(e), Vec::new()),
    };
    let mut out: Vec<DandiResource> = Vec::new();
    out.push(subject);
    match depth {
        FiniteDepth::Zero => {},
        FiniteDepth::One => {
            out.append(&mut children);
        },
    }
    assert(out@ =~= listed(res, depth));
    out
}

/// At depth zero a response lists the resource alone, even a container; at
/// depth one a leaf is listed alone too, with no children and no error.
pub proof fn lemma_depth_contract(res: DandiResourceWithChildren, depth: FiniteDepth)
    ensures
        depth == FiniteDepth::Zero ==> listed(res, depth) == seq![subject_of(res)],
        (res is Blob || res is ZarrEntry) ==> listed(res, depth) == seq![subject_of(res)],
        depth == FiniteDepth::One ==> listed(res, depth).len() == 1 + children_in(res).len(),
{
    if res is Blob || res is ZarrEntry {
        assert(seq![subject_of(res)] + children_in(res) =~= seq![subject_of(res)]);
    }
}

/// The content type of a resource that declares none.
pub const DEFAULT_CONTENT_TYPE: &'static str = "application/octet-stream";

/// The properties of one listed resource.
#[derive(Clone, Debug, PartialEq, Eq)]
pub struct DavProps {
    pub href: Href,
    pub is_collection: bool,
    pub size: Option<i64>,
    pub modified: Option<String>,
    pub etag: Option<String>,
    pub content_type: Option<String>,
}

/// The view of an optional string.
pub open spec fn opt_text(o: Option<String>) -> Option<Seq<char>> {
    match o {
        Some(s) => Some(s@),
        None => None,
    }
}

/// Whether a resource is a container: an asset folder or a Zarr folder.
pub open spec fn is_container(r: DandiResource) -> bool {
    r is Folder || r is ZarrFolder
}

/// The resource's path, with a trailing separator for a container.
pub open spec fn resource_path(r: DandiResource) -> Seq<char> {
    match r {
        DandiResource::Folder(f) => f.path@,
        DandiResource::Asset(a) => a.spec_path()@,
        DandiResource::ZarrFolder(z) => z.path@,
        DandiResource::ZarrEntry(e) => e.path@,
    }
}

/// The size a resource reports: an asset's or an object's; none for a
/// container.
pub open spec fn resource_size(r: DandiResource) -> Option<i64> {
    match r {
        DandiResource::Asset(a) => Some(a.spec_size()),
        DandiResource::ZarrEntry(e) => Some(e.size),
        _ => None,
    }
}

/// The modification time a resource reports; a folder has none of its own.
pub open spec fn resource_modified(r: DandiResource) -> Option<Seq<char>> {
    match r {
        DandiResource::Asset(a) => Some(rfc1123_text(a.spec_modified().spec_unix_seconds())),
        DandiResource::ZarrEntry(e) => Some(rfc1123_text(e.modified.spec_unix_seconds())),
        _ => None,
    }
}

/// The entity tag a resource reports: a blob's digest tag if it has one, an
/// object's storage tag; none for the rest.
pub open spec fn resource_etag(r: DandiResource) -> Option<Seq<char>> {
    match r {
        DandiResource::Asset(Asset::Blob(b)) => opt_text(b.metadata.digest.dandi_etag),
        DandiResource::ZarrEntry(e) => Some(e.etag@),
        _ => None,
    }
}

/// The content type a resource reports: a blob's declared type, else the
/// default for any non-container; none for a container.
pub open spec fn resource_content_type(r: DandiResource) -> Option<Seq<char>> {
    match r {
        DandiResource::Asset(Asset::Blob(b)) => match b.metadata.encoding_format {
            Some(t) => Some(t@),
            None => Some(DEFAULT_CONTENT_TYPE@),
        },
        DandiResource::Asset(Asset::Zarr(_)) => Some(DEFAULT_CONTENT_TYPE@),
        DandiResource::ZarrEntry(_) => Some(DEFAULT_CONTENT_TYPE@),
        _ => None,
    }
}

/// Whether `p` holds the properties of `r`, a resource whose path is
/// relative to the directory `base`.
pub open spec fn renders_as(base: Seq<char>, r: DandiResource, p: DavProps) -> bool {
    &&& p.href@ == address_of(seq!['/'] + base + resource_path(r))
    &&& p.is_collection == is_container(r)
    &&& p.size == resource_size(r)
    &&& opt_text(p.modified) == resource_modified(r)
    &&& opt_text(p.etag) == resource_etag(r)
    &&& opt_text(p.content_type) == resource_content_type(r)
}

/// The properties of `r`, a resource whose path is relative to `base`.
pub fn render(base: &PureDirPath, r: &DandiResource) -> (p: DavProps)
    ensures
        renders_as(base@, *r, p),
{
    let path: &str = match r {
        DandiResource::Folder(f) => f.path.as_str(),
        DandiResource::Asset(a) => a.path().as_str(),
        DandiResource::ZarrFolder(z) => z.path.as_str(),
        DandiResource::ZarrEntry(e) => e.path.as_str(),
    };
    let mut full = String::from_str("/");
    full.append(base.as_str());
    full.append(path);
    proof {
        reveal_strlit("/");
        assert(full@ =~= seq!['/'] + base@ + resource_path(*r));
    }
    let href = Href::from_path(full.as_str());
    let is_collection = match r {
        DandiResource::Folder(_) => true,
        DandiResource::ZarrFolder(_) => true,
        _ => false,
    };
    let (size, modified) = match r {
        DandiResource::Asset(a) => (Some(a.size()), Some(format_modifieddate(a.modified()))),
        DandiResource::ZarrEntry(e) => (Some(e.size), Some(format_modifieddate(e.modified))),
        _ => (None, None),
    };
    let etag = match r {
        DandiResource::Asset(Asset::Blob(b)) => match b.etag() {
            Some(t) => Some(t.to_owned()),
            None => None,
        },
        DandiResource::ZarrEntry(e) => Some(e.etag.clone()),
        _ => None,
    };
    let content_type = match r {
        DandiResource::Asset(Asset::Blob(b)) => match b.content_type() {
            Some(t) => Some(t.to_owned()),
            None => Some(DEFAULT_CONTENT_TYPE.to_owned()),
        },
        DandiResource::Asset(Asset::Zarr(_)) => Some(DEFAULT_CONTENT_TYPE.to_owned()),
        DandiResource::ZarrEntry(_) => Some(DEFAULT_CONTENT_TYPE.to_owned()),
        _ => None,
    };
    DavProps { href, is_collection, size, modified, etag, content_type }
}

/// The properties of what a response lists for `res` at `depth`, in order:
/// the resource itself, then, at depth one, each immediate child.
pub fn render_listing(base: &PureDirPath, res: DandiResourceWithChildren, depth: FiniteDepth) -> (r:
    Vec<DavProps>)
    ensures
        r@.len() == listed(res, depth).len(),
        forall|i: int| 0 <= i < r@.len() ==> renders_as(base@, listed(res, depth)[i], #[trigger] r@[i]),
{
    let items = listing(res, depth);
    let mut out: Vec<DavProps> = Vec::new();
    let mut i: usize = 0;
    while i < items.len()
        invariant
            i <= items@.len(),
            items@ == listed(res, depth),
            out@.len() == i,
            forall|j: int| 0 <= j < i ==> renders_as(base@, items@[j], #[trigger] out@[j]),
        decreases items.len() - i,
    {
        out.push(render(base, &items[i]));
        i = i + 1;
    }
    out
}

/// Whether `p` holds the properties of a dandiset or version listed at the
/// directory `path` and last modified at `modified`: a container, with no
/// size, entity tag or content type.
pub open spec fn renders_container(path: Seq<char>, modified: Timestamp, p: DavProps) -> bool {
    &&& p.href@ == address_of(seq!['/'] + path)
    &&& p.is_collection
    &&& p.size is None
    &&& opt_text(p.modified) == Some(rfc1123_text(modified.spec_unix_seconds()))
    &&& p.etag is None
    &&& p.content_type is None
}

/// The directory under which a dandiset is listed: `dandisets/<id>/`.
pub open spec fn dandiset_path_text(id: Seq<char>) -> Seq<char> {
    seq!['d', 'a', 'n', 'd', 'i', 's', 'e', 't', 's', '/'] + id + seq!['/']
}

/// The properties of a dandiset.
pub fn render_dandiset(d: &Dandiset) -> (p: DavProps)
    ensures
        renders_container(dandiset_path_text(d.identifier@), d.modified, p),
{
    let mut full = String::from_str("/dandisets/");
    full.append(d.identifier.as_str());
    full.append("/");
    proof {
        reveal_strlit("/dandisets/");
        reveal_strlit("/");
        assert(full@ =~= seq!['/'] + dandiset_path_text(d.identifier@));
    }
    DavProps {
        href: Href::from_path(full.as_str()),
        is_collection: true,
        size: None,
        modified: Some(format_modifieddate(d.modified)),
        etag: None,
        content_type: None,
    }
}

/// The properties of a version of a dandiset, listed at `path` (as given by
/// `version_path`).
pub fn render_version(path: &PureDirPath, v: &DandisetVersion) -> (p: DavProps)
    ensures
        renders_container(path@, v.modified, p),
{
    let mut full = String::from_str("/");
    full.append(path.as_str());
    proof {
        reveal_strlit("/");
        assert(full@ =~= seq!['/'] + path@);
    }
    DavProps {
        href: Href::from_path(full.as_str()),
        is_collection: true,
        size: None,
        modified: Some(format_modifieddate(v.modified)),
        etag: None,
        content_type: None,
    }
}

} // verus!
