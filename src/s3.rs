//! Object-storage locations and the entries that a storage listing yields.
use crate::paths::{PureDirPath, PurePath};
use crate::text::{slice_chars, starts_with, string_of, chars_of};
use crate::timestamp::Timestamp;
use vstd::prelude::*;

verus! {

/// The scheme of a storage URL.
pub open spec fn https_scheme() -> Seq<char> {
    seq!['h', 't', 't', 'p', 's']
}

/// The end of the host name of a storage URL, after the bucket.
pub open spec fn s3_host_suffix() -> Seq<char> {
    seq!['.', 's', '3', '.', 'a', 'm', 'a', 'z', 'o', 'n', 'a', 'w', 's', '.', 'c', 'o', 'm']
}

/// What `url` parses a text into: `None` where it is no URL, else its scheme,
/// its host (if it has one) and its path.
pub uninterp spec fn url_components(s: Seq<char>) -> Option<(Seq<char>, Option<Seq<char>>, Seq<char>)>;

/// The view of an optional string.
pub open spec fn opt_chars(o: Option<String>) -> Option<Seq<char>> {
    match o {
        Some(s) => Some(s@),
        None => None,
    }
}

/// Relies on `url::Url::parse`, then `Url::scheme`, `Url::host_str` and
/// `Url::path` on the parsed URL.
#[verifier::external_body]
fn parse_url_components(s: &str) -> (r: Option<(String, Option<String>, String)>)
    ensures
        url_components(s@) == match r {
            Some((scheme, host, path)) => Some((scheme@, opt_chars(host), path@)),
            None => None,
        },
{
    match url::Url::parse(s) {
        Ok(u) => Some((u.scheme().to_owned(), u.host_str().map(|h| h.to_owned()), u.path().to_owned())),
        Err(_) => None,
    }
}

/// The bucket and key that a URL's scheme, host and path name: the scheme is
/// `https`, the host is `<bucket>.s3.amazonaws.com` with a non-empty bucket,
/// and the key is the path without its leading separator.
pub open spec fn s3_from_parts(scheme: Seq<char>, host: Option<Seq<char>>, path: Seq<char>) -> Option<
    (Seq<char>, Seq<char>),
> {
    match host {
        Some(h) => if scheme == https_scheme() && h.len() > s3_host_suffix().len() && h.subrange(
            h.len() - s3_host_suffix().len(),
            h.len() as int,
        ) == s3_host_suffix() && path.len() > 0 && path[0] == '/' {
            Some((h.subrange(0, h.len() - s3_host_suffix().len()), path.subrange(1, path.len() as int)))
        } else {
            None
        },
        None => None,
    }
}

/// The bucket and key that a URL text names, if it is a storage URL.
pub open spec fn s3_of_url(url: Seq<char>) -> Option<(Seq<char>, Seq<char>)> {
    match url_components(url) {
        Some((scheme, host, path)) => s3_from_parts(scheme, host, path),
        None => None,
    }
}

/// Whether `url` is the storage URL of `key` in `bucket`.
pub open spec fn is_s3_url(url: Seq<char>, bucket: Seq<char>, key: Seq<char>) -> bool {
    s3_of_url(url) == Some((bucket, key))
}

/// Whether `url` is the storage URL of some object.
pub open spec fn parses_as_s3(url: Seq<char>) -> bool {
    s3_of_url(url) is Some
}

/// A location in object storage: a bucket and a key (or key prefix) in it.
#[derive(Debug, PartialEq, Eq)]
pub struct S3Location {
    pub bucket: String,
    pub key: String,
}

impl Clone for S3Location {
    fn clone(&self) -> (r: S3Location)
        ensures
            r == *self,
    {
        S3Location { bucket: self.bucket.clone(), key: self.key.clone() }
    }
}

impl S3Location {
    /// The location that a parsed URL's scheme, host and path name, or `None`
    /// where they do not make a storage URL.
    pub fn from_url_parts(scheme: &str, host: Option<&str>, path: &str) -> (r: Option<S3Location>)
        ensures
            match r {
                Some(l) => s3_from_parts(
                    scheme@,
                    match host {
                        Some(h) => Some(h@),
                        None => None,
                    },
                    path@,
                ) == Some((l.bucket@, l.key@)),
                None => s3_from_parts(
                    scheme@,
                    match host {
                        Some(h) => Some(h@),
                        None => None,
                    },
                    path@,
                ) is None,
            },
    {
        let h = match host {
            Some(h) => chars_of(h),
            None => {
                return None;
            },
        };
        let sc = chars_of(scheme);
        let p = chars_of(path);
        let https = vec!['h', 't', 't', 'p', 's'];
        let suffix = vec![
            '.', 's', '3', '.', 'a', 'm', 'a', 'z', 'o', 'n', 'a', 'w', 's', '.', 'c', 'o', 'm',
        ];
        assert(https@ =~= https_scheme());
        assert(suffix@ =~= s3_host_suffix());
        if sc.len() != https.len() || !starts_with(&sc, &https) {
            assert(sc@.len() == https@.len() ==> sc@.subrange(0, https@.len() as int) =~= sc@);
            return None;
        }
        assert(sc@.subrange(0, https@.len() as int) =~= sc@);
        if h.len() <= suffix.len() || p.len() == 0 || p[0] != '/' {
            return None;
        }
        let tail = slice_chars(&h, h.len() - suffix.len(), h.len());
        assert(tail@ =~= tail@.subrange(0, suffix@.len() as int));
        if !starts_with(&tail, &suffix) {
            return None;
        }
        let bucket = slice_chars(&h, 0, h.len() - suffix.len());
        let key = slice_chars(&p, 1, p.len());
        Some(S3Location { bucket: string_of(&bucket), key: string_of(&key) })
    }

    /// Reads the bucket and key out of a storage URL, or `None` where `url`
    /// is not one.
    pub fn parse_url(url: &str) -> (r: Option<S3Location>)
        ensures
            r is Some <==> parses_as_s3(url@),
            r matches Some(l) ==> is_s3_url(url@, l.bucket@, l.key@),
    {
        match parse_url_components(url) {
            None => None,
            Some((scheme, host, path)) => {
                let h: Option<&str> = match &host {
                    Some(x) => Some(x.as_str()),
                    None => None,
                };
                S3Location::from_url_parts(scheme.as_str(), h, path.as_str())
            },
        }
    }
}

/// A sub-prefix found by a storage listing.
#[derive(Clone, Debug, PartialEq, Eq)]
pub struct S3Folder {
    pub key_prefix: PureDirPath,
}

/// An object found by a storage listing.
#[derive(Clone, Debug, PartialEq, Eq)]
pub struct S3Object {
    pub key: PurePath,
    pub size: i64,
    pub modified: Timestamp,
    pub etag: String,
    pub download_url: String,
}

/// One entry of a storage listing.
#[derive(Clone, Debug, PartialEq, Eq)]
pub enum S3Entry {
    Folder(S3Folder),
    Object(S3Object),
}

} // verus!
