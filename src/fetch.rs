use vstd::prelude::*;
use vstd::string::*;
use crate::text::{starts_with, has_prefix};
use crate::errors::ImageProcessingError;

verus! {

/// Path component of a URL, as the URL parser gives it; `None` when the text
/// is not a URL.
pub uninterp spec fn url_path_of(s: Seq<char>) -> Option<Seq<char>>;

/// Relies on `reqwest::Url::parse` (the `url` crate) and `Url::path`: the
/// path of a URL depends on its text alone.
#[verifier::external_body]
fn parse_url_path(s: &str) -> (r: Option<String>)
    ensures
        url_path_of(s@) == (match r {
            Some(p) => Some(p@),
            None => None,
        }),
{
    reqwest::Url::parse(s).ok().map(|u| u.path().to_string())
}

pub open spec fn http_prefix() -> Seq<char> {
    "http://"@
}

pub open spec fn https_prefix() -> Seq<char> {
    "https://"@
}

/// An address that is fetched over the network; any other is a path under
/// the local root.
pub open spec fn is_remote(address: Seq<char>) -> bool {
    has_prefix(address, http_prefix()) || has_prefix(address, https_prefix())
}

pub fn is_remote_address(address: &str) -> (r: bool)
    ensures
        r == is_remote(address@),
{
    starts_with(address, "http://") || starts_with(address, "https://")
}

/// Where the bytes of an image come from.
#[derive(Clone, Debug)]
pub enum FileSource {
    /// A file under the local root.
    Local { path: String },
    /// A URL, cached on disk at `cache_path`; the cache is consulted only
    /// where the URL's path is not empty.
    Remote { cache_path: String, cache_usable: bool },
}

pub open spec fn slash() -> Seq<char> {
    "/"@
}

/// The source of `resource` under the local root `root`, given what the URL
/// parser made of it (`parsed`; it matters only for a remote address).
pub open spec fn source_of(root: Seq<char>, resource: Seq<char>, parsed: Option<Seq<char>>) -> Result<
    (Seq<char>, bool),
    (),
> {
    if is_remote(resource) {
        match parsed {
            Some(p) => Ok((root + p, p.len() > 0)),
            None => Err(()),
        }
    } else {
        Ok((root + slash() + resource, false))
    }
}

pub open spec fn source_matches(
    r: Result<FileSource, ImageProcessingError>,
    root: Seq<char>,
    resource: Seq<char>,
    parsed: Option<Seq<char>>,
) -> bool {
    match source_of(root, resource, parsed) {
        Err(()) => r is Err && (match r->Err_0 {
            ImageProcessingError::InvalidResourceUriProvided(u) => u@ == resource,
            _ => false,
        }),
        Ok((path, usable)) => r is Ok && (match r->Ok_0 {
            FileSource::Local { path: q } => !is_remote(resource) && q@ == path,
            FileSource::Remote { cache_path, cache_usable } => is_remote(resource) && cache_path@ == path
                && cache_usable == usable,
        }),
    }
}

/// Resolves `resource` given the parser's result `parsed` for it: a remote
/// address that is not a URL is an `InvalidResourceUriProvided`.
pub fn source_from_parsed(root: &String, resource: &String, parsed: Option<String>) -> (r: Result<
    FileSource,
    ImageProcessingError,
>)
    ensures
        source_matches(r, root@, resource@, match parsed {
            Some(p) => Some(p@),
            None => None,
        }),
{
    if is_remote_address(resource.as_str()) {
        match parsed {
            Some(p) => {
                let usable = p.as_str().unicode_len() > 0;
                let cache_path = root.clone().concat(p.as_str());
                Ok(FileSource::Remote { cache_path, cache_usable: usable })
            },
            None => Err(ImageProcessingError::InvalidResourceUriProvided(resource.clone())),
        }
    } else {
        let path = root.clone().concat("/").concat(resource.as_str());
        proof { reveal_strlit("/"); }
        assert(path@ =~= root@ + slash() + resource@);
        Ok(FileSource::Local { path })
    }
}

/// Resolves where the bytes of `resource` are read from.
pub fn resolve_source(root: &String, resource: &String) -> (r: Result<FileSource, ImageProcessingError>)
    ensures
        source_matches(r, root@, resource@, url_path_of(resource@)),
{
    if is_remote_address(resource.as_str()) {
        let parsed = parse_url_path(resource.as_str());
        source_from_parsed(root, resource, parsed)
    } else {
        source_from_parsed(root, resource, None)
    }
}

/// The failure of a request that got no response: a timeout, or another failure.
pub fn send_failure(is_timeout: bool) -> (r: ImageProcessingError)
    ensures
        is_timeout ==> r is ImageDownloadTimedOut,
        !is_timeout ==> r is ImageDownloadFailed,
{
    if is_timeout {
        ImageProcessingError::ImageDownloadTimedOut
    } else {
        ImageProcessingError::ImageDownloadFailed
    }
}

/// What a response status means for a download: 2xx is success, 4xx a
/// client error that carries the status and the resource, any other a failure.
pub fn status_outcome(status: u16, resource: &String) -> (r: Result<(), ImageProcessingError>)
    ensures
        200 <= status <= 299 <==> r is Ok,
        400 <= status <= 499 ==> r is Err && (match r->Err_0 {
            ImageProcessingError::ClientReturnedErrorStatusCode(s, u) => s == status && u@ == resource@,
            _ => false,
        }),
        !(200 <= status <= 299) && !(400 <= status <= 499) ==> r is Err && r->Err_0 is ImageDownloadFailed,
{
    if 200 <= status && status <= 299 {
        Ok(())
    } else if 400 <= status && status <= 499 {
        Err(ImageProcessingError::ClientReturnedErrorStatusCode(status, resource.clone()))
    } else {
        Err(ImageProcessingError::ImageDownloadFailed)
    }
}

} // verus!
