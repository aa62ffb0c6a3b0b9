//! The on-disk image cache: a URL's last path segment names its file in one
//! flat directory, and a file that is already there is never fetched again.
use vstd::prelude::*;
use vstd::string::*;

verus! {

/// Why an image could not be made available locally.
#[derive(Debug, Clone, Copy, PartialEq, Eq, Structural)]
pub enum CacheError {
    /// The URL has no final path segment to name a file after.
    InvalidURL,
    /// The image could not be downloaded.
    DownloadError,
    /// The cache file or directory could not be written.
    WriteError,
}

/// What the cache does next for a URL whose key is valid.
#[derive(Debug, PartialEq, Eq)]
pub enum FetchStep {
    /// The file is already there: hand out its path, no network access.
    Cached(String),
    /// Download the image into this path.
    Download(String),
}

/// How a download into the cache went.
#[derive(Debug, Clone, Copy, PartialEq, Eq, Structural)]
pub enum Transfer {
    /// The request failed or the server did not answer with success.
    NetworkFailed,
    /// The body arrived but the file could not be created.
    WriteFailed,
    /// The body was written to the cache file.
    Stored,
}

/// The directory that holds every cached image, with its trailing separator.
pub open spec fn cache_dir() -> Seq<char> {
    "/tmp/raspi-pi-reader/"@
}

/// Index of the last `/` in `s`, or -1 when there is none.
pub open spec fn last_slash(s: Seq<char>) -> int
    decreases s.len(),
{
    if s.len() == 0 {
        -1
    } else if s.last() == '/' {
        s.len() - 1
    } else {
        last_slash(s.drop_last())
    }
}

/// The cache key of a URL: what follows its last `/`, when there is a `/`
/// and something follows it.
pub open spec fn key_of(url: Seq<char>) -> Option<Seq<char>> {
    let k = last_slash(url);
    if k < 0 || k + 1 == url.len() {
        None
    } else {
        Some(url.subrange(k + 1, url.len() as int))
    }
}

/// The file that caches the image at `url`.
pub open spec fn path_of(url: Seq<char>) -> Option<Seq<char>> {
    match key_of(url) {
        Some(k) => Some(cache_dir() + k),
        None => None,
    }
}

/// What `fetch_step` decides, given whether the cache file exists.
pub open spec fn step_of(url: Seq<char>, present: bool) -> Option<(bool, Seq<char>)> {
    match path_of(url) {
        Some(p) => Some((present, p)),
        None => None,
    }
}

/// The view of a step: whether it is a cache hit, and the path.
pub open spec fn step_view(s: FetchStep) -> (bool, Seq<char>) {
    match s {
        FetchStep::Cached(p) => (true, p@),
        FetchStep::Download(p) => (false, p@),
    }
}

/// The view of a fetch result.
pub open spec fn result_view(r: Result<String, CacheError>) -> Result<Seq<char>, CacheError> {
    match r {
        Ok(p) => Ok(p@),
        Err(e) => Err(e),
    }
}

/// What a download into `path` that went as `t` says yields.
pub open spec fn finished(path: Seq<char>, t: Transfer) -> Result<Seq<char>, CacheError> {
    match t {
        Transfer::NetworkFailed => Err(CacheError::DownloadError),
        Transfer::WriteFailed => Err(CacheError::WriteError),
        Transfer::Stored => Ok(path),
    }
}

/// What a whole fetch of `url` yields: `fetch_step` given whether the file
/// was present, then, where it asks for a download, `finish_download` given
/// how the download went.
pub open spec fn fetch_result(url: Seq<char>, present: bool, t: Transfer) -> Result<Seq<char>, CacheError> {
    match step_of(url, present) {
        None => Err(CacheError::InvalidURL),
        Some((true, p)) => Ok(p),
        Some((false, p)) => finished(p, t),
    }
}

/// The cache key of `url`: its final `/`-delimited segment.
pub fn cache_key(url: &str) -> (r: Result<String, CacheError>)
    ensures
        r is Err <==> key_of(url@) is None,
        r matches Err(e) ==> e == CacheError::InvalidURL,
        r matches Ok(k) ==> key_of(url@) == Some(k@),
{
    let len = url.unicode_len();
    let mut i: usize = len;
    assert(url@.subrange(0, len as int) =~= url@);
    loop
        invariant
            i <= len,
            len == url@.len(),
            last_slash(url@) == last_slash(url@.subrange(0, i as int)),
        ensures
            0 < i <= len,
            last_slash(url@) == i - 1,
        decreases i,
    {
        if i == 0 {
            assert(url@.subrange(0, 0).len() == 0);
            return Err(CacheError::InvalidURL);
        }
        if url.get_char(i - 1) == '/' {
            assert(url@.subrange(0, i as int).last() == '/');
            break;
        }
        assert(url@.subrange(0, i - 1) =~= url@.subrange(0, i as int).drop_last());
        i = i - 1;
    }
    if i == len {
        return Err(CacheError::InvalidURL);
    }
    Ok(String::from_str(url.substring_char(i, len)))
}

/// The path of the file that caches the image at `url`.
pub fn cache_path(url: &str) -> (r: Result<String, CacheError>)
    ensures
        r is Err <==> path_of(url@) is None,
        r matches Err(e) ==> e == CacheError::InvalidURL,
        r matches Ok(p) ==> path_of(url@) == Some(p@),
{
    match cache_key(url) {
        Err(e) => Err(e),
        Ok(k) => {
            let mut p = String::from_str("/tmp/raspi-pi-reader/");
            p.append(k.as_str());
            Ok(p)
        },
    }
}

/// Decides how to serve `url`: from the cache file when `present` says it
/// exists, else by a download into it.
pub fn fetch_step(url: &str, present: bool) -> (r: Result<FetchStep, CacheError>)
    ensures
        r is Err <==> step_of(url@, present) is None,
        r matches Err(e) ==> e == CacheError::InvalidURL,
        r matches Ok(s) ==> step_of(url@, present) == Some(step_view(s)),
{
    match cache_path(url) {
        Err(e) => Err(e),
        Ok(p) => if present {
            Ok(FetchStep::Cached(p))
        } else {
            Ok(FetchStep::Download(p))
        },
    }
}

/// The result of a fetch whose download into `path` went as `t` says.
pub fn finish_download(path: String, t: Transfer) -> (r: Result<String, CacheError>)
    ensures
        t == Transfer::NetworkFailed ==> r == Err::<String, CacheError>(CacheError::DownloadError),
        t == Transfer::WriteFailed ==> r == Err::<String, CacheError>(CacheError::WriteError),
        t == Transfer::Stored ==> r == Ok::<String, CacheError>(path),
        result_view(r) == finished(path@, t),
{
    match t {
        Transfer::NetworkFailed => Err(CacheError::DownloadError),
        Transfer::WriteFailed => Err(CacheError::WriteError),
        Transfer::Stored => Ok(path),
    }
}

/// A fetch that succeeded leaves its file in the cache, so a second fetch
/// of the same URL is a cache hit on the same path and downloads nothing.
pub proof fn lemma_fetch_idempotent(url: Seq<char>, present: bool, t: Transfer)
    requires
        fetch_result(url, present, t) is Ok,
    ensures
        step_of(url, true) == Some((true, fetch_result(url, present, t)->Ok_0)),
        fetch_result(url, true, Transfer::NetworkFailed) == fetch_result(url, present, t),
{
}

} // verus!
