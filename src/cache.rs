//! Naming and integrity rules of the download cache.
//!
//! The cache is a flat directory. A file fetched with a known content hash is
//! stored under the lowercase hex of that SHA-256 hash and is re-hashed on every
//! lookup; a file fetched by URL alone is stored under the hex of the SHA-256
//! of the URL, with the extension of the URL's path, and is never verified.
//! The two schemes are not interchangeable. Reading, writing and deleting the
//! files is left to the caller, which hands in what it found on disk.
use vstd::prelude::*;
use vstd::utf8::encode_utf8;

verus! {

/// The SHA-256 digest of `data`.
pub uninterp spec fn sha256_of(data: Seq<u8>) -> Seq<u8>;

/// What `url::Url::parse` makes of a string: `None` where it is no valid
/// absolute URL, else the URL's serialization and its path.
pub uninterp spec fn parsed_url(s: Seq<char>) -> Option<(Seq<char>, Seq<char>)>;

/// Relies on `sha2::Sha256::digest`: the 32-byte SHA-256 digest of `data`.
#[verifier::external_body]
pub(crate) fn sha256_digest(data: &[u8]) -> (r: [u8; 32])
    ensures
        r@ == sha256_of(data@),
{
    <sha2::Sha256 as sha2::Digest>::digest(data).into()
}

/// Relies on `url::Url::parse`, then `Url::as_str` and `Url::path` of the
/// parsed value.
#[verifier::external_body]
fn parse_url(s: &str) -> (r: Option<(String, String)>)
    ensures
        r matches Some(p) ==> parsed_url(s@) == Some((p.0@, p.1@)),
        r is None ==> parsed_url(s@) is None,
{
    match url::Url::parse(s) {
        Ok(u) => Some((u.as_str().to_string(), u.path().to_string())),
        Err(_) => None,
    }
}

/// The lowercase hexadecimal digits.
pub open spec fn hex_digits() -> Seq<char> {
    seq!['0', '1', '2', '3', '4', '5', '6', '7', '8', '9', 'a', 'b', 'c', 'd', 'e', 'f']
}

/// Two lowercase hex digits per byte, most significant digit first.
pub open spec fn hex_lower(b: Seq<u8>) -> Seq<char>
    decreases b.len(),
{
    if b.len() == 0 {
        Seq::empty()
    } else {
        hex_lower(b.drop_last()) + seq![
            hex_digits()[(b.last() / 16) as int],
            hex_digits()[(b.last() % 16) as int],
        ]
    }
}

/// Relies on `const_hex::encode`: two lowercase hex digits for each byte, in order.
#[verifier::external_body]
fn hex_encode(b: &[u8]) -> (r: String)
    ensures
        r@ == hex_lower(b@),
{
    const_hex::encode(b)
}

/// `p` without the `/` characters at its end.
pub open spec fn trim_trailing_slashes(p: Seq<char>) -> Seq<char>
    decreases p.len(),
{
    if p.len() > 0 && p.last() == '/' {
        trim_trailing_slashes(p.drop_last())
    } else {
        p
    }
}

/// The characters of `p` after its last `/`.
pub open spec fn last_segment(p: Seq<char>) -> Seq<char>
    decreases p.len(),
{
    if p.len() == 0 {
        p
    } else if p.last() == '/' {
        Seq::empty()
    } else {
        last_segment(p.drop_last()).push(p.last())
    }
}

/// The position of the last `.` in `s`, or -1.
pub open spec fn last_dot(s: Seq<char>) -> int
    decreases s.len(),
{
    if s.len() == 0 {
        -1
    } else if s.last() == '.' {
        s.len() - 1
    } else {
        last_dot(s.drop_last())
    }
}

/// The extension of the file that a URL path names: what follows the last `.`
/// of its last segment. There is none where that segment has no `.`, starts
/// with its only one, or ends with one.
pub open spec fn spec_extension(path: Seq<char>) -> Option<Seq<char>> {
    let seg = last_segment(trim_trailing_slashes(path));
    let k = last_dot(seg);
    if k <= 0 || k + 1 == seg.len() {
        None
    } else {
        Some(seg.subrange(k + 1, seg.len() as int))
    }
}

/// `name`, followed by `.` and `ext`.
pub open spec fn with_extension(name: Seq<char>, ext: Seq<char>) -> Seq<char> {
    name + seq!['.'] + ext
}

/// The name under which a file fetched by URL alone is cached.
pub open spec fn spec_url_name(url: Seq<char>) -> Option<Seq<char>> {
    match parsed_url(url) {
        None => None,
        Some(p) => match spec_extension(p.1) {
            None => None,
            Some(e) => Some(with_extension(hex_lower(sha256_of(encode_utf8(p.0))), e)),
        },
    }
}

/// `name` inside directory `dir`.
pub open spec fn spec_join(dir: Seq<char>, name: Seq<char>) -> Seq<char> {
    if dir.len() == 0 {
        name
    } else if dir.last() == '/' {
        dir + name
    } else {
        dir + seq!['/'] + name
    }
}

proof fn lemma_trim(p: Seq<char>, e: int)
    requires
        0 <= e <= p.len(),
        forall|k: int| e <= k < p.len() ==> p[k] == '/',
        e == 0 || p[e - 1] != '/',
    ensures
        trim_trailing_slashes(p) == p.subrange(0, e),
    decreases p.len(),
{
    if p.len() == e {
        assert(p.subrange(0, e) =~= p);
    } else {
        lemma_trim(p.drop_last(), e);
        assert(p.drop_last().subrange(0, e) =~= p.subrange(0, e));
    }
}

proof fn lemma_segment(q: Seq<char>, s: int)
    requires
        0 <= s <= q.len(),
        forall|k: int| s <= k < q.len() ==> q[k] != '/',
        s == 0 || q[s - 1] == '/',
    ensures
        last_segment(q) == q.subrange(s, q.len() as int),
    decreases q.len(),
{
    if q.len() == s {
        assert(q.subrange(s, s) =~= Seq::<char>::empty());
    } else {
        lemma_segment(q.drop_last(), s);
        assert(q.drop_last().subrange(s, q.len() - 1).push(q.last()) =~= q.subrange(
            s,
            q.len() as int,
        ));
    }
}

proof fn lemma_dot(t: Seq<char>, d: int)
    requires
        -1 <= d < t.len(),
        forall|k: int| d < k < t.len() ==> t[k] != '.',
        d == -1 || t[d] == '.',
    ensures
        last_dot(t) == d,
    decreases t.len(),
{
    if t.len() > 0 && t.len() - 1 != d {
        lemma_dot(t.drop_last(), d);
    }
}

/// The characters of `path` after its last `/`.
pub fn last_segment_of(path: &str) -> (r: String)
    ensures
        r@ == last_segment(path@),
{
    let n = path.unicode_len();
    let mut start: usize = n;
    while start > 0 && path.get_char(start - 1) != '/'
        invariant
            n == path@.len(),
            start <= n,
            forall|k: int| start <= k < n ==> path@[k] != '/',
        decreases start,
    {
        start -= 1;
    }
    proof {
        lemma_segment(path@, start as int);
    }
    String::from_str(path.substring_char(start, n))
}

/// The last segment of a URL's path; `None` where the URL does not parse.
pub fn url_file_name(url: &str) -> (r: Option<String>)
    ensures
        r matches Some(n) ==> parsed_url(url@) matches Some(p) && n@ == last_segment(p.1),
        r is None ==> parsed_url(url@) is None,
{
    match parse_url(url) {
        Some((_, path)) => Some(last_segment_of(path.as_str())),
        None => None,
    }
}

/// The extension of the file that a URL path names.
pub fn extension_of(path: &str) -> (r: Option<String>)
    ensures
        r matches Some(x) ==> spec_extension(path@) == Some(x@),
        r is None ==> spec_extension(path@) is None,
{
    let n = path.unicode_len();
    let mut end: usize = n;
    while end > 0 && path.get_char(end - 1) == '/'
        invariant
            n == path@.len(),
            end <= n,
            forall|k: int| end <= k < n ==> path@[k] == '/',
        decreases end,
    {
        end -= 1;
    }
    proof {
        lemma_trim(path@, end as int);
    }
    let ghost q = path@.subrange(0, end as int);
    let mut start: usize = end;
    while start > 0 && path.get_char(start - 1) != '/'
        invariant
            n == path@.len(),
            start <= end <= n,
            forall|k: int| start <= k < end ==> path@[k] != '/',
        decreases start,
    {
        start -= 1;
    }
    proof {
        lemma_segment(q, start as int);
    }
    let ghost seg = q.subrange(start as int, end as int);
    let mut i: usize = end;
    while i > start && path.get_char(i - 1) != '.'
        invariant
            n == path@.len(),
            start <= i <= end <= n,
            forall|k: int| i <= k < end ==> path@[k] != '.',
        decreases i,
    {
        i -= 1;
    }
    proof {
        lemma_dot(seg, i - start - 1);
    }
    if i <= start + 1 || i == end {
        None
    } else {
        let e = path.substring_char(i, end);
        assert(e@ =~= seg.subrange(i - start, seg.len() as int));
        Some(String::from_str(e))
    }
}

/// Why the cache refused a request.
#[derive(Clone, Copy, Debug, PartialEq, Eq, Structural)]
pub enum CacheError {
    /// The cache path exists and is not a directory.
    NotADirectory,
    /// The URL does not parse, or its path names no file with an extension.
    InvalidUrl,
    /// The downloaded content does not have the expected SHA-256 hash.
    InvalidContent,
}

/// What a lookup by content hash found.
#[derive(Clone, Copy, Debug, PartialEq, Eq, Structural)]
pub enum CacheState {
    /// A file is cached under the hash and its content has that hash.
    Hit,
    /// A file is cached under the hash but its content does not match: it must
    /// be deleted, and the lookup reports it absent.
    Corrupt,
    /// No file is cached under the hash.
    Miss,
}

/// The outcome of a lookup by content hash, with the path it concerns.
#[derive(Clone, Debug)]
pub struct CacheCheck {
    pub state: CacheState,
    pub path: String,
}

impl CacheCheck {
    /// The cached path, present only on a hit.
    pub fn cached_path(self) -> (r: Option<String>)
        ensures
            r is Some <==> self.state == CacheState::Hit,
            r matches Some(p) ==> p == self.path,
    {
        match self.state {
            CacheState::Hit => Some(self.path),
            _ => None,
        }
    }
}

/// What a lookup by content hash decides from the content found under it.
pub open spec fn spec_sha_lookup(expected: Seq<u8>, cached: Option<Seq<u8>>) -> CacheState {
    match cached {
        None => CacheState::Miss,
        Some(c) => if sha256_of(c) == expected {
            CacheState::Hit
        } else {
            CacheState::Corrupt
        },
    }
}

/// The view of optional borrowed bytes.
pub open spec fn opt_bytes(o: Option<&[u8]>) -> Option<Seq<u8>> {
    match o {
        Some(b) => Some(b@),
        None => None,
    }
}

/// A download cache rooted at one directory.
#[derive(Clone, Debug)]
pub struct Downloader {
    pub cache_dir: String,
}

impl Downloader {
    /// The path under which content with hash `sha` is cached.
    pub open spec fn spec_sha_path(&self, sha: Seq<u8>) -> Seq<char> {
        spec_join(self.cache_dir@, hex_lower(sha))
    }

    /// The path under which the file fetched from `url` is cached.
    pub open spec fn spec_url_path(&self, url: Seq<char>) -> Option<Seq<char>> {
        match spec_url_name(url) {
            Some(n) => Some(spec_join(self.cache_dir@, n)),
            None => None,
        }
    }

    /// A cache in `cache_dir`. `is_directory` tells whether that path, once
    /// created where it was missing, is a directory.
    pub fn new(cache_dir: String, is_directory: bool) -> (r: Result<Downloader, CacheError>)
        ensures
            is_directory <==> r is Ok,
            r matches Ok(d) ==> d.cache_dir@ == cache_dir@,
            r matches Err(e) ==> e == CacheError::NotADirectory,
    {
        if is_directory {
            Ok(Downloader { cache_dir })
        } else {
            Err(CacheError::NotADirectory)
        }
    }

    fn join(&self, name: String) -> (r: String)
        ensures
            r@ == spec_join(self.cache_dir@, name@),
    {
        let n = self.cache_dir.as_str().unicode_len();
        if n == 0 {
            name
        } else {
            let mut r = self.cache_dir.clone();
            if r.as_str().get_char(n - 1) != '/' {
                r.append("/");
                proof {
                    reveal_strlit("/");
                }
            }
            r.append(name.as_str());
            assert(r@ =~= spec_join(self.cache_dir@, name@));
            r
        }
    }

    /// The path under which content with SHA-256 hash `sha256` is cached.
    pub fn path_from_sha(&self, sha256: &[u8; 32]) -> (r: String)
        ensures
            r@ == self.spec_sha_path(sha256@),
    {
        self.join(hex_encode(sha256.as_slice()))
    }

    /// The path under which the file fetched from `url` alone is cached; `None`
    /// where the URL does not parse or names no file with an extension.
    pub fn path_from_url(&self, url: &str) -> (r: Option<String>)
        ensures
            r matches Some(p) ==> self.spec_url_path(url@) == Some(p@),
            r is None ==> self.spec_url_path(url@) is None,
    {
        let (text, path) = match parse_url(url) {
            Some(p) => p,
            None => {
                return None;
            },
        };
        let ext = match extension_of(path.as_str()) {
            Some(e) => e,
            None => {
                return None;
            },
        };
        let digest = sha256_digest(text.as_str().as_bytes());
        let mut name = hex_encode(digest.as_slice());
        name.append(".");
        name.append(ext.as_str());
        proof {
            reveal_strlit(".");
        }
        assert(name@ =~= with_extension(hex_lower(sha256_of(encode_utf8(text@))), ext@));
        Some(self.join(name))
    }

    /// Decides a lookup by content hash. `cached` is the content of the file at
    /// `path_from_sha(sha256)`, or `None` where there is no such file. On
    /// `Corrupt` the caller deletes that file.
    pub fn check_cache_from_sha(&self, sha256: &[u8; 32], cached: Option<&[u8]>) -> (r: CacheCheck)
        ensures
            r.state == spec_sha_lookup(sha256@, opt_bytes(cached)),
            r.path@ == self.spec_sha_path(sha256@),
    {
        let path = self.path_from_sha(sha256);
        let state = match cached {
            None => CacheState::Miss,
            Some(c) => {
                let h = sha256_digest(c);
                if bytes_eq(&h, sha256) {
                    CacheState::Hit
                } else {
                    CacheState::Corrupt
                }
            },
        };
        CacheCheck { state, path }
    }

    /// Decides a lookup by URL: present where a file exists at the URL's cache
    /// path. The content is never read, so it is never verified.
    pub fn check_cache_from_url(&self, url: &str, exists: bool) -> (r: Option<String>)
        ensures
            r is Some <==> (exists && self.spec_url_path(url@) is Some),
            r matches Some(p) ==> self.spec_url_path(url@) == Some(p@),
    {
        if !exists {
            return None;
        }
        self.path_from_url(url)
    }

    /// Decides whether downloaded content may be published into the cache
    /// under `sha256`: it may, at `path_from_sha(sha256)`, exactly when its
    /// hash is `sha256`.
    pub fn verified_path(&self, sha256: &[u8; 32], content: &[u8]) -> (r: Result<String, CacheError>)
        ensures
            r is Ok <==> sha256_of(content@) == sha256@,
            r matches Ok(p) ==> p@ == self.spec_sha_path(sha256@),
            r matches Err(e) ==> e == CacheError::InvalidContent,
    {
        let h = sha256_digest(content);
        if bytes_eq(&h, sha256) {
            Ok(self.path_from_sha(sha256))
        } else {
            Err(CacheError::InvalidContent)
        }
    }
}

/// Whether two hashes are equal.
fn bytes_eq(a: &[u8; 32], b: &[u8; 32]) -> (r: bool)
    ensures
        r == (a@ == b@),
{
    let mut i: usize = 0;
    while i < 32
        invariant
            i <= 32,
            a@.len() == 32,
            b@.len() == 32,
            forall|k: int| 0 <= k < i ==> a@[k] == b@[k],
        decreases 32 - i,
    {
        if a[i] != b[i] {
            return false;
        }
        i += 1;
    }
    assert(a@ =~= b@);
    true
}

/// Content published by a verified fetch is found again by a lookup under the
/// requested hash: the cached file's hash equals the requested one.
pub proof fn lemma_verified_fetch_round_trip(expected: Seq<u8>, content: Seq<u8>)
    requires
        sha256_of(content) == expected,
    ensures
        spec_sha_lookup(expected, Some(content)) == CacheState::Hit,
{
}

proof fn lemma_hex_has_no_dot(b: Seq<u8>)
    ensures
        forall|i: int| 0 <= i < hex_lower(b).len() ==> #[trigger] hex_lower(b)[i] != '.',
    decreases b.len(),
{
    if b.len() > 0 {
        lemma_hex_has_no_dot(b.drop_last());
        let h = hex_lower(b);
        let t = hex_lower(b.drop_last());
        assert forall|i: int| 0 <= i < h.len() implies #[trigger] h[i] != '.' by {
            if i < t.len() {
                assert(h[i] == t[i]);
            }
        }
    }
}

/// The two naming schemes never meet: no file cached by URL has the name of a
/// file cached by content hash, so neither lookup can find, or delete, the
/// other's file.
pub proof fn lemma_url_and_hash_names_differ(d: Downloader, url: Seq<char>, sha: Seq<u8>)
    requires
        d.spec_url_path(url) is Some,
    ensures
        d.spec_url_path(url).unwrap() != d.spec_sha_path(sha),
{
    let p = parsed_url(url).unwrap();
    let e = spec_extension(p.1).unwrap();
    let hu = hex_lower(sha256_of(encode_utf8(p.0)));
    let hs = hex_lower(sha);
    let dir = d.cache_dir@;
    let pre = if dir.len() == 0 {
        Seq::<char>::empty()
    } else if dir.last() == '/' {
        dir
    } else {
        dir + seq!['/']
    };
    let a = pre + (hu + seq!['.'] + e);
    let b = pre + hs;
    assert(d.spec_url_path(url).unwrap() =~= a);
    assert(d.spec_sha_path(sha) =~= b);
    lemma_hex_has_no_dot(sha);
    if a == b {
        let k = (pre.len() + hu.len()) as int;
        assert(a[k] == '.');
        assert(b[k] == hs[k - pre.len()]);
    }
}

/// A cached file whose content no longer has the hash it is stored under is
/// reported corrupt, to be deleted, and never served.
pub proof fn lemma_corrupt_entry_dropped(expected: Seq<u8>, content: Seq<u8>)
    requires
        sha256_of(content) != expected,
    ensures
        spec_sha_lookup(expected, Some(content)) == CacheState::Corrupt,
{
}

/// Progress of one download. `expected` is the length the server announced,
/// or else the lower bound of the stream's size hint, which may be too small:
/// the reported share is then capped at the whole, so it stays within [0, 1].
#[derive(Clone, Copy, Debug, PartialEq, Eq, Structural)]
pub struct DownloadProgress {
    pub received: u64,
    pub expected: u64,
}

impl DownloadProgress {
    /// Progress before the first chunk.
    pub fn new(content_length: Option<u64>, size_hint: u64) -> (r: Self)
        ensures
            r.received == 0,
            r.expected == match content_length {
                Some(n) => n,
                None => size_hint,
            },
    {
        let expected = match content_length {
            Some(n) => n,
            None => size_hint,
        };
        DownloadProgress { received: 0, expected }
    }

    /// Counts one chunk of `n` bytes (saturating) and returns the status to report.
    pub fn chunk(&mut self, n: u64) -> (r: crate::flashing::DownloadFlashingStatus)
        ensures
            final(self).expected == old(self).expected,
            final(self).received == if old(self).received + n <= u64::MAX {
                (old(self).received + n) as u64
            } else {
                u64::MAX
            },
            final(self).received >= old(self).received,
            r == (crate::flashing::DownloadFlashingStatus::DownloadingProgress {
                done: crate::flashing::min_u64(final(self).received, final(self).expected),
                total: final(self).expected,
            }),
            r->DownloadingProgress_done <= r->DownloadingProgress_total,
    {
        self.received = self.received.saturating_add(n);
        let done = if self.received <= self.expected {
            self.received
        } else {
            self.expected
        };
        crate::flashing::DownloadFlashingStatus::DownloadingProgress { done, total: self.expected }
    }
}

} // verus!
