//! Naming rules of the on-disk cache of generated videos: each video is
//! stored under the hash of its prompt.
use vstd::prelude::*;
use crate::text::{chars_are, push_str, str_chars, string_from_chars};
use sha2::Digest;

verus! {

/// The SHA-256 digest of a byte string, as `sha2::Sha256` computes it.
pub uninterp spec fn sha256_digest(data: Seq<u8>) -> Seq<u8>;

/// `sha2::Sha256::digest`: the 32-byte SHA-256 digest of the data.
#[verifier::external_body]
fn sha256(data: &[u8]) -> (d: Vec<u8>)
    ensures
        d@ == sha256_digest(data@),
        d@.len() == 32,
{
    sha2::Sha256::digest(data).to_vec()
}

/// Lowercase hexadecimal digit of `d` (0-15).
pub open spec fn hex_digit(d: int) -> char {
    if d < 10 {
        ('0' as int + d) as char
    } else {
        ('a' as int + d - 10) as char
    }
}

/// Each byte as two lowercase hexadecimal digits, high digit first.
pub open spec fn hex_lower(bytes: Seq<u8>) -> Seq<char>
    decreases bytes.len(),
{
    if bytes.len() == 0 {
        Seq::empty()
    } else {
        hex_lower(bytes.drop_last()) + seq![hex_digit((bytes.last() / 16) as int), hex_digit((bytes.last() % 16) as int)]
    }
}

/// `hex::encode`: each byte as two lowercase hexadecimal digits.
#[verifier::external_body]
fn hex_encode(data: &[u8]) -> (s: String)
    ensures
        s@ == hex_lower(data@),
{
    hex::encode(data)
}

/// The cache key of a prompt: the first 16 bytes of the SHA-256 digest of
/// its UTF-8 bytes, in lowercase hexadecimal (32 characters).
pub open spec fn prompt_hash(prompt: Seq<char>) -> Seq<char> {
    hex_lower(sha256_digest(vstd::utf8::encode_utf8(prompt)).take(16))
}

/// Persistent disk cache for generated videos, kept in one directory.
#[derive(Debug)]
pub struct VideoCache {
    cache_dir: String,
}

impl VideoCache {
    /// The directory that holds the cache.
    pub closed spec fn dir(&self) -> Seq<char> {
        self.cache_dir@
    }

    /// A cache kept in the given directory (which is not created here).
    pub fn new(cache_dir: String) -> (c: VideoCache)
        ensures
            c.dir() == cache_dir@,
    {
        VideoCache { cache_dir }
    }

    /// The cache directory.
    pub fn cache_dir(&self) -> (d: &str)
        ensures
            d@ == self.dir(),
    {
        self.cache_dir.as_str()
    }

    /// Deterministic cache key of a prompt: the first 16 bytes of its SHA-256
    /// digest as 32 lowercase hexadecimal characters, safe in a file name.
    pub fn hash_prompt(prompt: &str) -> (h: String)
        ensures
            h@ == prompt_hash(prompt@),
            h@.len() == 32,
            forall|i: int| 0 <= i < 32 ==> {
                let c = #[trigger] h@[i];
                ('0' <= c <= '9') || ('a' <= c <= 'f')
            },
    {
        let digest = sha256(prompt.as_bytes());
        let head = vstd::slice::slice_subrange(digest.as_slice(), 0, 16);
        assert(head@ =~= digest@.take(16));
        proof {
            lemma_hex_shape(head@);
        }
        hex_encode(head)
    }

    /// Name of the cached video of a prompt: its key and `.mp4`.
    pub fn video_file_name(prompt: &str) -> (n: String)
        ensures
            n@ == prompt_hash(prompt@) + ".mp4"@,
    {
        let mut n = VideoCache::hash_prompt(prompt);
        push_str(&mut n, ".mp4");
        n
    }

    /// Where the cached video of a prompt is kept: its file name in the cache
    /// directory.
    pub fn video_path(&self, prompt: &str) -> (p: String)
        ensures
            p@ == joined(self.dir(), prompt_hash(prompt@) + ".mp4"@),
    {
        let name = VideoCache::video_file_name(prompt);
        join_path(self.cache_dir.as_str(), name.as_str())
    }

    /// Where the cached video with key `hash` is kept.
    pub fn hashed_video_path(&self, hash: &str) -> (p: String)
        ensures
            p@ == joined(self.dir(), hash@ + ".mp4"@),
    {
        let mut name = String::from_str(hash);
        push_str(&mut name, ".mp4");
        join_path(self.cache_dir.as_str(), name.as_str())
    }

    /// Where the prompt of the cached video with key `hash` is kept.
    pub fn prompt_path(&self, hash: &str) -> (p: String)
        ensures
            p@ == joined(self.dir(), hash@ + ".prompt"@),
    {
        let name = VideoCache::prompt_file_name(hash);
        join_path(self.cache_dir.as_str(), name.as_str())
    }

    /// Name of the file that keeps the prompt of a cached video: its key and
    /// `.prompt`.
    pub fn prompt_file_name(hash: &str) -> (n: String)
        ensures
            n@ == hash@ + ".prompt"@,
    {
        let mut n = String::from_str(hash);
        push_str(&mut n, ".prompt");
        n
    }
}

proof fn lemma_hex_shape(bytes: Seq<u8>)
    ensures
        hex_lower(bytes).len() == 2 * bytes.len(),
        forall|i: int| 0 <= i < hex_lower(bytes).len() ==> {
            let c = #[trigger] hex_lower(bytes)[i];
            ('0' <= c <= '9') || ('a' <= c <= 'f')
        },
    decreases bytes.len(),
{
    if bytes.len() > 0 {
        lemma_hex_shape(bytes.drop_last());
        let rest = hex_lower(bytes.drop_last());
        let hi = bytes.last() / 16;
        let lo = bytes.last() % 16;
        assert(hex_lower(bytes) == rest + seq![hex_digit(hi as int), hex_digit(lo as int)]);
        assert forall|i: int| 0 <= i < hex_lower(bytes).len() implies {
            let c = #[trigger] hex_lower(bytes)[i];
            ('0' <= c <= '9') || ('a' <= c <= 'f')
        } by {
            if i < rest.len() {
                assert(hex_lower(bytes)[i] == rest[i]);
            }
        }
    }
}

/// Information about a cached video entry.
#[derive(Debug, Clone)]
pub struct CacheEntry {
    /// Key of the video (the prompt's hash)
    pub hash: String,
    /// Original prompt text, if it was stored with the video
    pub prompt: Option<String>,
    /// Size of the video file in bytes
    pub size_bytes: u64,
    /// Full path to the cached video
    pub path: String,
}

/// A relative file name joined onto a directory, as `Path::join` joins it
/// on Unix: with a `/` between them unless the directory is empty or
/// already ends with one.
pub open spec fn joined(dir: Seq<char>, name: Seq<char>) -> Seq<char> {
    if dir.len() == 0 || dir.last() == '/' {
        dir + name
    } else {
        dir + "/"@ + name
    }
}

/// Join a relative file name onto a directory.
pub fn join_path(dir: &str, name: &str) -> (r: String)
    ensures
        r@ == joined(dir@, name@),
{
    let d = str_chars(dir);
    let mut r = String::from_str(dir);
    let n = d.len();
    if n > 0 && d[n - 1] != '/' {
        push_str(&mut r, "/");
    }
    push_str(&mut r, name);
    r
}

/// Position of the last `.` of a file name, or -1.
pub open spec fn last_dot(name: Seq<char>) -> int
    decreases name.len(),
{
    if name.len() == 0 {
        -1
    } else if name.last() == '.' {
        name.len() - 1
    } else {
        last_dot(name.drop_last())
    }
}

/// The extension of a file name, as `Path::extension` gives it: what
/// follows the last `.`, unless that `.` is the name's first character.
pub open spec fn file_extension(name: Seq<char>) -> Option<Seq<char>> {
    let d = last_dot(name);
    if d <= 0 {
        None
    } else {
        Some(name.skip(d + 1))
    }
}

/// The stem of a file name, as `Path::file_stem` gives it: what precedes
/// the last `.`, or the whole name when it has no extension.
pub open spec fn file_stem(name: Seq<char>) -> Seq<char> {
    let d = last_dot(name);
    if d <= 0 {
        name
    } else {
        name.take(d)
    }
}

fn find_last_dot(name: &[char]) -> (r: Option<usize>)
    ensures
        match r {
            Some(d) => d as int == last_dot(name@) && d < name@.len(),
            None => last_dot(name@) == -1,
        },
{
    let mut i = name.len();
    assert(name@.take(i as int) =~= name@);
    while i > 0
        invariant
            i <= name@.len(),
            last_dot(name@) == last_dot(name@.take(i as int)),
        decreases i,
    {
        assert(name@.take(i as int).drop_last() =~= name@.take(i - 1));
        if name[i - 1] == '.' {
            return Some(i - 1);
        }
        i = i - 1;
    }
    None
}

/// Whether a file of the cache directory is a cached video: its extension
/// is `mp4`.
pub fn is_video_file(name: &str) -> (b: bool)
    ensures
        b == (file_extension(name@) == Some("mp4"@)),
{
    let chars = str_chars(name);
    let cs = chars.as_slice();
    match find_last_dot(cs) {
        Some(d) => {
            if d == 0 {
                return false;
            }
            let n = cs.len();
            let ext = vstd::slice::slice_subrange(cs, d + 1, n);
            assert(ext@ =~= name@.skip(d + 1));
            chars_are(ext, "mp4")
        },
        None => false,
    }
}

/// Whether a file of the cache directory keeps a prompt: its extension is
/// `prompt`.
pub fn is_prompt_file(name: &str) -> (b: bool)
    ensures
        b == (file_extension(name@) == Some("prompt"@)),
{
    let chars = str_chars(name);
    let cs = chars.as_slice();
    match find_last_dot(cs) {
        Some(d) => {
            if d == 0 {
                return false;
            }
            let n = cs.len();
            let ext = vstd::slice::slice_subrange(cs, d + 1, n);
            assert(ext@ =~= name@.skip(d + 1));
            chars_are(ext, "prompt")
        },
        None => false,
    }
}

/// The key of a cached video from its file name: the file's stem.
pub fn hash_of_file(name: &str) -> (h: String)
    ensures
        h@ == file_stem(name@),
{
    let chars = str_chars(name);
    let cs = chars.as_slice();
    match find_last_dot(cs) {
        Some(d) => {
            if d == 0 {
                return string_from_chars(cs);
            }
            let stem = vstd::slice::slice_subrange(cs, 0, d);
            assert(stem@ =~= name@.take(d as int));
            string_from_chars(stem)
        },
        None => string_from_chars(cs),
    }
}

/// Whether `a` (modified at `ka`) is removed before `b` (modified at `kb`):
/// older first, and among files modified at the same time, in listing
/// order.
pub open spec fn removed_before(ka: u128, a: int, kb: u128, b: int) -> bool {
    ka < kb || (ka == kb && a < b)
}

/// The order in which cached videos are removed: oldest modification time
/// first; files with the same time keep their listing order. The result is
/// an ordering of the positions `0..n` of `mtimes`.
pub fn oldest_first(mtimes: &[u128]) -> (r: Vec<usize>)
    ensures
        r@.len() == mtimes@.len(),
        forall|k: int| 0 <= k < r@.len() ==> #[trigger] r@[k] < mtimes@.len(),
        forall|i: int, j: int|
            0 <= i < j < r@.len() ==> removed_before(
                mtimes@[#[trigger] r@[i] as int],
                r@[i] as int,
                mtimes@[#[trigger] r@[j] as int],
                r@[j] as int,
            ),
{
    let n = mtimes.len();
    let mut out: Vec<usize> = Vec::new();
    let mut idx: usize = 0;
    while idx < n
        invariant
            n == mtimes@.len(),
            idx <= n,
            out@.len() == idx,
            forall|k: int| 0 <= k < out@.len() ==> #[trigger] out@[k] < idx,
            forall|i: int, j: int|
                0 <= i < j < out@.len() ==> removed_before(
                    mtimes@[#[trigger] out@[i] as int],
                    out@[i] as int,
                    mtimes@[#[trigger] out@[j] as int],
                    out@[j] as int,
                ),
        decreases n - idx,
    {
        let key = mtimes[idx];
        let len = out.len();
        let mut p: usize = 0;
        while p < len && mtimes[out[p]] <= key
            invariant
                n == mtimes@.len(),
                len == out@.len(),
                p <= len,
                idx < n,
                key == mtimes@[idx as int],
                forall|k: int| 0 <= k < out@.len() ==> #[trigger] out@[k] < idx,
                forall|k: int| 0 <= k < p ==> mtimes@[#[trigger] out@[k] as int] <= key,
            decreases len - p,
        {
            p = p + 1;
        }
        let ghost before = out@;
        proof {
            assert forall|k: int| p <= k < len implies key < mtimes@[#[trigger] before[k] as int] by {
                if k > p {
                    assert(removed_before(
                        mtimes@[before[p as int] as int],
                        before[p as int] as int,
                        mtimes@[before[k] as int],
                        before[k] as int,
                    ));
                }
            }
        }
        out.insert(p, idx);
        assert(out@ =~= before.insert(p as int, idx));
        assert forall|i: int, j: int| 0 <= i < j < out@.len() implies removed_before(
            mtimes@[#[trigger] out@[i] as int],
            out@[i] as int,
            mtimes@[#[trigger] out@[j] as int],
            out@[j] as int,
        ) by {
            if j < p {
            } else if i < p && j == p {
                assert(before[i] < idx);
            } else if i < p && j > p {
                assert(out@[j] == before[j - 1]);
            } else if i == p {
                assert(out@[j] == before[j - 1]);
            } else {
                assert(out@[i] == before[i - 1] && out@[j] == before[j - 1]);
            }
        }
        idx = idx + 1;
    }
    out
}

/// Removal of old videos until the cache fits its limit.
#[derive(Debug, Clone, Copy, PartialEq, Eq, Structural)]
pub struct CacheCleanup {
    /// Bytes taken by the cached videos not removed so far
    pub total: u64,
    /// The cache's limit in bytes
    pub limit: u64,
}

impl CacheCleanup {
    /// A clean-up of videos taking `total` bytes, for a limit of
    /// `max_size_mb` mebibytes.
    pub fn new(total: u64, max_size_mb: u64) -> (c: CacheCleanup)
        requires
            max_size_mb * 1024 * 1024 <= u64::MAX,
        ensures
            c.total == total,
            c.limit == max_size_mb * 1024 * 1024,
    {
        CacheCleanup { total, limit: max_size_mb * 1024 * 1024 }
    }

    /// Whether the cache fits its limit, so that nothing more is removed.
    pub fn done(&self) -> (b: bool)
        ensures
            b == (self.total <= self.limit),
    {
        self.total <= self.limit
    }

    /// Account for an attempt to remove a video of `size` bytes: its bytes
    /// no longer count when it was removed.
    pub fn record(&mut self, size: u64, removed: bool)
        ensures
            final(self).limit == old(self).limit,
            final(self).total == if removed {
                if old(self).total >= size { (old(self).total - size) as u64 } else { 0 }
            } else {
                old(self).total
            },
    {
        if removed {
            self.total = self.total.saturating_sub(size);
        }
    }
}

} // verus!
