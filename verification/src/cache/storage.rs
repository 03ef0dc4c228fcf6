use vstd::prelude::*;

use crate::platform::{join, join_path};
use crate::text::{push_str, str_equal};
use crate::util::push_char;
use vstd::string::StringSliceAdditionalSpecFns;
use vstd::utf8::encode_utf8;

verus! {

/// The SHA-256 digest of a byte sequence.
pub uninterp spec fn sha256_of(data: Seq<u8>) -> Seq<u8>;

/// `sha2::Sha256::digest`: the digest of `data`, named by `sha256_of`. SHA-256 digests are
/// 32 bytes long (the crate's `OutputSize` for `Sha256` is `U32`).
#[verifier::external_body]
fn sha256_digest(data: &[u8]) -> (d: Vec<u8>)
    ensures
        d@ == sha256_of(data@),
        d@.len() == 32,
{
    <sha2::Sha256 as sha2::Digest>::digest(data).to_vec()
}

/// A lowercase hexadecimal digit.
pub open spec fn hex_digit(n: int) -> char {
    if n < 10 {
        (48 + n) as char
    } else {
        (87 + n) as char
    }
}

/// Bytes written as lowercase hexadecimal, two digits per byte, high half first.
pub open spec fn lower_hex(bytes: Seq<u8>) -> Seq<char> {
    Seq::new(
        2 * bytes.len(),
        |i: int|
            if i % 2 == 0 {
                hex_digit(bytes[i / 2] as int / 16)
            } else {
                hex_digit(bytes[i / 2] as int % 16)
            },
    )
}

/// The file stem used for a song: the first 16 hex digits of the SHA-256 of its id.
pub open spec fn id_hash(song_id: Seq<char>) -> Seq<char> {
    lower_hex(sha256_of(encode_utf8(song_id)).take(8))
}

/// The hex SHA-256 of some content.
pub open spec fn content_hash(data: Seq<u8>) -> Seq<char> {
    lower_hex(sha256_of(data))
}

/// `.audio`
pub open spec fn audio_ext() -> Seq<char> {
    seq!['a', 'u', 'd', 'i', 'o']
}

/// `.meta`
pub open spec fn meta_ext() -> Seq<char> {
    seq!['m', 'e', 't', 'a']
}

/// A file name made of a stem, a dot and an extension.
pub open spec fn with_ext(stem: Seq<char>, ext: Seq<char>) -> Seq<char> {
    stem + seq!['.'] + ext
}

/// Whether a file name has the given extension (one without dots) in the sense of
/// `Path::extension`: the text after the last dot, where that dot is not the first character.
pub open spec fn has_extension(name: Seq<char>, ext: Seq<char>) -> bool {
    &&& name.len() > ext.len() + 1
    &&& name[name.len() - ext.len() - 1] == '.'
    &&& name.subrange(name.len() - ext.len(), name.len() as int) == ext
}

/// One entry of a directory listing: its file name, whether it is a regular file, and its size.
#[derive(Debug, Clone)]
pub struct DirEntry {
    pub name: String,
    pub is_file: bool,
    pub size: u64,
}

/// Total size of the regular files of a listing.
pub open spec fn files_size(listing: Seq<DirEntry>) -> nat
    decreases listing.len(),
{
    if listing.len() == 0 {
        0
    } else {
        files_size(listing.drop_last()) + if listing.last().is_file {
            listing.last().size as nat
        } else {
            0
        }
    }
}

/// Number of entries of a listing whose name has the `audio` extension.
pub open spec fn audio_count(listing: Seq<DirEntry>) -> nat
    decreases listing.len(),
{
    if listing.len() == 0 {
        0
    } else {
        audio_count(listing.drop_last()) + if has_extension(listing.last().name@, audio_ext()) {
            1nat
        } else {
            0
        }
    }
}

/// Whether a listing holds an entry of the given name.
pub open spec fn listed(listing: Seq<DirEntry>, name: Seq<char>) -> bool {
    exists|i: int| 0 <= i < listing.len() && (#[trigger] listing[i]).name@ == name
}

/// Where cached audio lives and how its files are named.
///
/// The directory itself is read and written by the caller; this type names the files and
/// draws conclusions from a listing of the directory.
#[derive(Debug, Clone)]
pub struct CacheStorage {
    pub base_path: String,
}

fn hex_char(n: u8) -> (c: char)
    requires
        n < 16,
    ensures
        c == hex_digit(n as int),
{
    if n < 10 {
        (48u8 + n) as char
    } else {
        (87u8 + n) as char
    }
}

/// The lowercase hex of the first `count` bytes.
fn hex_prefix(bytes: &Vec<u8>, count: usize) -> (s: String)
    requires
        count <= bytes@.len(),
    ensures
        s@ == lower_hex(bytes@.take(count as int)),
{
    let mut s = String::new();
    let mut i: usize = 0;
    while i < count
        invariant
            i <= count <= bytes@.len(),
            s@ == lower_hex(bytes@.take(i as int)),
        decreases count - i,
    {
        let b = bytes[i];
        push_char(&mut s, hex_char(b / 16));
        push_char(&mut s, hex_char(b % 16));
        assert(s@ =~= lower_hex(bytes@.take(i + 1)));
        i = i + 1;
    }
    s
}

/// Whether a file name carries the given extension (which has no dots).
pub fn name_has_extension(name: &str, ext: &str) -> (r: bool)
    ensures
        r == has_extension(name@, ext@),
{
    let n = name.unicode_len();
    let e = ext.unicode_len();
    if n <= e || n - e < 2 {
        return false;
    }
    if name.get_char(n - e - 1) != '.' {
        return false;
    }
    let mut i: usize = 0;
    while i < e
        invariant
            n == name@.len(),
            e == ext@.len(),
            n > e + 1,
            i <= e,
            forall|j: int| 0 <= j < i ==> name@[n - e + j] == ext@[j],
        decreases e - i,
    {
        if name.get_char(n - e + i) != ext.get_char(i) {
            assert(name@.subrange(n - e, n as int)[i as int] != ext@[i as int]);
            return false;
        }
        i = i + 1;
    }
    assert(name@.subrange(n - e, n as int) =~= ext@);
    true
}

impl CacheStorage {
    pub fn new(base_path: String) -> (s: Self)
        ensures
            s.base_path@ == base_path@,
    {
        CacheStorage { base_path }
    }

    pub fn base_path(&self) -> (p: &str)
        ensures
            p@ == self.base_path@,
    {
        self.base_path.as_str()
    }

    /// The file name stem of a song: the first 16 lowercase hex digits of the SHA-256 of its id.
    pub fn hash_id(song_id: &str) -> (h: String)
        ensures
            h@ == id_hash(song_id@),
            h@.len() == 16,
    {
        let digest = sha256_digest(song_id.as_bytes());
        hex_prefix(&digest, 8)
    }

    /// The lowercase hex SHA-256 of some content, used to check integrity.
    pub fn hash_content(data: &[u8]) -> (h: String)
        ensures
            h@ == content_hash(data@),
            h@.len() == 64,
    {
        let digest = sha256_digest(data);
        let h = hex_prefix(&digest, 32);
        assert(digest@.take(32) =~= digest@);
        h
    }

    fn file_name(song_id: &str, ext: &str) -> (n: String)
        ensures
            n@ == with_ext(id_hash(song_id@), ext@),
    {
        let mut n = Self::hash_id(song_id);
        push_char(&mut n, '.');
        push_str(&mut n, ext);
        n
    }

    /// The name of a song's audio file within the cache directory.
    pub fn audio_file_name(song_id: &str) -> (n: String)
        ensures
            n@ == with_ext(id_hash(song_id@), audio_ext()),
    {
        proof {
            reveal_strlit("audio");
        }
        Self::file_name(song_id, "audio")
    }

    /// The path of a song's audio file.
    pub fn audio_path(&self, song_id: &str) -> (p: String)
        ensures
            p@ == join_path(self.base_path@, with_ext(id_hash(song_id@), audio_ext())),
    {
        let name = Self::audio_file_name(song_id);
        join(self.base_path.as_str(), name.as_str())
    }

    /// The path of a song's metadata file.
    pub fn meta_path(&self, song_id: &str) -> (p: String)
        ensures
            p@ == join_path(self.base_path@, with_ext(id_hash(song_id@), meta_ext())),
    {
        proof {
            reveal_strlit("meta");
        }
        let name = Self::file_name(song_id, "meta");
        join(self.base_path.as_str(), name.as_str())
    }

    /// Whether the song's audio file appears in a listing of the cache directory.
    pub fn has_audio_file(&self, song_id: &str, listing: &Vec<DirEntry>) -> (r: bool)
        ensures
            r == listed(listing@, with_ext(id_hash(song_id@), audio_ext())),
    {
        let name = Self::audio_file_name(song_id);
        let mut i: usize = 0;
        while i < listing.len()
            invariant
                i <= listing@.len(),
                name@ == with_ext(id_hash(song_id@), audio_ext()),
                forall|j: int| 0 <= j < i ==> (#[trigger] listing@[j]).name@ != name@,
            decreases listing.len() - i,
        {
            if str_equal(listing[i].name.as_str(), name.as_str()) {
                return true;
            }
            i = i + 1;
        }
        false
    }

    /// Total size in bytes of the regular files in a listing of the cache directory.
    pub fn total_size(&self, listing: &Vec<DirEntry>) -> (t: u64)
        requires
            files_size(listing@) <= u64::MAX,
        ensures
            t == files_size(listing@),
    {
        let mut total: u64 = 0;
        let mut i: usize = 0;
        while i < listing.len()
            invariant
                i <= listing@.len(),
                files_size(listing@) <= u64::MAX,
                total == files_size(listing@.take(i as int)),
            decreases listing.len() - i,
        {
            proof {
                assert(listing@.take(i + 1).drop_last() =~= listing@.take(i as int));
                lemma_files_size_prefix(listing@, i + 1);
            }
            if listing[i].is_file {
                total = total + listing[i].size;
            }
            i = i + 1;
        }
        assert(listing@.take(listing@.len() as int) =~= listing@);
        total
    }

    /// Number of `.audio` entries in a listing of the cache directory.
    pub fn file_count(&self, listing: &Vec<DirEntry>) -> (c: usize)
        ensures
            c == audio_count(listing@),
    {
        proof {
            reveal_strlit("audio");
        }
        let mut count: usize = 0;
        let mut i: usize = 0;
        while i < listing.len()
            invariant
                i <= listing@.len(),
                count == audio_count(listing@.take(i as int)),
                audio_count(listing@.take(i as int)) <= i,
                "audio"@ == audio_ext(),
            decreases listing.len() - i,
        {
            assert(listing@.take(i + 1).drop_last() =~= listing@.take(i as int));
            if name_has_extension(listing[i].name.as_str(), "audio") {
                count = count + 1;
            }
            i = i + 1;
        }
        assert(listing@.take(listing@.len() as int) =~= listing@);
        count
    }
}

/// The size of the files of a prefix is at most that of the whole listing.
proof fn lemma_files_size_prefix(listing: Seq<DirEntry>, n: int)
    requires
        0 <= n <= listing.len(),
    ensures
        files_size(listing.take(n)) <= files_size(listing),
    decreases listing.len() - n,
{
    if n < listing.len() {
        lemma_files_size_prefix(listing, n + 1);
        assert(listing.take(n + 1).drop_last() =~= listing.take(n));
    } else {
        assert(listing.take(n) =~= listing);
    }
}

} // verus!
