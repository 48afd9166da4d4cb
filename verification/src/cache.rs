//! A content-addressable store plan: digests, blob paths, and append-only
//! index records in the request-cache layout the offline installer reads.
use vstd::prelude::*;

use base64::Engine;
use sha2::Digest;

verus! {

use vstd::string::StrSliceExecFns;
use vstd::string::StringExecFns;
use vstd::utf8::encode_utf8;
use crate::PrefetchError;
use crate::text::dec_of;
use crate::text::dec_string;
use crate::text::digit_char;
use crate::text::digit_str;
use crate::text::is_prefix;
use crate::text::str_eq;
use crate::text::str_starts_with;

/// The SHA-512 digest of a byte sequence.
pub uninterp spec fn sha512_of(data: Seq<u8>) -> Seq<u8>;

/// The SHA-1 digest of a byte sequence.
pub uninterp spec fn sha1_of(data: Seq<u8>) -> Seq<u8>;

/// The SHA-256 digest of a byte sequence.
pub uninterp spec fn sha256_of(data: Seq<u8>) -> Seq<u8>;

/// The standard base64 rendering of a byte sequence.
pub uninterp spec fn base64_of(data: Seq<u8>) -> Seq<char>;

/// Relies on sha2::Sha512::digest: a 64-byte digest of the input alone.
#[verifier::external_body]
fn sha512_bytes(data: &[u8]) -> (r: Vec<u8>)
    ensures
        r@ == sha512_of(data@),
        r@.len() == 64,
{
    sha2::Sha512::digest(data).to_vec()
}

/// Relies on sha1::Sha1::digest: a 20-byte digest of the input alone.
#[verifier::external_body]
fn sha1_bytes(data: &[u8]) -> (r: Vec<u8>)
    ensures
        r@ == sha1_of(data@),
        r@.len() == 20,
{
    sha1::Sha1::digest(data).to_vec()
}

/// Relies on sha2::Sha256::digest: a 32-byte digest of the input alone.
#[verifier::external_body]
fn sha256_bytes(data: &[u8]) -> (r: Vec<u8>)
    ensures
        r@ == sha256_of(data@),
        r@.len() == 32,
{
    sha2::Sha256::digest(data).to_vec()
}

/// Relies on base64's standard-alphabet engine: the padded base64 text of
/// the input alone.
#[verifier::external_body]
fn base64_string(data: &[u8]) -> (r: String)
    ensures
        r@ == base64_of(data@),
{
    base64::engine::general_purpose::STANDARD.encode(data)
}

/// The lowercase hexadecimal rendering of a byte sequence.
pub open spec fn hex_of(d: Seq<u8>) -> Seq<char> {
    Seq::new(
        (d.len() * 2) as nat,
        |i: int|
            if i % 2 == 0 {
                digit_char(d[i / 2] as int / 16)
            } else {
                digit_char(d[i / 2] as int % 16)
            },
    )
}

fn hex_string(d: &[u8]) -> (r: String)
    ensures
        r@ == hex_of(d@),
{
    let mut r = String::new();
    let mut i: usize = 0;
    let n = d.len();
    while i < n
        invariant
            i <= n,
            n == d@.len(),
            r@ == hex_of(d@.subrange(0, i as int)),
        decreases n - i,
    {
        let b = d[i];
        r.append(digit_str(b / 16));
        r.append(digit_str(b % 16));
        proof {
            assert(r@ =~= hex_of(d@.subrange(0, i + 1)));
        }
        i += 1;
    }
    proof {
        assert(d@.subrange(0, d@.len() as int) =~= d@);
    }
    r
}

/// How one character appears inside a JSON string literal.
pub open spec fn esc_char(c: char) -> Seq<char> {
    if c == '"' {
        "\\\""@
    } else if c == '\\' {
        "\\\\"@
    } else if (c as u32) < 32 {
        "\\u00"@ + seq![digit_char((c as u32) as int / 16)] + seq![digit_char((c as u32) as int % 16)]
    } else {
        seq![c]
    }
}

/// The JSON escaping of `s[i..]`.
pub open spec fn esc_from(s: Seq<char>, i: int) -> Seq<char>
    decreases s.len() - i,
{
    if i >= s.len() {
        Seq::<char>::empty()
    } else {
        esc_char(s[i]) + esc_from(s, i + 1)
    }
}

/// The JSON escaping of a whole string.
pub open spec fn esc(s: Seq<char>) -> Seq<char> {
    esc_from(s, 0)
}

fn esc_string(s: &str) -> (r: String)
    ensures
        r@ == esc(s@),
{
    let n = s.unicode_len();
    let mut r = String::new();
    let mut i: usize = 0;
    while i < n
        invariant
            i <= n,
            n == s@.len(),
            r@ + esc_from(s@, i as int) == esc(s@),
        decreases n - i,
    {
        let ghost r0 = r@;
        let c = s.get_char(i);
        if c == '"' {
            r.append("\\\"");
        } else if c == '\\' {
            r.append("\\\\");
        } else if (c as u32) < 32 {
            let cv = c as u32;
            r.append("\\u00");
            r.append(digit_str((cv / 16) as u8));
            r.append(digit_str((cv % 16) as u8));
        } else {
            let piece = s.substring_char(i, i + 1);
            proof {
                assert(piece@ =~= seq![s@[i as int]]);
            }
            r.append(piece);
        }
        proof {
            assert(r@ =~= r0 + esc_char(s@[i as int]));
            assert(esc_char(s@[i as int]) + esc_from(s@, i + 1) == esc_from(s@, i as int));
            assert(r@ + esc_from(s@, i + 1) =~= r0 + esc_from(s@, i as int));
        }
        i += 1;
    }
    r
}

/// The JSON text of one index record.
pub open spec fn spec_json_record(
    key: Seq<char>,
    integrity: Seq<char>,
    time: int,
    size: int,
    url: Seq<char>,
) -> Seq<char> {
    "{\"key\":\""@ + esc(key) + "\",\"integrity\":\""@ + esc(integrity) + "\",\"time\":"@ + dec_of(
        time,
    ) + ",\"size\":"@ + dec_of(size) + ",\"metadata\":{\"url\":\""@ + esc(url) + "\"}}"@
}

/// One appended index line: a newline, the SHA-1 of the record's JSON in
/// hex, a tab, and the JSON itself.
pub open spec fn spec_index_line(
    key: Seq<char>,
    integrity: Seq<char>,
    time: int,
    size: int,
    url: Seq<char>,
) -> Seq<char> {
    let j = spec_json_record(key, integrity, time, size, url);
    "\n"@ + hex_of(sha1_of(encode_utf8(j))) + "\t"@ + j
}

/// The full integrity string the cache computes for `data` under SHA-512.
pub open spec fn integrity_512(data: Seq<u8>) -> Seq<char> {
    "sha512-"@ + base64_of(sha512_of(data))
}

/// The full integrity string the cache computes for `data` under SHA-1.
pub open spec fn integrity_1(data: Seq<u8>) -> Seq<char> {
    "sha1-"@ + base64_of(sha1_of(data))
}

/// The integrity string `put` computes: the algorithm is implied by the
/// declared digest's prefix, defaulting to SHA-512; `None` when the prefix
/// names no algorithm the cache can compute.
pub open spec fn spec_computed(data: Seq<u8>, expected: Option<Seq<char>>) -> Option<Seq<char>> {
    match expected {
        None => Some(integrity_512(data)),
        Some(e) => if is_prefix("sha512-"@, e) {
            Some(integrity_512(data))
        } else if is_prefix("sha1-"@, e) {
            Some(integrity_1(data))
        } else {
            None
        },
    }
}

/// The raw digest bytes behind `spec_computed`.
pub open spec fn spec_digest_bytes(data: Seq<u8>, expected: Option<Seq<char>>) -> Seq<u8> {
    match expected {
        None => sha512_of(data),
        Some(e) => if is_prefix("sha512-"@, e) {
            sha512_of(data)
        } else {
            sha1_of(data)
        },
    }
}

/// The algorithm directory name behind `spec_computed`.
pub open spec fn spec_algo_name(expected: Option<Seq<char>>) -> Seq<char> {
    match expected {
        None => "sha512"@,
        Some(e) => if is_prefix("sha512-"@, e) {
            "sha512"@
        } else {
            "sha1"@
        },
    }
}

/// Where a blob with digest bytes `d` lives: under the algorithm name,
/// sharded by the first two pairs of hex digits.
pub open spec fn spec_content_path(root: Seq<char>, algo: Seq<char>, d: Seq<u8>) -> Seq<char> {
    let h = hex_of(d);
    root + "/content-v2/"@ + algo + "/"@ + h.subrange(0, 2) + "/"@ + h.subrange(2, 4) + "/"@
        + h.skip(4)
}

/// Which index bucket a lookup key's records land in: sharded by the hex
/// SHA-256 of the key's bytes.
pub open spec fn spec_index_path(root: Seq<char>, key: Seq<char>) -> Seq<char> {
    let h = hex_of(sha256_of(encode_utf8(key)));
    root + "/index-v5/"@ + h.subrange(0, 2) + "/"@ + h.subrange(2, 4) + "/"@ + h.skip(4)
}

/// The view of an `Option<&str>` argument.
pub open spec fn opt_text(o: Option<&str>) -> Option<Seq<char>> {
    match o {
        Some(s) => Some(s@),
        None => None,
    }
}

/// Everything one `put` writes: where the blob goes, which bucket gets the
/// record, the record line itself, and the digest returned to the caller.
#[derive(Debug)]
pub struct PutPlan {
    pub digest: String,
    pub content_path: String,
    pub index_path: String,
    pub index_line: String,
}

/// A content-addressable cache rooted at one directory; directories are
/// created on demand by whoever carries the plans out.
pub struct Cache {
    pub root: String,
}

impl Cache {
    pub fn new(root: String) -> (r: Cache)
        ensures
            r.root@ == root@,
    {
        Cache { root }
    }

    /// Plans one idempotent `put`: verifies the declared digest if any,
    /// addresses the blob by its own digest, and renders the index record.
    /// The content path depends on the bytes alone and the index path on the
    /// key alone, so repeated puts of the same pair land on the same blob
    /// and the same bucket whatever the timestamp.
    pub fn put_plan(
        &self,
        key: &str,
        source_url: &str,
        data: &[u8],
        expected: Option<&str>,
        time: u64,
    ) -> (r: Result<PutPlan, PrefetchError>)
        ensures
            (match spec_computed(data@, opt_text(expected)) {
                None => r == Err::<PutPlan, PrefetchError>(PrefetchError::UnsupportedAlgorithm),
                Some(c) => match opt_text(expected) {
                    Some(e) => if e == c {
                        r is Ok
                    } else {
                        r == Err::<PutPlan, PrefetchError>(PrefetchError::IntegrityMismatch)
                    },
                    None => r is Ok,
                },
            }),
            r matches Ok(p) ==> (p.digest@ == spec_computed(data@, opt_text(expected))->Some_0
                && p.content_path@ == spec_content_path(
                self.root@,
                spec_algo_name(opt_text(expected)),
                spec_digest_bytes(data@, opt_text(expected)),
            ) && p.index_path@ == spec_index_path(self.root@, key@) && p.index_line@
                == spec_index_line(key@, p.digest@, time as int, data@.len() as int, source_url@)),
    {
        let use512: bool = match expected {
            None => true,
            Some(e) => {
                if str_starts_with(e, "sha512-") {
                    true
                } else if str_starts_with(e, "sha1-") {
                    false
                } else {
                    return Err(PrefetchError::UnsupportedAlgorithm);
                }
            },
        };
        let db = if use512 {
            sha512_bytes(data)
        } else {
            sha1_bytes(data)
        };
        let mut computed = if use512 {
            String::from_str("sha512-")
        } else {
            String::from_str("sha1-")
        };
        computed.append(base64_string(db.as_slice()).as_str());
        if let Some(e) = expected {
            if !str_eq(e, computed.as_str()) {
                return Err(PrefetchError::IntegrityMismatch);
            }
        }
        let hexd = hex_string(db.as_slice());
        let hl = hexd.as_str().unicode_len();
        let mut cp = self.root.clone();
        cp.append("/content-v2/");
        cp.append(
            if use512 {
                "sha512"
            } else {
                "sha1"
            },
        );
        cp.append("/");
        cp.append(hexd.as_str().substring_char(0, 2));
        cp.append("/");
        cp.append(hexd.as_str().substring_char(2, 4));
        cp.append("/");
        cp.append(hexd.as_str().substring_char(4, hl));
        proof {
            assert(hexd@.subrange(4, hexd@.len() as int) =~= hex_of(db@).skip(4));
            assert(cp@ =~= spec_content_path(
                self.root@,
                spec_algo_name(opt_text(expected)),
                spec_digest_bytes(data@, opt_text(expected)),
            ));
        }
        let kh = sha256_bytes(key.as_bytes());
        let khex = hex_string(kh.as_slice());
        let kl = khex.as_str().unicode_len();
        let mut ip = self.root.clone();
        ip.append("/index-v5/");
        ip.append(khex.as_str().substring_char(0, 2));
        ip.append("/");
        ip.append(khex.as_str().substring_char(2, 4));
        ip.append("/");
        ip.append(khex.as_str().substring_char(4, kl));
        proof {
            assert(khex@.subrange(4, khex@.len() as int) =~= hex_of(sha256_of(encode_utf8(key@))).skip(
                4,
            ));
            assert(ip@ =~= spec_index_path(self.root@, key@));
        }
        let size: u64 = data.len() as u64;
        let mut j = String::from_str("{\"key\":\"");
        j.append(esc_string(key).as_str());
        j.append("\",\"integrity\":\"");
        j.append(esc_string(computed.as_str()).as_str());
        j.append("\",\"time\":");
        j.append(dec_string(time).as_str());
        j.append(",\"size\":");
        j.append(dec_string(size).as_str());
        j.append(",\"metadata\":{\"url\":\"");
        j.append(esc_string(source_url).as_str());
        j.append("\"}}");
        proof {
            assert(j@ =~= spec_json_record(
                key@,
                computed@,
                time as int,
                data@.len() as int,
                source_url@,
            ));
        }
        let jh = sha1_bytes(j.as_str().as_bytes());
        let jhex = hex_string(jh.as_slice());
        let mut line = String::from_str("\n");
        line.append(jhex.as_str());
        line.append("\t");
        line.append(j.as_str());
        proof {
            assert(line@ =~= spec_index_line(
                key@,
                computed@,
                time as int,
                data@.len() as int,
                source_url@,
            ));
        }
        Ok(PutPlan { digest: computed, content_path: cp, index_path: ip, index_line: line })
    }
}

/// Law: `put` is idempotent over its durable effects. Given two successful
/// puts of the same `(key, bytes, declared digest)` into the same cache —
/// their digests and paths as `put_plan`'s contract pins them, whatever
/// their timestamps and source URLs were — both return the same digest,
/// address the same content blob, and append to the same index bucket; only
/// the two appended records themselves differ.
pub proof fn lemma_put_idempotent(
    root: Seq<char>,
    key: Seq<char>,
    data: Seq<u8>,
    expected: Option<Seq<char>>,
    digest1: Seq<char>,
    blob1: Seq<char>,
    bucket1: Seq<char>,
    digest2: Seq<char>,
    blob2: Seq<char>,
    bucket2: Seq<char>,
)
    requires
        digest1 == spec_computed(data, expected)->Some_0,
        blob1 == spec_content_path(root, spec_algo_name(expected), spec_digest_bytes(data, expected)),
        bucket1 == spec_index_path(root, key),
        digest2 == spec_computed(data, expected)->Some_0,
        blob2 == spec_content_path(root, spec_algo_name(expected), spec_digest_bytes(data, expected)),
        bucket2 == spec_index_path(root, key),
    ensures
        digest1 == digest2,
        blob1 == blob2,
        bucket1 == bucket2,
{
}

} // verus!
