use vstd::prelude::*;
use vstd::string::*;
use crate::errors::ErrorKind;

verus! {

// ---------------------------------------------------------------------------
// Magnet-URI validation and info-hash extraction.
//
// A well-formed input starts with the literal prefix `magnet:?xt=urn:btih:`
// followed by a non-empty run of lowercase letters and digits: the info-hash.
// Anything after that run (trackers, display names) is permitted and ignored.
// ---------------------------------------------------------------------------

/// The fixed magnet-URI prefix `magnet:?xt=urn:btih:`, as characters.
pub open spec fn magnet_prefix() -> Seq<char> {
    seq!['m', 'a', 'g', 'n', 'e', 't', ':', '?', 'x', 't', '=', 'u', 'r', 'n', ':', 'b', 't', 'i', 'h', ':']
}

/// A character the info-hash may consist of: a lowercase letter or a digit.
pub open spec fn is_hash_char(c: char) -> bool {
    (97 <= c as u32 && c as u32 <= 122) || (48 <= c as u32 && c as u32 <= 57)
}

/// Index just past the run of hash characters that starts at `i`.
pub open spec fn hash_run_end(s: Seq<char>, i: int) -> int
    decreases s.len() - i when 0 <= i <= s.len()
{
    if i < s.len() && is_hash_char(s[i]) {
        hash_run_end(s, i + 1)
    } else {
        i
    }
}

/// What parsing a magnet URI yields: the maximal run of hash characters
/// immediately after the fixed prefix, or nothing when the prefix is absent
/// or the run is empty.
pub open spec fn spec_parse_magnet(s: Seq<char>) -> Option<Seq<char>> {
    if s.len() > 20 && s.subrange(0, 20) == magnet_prefix() && is_hash_char(s[20]) {
        Some(s.subrange(20, hash_run_end(s, 20)))
    } else {
        None
    }
}

proof fn lemma_hash_run_end_at(s: Seq<char>, i: int, j: int)
    requires
        0 <= i <= j <= s.len(),
        forall|k: int| i <= k < j ==> is_hash_char(s[k]),
        j == s.len() || !is_hash_char(s[j]),
    ensures
        hash_run_end(s, i) == j,
    decreases j - i,
{
    if i < j {
        lemma_hash_run_end_at(s, i + 1, j);
    }
}

fn hash_char(c: char) -> (b: bool)
    ensures
        b == is_hash_char(c),
{
    let u = c as u32;
    (97 <= u && u <= 122) || (48 <= u && u <= 57)
}

fn hash_char_at(s: &str, i: usize) -> (b: bool)
    requires
        i < s@.len(),
    ensures
        b == is_hash_char(s@[i as int]),
{
    hash_char(s.get_char(i))
}

fn magnet_prefix_chars() -> (v: Vec<char>)
    ensures
        v@ == magnet_prefix(),
{
    let mut v: Vec<char> = Vec::new();
    v.push('m');
    v.push('a');
    v.push('g');
    v.push('n');
    v.push('e');
    v.push('t');
    v.push(':');
    v.push('?');
    v.push('x');
    v.push('t');
    v.push('=');
    v.push('u');
    v.push('r');
    v.push('n');
    v.push(':');
    v.push('b');
    v.push('t');
    v.push('i');
    v.push('h');
    v.push(':');
    proof {
        assert(v@ =~= magnet_prefix());
    }
    v
}

/// Validates a magnet URI and extracts its info-hash.
///
/// Succeeds exactly on inputs whose characters start with
/// `magnet:?xt=urn:btih:` followed by at least one lowercase-alphanumeric
/// character, and returns the full run of such characters, as-is; every
/// other input is rejected with `InvalidMagnetFormat`.
pub fn parse_magnet(magnet: &str) -> (r: Result<String, ErrorKind>)
    ensures
        match spec_parse_magnet(magnet@) {
            Some(h) => r matches Ok(hash) && hash@ == h,
            None => r matches Err(e) && e == ErrorKind::InvalidMagnetFormat,
        },
{
    let len = magnet.unicode_len();
    if len < 21 {
        return Err(ErrorKind::InvalidMagnetFormat);
    }
    let prefix = magnet_prefix_chars();
    let mut i: usize = 0;
    while i < 20
        invariant
            0 <= i <= 20,
            len == magnet@.len(),
            21 <= len,
            prefix@ == magnet_prefix(),
            forall|k: int| 0 <= k < i ==> magnet@[k] == magnet_prefix()[k],
        decreases 20 - i,
    {
        if magnet.get_char(i) != prefix[i] {
            proof {
                assert(magnet@.subrange(0, 20)[i as int] != magnet_prefix()[i as int]);
            }
            return Err(ErrorKind::InvalidMagnetFormat);
        }
        i += 1;
    }
    proof {
        assert(magnet@.subrange(0, 20) =~= magnet_prefix());
    }
    if !hash_char_at(magnet, 20) {
        return Err(ErrorKind::InvalidMagnetFormat);
    }
    let mut j: usize = 21;
    while j < len && hash_char_at(magnet, j)
        invariant
            21 <= j <= len,
            len == magnet@.len(),
            forall|k: int| 20 <= k < j ==> is_hash_char(magnet@[k]),
        decreases len - j,
    {
        j += 1;
    }
    proof {
        lemma_hash_run_end_at(magnet@, 20, j as int);
    }
    let hash = magnet.substring_char(20, j).to_owned();
    Ok(hash)
}

/// Every well-formed magnet URI parses to exactly its info-hash: for any
/// non-empty run `h` of hash characters and any trailer that does not extend
/// the run, parsing `magnet:?xt=urn:btih:` + `h` + trailer yields `h` itself.
pub proof fn lemma_parse_extracts_hash(h: Seq<char>, trailer: Seq<char>)
    requires
        h.len() > 0,
        forall|i: int| 0 <= i < h.len() ==> is_hash_char(h[i]),
        trailer.len() == 0 || !is_hash_char(trailer[0]),
    ensures
        spec_parse_magnet(magnet_prefix() + h + trailer) == Some(h),
{
    let s = magnet_prefix() + h + trailer;
    assert(s.subrange(0, 20) =~= magnet_prefix());
    assert(forall|k: int| 20 <= k < 20 + h.len() as int ==> s[k] == h[k - 20] && is_hash_char(s[k]));
    lemma_hash_run_end_at(s, 20, 20 + h.len() as int);
    assert(s.subrange(20, 20 + h.len() as int) =~= h);
}

// ---------------------------------------------------------------------------
// Metadata encoding: destination filename and bencoded payload.
// ---------------------------------------------------------------------------

/// The `/meta-` infix of the destination filename.
pub open spec fn meta_infix() -> Seq<char> {
    seq!['/', 'm', 'e', 't', 'a', '-']
}

/// The `.torrent` suffix of the destination filename.
pub open spec fn torrent_suffix() -> Seq<char> {
    seq!['.', 't', 'o', 'r', 'r', 'e', 'n', 't']
}

/// The destination filename `<dir>/meta-<hash>.torrent`.
pub open spec fn spec_file_name(dir: Seq<char>, hash: Seq<char>) -> Seq<char> {
    dir + meta_infix() + hash + torrent_suffix()
}

/// The bytes of `d10:magnet-uri`: the dictionary opener followed by the
/// length-prefixed single key.
pub open spec fn payload_head() -> Seq<u8> {
    seq![100u8, 49u8, 48u8, 58u8, 109u8, 97u8, 103u8, 110u8, 101u8, 116u8, 45u8, 117u8, 114u8, 105u8]
}

/// ASCII decimal digits of `n`, most significant first, no leading zeros.
pub open spec fn spec_decimal(n: nat) -> Seq<u8>
    decreases n,
{
    if n < 10 {
        seq![(48 + n) as u8]
    } else {
        spec_decimal(n / 10) + seq![(48 + n % 10) as u8]
    }
}

/// The full bencoded payload for a magnet link given as its UTF-8 bytes:
/// `d10:magnet-uri<N>:<magnet>e`, where `<N>` is the decimal byte length
/// of the magnet link.
pub open spec fn spec_payload(magnet_bytes: Seq<u8>) -> Seq<u8> {
    payload_head() + spec_decimal(magnet_bytes.len()) + seq![58u8] + magnet_bytes + seq![101u8]
}

/// The torrent-metadata file to deliver: its destination path and the exact
/// bytes of its content.
pub struct FileInfo {
    /// Destination path, `<dir>/meta-<hash>.torrent`.
    pub name: String,
    /// Bencoded payload, `d10:magnet-uri<N>:<magnet>e`.
    pub data: Vec<u8>,
}

fn payload_head_bytes() -> (v: Vec<u8>)
    ensures
        v@ == payload_head(),
{
    let mut v: Vec<u8> = Vec::new();
    v.push(100);
    v.push(49);
    v.push(48);
    v.push(58);
    v.push(109);
    v.push(97);
    v.push(103);
    v.push(110);
    v.push(101);
    v.push(116);
    v.push(45);
    v.push(117);
    v.push(114);
    v.push(105);
    proof {
        assert(v@ =~= payload_head());
    }
    v
}

fn decimal_bytes(n: usize) -> (v: Vec<u8>)
    ensures
        v@ == spec_decimal(n as nat),
    decreases n,
{
    if n < 10 {
        let mut v: Vec<u8> = Vec::new();
        v.push(48 + n as u8);
        proof {
            assert(v@ =~= spec_decimal(n as nat));
        }
        v
    } else {
        let mut v = decimal_bytes(n / 10);
        v.push(48 + (n % 10) as u8);
        proof {
            assert(v@ =~= spec_decimal(n as nat));
        }
        v
    }
}

/// Builds the metadata file for an already-extracted info-hash: the
/// destination filename is `<path>/meta-<hash>.torrent`, and the payload is
/// the single-key bencoded dictionary holding the magnet link, framed by its
/// exact byte length.
pub fn to_file_info(path: &str, hash: &str, magnet: &str) -> (fi: FileInfo)
    ensures
        fi.name@ == spec_file_name(path@, hash@),
        fi.data@ == spec_payload(magnet.spec_bytes()),
{
    let mut name = path.to_owned();
    name.append("/meta-");
    name.append(hash);
    name.append(".torrent");
    proof {
        reveal_strlit("/meta-");
        reveal_strlit(".torrent");
        assert("/meta-"@ =~= meta_infix());
        assert(".torrent"@ =~= torrent_suffix());
        assert(name@ =~= spec_file_name(path@, hash@));
    }
    let mut data = payload_head_bytes();
    let mut body = magnet.as_bytes_vec();
    let mut digits = decimal_bytes(body.len());
    data.append(&mut digits);
    data.push(58);
    data.append(&mut body);
    data.push(101);
    proof {
        assert(data@ =~= spec_payload(magnet.spec_bytes()));
    }
    FileInfo { name, data }
}

/// Validates a magnet URI and, on success, builds the metadata file for it.
///
/// Exactly the inputs accepted by [`parse_magnet`] succeed; every other
/// input yields `InvalidMagnetFormat` and no file.
pub fn convert_magnet(path: &str, magnet: &str) -> (r: Result<FileInfo, ErrorKind>)
    ensures
        match spec_parse_magnet(magnet@) {
            Some(h) => r matches Ok(fi) && fi.name@ == spec_file_name(path@, h)
                && fi.data@ == spec_payload(magnet.spec_bytes()),
            None => r matches Err(e) && e == ErrorKind::InvalidMagnetFormat,
        },
{
    match parse_magnet(magnet) {
        Ok(hash) => Ok(to_file_info(path, hash.as_str(), magnet)),
        Err(e) => Err(e),
    }
}

/// Encoding is deterministic and pure: any two metadata files built for the
/// same directory, hash and magnet bytes agree on the filename character for
/// character and on the payload byte for byte.
pub proof fn lemma_encode_deterministic(
    a: FileInfo,
    b: FileInfo,
    dir: Seq<char>,
    hash: Seq<char>,
    magnet_bytes: Seq<u8>,
)
    requires
        a.name@ == spec_file_name(dir, hash),
        a.data@ == spec_payload(magnet_bytes),
        b.name@ == spec_file_name(dir, hash),
        b.data@ == spec_payload(magnet_bytes),
    ensures
        a.name@ == b.name@,
        a.data@ == b.data@,
{
}

// ---------------------------------------------------------------------------
// Reading the payload back. Nothing in the delivery path decodes; these
// definitions pin down what any bencode reader would see in the produced
// bytes, and the round-trip law below proves it is exactly the magnet link
// under its exact byte length.
// ---------------------------------------------------------------------------

/// An ASCII decimal digit.
pub open spec fn is_digit(b: u8) -> bool {
    48 <= b && b <= 57
}

/// Index just past the run of digits that starts at `i`.
pub open spec fn digit_run_end(s: Seq<u8>, i: int) -> int
    decreases s.len() - i when 0 <= i <= s.len()
{
    if i < s.len() && is_digit(s[i]) {
        digit_run_end(s, i + 1)
    } else {
        i
    }
}

/// The number the digit bytes spell, most significant first.
pub open spec fn spec_digits_value(ds: Seq<u8>) -> nat
    decreases ds.len(),
{
    if ds.len() == 0 {
        0
    } else {
        spec_digits_value(ds.drop_last()) * 10 + (ds.last() - 48) as nat
    }
}

/// Reads a payload back as the single-key bencoded dictionary
/// `d10:magnet-uri<N>:<value>e`: the declared length `N` (a non-empty digit
/// run without leading zeros) and the value bytes, which must fill the
/// dictionary exactly. Anything else is rejected.
pub open spec fn spec_decode_payload(p: Seq<u8>) -> Option<(nat, Seq<u8>)> {
    if p.len() >= 14 && p.subrange(0, 14) == payload_head() {
        let j = digit_run_end(p, 14);
        if j > 14 && (j == 15 || p[14] != 48) && j < p.len() && p[j] == 58 {
            let n = spec_digits_value(p.subrange(14, j));
            if p.len() == j + 1 + n + 1 && p[p.len() - 1] == 101 {
                Some((n, p.subrange(j + 1, j + 1 + n)))
            } else {
                None
            }
        } else {
            None
        }
    } else {
        None
    }
}

proof fn lemma_digit_run_end_at(s: Seq<u8>, i: int, j: int)
    requires
        0 <= i <= j <= s.len(),
        forall|k: int| i <= k < j ==> is_digit(s[k]),
        j == s.len() || !is_digit(s[j]),
    ensures
        digit_run_end(s, i) == j,
    decreases j - i,
{
    if i < j {
        lemma_digit_run_end_at(s, i + 1, j);
    }
}

proof fn lemma_decimal_shape(n: nat)
    ensures
        spec_decimal(n).len() >= 1,
        forall|i: int| 0 <= i < spec_decimal(n).len() ==> is_digit(spec_decimal(n)[i]),
        n >= 1 ==> spec_decimal(n)[0] != 48,
        n < 10 ==> spec_decimal(n).len() == 1,
    decreases n,
{
    if n >= 10 {
        assert(n / 10 >= 1 && n / 10 < n) by (nonlinear_arith)
            requires
                n >= 10,
        ;
        lemma_decimal_shape(n / 10);
        assert(spec_decimal(n)[0] == spec_decimal(n / 10)[0]);
    }
}

proof fn lemma_decimal_value(n: nat)
    ensures
        spec_digits_value(spec_decimal(n)) == n,
    decreases n,
{
    if n < 10 {
        let ds = spec_decimal(n);
        assert(ds.drop_last() =~= Seq::<u8>::empty());
        assert(spec_digits_value(Seq::<u8>::empty()) == 0);
        assert(ds.last() == (48 + n) as u8);
        assert(spec_digits_value(ds) == spec_digits_value(ds.drop_last()) * 10 + (ds.last()
            - 48) as nat);
    } else {
        assert(n / 10 >= 1 && n / 10 < n && n == (n / 10) * 10 + n % 10) by (nonlinear_arith)
            requires
                n >= 10,
        ;
        lemma_decimal_value(n / 10);
        let ds = spec_decimal(n);
        assert(ds.drop_last() =~= spec_decimal(n / 10));
        assert(ds.last() == (48 + n % 10) as u8);
        assert(spec_digits_value(ds) == spec_digits_value(ds.drop_last()) * 10 + (ds.last()
            - 48) as nat);
    }
}

/// Round-trip law: reading the produced payload back as a bencoded
/// dictionary always succeeds and yields exactly one value — the original
/// magnet bytes — under a declared length equal to their count.
pub proof fn lemma_payload_round_trip(m: Seq<u8>)
    ensures
        spec_decode_payload(spec_payload(m)) == Some((m.len(), m)),
{
    let p = spec_payload(m);
    let l = spec_decimal(m.len());
    let dl = l.len() as int;
    lemma_decimal_shape(m.len());
    lemma_decimal_value(m.len());
    assert(p.len() == 14 + dl + 1 + m.len() + 1);
    assert(p.subrange(0, 14) =~= payload_head());
    assert(forall|k: int| 14 <= k < 14 + dl ==> p[k] == l[k - 14]);
    assert(forall|k: int| 14 <= k < 14 + dl ==> is_digit(p[k]));
    assert(p[14 + dl] == 58);
    lemma_digit_run_end_at(p, 14, 14 + dl);
    assert(p.subrange(14, 14 + dl) =~= l);
    assert(m.len() >= 1 ==> p[14] == l[0] && l[0] != 48);
    assert(m.len() == 0 ==> dl == 1);
    assert(p[p.len() - 1] == 101);
    assert(p.subrange(14 + dl + 1, 14 + dl + 1 + m.len()) =~= m);
}

} // verus!
