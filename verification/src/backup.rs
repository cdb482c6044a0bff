//! The content hash of a file, and the rules of the backup that follows a run in
//! which the file changed.

use vstd::prelude::*;
use vstd::slice::slice_index_get;
use sha2::{Digest, Sha256};
use crate::text::{
    chars_of, decimal, lemma_decimal_injective, optional_view, push_decimal, same_chars,
};

verus! {

/// The SHA-256 digest of `data`, as `Sha256::digest` of the crate `sha2` computes it.
pub uninterp spec fn sha256(data: Seq<u8>) -> Seq<u8>;

/// `Sha256::digest` hashes `data` in one call, which gives the digest that feeding
/// a fresh hasher the same bytes piece by piece gives; the digest depends on the
/// bytes alone and is 32 bytes long.
#[verifier::external_body]
fn sha256_digest(data: &[u8]) -> (r: Vec<u8>)
    ensures
        r@ == sha256(data@),
        r@.len() == 32,
{
    Sha256::digest(data).to_vec()
}

/// The lowercase hexadecimal digit of value `d`.
pub open spec fn hex_digit(d: int) -> char {
    if d < 10 {
        ((48 + d) as u8) as char
    } else {
        ((87 + d) as u8) as char
    }
}

/// `bytes` in lowercase hexadecimal, two digits to the byte, the upper half first.
pub open spec fn hex_lower(bytes: Seq<u8>) -> Seq<char> {
    Seq::new(
        2 * bytes.len(),
        |i: int|
            if i % 2 == 0 {
                hex_digit(bytes[i / 2] as int / 16)
            } else {
                hex_digit(bytes[i / 2] as int % 16)
            },
    )
}

/// The content hash of a file that holds `data`: its SHA-256 digest in lowercase
/// hexadecimal.
pub open spec fn hash_text(data: Seq<u8>) -> Seq<char> {
    hex_lower(sha256(data))
}

/// The lowercase hexadecimal digit of value `d`.
pub fn hex_digit_of(d: u8) -> (r: char)
    requires
        d < 16,
    ensures
        r == hex_digit(d as int),
{
    if d < 10 {
        (48 + d) as char
    } else {
        (87 + d) as char
    }
}

/// Writes `bytes` in lowercase hexadecimal.
pub fn to_hex(bytes: &[u8]) -> (r: String)
    ensures
        r@ == hex_lower(bytes@),
{
    let mut out = String::new();
    let mut i: usize = 0;
    proof {
        assert(out@ =~= hex_lower(bytes@.take(0)));
    }
    while i < bytes.len()
        invariant
            i <= bytes.len(),
            out@ == hex_lower(bytes@.take(i as int)),
        decreases bytes.len() - i,
    {
        let b: u8 = *slice_index_get(bytes, i);
        out.push(hex_digit_of(b / 16));
        out.push(hex_digit_of(b % 16));
        i += 1;
        proof {
            assert(out@ =~= hex_lower(bytes@.take(i as int)));
        }
    }
    proof {
        assert(bytes@.take(i as int) == bytes@);
    }
    out
}

/// The content hash of a file that holds `data`.
pub fn content_hash(data: &[u8]) -> (r: String)
    ensures
        r@ == hash_text(data@),
        r@.len() == 64,
{
    let digest = sha256_digest(data);
    to_hex(digest.as_slice())
}

/// The hash that a run starts with. Where the file exists, `content` holds its
/// bytes; where it does not, the hash is empty, and no backup will follow.
pub open spec fn initial_hash_of(content: Option<Seq<u8>>) -> Seq<char> {
    match content {
        Some(data) => hash_text(data),
        None => Seq::empty(),
    }
}

/// The hash that a run starts with.
pub fn initial_hash(content: Option<&[u8]>) -> (r: String)
    ensures
        r@ == initial_hash_of(
            match content {
                Some(data) => Some(data@),
                None => None,
            },
        ),
        r@.len() > 0 <==> content is Some,
{
    match content {
        Some(data) => content_hash(data),
        None => String::new(),
    }
}

/// How long, in milliseconds, the monitor lets writes settle after the process has
/// ended, before it hashes the file again.
pub const SETTLE_DELAY_MS: u64 = 500;

/// Whether a backup is due: the run was tracked, so its initial hash is not empty;
/// the file is still there, so it has a final hash; and the two differ.
pub open spec fn backup_due(initial_hash: Seq<char>, final_hash: Option<Seq<char>>) -> bool {
    match final_hash {
        Some(h) => initial_hash.len() > 0 && h != initial_hash,
        None => false,
    }
}

/// Whether a backup is due after a run.
pub fn backup_needed(initial_hash: &str, final_hash: Option<&str>) -> (r: bool)
    ensures
        r == backup_due(
            initial_hash@,
            match final_hash {
                Some(h) => Some(h@),
                None => None,
            },
        ),
{
    let first = chars_of(initial_hash);
    match final_hash {
        Some(h) => {
            let last = chars_of(h);
            first.len() > 0 && !same_chars(&first, &last)
        },
        None => false,
    }
}

/// The name of the backup of a file: its stem, or `file` where it has none that
/// is text; the time in seconds since the epoch; and its extension, if any.
pub open spec fn backup_name(
    stem: Option<Seq<char>>,
    extension: Option<Seq<char>>,
    timestamp: u64,
) -> Seq<char> {
    let front = match stem {
        Some(s) => s,
        None => "file"@,
    } + "_"@ + decimal(timestamp as nat);
    match extension {
        Some(e) => front + "."@ + e,
        None => front,
    }
}

/// The name of the backup of a file, made at `timestamp`.
pub fn backup_file_name(stem: Option<&str>, extension: Option<&str>, timestamp: u64) -> (r: String)
    ensures
        r@ == backup_name(
            match stem {
                Some(s) => Some(s@),
                None => None,
            },
            match extension {
                Some(e) => Some(e@),
                None => None,
            },
            timestamp,
        ),
{
    let mut out = match stem {
        Some(s) => s.to_owned(),
        None => "file".to_owned(),
    };
    out.append("_");
    push_decimal(&mut out, timestamp);
    match extension {
        Some(e) => {
            out.append(".");
            out.append(e);
        },
        None => {},
    }
    out
}

/// What the monitor does once the process has ended and the writes have settled:
/// the name of the one backup to make, or nothing. `content` holds the bytes of
/// the file as it is then, where it still exists and can be read.
pub open spec fn monitor_outcome(
    initial_hash: Seq<char>,
    content: Option<Seq<u8>>,
    stem: Option<Seq<char>>,
    extension: Option<Seq<char>>,
    timestamp: u64,
) -> Option<Seq<char>> {
    let final_hash = match content {
        Some(data) => Some(hash_text(data)),
        None => None,
    };
    if backup_due(initial_hash, final_hash) {
        Some(backup_name(stem, extension, timestamp))
    } else {
        None
    }
}

/// Decides on the backup once the process has ended and the writes have settled.
pub fn monitor_verdict(
    initial_hash: &str,
    content: Option<&[u8]>,
    stem: Option<&str>,
    extension: Option<&str>,
    timestamp: u64,
) -> (r: Option<String>)
    ensures
        optional_view(r) == monitor_outcome(
            initial_hash@,
            match content {
                Some(data) => Some(data@),
                None => None,
            },
            match stem {
                Some(s) => Some(s@),
                None => None,
            },
            match extension {
                Some(e) => Some(e@),
                None => None,
            },
            timestamp,
        ),
{
    match content {
        Some(data) => {
            let now = content_hash(data);
            if backup_needed(initial_hash, Some(now.as_str())) {
                Some(backup_file_name(stem, extension, timestamp))
            } else {
                None
            }
        },
        None => None,
    }
}

/// A file whose content is at the end what it was at the start gets no backup.
pub proof fn law_unchanged_file_needs_no_backup(
    content: Seq<u8>,
    stem: Option<Seq<char>>,
    extension: Option<Seq<char>>,
    timestamp: u64,
)
    ensures
        !backup_due(hash_text(content), Some(hash_text(content))),
        monitor_outcome(initial_hash_of(Some(content)), Some(content), stem, extension, timestamp)
            is None,
{
}

/// A tracked file whose hash has changed gets one backup, named after the time at
/// which it is made; and a changed hash shows a changed content.
pub proof fn law_changed_hash_backs_up_once(
    initial_hash: Seq<char>,
    before: Seq<u8>,
    after: Seq<u8>,
    stem: Option<Seq<char>>,
    extension: Option<Seq<char>>,
    timestamp: u64,
)
    ensures
        hash_text(after) != hash_text(before) ==> after != before,
        initial_hash.len() > 0 && hash_text(after) != initial_hash ==> monitor_outcome(
            initial_hash,
            Some(after),
            stem,
            extension,
            timestamp,
        ) == Some(backup_name(stem, extension, timestamp)),
{
}


/// Backups of one file that are made at different seconds have different names, so
/// one never overwrites the other.
pub proof fn law_backup_names_differ(
    stem: Option<Seq<char>>,
    extension: Option<Seq<char>>,
    first: u64,
    second: u64,
)
    ensures
        first != second ==> backup_name(stem, extension, first) != backup_name(
            stem,
            extension,
            second,
        ),
{
    if first != second && backup_name(stem, extension, first) == backup_name(
        stem,
        extension,
        second,
    ) {
        lemma_decimal_injective(first as nat, second as nat);
        let lead = match stem {
            Some(s) => s,
            None => "file"@,
        } + "_"@;
        let a = decimal(first as nat);
        let b = decimal(second as nat);
        let tail = match extension {
            Some(e) => "."@ + e,
            None => Seq::<char>::empty(),
        };
        let x = backup_name(stem, extension, first);
        let y = backup_name(stem, extension, second);
        assert(x =~= lead + a + tail);
        assert(y =~= lead + b + tail);
        assert(a.len() == b.len());
        assert(x.subrange(lead.len() as int, (lead.len() + a.len()) as int) =~= a);
        assert(y.subrange(lead.len() as int, (lead.len() + b.len()) as int) =~= b);
    }
}

} // verus!
