//! The persistent, append-only command history. The store itself is a sled
//! database reached through narrow trusted calls; the encoding of entry
//! identifiers, the decoding of stored pairs and the rendering of history
//! lines are verified here.
use vstd::prelude::*;

use crate::text::{dec_rep, dec_string_u64, push_spaces, spaces};
use vstd::utf8::{decode_utf8, valid_utf8};

verus! {

#[verifier::external_type_specification]
#[verifier::external_body]
pub struct ExDb(sled::Db);

#[verifier::external_type_specification]
#[verifier::external_body]
pub struct ExSledError(sled::Error);

/// Relies on `sled::open`: opens or creates the database at `path`.
#[verifier::external_body]
fn db_open(path: &str) -> Result<sled::Db, sled::Error> {
    sled::open(path)
}

/// Relies on `sled::Db::generate_id`: a monotonically increasing
/// identifier. What comes back depends on the store's state, so nothing
/// more is promised.
#[verifier::external_body]
fn db_generate_id(db: &sled::Db) -> Result<u64, sled::Error> {
    db.generate_id()
}

/// Relies on `sled::Tree::insert`: stores `value` under `key` and hands
/// back the previous value under that key, if any, as plain bytes.
#[verifier::external_body]
fn db_insert(db: &sled::Db, key: &Vec<u8>, value: &[u8]) -> Result<Option<Vec<u8>>, sled::Error> {
    db.insert(key.as_slice(), value).map(|prev| prev.map(|iv| iv.to_vec()))
}

/// Strict byte-lexicographic order on byte sequences: a proper prefix
/// comes first, otherwise the first differing byte decides.
pub open spec fn bytes_lt(a: Seq<u8>, b: Seq<u8>) -> bool
    decreases a.len(),
{
    if b.len() == 0 {
        false
    } else if a.len() == 0 {
        true
    } else if a[0] < b[0] {
        true
    } else if a[0] > b[0] {
        false
    } else {
        bytes_lt(a.drop_first(), b.drop_first())
    }
}

/// Relies on `sled::Tree::iter`: every key-value pair of the store as
/// plain byte vectors, in strictly ascending byte order of the keys — a
/// tree holds each key once and its range iterator walks the keys in
/// order, whatever is stored.
#[verifier::external_body]
fn db_pairs(db: &sled::Db) -> (r: Result<Vec<(Vec<u8>, Vec<u8>)>, sled::Error>)
    ensures
        r is Ok ==> forall|i: int, j: int|
            0 <= i < j < r->Ok_0@.len() ==> bytes_lt(
                (#[trigger] r->Ok_0@[i]).0@,
                (#[trigger] r->Ok_0@[j]).0@,
            ),
{
    let mut out = Vec::new();
    for item in db.iter() {
        let (k, v) = item?;
        out.push((k.to_vec(), v.to_vec()));
    }
    Ok(out)
}

/// Relies on `sled::Tree::clear`: removes every entry of the store.
#[verifier::external_body]
fn db_clear(db: &sled::Db) -> Result<(), sled::Error> {
    db.clear()
}

/// Relies on `String::from_utf8`: decodes UTF-8 bytes and rejects invalid
/// ones, as vstd's `valid_utf8` and `decode_utf8` describe.
#[verifier::external_body]
fn utf8_string(bytes: &Vec<u8>) -> (r: Option<String>)
    ensures
        r is Some <==> valid_utf8(bytes@),
        r is Some ==> r->0@ == decode_utf8(bytes@),
{
    String::from_utf8(bytes.clone()).ok()
}

/// The big-endian bytes of a 64-bit identifier, most significant first.
pub open spec fn be_bytes_of(n: u64) -> Seq<u8> {
    seq![
        (((n >> 56) & 0xff) as u8),
        (((n >> 48) & 0xff) as u8),
        (((n >> 40) & 0xff) as u8),
        (((n >> 32) & 0xff) as u8),
        (((n >> 24) & 0xff) as u8),
        (((n >> 16) & 0xff) as u8),
        (((n >> 8) & 0xff) as u8),
        ((n & 0xff) as u8),
    ]
}

/// The 64-bit value that eight big-endian bytes encode.
pub open spec fn be_val(b: Seq<u8>) -> u64 {
    (b[0] * 0x100000000000000 + b[1] * 0x1000000000000 + b[2] * 0x10000000000 + b[3] * 0x100000000
        + b[4] * 0x1000000 + b[5] * 0x10000 + b[6] * 0x100 + b[7]) as u64
}

/// Encodes an identifier as its eight big-endian bytes.
pub fn u64_to_be_bytes(n: u64) -> (r: Vec<u8>)
    ensures
        r@ == be_bytes_of(n),
{
    let mut r: Vec<u8> = Vec::new();
    r.push(((n >> 56) & 0xff) as u8);
    r.push(((n >> 48) & 0xff) as u8);
    r.push(((n >> 40) & 0xff) as u8);
    r.push(((n >> 32) & 0xff) as u8);
    r.push(((n >> 24) & 0xff) as u8);
    r.push(((n >> 16) & 0xff) as u8);
    r.push(((n >> 8) & 0xff) as u8);
    r.push((n & 0xff) as u8);
    proof {
        assert(r@ =~= be_bytes_of(n));
    }
    r
}

/// Decodes eight big-endian bytes back into the identifier.
pub fn u64_from_be_bytes(b: &Vec<u8>) -> (r: u64)
    requires
        b@.len() == 8,
    ensures
        r == be_val(b@),
{
    (b[0] as u64) * 0x100000000000000 + (b[1] as u64) * 0x1000000000000 + (b[2] as u64)
        * 0x10000000000 + (b[3] as u64) * 0x100000000 + (b[4] as u64) * 0x1000000 + (b[5] as u64)
        * 0x10000 + (b[6] as u64) * 0x100 + (b[7] as u64)
}

/// Encoding an identifier and decoding the bytes gives the identifier
/// back.
pub proof fn lemma_be_roundtrip(n: u64)
    ensures
        be_val(be_bytes_of(n)) == n,
{
    let b = be_bytes_of(n);
    assert(((n >> 56) & 0xff) <= 0xff && ((n >> 48) & 0xff) <= 0xff && ((n >> 40) & 0xff) <= 0xff
        && ((n >> 32) & 0xff) <= 0xff && ((n >> 24) & 0xff) <= 0xff && ((n >> 16) & 0xff) <= 0xff
        && ((n >> 8) & 0xff) <= 0xff && (n & 0xff) <= 0xff) by (bit_vector);
    assert(((n >> 56) & 0xff) * 0x100000000000000 + ((n >> 48) & 0xff) * 0x1000000000000 + ((n
        >> 40) & 0xff) * 0x10000000000 + ((n >> 32) & 0xff) * 0x100000000 + ((n >> 24) & 0xff)
        * 0x1000000 + ((n >> 16) & 0xff) * 0x10000 + ((n >> 8) & 0xff) * 0x100 + (n & 0xff)
        == n) by (bit_vector);
}

/// Eight-byte keys compare by their encoded value: on equal lengths the
/// byte-lexicographic order is the numeric order of the identifiers.
pub proof fn lemma_bytes_lt_be_val(a: Seq<u8>, b: Seq<u8>)
    requires
        a.len() == 8,
        b.len() == 8,
        bytes_lt(a, b),
    ensures
        be_val(a) < be_val(b),
{
    let a1 = a.drop_first();
    let b1 = b.drop_first();
    let a2 = a1.drop_first();
    let b2 = b1.drop_first();
    let a3 = a2.drop_first();
    let b3 = b2.drop_first();
    let a4 = a3.drop_first();
    let b4 = b3.drop_first();
    let a5 = a4.drop_first();
    let b5 = b4.drop_first();
    let a6 = a5.drop_first();
    let b6 = b5.drop_first();
    let a7 = a6.drop_first();
    let b7 = b6.drop_first();
    assert(a1[0] == a[1] && a2[0] == a[2] && a3[0] == a[3] && a4[0] == a[4] && a5[0] == a[5]
        && a6[0] == a[6] && a7[0] == a[7]);
    assert(b1[0] == b[1] && b2[0] == b[2] && b3[0] == b[3] && b4[0] == b[4] && b5[0] == b[5]
        && b6[0] == b[6] && b7[0] == b[7]);
    if a[0] != b[0] {
        assert(a[0] < b[0]);
        assert(be_val(a) < be_val(b));
    } else if a[1] != b[1] {
        assert(bytes_lt(a1, b1));
        assert(a[1] < b[1]);
        assert(be_val(a) < be_val(b));
    } else if a[2] != b[2] {
        assert(bytes_lt(a1, b1));
        assert(bytes_lt(a2, b2));
        assert(a[2] < b[2]);
        assert(be_val(a) < be_val(b));
    } else if a[3] != b[3] {
        assert(bytes_lt(a1, b1));
        assert(bytes_lt(a2, b2));
        assert(bytes_lt(a3, b3));
        assert(a[3] < b[3]);
        assert(be_val(a) < be_val(b));
    } else if a[4] != b[4] {
        assert(bytes_lt(a1, b1));
        assert(bytes_lt(a2, b2));
        assert(bytes_lt(a3, b3));
        assert(bytes_lt(a4, b4));
        assert(a[4] < b[4]);
        assert(be_val(a) < be_val(b));
    } else if a[5] != b[5] {
        assert(bytes_lt(a1, b1));
        assert(bytes_lt(a2, b2));
        assert(bytes_lt(a3, b3));
        assert(bytes_lt(a4, b4));
        assert(bytes_lt(a5, b5));
        assert(a[5] < b[5]);
        assert(be_val(a) < be_val(b));
    } else if a[6] != b[6] {
        assert(bytes_lt(a1, b1));
        assert(bytes_lt(a2, b2));
        assert(bytes_lt(a3, b3));
        assert(bytes_lt(a4, b4));
        assert(bytes_lt(a5, b5));
        assert(bytes_lt(a6, b6));
        assert(a[6] < b[6]);
        assert(be_val(a) < be_val(b));
    } else if a[7] != b[7] {
        assert(bytes_lt(a1, b1));
        assert(bytes_lt(a2, b2));
        assert(bytes_lt(a3, b3));
        assert(bytes_lt(a4, b4));
        assert(bytes_lt(a5, b5));
        assert(bytes_lt(a6, b6));
        assert(bytes_lt(a7, b7));
        assert(a[7] < b[7]);
        assert(be_val(a) < be_val(b));
    } else {
        assert(bytes_lt(a1, b1));
        assert(bytes_lt(a2, b2));
        assert(bytes_lt(a3, b3));
        assert(bytes_lt(a4, b4));
        assert(bytes_lt(a5, b5));
        assert(bytes_lt(a6, b6));
        assert(bytes_lt(a7, b7));
        assert(bytes_lt(a7.drop_first(), b7.drop_first()));
        assert(b7.drop_first().len() == 0);
        assert(false);
    }
}

/// The stored pairs decoded into history entries, in order: a pair whose
/// key is not eight bytes or whose value is not UTF-8 text is skipped.
pub open spec fn decode_pairs(ps: Seq<(Seq<u8>, Seq<u8>)>) -> Seq<(u64, Seq<char>)>
    decreases ps.len(),
{
    if ps.len() == 0 {
        Seq::<(u64, Seq<char>)>::empty()
    } else {
        let rest = decode_pairs(ps.drop_first());
        if ps[0].0.len() == 8 && valid_utf8(ps[0].1) {
            seq![(be_val(ps[0].0), decode_utf8(ps[0].1))] + rest
        } else {
            rest
        }
    }
}

/// Every entry decoded from `ps` has an identifier above `m`, provided
/// every eight-byte key of `ps` encodes a value above `m`.
proof fn lemma_decode_pairs_above(ps: Seq<(Seq<u8>, Seq<u8>)>, m: u64)
    requires
        forall|j: int|
            0 <= j < ps.len() ==> ((#[trigger] ps[j]).0.len() == 8 ==> m < be_val(ps[j].0)),
    ensures
        forall|i: int|
            0 <= i < decode_pairs(ps).len() ==> m < (#[trigger] decode_pairs(ps)[i]).0,
    decreases ps.len(),
{
    if ps.len() > 0 {
        let rest = ps.drop_first();
        assert forall|j: int|
            0 <= j < rest.len() implies ((#[trigger] rest[j]).0.len() == 8 ==> m < be_val(
            rest[j].0,
        )) by {
            assert(rest[j] == ps[j + 1]);
        }
        lemma_decode_pairs_above(rest, m);
        if ps[0].0.len() == 8 && valid_utf8(ps[0].1) {
            let d = decode_pairs(ps);
            assert(d == seq![(be_val(ps[0].0), decode_utf8(ps[0].1))] + decode_pairs(rest));
            assert(m < be_val(ps[0].0));
            assert forall|i: int| 0 <= i < d.len() implies m < (#[trigger] d[i]).0 by {
                if i > 0 {
                    assert(d[i] == decode_pairs(rest)[i - 1]);
                }
            }
        } else {
            assert(decode_pairs(ps) == decode_pairs(rest));
        }
    }
}

/// Entries decoded from pairs whose keys strictly ascend in byte order
/// have strictly ascending identifiers.
proof fn lemma_decode_pairs_sorted(ps: Seq<(Seq<u8>, Seq<u8>)>)
    requires
        forall|i: int, j: int|
            0 <= i < j < ps.len() ==> bytes_lt((#[trigger] ps[i]).0, (#[trigger] ps[j]).0),
    ensures
        forall|i: int, j: int|
            0 <= i < j < decode_pairs(ps).len() ==> (#[trigger] decode_pairs(ps)[i]).0 < (
            #[trigger] decode_pairs(ps)[j]).0,
    decreases ps.len(),
{
    if ps.len() > 0 {
        let rest = ps.drop_first();
        assert forall|i: int, j: int|
            0 <= i < j < rest.len() implies bytes_lt(
            (#[trigger] rest[i]).0,
            (#[trigger] rest[j]).0,
        ) by {
            assert(rest[i] == ps[i + 1]);
            assert(rest[j] == ps[j + 1]);
        }
        lemma_decode_pairs_sorted(rest);
        if ps[0].0.len() == 8 && valid_utf8(ps[0].1) {
            let m = be_val(ps[0].0);
            assert forall|j: int|
                0 <= j < rest.len() implies ((#[trigger] rest[j]).0.len() == 8 ==> m < be_val(
                rest[j].0,
            )) by {
                if rest[j].0.len() == 8 {
                    assert(rest[j] == ps[j + 1]);
                    assert(bytes_lt(ps[0].0, ps[j + 1].0));
                    lemma_bytes_lt_be_val(ps[0].0, ps[j + 1].0);
                }
            }
            lemma_decode_pairs_above(rest, m);
            let d = decode_pairs(ps);
            assert(d == seq![(m, decode_utf8(ps[0].1))] + decode_pairs(rest));
            assert forall|i: int, j: int|
                0 <= i < j < d.len() implies (#[trigger] d[i]).0 < (#[trigger] d[j]).0 by {
                assert(d[j] == decode_pairs(rest)[j - 1]);
                if i > 0 {
                    assert(d[i] == decode_pairs(rest)[i - 1]);
                } else {
                    assert(d[0].0 == m);
                }
            }
        } else {
            assert(decode_pairs(ps) == decode_pairs(rest));
        }
    }
}

/// Decodes the stored pairs into history entries, as `decode_pairs`
/// describes.
pub fn decode_history(pairs: &Vec<(Vec<u8>, Vec<u8>)>) -> (r: Vec<(u64, String)>)
    ensures
        r.deep_view() == decode_pairs(pairs.deep_view()),
{
    let ghost dv = pairs.deep_view();
    let mut r: Vec<(u64, String)> = Vec::new();
    let mut i: usize = 0;
    proof {
        assert(dv.skip(0) =~= dv);
        assert(r.deep_view() + decode_pairs(dv) =~= decode_pairs(dv));
    }
    while i < pairs.len()
        invariant
            dv == pairs.deep_view(),
            dv.len() == pairs@.len(),
            i <= pairs@.len(),
            decode_pairs(dv) == r.deep_view() + decode_pairs(dv.skip(i as int)),
        decreases pairs@.len() - i,
    {
        let ghost pre = r.deep_view();
        proof {
            assert(dv.skip(i as int)[0] == dv[i as int]);
            assert(dv.skip(i as int).drop_first() =~= dv.skip(i + 1));
            assert(dv[i as int].0 == pairs@[i as int].0@);
            assert(dv[i as int].1 == pairs@[i as int].1@);
        }
        let p = &pairs[i];
        if p.0.len() == 8 {
            let id = u64_from_be_bytes(&p.0);
            match utf8_string(&p.1) {
                Some(text) => {
                    r.push((id, text));
                    proof {
                        assert(r.deep_view() =~= pre.push((id, text@)));
                        assert(pre + (seq![(be_val(dv[i as int].0), decode_utf8(dv[i as int].1))]
                            + decode_pairs(dv.skip(i + 1))) =~= r.deep_view() + decode_pairs(
                            dv.skip(i + 1),
                        ));
                    }
                },
                None => {},
            }
        }
        i = i + 1;
    }
    proof {
        assert(dv.skip(dv.len() as int) =~= Seq::<(Seq<u8>, Seq<u8>)>::empty());
        assert(r.deep_view() + decode_pairs(dv.skip(dv.len() as int)) =~= r.deep_view());
    }
    r
}

/// One rendered history line: the identifier right-aligned to three
/// characters, a separator, and the stored command.
pub open spec fn spec_history_line(e: (u64, Seq<char>)) -> Seq<char> {
    let d = dec_rep(e.0 as nat);
    (if d.len() < 3 {
        spaces((3 - d.len()) as nat)
    } else {
        Seq::<char>::empty()
    }) + d + ": "@ + e.1
}

/// Renders the history entries, one line per entry, in order.
pub fn history_lines(entries: &Vec<(u64, String)>) -> (r: Vec<String>)
    ensures
        r@.len() == entries@.len(),
        forall|i: int|
            0 <= i < r@.len() ==> r@[i]@ == spec_history_line(entries.deep_view()[i]),
{
    let mut r: Vec<String> = Vec::new();
    let mut i: usize = 0;
    while i < entries.len()
        invariant
            i <= entries@.len(),
            r@.len() == i,
            forall|j: int|
                0 <= j < i ==> r@[j]@ == spec_history_line(entries.deep_view()[j]),
        decreases entries@.len() - i,
    {
        let e = &entries[i];
        let ds = dec_string_u64(e.0);
        let l = ds.as_str().unicode_len();
        let mut line = String::new();
        if l < 3 {
            push_spaces(&mut line, (3 - l) as u16);
        }
        line.append(ds.as_str());
        line.append(": ");
        line.append(e.1.as_str());
        proof {
            assert(entries.deep_view()[i as int].0 == entries@[i as int].0);
            assert(entries.deep_view()[i as int].1 == entries@[i as int].1@);
            assert(line@ =~= spec_history_line(entries.deep_view()[i as int]));
        }
        r.push(line);
        i = i + 1;
    }
    r
}

/// The persistent command history, stored in a sled database.
pub struct QvaultHistory {
    pub db: sled::Db,
}

impl QvaultHistory {
    /// Opens or creates the history store at the default path.
    pub fn new() -> Result<QvaultHistory, sled::Error> {
        match db_open("qvault_history.db") {
            Ok(db) => Ok(QvaultHistory { db }),
            Err(e) => Err(e),
        }
    }

    /// Opens or creates a history store at the given path.
    pub fn open_path(path: &str) -> Result<QvaultHistory, sled::Error> {
        match db_open(path) {
            Ok(db) => Ok(QvaultHistory { db }),
            Err(e) => Err(e),
        }
    }

    /// Appends a command to the history under a fresh identifier, encoded
    /// as eight big-endian bytes.
    pub fn add_command(&self, command: &str) -> Result<(), sled::Error> {
        let id = match db_generate_id(&self.db) {
            Ok(id) => id,
            Err(e) => {
                return Err(e);
            },
        };
        let key = u64_to_be_bytes(id);
        match db_insert(&self.db, &key, command.as_bytes()) {
            Ok(_) => Ok(()),
            Err(e) => Err(e),
        }
    }

    /// The whole stored history, oldest first: every stored pair decoded
    /// as `decode_pairs` describes, with the identifiers strictly
    /// ascending — the store iterates its keys in ascending byte order,
    /// and the big-endian encoding preserves the numeric order.
    pub fn get_history(&self) -> (r: Result<Vec<(u64, String)>, sled::Error>)
        ensures
            r is Ok ==> exists|ps: Seq<(Seq<u8>, Seq<u8>)>|
                r->Ok_0.deep_view() == decode_pairs(ps),
            r is Ok ==> forall|i: int, j: int|
                0 <= i < j < r->Ok_0@.len() ==> (#[trigger] r->Ok_0@[i]).0 < (
                #[trigger] r->Ok_0@[j]).0,
    {
        match db_pairs(&self.db) {
            Ok(pairs) => {
                let entries = decode_history(&pairs);
                proof {
                    let dv = pairs.deep_view();
                    assert(entries.deep_view() == decode_pairs(dv));
                    assert forall|i: int, j: int|
                        0 <= i < j < dv.len() implies bytes_lt(
                        (#[trigger] dv[i]).0,
                        (#[trigger] dv[j]).0,
                    ) by {
                        assert(dv[i].0 == pairs@[i].0@);
                        assert(dv[j].0 == pairs@[j].0@);
                        assert(bytes_lt(pairs@[i].0@, pairs@[j].0@));
                    }
                    lemma_decode_pairs_sorted(dv);
                    assert forall|i: int, j: int|
                        0 <= i < j < entries@.len() implies (#[trigger] entries@[i]).0 < (
                        #[trigger] entries@[j]).0 by {
                        assert(entries.deep_view()[i] == (entries@[i].0, entries@[i].1@));
                        assert(entries.deep_view()[j] == (entries@[j].0, entries@[j].1@));
                        assert(entries.deep_view()[i].0 < entries.deep_view()[j].0);
                    }
                }
                Ok(entries)
            },
            Err(e) => Err(e),
        }
    }

    /// Removes the whole stored history.
    pub fn clear_history(&self) -> Result<(), sled::Error> {
        db_clear(&self.db)
    }
}

} // verus!
