//! What the output formats compute from scan results: combined content and
//! evidence hashes, and the pass/fail tallies of a summary.
//!
//! Several results are combined into one hash by sorting their hashes, so
//! that the combination does not depend on the order the files were
//! scanned in.

use vstd::prelude::*;
use vstd::relations::{sorted_by, total_ordering};
use crate::model::concat;
use crate::numfmt::digit_char;
use crate::signing::{hex_lower, sha256, sha256_digest};
use crate::text::{chars_of, string_from_chars, views};

verus! {

broadcast use vstd::seq_lib::group_to_multiset_ensures;

/// Criteria tallies of one scanned policy.
#[derive(Clone, Copy, PartialEq, Eq, Structural, Debug)]
pub struct CriteriaCounts {
    pub total: usize,
    pub passed: usize,
    pub failed: usize,
    pub error: usize,
}

/// What output generation reads of the result of scanning one policy.
#[derive(Debug)]
pub struct ScanResult {
    pub policy_id: String,
    pub platform: String,
    /// Whether the policy's criteria tree passed
    pub tree_passed: bool,
    /// Hash of the policy content
    pub content_hash: String,
    /// Hash of the evidence collected
    pub evidence_hash: String,
    pub criteria_counts: CriteriaCounts,
    pub findings_count: usize,
    /// Criticality of the policy
    pub criticality: Criticality,
}

/// Criticality of a policy.
#[derive(Clone, Copy, PartialEq, Eq, Structural, Debug)]
pub enum Criticality {
    Critical,
    High,
    Medium,
    Low,
    Info,
}

/// Errors of output generation.
#[derive(Debug)]
pub enum OutputError {
    /// Failed to build a result
    Build(String),
    /// Failed to serialize a result
    Serialization(String),
}

impl OutputError {
    /// The error as a message.
    pub fn message(&self) -> (res: String)
        ensures
            res@ == match self {
                OutputError::Build(m) => "Failed to build output: "@ + m@,
                OutputError::Serialization(m) => "Failed to serialize output: "@ + m@,
            },
    {
        proof {
            reveal_strlit("");
        }
        match self {
            OutputError::Build(m) => crate::model::concat3("Failed to build output: ", m.as_str(), ""),
            OutputError::Serialization(m) => crate::model::concat3(
                "Failed to serialize output: ",
                m.as_str(),
                "",
            ),
        }
    }
}

// ---------------------------------------------------------------------------
// Order of texts
// ---------------------------------------------------------------------------

/// Lexicographic order of texts by character (the order of `String`, since
/// UTF-8 keeps the order of characters); a prefix comes first.
pub open spec fn text_le(a: Seq<char>, b: Seq<char>) -> bool
    decreases a.len(),
{
    if a.len() == 0 {
        true
    } else if b.len() == 0 {
        false
    } else if a[0] != b[0] {
        (a[0] as int) < (b[0] as int)
    } else {
        text_le(a.drop_first(), b.drop_first())
    }
}

/// `text_le` as a relation.
pub open spec fn text_order() -> spec_fn(Seq<char>, Seq<char>) -> bool {
    |a: Seq<char>, b: Seq<char>| text_le(a, b)
}

proof fn lemma_text_le_reflexive(a: Seq<char>)
    ensures
        text_le(a, a),
    decreases a.len(),
{
    if a.len() > 0 {
        lemma_text_le_reflexive(a.drop_first());
    }
}

proof fn lemma_text_le_antisymmetric(a: Seq<char>, b: Seq<char>)
    requires
        text_le(a, b),
        text_le(b, a),
    ensures
        a == b,
    decreases a.len(),
{
    if a.len() > 0 && b.len() > 0 {
        lemma_text_le_antisymmetric(a.drop_first(), b.drop_first());
        assert(a =~= seq![a[0]] + a.drop_first());
        assert(b =~= seq![b[0]] + b.drop_first());
    }
}

proof fn lemma_text_le_transitive(a: Seq<char>, b: Seq<char>, c: Seq<char>)
    requires
        text_le(a, b),
        text_le(b, c),
    ensures
        text_le(a, c),
    decreases a.len(),
{
    if a.len() > 0 && b.len() > 0 && c.len() > 0 && a[0] == b[0] && b[0] == c[0] {
        lemma_text_le_transitive(a.drop_first(), b.drop_first(), c.drop_first());
    }
}

proof fn lemma_text_le_total(a: Seq<char>, b: Seq<char>)
    ensures
        text_le(a, b) || text_le(b, a),
    decreases a.len(),
{
    if a.len() > 0 && b.len() > 0 && a[0] == b[0] {
        lemma_text_le_total(a.drop_first(), b.drop_first());
    }
}

/// The order of texts is a total order.
pub proof fn lemma_text_order_total()
    ensures
        total_ordering(text_order()),
{
    assert forall|x: Seq<char>| #[trigger] (text_order())(x, x) by {
        lemma_text_le_reflexive(x);
    }
    assert forall|x: Seq<char>, y: Seq<char>|
        #[trigger] (text_order())(x, y) && #[trigger] (text_order())(y, x) implies x == y by {
        lemma_text_le_antisymmetric(x, y);
    }
    assert forall|x: Seq<char>, y: Seq<char>, z: Seq<char>|
        #[trigger] (text_order())(x, y) && #[trigger] (text_order())(y, z) implies (
        text_order())(x, z) by {
        lemma_text_le_transitive(x, y, z);
    }
    assert forall|x: Seq<char>, y: Seq<char>|
        #[trigger] (text_order())(x, y) || #[trigger] (text_order())(y, x) by {
        lemma_text_le_total(x, y);
    }
}

/// Whether `a` comes before or equals `b`.
pub fn text_le_exec(a: &[char], b: &[char]) -> (res: bool)
    ensures
        res == text_le(a@, b@),
{
    let mut i: usize = 0;
    assert(a@.skip(0) =~= a@);
    assert(b@.skip(0) =~= b@);
    loop
        invariant
            i <= a@.len(),
            i <= b@.len(),
            text_le(a@, b@) == text_le(a@.skip(i as int), b@.skip(i as int)),
        decreases a.len() - i,
    {
        if i == a.len() {
            return true;
        }
        if i == b.len() {
            return false;
        }
        assert(a@.skip(i as int)[0] == a@[i as int]);
        assert(b@.skip(i as int)[0] == b@[i as int]);
        if a[i] != b[i] {
            return a[i] < b[i];
        }
        assert(a@.skip(i as int).drop_first() =~= a@.skip(i + 1));
        assert(b@.skip(i as int).drop_first() =~= b@.skip(i + 1));
        i = i + 1;
    }
}

/// Sorts texts in the order of `text_le`.
pub fn sort_texts(v: &Vec<Vec<char>>) -> (res: Vec<Vec<char>>)
    ensures
        views(res@) == views(v@).sort_by(text_order()),
{
    proof {
        lemma_text_order_total();
    }
    let mut out: Vec<Vec<char>> = Vec::new();
    let mut i: usize = 0;
    while i < v.len()
        invariant
            i <= v@.len(),
            total_ordering(text_order()),
            sorted_by(views(out@), text_order()),
            views(out@).to_multiset() == views(v@).take(i as int).to_multiset(),
        decreases v.len() - i,
    {
        let x = &v[i];
        let mut pos: usize = 0;
        while pos < out.len() && text_le_exec(&out[pos], x)
            invariant
                pos <= out@.len(),
                forall|j: int| 0 <= j < pos ==> text_le(#[trigger] out@[j]@, x@),
            decreases out.len() - pos,
        {
            pos = pos + 1;
        }
        let ghost before = views(out@);
        proof {
            if pos < out@.len() {
                lemma_text_le_total(out@[pos as int]@, x@);
            }
        }
        out.insert(pos, x.clone());
        assert(views(out@) =~= before.insert(pos as int, x@));
        assert(sorted_by(views(out@), text_order())) by {
            assert forall|a: int, b: int| 0 <= a < b < views(out@).len() implies #[trigger] (
            text_order())(views(out@)[a], views(out@)[b]) by {
                if b < pos {
                    assert((text_order())(before[a], before[b]));
                } else if b == pos {
                    assert(text_le(out@[a]@, x@));
                } else if a == pos {
                    if pos + 1 < b {
                        assert((text_order())(before[pos as int], before[b - 1]));
                        lemma_text_le_transitive(x@, before[pos as int], before[b - 1]);
                    }
                } else if a < pos {
                    assert((text_order())(before[a], before[b - 1]));
                } else {
                    assert((text_order())(before[a - 1], before[b - 1]));
                }
            }
        }
        assert(views(v@).take(i + 1) =~= views(v@).take(i as int).push(x@));
        i = i + 1;
    }
    assert(views(v@).take(v@.len() as int) =~= views(v@));
    proof {
        views(v@).lemma_sort_by_ensures(text_order());
        vstd::seq_lib::lemma_sorted_unique(
            views(out@),
            views(v@).sort_by(text_order()),
            text_order(),
        );
    }
    out
}

// ---------------------------------------------------------------------------
// Combined hashes
// ---------------------------------------------------------------------------

/// The UTF-8 encoding of a character.
pub open spec fn utf8_char(c: char) -> Seq<u8> {
    let n = c as int;
    if n < 0x80 {
        seq![n as u8]
    } else if n < 0x800 {
        seq![(0xC0 + n / 64) as u8, (0x80 + n % 64) as u8]
    } else if n < 0x10000 {
        seq![(0xE0 + n / 4096) as u8, (0x80 + (n / 64) % 64) as u8, (0x80 + n % 64) as u8]
    } else {
        seq![
            (0xF0 + n / 262144) as u8,
            (0x80 + (n / 4096) % 64) as u8,
            (0x80 + (n / 64) % 64) as u8,
            (0x80 + n % 64) as u8,
        ]
    }
}

/// The UTF-8 encoding of a text.
pub open spec fn utf8_text(s: Seq<char>) -> Seq<u8>
    decreases s.len(),
{
    if s.len() == 0 {
        Seq::empty()
    } else {
        utf8_text(s.drop_last()) + utf8_char(s.last())
    }
}

/// The bytes hashed to combine texts: each text's UTF-8 bytes followed by
/// `|`, in order.
pub open spec fn joined_bytes(hs: Seq<Seq<char>>) -> Seq<u8>
    decreases hs.len(),
{
    if hs.len() == 0 {
        Seq::empty()
    } else {
        joined_bytes(hs.drop_last()) + utf8_text(hs.last()) + seq![124u8]
    }
}

/// The combination of hashes: `sha256:` and the lower-case hexadecimal
/// SHA-256 of the sorted hashes, each followed by `|`.
pub open spec fn combined_hash(hs: Seq<Seq<char>>) -> Seq<char> {
    "sha256:"@ + hex_lower(sha256(joined_bytes(hs.sort_by(text_order()))))
}

/// Appends the UTF-8 encoding of a character.
fn push_utf8(out: &mut Vec<u8>, c: char)
    ensures
        final(out)@ == old(out)@ + utf8_char(c),
{
    let n = c as u32;
    let ghost o = old(out)@;
    if n < 0x80 {
        out.push(n as u8);
        assert(out@ =~= o + utf8_char(c));
    } else if n < 0x800 {
        out.push((0xC0 + n / 64) as u8);
        out.push((0x80 + n % 64) as u8);
        assert(out@ =~= o + utf8_char(c));
    } else if n < 0x10000 {
        out.push((0xE0 + n / 4096) as u8);
        out.push((0x80 + (n / 64) % 64) as u8);
        out.push((0x80 + n % 64) as u8);
        assert(out@ =~= o + utf8_char(c));
    } else {
        assert(n <= 0x10FFFF);
        out.push((0xF0 + n / 262144) as u8);
        out.push((0x80 + (n / 4096) % 64) as u8);
        out.push((0x80 + (n / 64) % 64) as u8);
        out.push((0x80 + n % 64) as u8);
        assert(out@ =~= o + utf8_char(c));
    }
}

/// Appends the UTF-8 encoding of a text.
fn push_utf8_text(out: &mut Vec<u8>, s: &[char])
    ensures
        final(out)@ == old(out)@ + utf8_text(s@),
{
    let ghost o = old(out)@;
    let mut i: usize = 0;
    while i < s.len()
        invariant
            i <= s@.len(),
            out@ == o + utf8_text(s@.take(i as int)),
        decreases s.len() - i,
    {
        assert(s@.take(i + 1).drop_last() =~= s@.take(i as int));
        push_utf8(out, s[i]);
        assert(out@ =~= o + utf8_text(s@.take(i + 1)));
        i = i + 1;
    }
    assert(s@.take(s@.len() as int) =~= s@);
}

/// Lower-case hexadecimal of bytes, two characters each.
pub fn hex_lower_exec(data: &[u8]) -> (res: Vec<char>)
    ensures
        res@ == hex_lower(data@),
{
    let mut res: Vec<char> = Vec::new();
    let mut i: usize = 0;
    while i < data.len()
        invariant
            i <= data@.len(),
            res@ == hex_lower(data@.take(i as int)),
        decreases data.len() - i,
    {
        assert(data@.take(i + 1).drop_last() =~= data@.take(i as int));
        let b = data[i];
        res.push(crate::numfmt::digit_char_exec((b / 16) as u64, true));
        res.push(crate::numfmt::digit_char_exec((b % 16) as u64, true));
        assert(res@ =~= hex_lower(data@.take(i + 1)));
        i = i + 1;
    }
    assert(data@.take(data@.len() as int) =~= data@);
    res
}

/// A lower-case hexadecimal digit.
pub open spec fn is_lower_hex(c: char) -> bool {
    ('0' <= c && c <= '9') || ('a' <= c && c <= 'f')
}

/// `sha256:` followed by 64 lower-case hexadecimal digits.
pub open spec fn is_sha256_text(s: Seq<char>) -> bool {
    &&& s.len() == 71
    &&& s.take(7) == "sha256:"@
    &&& forall|i: int| 7 <= i < 71 ==> is_lower_hex(#[trigger] s[i])
}

/// Hexadecimal of `n` bytes has `2n` lower-case digits.
proof fn lemma_hex_lower_digits(data: Seq<u8>)
    ensures
        hex_lower(data).len() == 2 * data.len(),
        forall|i: int| 0 <= i < hex_lower(data).len() ==> is_lower_hex(#[trigger] hex_lower(data)[i]),
    decreases data.len(),
{
    if data.len() > 0 {
        lemma_hex_lower_digits(data.drop_last());
        let b = data.last();
        assert((b / 16) < 16 && (b % 16) < 16);
    }
}

/// Combines hashes into one: sorted, each followed by `|`, hashed with
/// SHA-256 and written as `sha256:` and lower-case hexadecimal.
pub fn combine_hashes_sorted(hashes: &Vec<String>) -> (res: Result<String, OutputError>)
    ensures
        res matches Ok(s) && s@ == combined_hash(hashes@.map_values(|h: String| h@))
            && is_sha256_text(s@),
{
    let ghost hv = hashes@.map_values(|h: String| h@);
    let mut texts: Vec<Vec<char>> = Vec::new();
    let mut i: usize = 0;
    while i < hashes.len()
        invariant
            i <= hashes@.len(),
            hv == hashes@.map_values(|h: String| h@),
            views(texts@) == hv.take(i as int),
        decreases hashes.len() - i,
    {
        let ghost before = views(texts@);
        let t = chars_of(hashes[i].as_str());
        assert(t@ == hv[i as int]);
        texts.push(t);
        assert(views(texts@) =~= before.push(hv[i as int]));
        assert(views(texts@) =~= hv.take(i + 1));
        i = i + 1;
    }
    assert(hv.take(hashes@.len() as int) =~= hv);
    let sorted = sort_texts(&texts);
    let ghost sv = views(sorted@);
    let mut bytes: Vec<u8> = Vec::new();
    let mut k: usize = 0;
    while k < sorted.len()
        invariant
            k <= sorted@.len(),
            sv == views(sorted@),
            bytes@ == joined_bytes(sv.take(k as int)),
        decreases sorted.len() - k,
    {
        assert(sv.take(k + 1).drop_last() =~= sv.take(k as int));
        assert(sv.take(k + 1).last() == sorted@[k as int]@);
        push_utf8_text(&mut bytes, &sorted[k]);
        bytes.push(124u8);
        assert(bytes@ =~= joined_bytes(sv.take(k + 1)));
        k = k + 1;
    }
    assert(sv.take(sorted@.len() as int) =~= sv);
    let digest = sha256_digest(bytes.as_slice());
    let hex = hex_lower_exec(&digest);
    proof {
        assert(digest@.len() == 32);
        lemma_hex_lower_digits(digest@);
        reveal_strlit("sha256:");
    }
    let mut out = chars_of("sha256:");
    crate::text::append_chars(&mut out, &hex);
    assert(out@.take(7) =~= "sha256:"@);
    assert(forall|i: int| 7 <= i < 71 ==> out@[i] == hex@[i - 7]);
    Ok(string_from_chars(&out))
}

/// The content hashes of results.
pub open spec fn content_hashes(rs: Seq<ScanResult>) -> Seq<Seq<char>> {
    rs.map_values(|r: ScanResult| r.content_hash@)
}

/// The evidence hashes of results.
pub open spec fn evidence_hashes(rs: Seq<ScanResult>) -> Seq<Seq<char>> {
    rs.map_values(|r: ScanResult| r.evidence_hash@)
}

/// The content and evidence hashes of several results: an error for none,
/// the result's own hashes for one, and the combination of each kind for
/// more.
pub fn combine_scan_hashes(scan_results: &Vec<ScanResult>) -> (res: Result<
    (String, String),
    OutputError,
>)
    ensures
        scan_results@.len() == 0 ==> (res matches Err(OutputError::Build(m)) && m@
            == "At least one scan result is required"@),
        scan_results@.len() == 1 ==> (res matches Ok(p) && p.0@ == scan_results@[0].content_hash@
            && p.1@ == scan_results@[0].evidence_hash@),
        scan_results@.len() > 1 ==> (res matches Ok(p) && p.0@ == combined_hash(
            content_hashes(scan_results@),
        ) && p.1@ == combined_hash(evidence_hashes(scan_results@)) && is_sha256_text(p.0@)
            && is_sha256_text(p.1@)),
{
    if scan_results.len() == 0 {
        return Err(OutputError::Build("At least one scan result is required".to_string()));
    }
    if scan_results.len() == 1 {
        return Ok((scan_results[0].content_hash.clone(), scan_results[0].evidence_hash.clone()));
    }
    let mut contents: Vec<String> = Vec::new();
    let mut evidences: Vec<String> = Vec::new();
    let mut i: usize = 0;
    while i < scan_results.len()
        invariant
            i <= scan_results@.len(),
            contents@.map_values(|h: String| h@) == content_hashes(scan_results@).take(i as int),
            evidences@.map_values(|h: String| h@) == evidence_hashes(scan_results@).take(i as int),
        decreases scan_results.len() - i,
    {
        let ghost cb = contents@.map_values(|h: String| h@);
        let ghost eb = evidences@.map_values(|h: String| h@);
        let c = scan_results[i].content_hash.clone();
        let e = scan_results[i].evidence_hash.clone();
        assert(c@ == content_hashes(scan_results@)[i as int]);
        assert(e@ == evidence_hashes(scan_results@)[i as int]);
        contents.push(c);
        evidences.push(e);
        assert(contents@.map_values(|h: String| h@) =~= cb.push(c@));
        assert(evidences@.map_values(|h: String| h@) =~= eb.push(e@));
        assert(contents@.map_values(|h: String| h@) =~= content_hashes(scan_results@).take(i + 1));
        assert(evidences@.map_values(|h: String| h@) =~= evidence_hashes(scan_results@).take(i + 1));
        i = i + 1;
    }
    assert(content_hashes(scan_results@).take(scan_results@.len() as int) =~= content_hashes(
        scan_results@,
    ));
    assert(evidence_hashes(scan_results@).take(scan_results@.len() as int) =~= evidence_hashes(
        scan_results@,
    ));
    let c = combine_hashes_sorted(&contents)?;
    let e = combine_hashes_sorted(&evidences)?;
    Ok((c, e))
}

/// The combined hash does not depend on the order of the hashes: any two
/// lists holding the same hashes, each as often, combine to the same hash.
pub proof fn law_combined_hash_order_independent(a: Seq<Seq<char>>, b: Seq<Seq<char>>)
    requires
        a.to_multiset() == b.to_multiset(),
    ensures
        combined_hash(a) == combined_hash(b),
{
    lemma_text_order_total();
    a.lemma_sort_by_ensures(text_order());
    b.lemma_sort_by_ensures(text_order());
    vstd::seq_lib::lemma_sorted_unique(
        a.sort_by(text_order()),
        b.sort_by(text_order()),
        text_order(),
    );
}

/// Mapping two sequences that hold the same elements, each as often, gives
/// sequences that hold the same images, each as often.
proof fn lemma_map_multiset<A, B>(a: Seq<A>, b: Seq<A>, f: spec_fn(A) -> B)
    requires
        a.to_multiset() == b.to_multiset(),
    ensures
        a.map_values(f).to_multiset() == b.map_values(f).to_multiset(),
    decreases a.len(),
{
    broadcast use vstd::multiset::group_multiset_axioms;
    vstd::seq_lib::to_multiset_len(a);
    vstd::seq_lib::to_multiset_len(b);
    if a.len() == 0 {
        assert(a.map_values(f) =~= Seq::<B>::empty());
        assert(b.map_values(f) =~= Seq::<B>::empty());
    } else {
        let x = a.last();
        let a0 = a.drop_last();
        assert(a0.push(x) =~= a);
        vstd::seq_lib::to_multiset_build(a0, x);
        assert(a.to_multiset().count(x) > 0);
        vstd::seq_lib::to_multiset_contains(b, x);
        let j = choose|j: int| 0 <= j < b.len() && b[j] == x;
        vstd::seq_lib::to_multiset_remove(b, j);
        assert(a0.to_multiset() =~= b.remove(j).to_multiset());
        lemma_map_multiset(a0, b.remove(j), f);
        assert(a.map_values(f) =~= a0.map_values(f).push(f(x)));
        vstd::seq_lib::to_multiset_build(a0.map_values(f), f(x));
        assert(b.remove(j).map_values(f) =~= b.map_values(f).remove(j));
        vstd::seq_lib::to_multiset_remove(b.map_values(f), j);
        assert(b.map_values(f).to_multiset().count(f(x)) > 0) by {
            vstd::seq_lib::to_multiset_contains(b.map_values(f), f(x));
            assert(b.map_values(f)[j] == f(x));
        }
        assert(a.map_values(f).to_multiset() =~= b.map_values(f).to_multiset());
    }
}

/// Reordering the results does not change their combined hashes.
pub proof fn law_scan_results_order_independent(a: Seq<ScanResult>, b: Seq<ScanResult>)
    requires
        a.to_multiset() == b.to_multiset(),
    ensures
        combined_hash(content_hashes(a)) == combined_hash(content_hashes(b)),
        combined_hash(evidence_hashes(a)) == combined_hash(evidence_hashes(b)),
{
    lemma_map_multiset(a, b, |r: ScanResult| r.content_hash@);
    lemma_map_multiset(a, b, |r: ScanResult| r.evidence_hash@);
    law_scan_hashes_order_independent(a, b);
}

/// The combined hashes of several results depend only on which hashes
/// they hold, each as often, not on the order of the results: results
/// holding the same content hashes (and the same evidence hashes) combine
/// to the same content hash (and evidence hash).
pub proof fn law_scan_hashes_order_independent(a: Seq<ScanResult>, b: Seq<ScanResult>)
    requires
        content_hashes(a).to_multiset() == content_hashes(b).to_multiset(),
        evidence_hashes(a).to_multiset() == evidence_hashes(b).to_multiset(),
    ensures
        combined_hash(content_hashes(a)) == combined_hash(content_hashes(b)),
        combined_hash(evidence_hashes(a)) == combined_hash(evidence_hashes(b)),
{
    law_combined_hash_order_independent(content_hashes(a), content_hashes(b));
    law_combined_hash_order_independent(evidence_hashes(a), evidence_hashes(b));
}

// ---------------------------------------------------------------------------
// Summary tallies
// ---------------------------------------------------------------------------

/// The number of results whose policy passed.
pub open spec fn passed_count(rs: Seq<ScanResult>) -> nat
    decreases rs.len(),
{
    if rs.len() == 0 {
        0
    } else {
        passed_count(rs.drop_last()) + if rs.last().tree_passed {
            1nat
        } else {
            0nat
        }
    }
}

/// Totals of a summary: policies, passed, failed.
#[derive(Clone, Copy, PartialEq, Eq, Structural, Debug)]
pub struct SummaryCounts {
    pub total_policies: usize,
    pub passed: usize,
    pub failed: usize,
}

/// Counts the policies that passed and that failed.
pub fn summary_counts(scan_results: &Vec<ScanResult>) -> (res: SummaryCounts)
    ensures
        res.total_policies == scan_results@.len(),
        res.passed == passed_count(scan_results@),
        res.failed == scan_results@.len() - passed_count(scan_results@),
{
    let mut passed: usize = 0;
    let mut failed: usize = 0;
    let mut i: usize = 0;
    while i < scan_results.len()
        invariant
            i <= scan_results@.len(),
            passed == passed_count(scan_results@.take(i as int)),
            passed + failed == i,
        decreases scan_results.len() - i,
    {
        assert(scan_results@.take(i + 1).drop_last() =~= scan_results@.take(i as int));
        if scan_results[i].tree_passed {
            passed = passed + 1;
        } else {
            failed = failed + 1;
        }
        i = i + 1;
    }
    assert(scan_results@.take(scan_results@.len() as int) =~= scan_results@);
    SummaryCounts { total_policies: scan_results.len(), passed, failed }
}

/// Whether a scan result is compliant: its criteria tree passed.
pub fn is_compliant(result: &ScanResult) -> (res: bool)
    ensures
        res == result.tree_passed,
{
    result.tree_passed
}

/// Every policy of a summary is counted once: passed and failed add up to
/// the total.
pub proof fn law_summary_partition(rs: Seq<ScanResult>)
    ensures
        passed_count(rs) <= rs.len(),
    decreases rs.len(),
{
    if rs.len() > 0 {
        law_summary_partition(rs.drop_last());
    }
}

// ---------------------------------------------------------------------------
// Tallies by criticality and posture weights
// ---------------------------------------------------------------------------

/// The number of results of criticality `c` whose policy passed (`passed`)
/// or failed (`!passed`).
pub open spec fn level_count(rs: Seq<ScanResult>, c: Criticality, passed: bool) -> nat
    decreases rs.len(),
{
    if rs.len() == 0 {
        0
    } else {
        level_count(rs.drop_last(), c, passed) + if rs.last().criticality == c
            && rs.last().tree_passed == passed {
            1nat
        } else {
            0nat
        }
    }
}

/// Passed and failed policies of one criticality.
#[derive(Clone, Copy, PartialEq, Eq, Structural, Debug)]
pub struct LevelTally {
    pub passed: usize,
    pub failed: usize,
}

/// Passed and failed policies of each criticality.
#[derive(Clone, Copy, PartialEq, Eq, Structural, Debug)]
pub struct CriticalityTallies {
    pub critical: LevelTally,
    pub high: LevelTally,
    pub medium: LevelTally,
    pub low: LevelTally,
    pub info: LevelTally,
}

impl CriticalityTallies {
    /// The tally of criticality `c`.
    pub open spec fn of(self, c: Criticality) -> LevelTally {
        match c {
            Criticality::Critical => self.critical,
            Criticality::High => self.high,
            Criticality::Medium => self.medium,
            Criticality::Low => self.low,
            Criticality::Info => self.info,
        }
    }

    /// The tally of criticality `c`.
    pub fn get(&self, c: Criticality) -> (res: LevelTally)
        ensures
            res == self.of(c),
    {
        match c {
            Criticality::Critical => self.critical,
            Criticality::High => self.high,
            Criticality::Medium => self.medium,
            Criticality::Low => self.low,
            Criticality::Info => self.info,
        }
    }
}

fn bump(t: LevelTally, passed: bool) -> (res: LevelTally)
    requires
        t.passed < usize::MAX,
        t.failed < usize::MAX,
    ensures
        res.passed == t.passed + if passed { 1int } else { 0int },
        res.failed == t.failed + if passed { 0int } else { 1int },
{
    if passed {
        LevelTally { passed: t.passed + 1, failed: t.failed }
    } else {
        LevelTally { passed: t.passed, failed: t.failed + 1 }
    }
}

proof fn lemma_level_counts_bounded(rs: Seq<ScanResult>)
    ensures
        forall|c: Criticality, p: bool| #[trigger] level_count(rs, c, p) <= rs.len(),
    decreases rs.len(),
{
    if rs.len() > 0 {
        lemma_level_counts_bounded(rs.drop_last());
        assert forall|c: Criticality, p: bool| #[trigger] level_count(rs, c, p) <= rs.len() by {
            assert(level_count(rs.drop_last(), c, p) <= rs.drop_last().len());
        }
    }
}

/// Counts, for each criticality, the policies that passed and that failed.
pub fn tally_by_criticality(scan_results: &Vec<ScanResult>) -> (res: CriticalityTallies)
    ensures
        forall|c: Criticality|
            #![trigger res.of(c)]
            res.of(c).passed == level_count(scan_results@, c, true) && res.of(c).failed
                == level_count(scan_results@, c, false),
{
    let zero = LevelTally { passed: 0, failed: 0 };
    let mut t = CriticalityTallies { critical: zero, high: zero, medium: zero, low: zero, info: zero };
    let mut i: usize = 0;
    while i < scan_results.len()
        invariant
            i <= scan_results@.len(),
            forall|c: Criticality|
                #![trigger t.of(c)]
                t.of(c).passed == level_count(scan_results@.take(i as int), c, true)
                    && t.of(c).failed == level_count(scan_results@.take(i as int), c, false),
        decreases scan_results.len() - i,
    {
        let ghost before = scan_results@.take(i as int);
        assert(scan_results@.take(i + 1).drop_last() =~= before);
        proof {
            lemma_level_counts_bounded(before);
        }
        let r = &scan_results[i];
        let p = r.tree_passed;
        let ghost old_t = t;
        let ghost after = scan_results@.take(i + 1);
        match r.criticality {
            Criticality::Critical => {
                assert(t.of(Criticality::Critical) == t.critical);
                t.critical = bump(t.critical, p);
            },
            Criticality::High => {
                assert(t.of(Criticality::High) == t.high);
                t.high = bump(t.high, p);
            },
            Criticality::Medium => {
                assert(t.of(Criticality::Medium) == t.medium);
                t.medium = bump(t.medium, p);
            },
            Criticality::Low => {
                assert(t.of(Criticality::Low) == t.low);
                t.low = bump(t.low, p);
            },
            Criticality::Info => {
                assert(t.of(Criticality::Info) == t.info);
                t.info = bump(t.info, p);
            },
        }
        assert forall|c: Criticality| #![trigger t.of(c)]
            t.of(c).passed == level_count(after, c, true) && t.of(c).failed == level_count(
                after,
                c,
                false,
            ) by {
            assert(old_t.of(c).passed == level_count(before, c, true));
            assert(old_t.of(c).failed == level_count(before, c, false));
            assert(after.last() == *r);
        }
        i = i + 1;
    }
    assert(scan_results@.take(scan_results@.len() as int) =~= scan_results@);
    t
}

/// Weight of a criticality in the posture score, in tenths: critical 1.0,
/// high 0.8, medium 0.5, low 0.3, info 0.1.
pub open spec fn weight_tenths(c: Criticality) -> nat {
    match c {
        Criticality::Critical => 10,
        Criticality::High => 8,
        Criticality::Medium => 5,
        Criticality::Low => 3,
        Criticality::Info => 1,
    }
}

/// The weight of a criticality in the posture score, in tenths.
pub fn criticality_weight_tenths(c: Criticality) -> (res: u64)
    ensures
        res == weight_tenths(c),
{
    match c {
        Criticality::Critical => 10,
        Criticality::High => 8,
        Criticality::Medium => 5,
        Criticality::Low => 3,
        Criticality::Info => 1,
    }
}

/// The summed weight, in tenths, of the results (only those that passed if
/// `only_passed`).
pub open spec fn weight_sum(rs: Seq<ScanResult>, only_passed: bool) -> nat
    decreases rs.len(),
{
    if rs.len() == 0 {
        0
    } else {
        weight_sum(rs.drop_last(), only_passed) + if !only_passed || rs.last().tree_passed {
            weight_tenths(rs.last().criticality)
        } else {
            0nat
        }
    }
}

proof fn lemma_weight_sum_bounded(rs: Seq<ScanResult>, only_passed: bool)
    ensures
        weight_sum(rs, only_passed) <= 10 * rs.len(),
    decreases rs.len(),
{
    if rs.len() > 0 {
        lemma_weight_sum_bounded(rs.drop_last(), only_passed);
    }
}

/// The weights, in tenths, behind the posture score: that of the policies
/// that passed and that of all policies. The score is their ratio in
/// percent, and 0 where there is no policy.
pub fn posture_weights(scan_results: &Vec<ScanResult>) -> (res: (u128, u128))
    ensures
        res.0 == weight_sum(scan_results@, true),
        res.1 == weight_sum(scan_results@, false),
{
    let mut passed_weight: u128 = 0;
    let mut total_weight: u128 = 0;
    let mut i: usize = 0;
    while i < scan_results.len()
        invariant
            i <= scan_results@.len(),
            passed_weight == weight_sum(scan_results@.take(i as int), true),
            total_weight == weight_sum(scan_results@.take(i as int), false),
        decreases scan_results.len() - i,
    {
        let ghost before = scan_results@.take(i as int);
        assert(scan_results@.take(i + 1).drop_last() =~= before);
        proof {
            lemma_weight_sum_bounded(before, true);
            lemma_weight_sum_bounded(before, false);
        }
        let w = criticality_weight_tenths(scan_results[i].criticality) as u128;
        total_weight = total_weight + w;
        if scan_results[i].tree_passed {
            passed_weight = passed_weight + w;
        }
        i = i + 1;
    }
    assert(scan_results@.take(scan_results@.len() as int) =~= scan_results@);
    (passed_weight, total_weight)
}

/// Every policy falls in exactly one criticality row, as passed or failed:
/// the rows add up to the total, and their passed columns to the policies
/// that passed.
pub proof fn law_criticality_partition(rs: Seq<ScanResult>)
    ensures
        level_count(rs, Criticality::Critical, true) + level_count(rs, Criticality::High, true)
            + level_count(rs, Criticality::Medium, true) + level_count(rs, Criticality::Low, true)
            + level_count(rs, Criticality::Info, true) == passed_count(rs),
        level_count(rs, Criticality::Critical, true) + level_count(rs, Criticality::Critical, false)
            + level_count(rs, Criticality::High, true) + level_count(rs, Criticality::High, false)
            + level_count(rs, Criticality::Medium, true) + level_count(
            rs,
            Criticality::Medium,
            false,
        ) + level_count(rs, Criticality::Low, true) + level_count(rs, Criticality::Low, false)
            + level_count(rs, Criticality::Info, true) + level_count(rs, Criticality::Info, false)
            == rs.len(),
    decreases rs.len(),
{
    if rs.len() > 0 {
        law_criticality_partition(rs.drop_last());
    }
}

/// The passed weight never exceeds the total weight, and the total weight is
/// zero only where there is no policy: the posture score lies between 0 and
/// 100 percent.
pub proof fn law_posture_weights(rs: Seq<ScanResult>)
    ensures
        weight_sum(rs, true) <= weight_sum(rs, false),
        weight_sum(rs, false) == 0 <==> rs.len() == 0,
    decreases rs.len(),
{
    if rs.len() > 0 {
        law_posture_weights(rs.drop_last());
    }
}

} // verus!
