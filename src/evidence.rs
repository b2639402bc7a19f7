//! Evidence collection rules and record assembly.

use vstd::prelude::*;
use vstd::utf8::encode_utf8;

use crate::digest::{append_bytes, append_le_u64, hex_of, le_bytes, sha256_hex, sha256_of};
use crate::policy::names_of;
use crate::text::{decimal, decimal_string};

verus! {

/// Captured evidence with hashes to support tamper-proofing.
#[derive(Debug, Clone)]
pub struct EvidenceRecord {
    pub evidence_id: String,
    pub sha256: String,
    pub collected_at_unix_ms: u64,
    pub total_bytes: u64,
    pub status: EvidenceStatus,
    pub items: Vec<EvidenceItem>,
    pub notes: Vec<String>,
}

/// Individual evidence artefact stored as part of a collection run.
#[derive(Debug, Clone)]
pub struct EvidenceItem {
    pub item_id: String,
    pub path: String,
    pub sha256: String,
    pub size_bytes: u64,
    pub collected_at_unix_ms: u64,
    pub outcome: EvidenceOutcome,
}

#[derive(Debug, Clone, Copy, PartialEq, Eq, Structural)]
pub enum EvidenceStatus {
    Collected,
    Partial,
    Empty,
}

#[derive(Debug, Clone)]
pub enum EvidenceOutcome {
    Collected,
    Skipped { reason: String },
}

/// Which evidence is collected and how much data is processed. Paths are
/// held as text.
#[derive(Debug, Clone)]
pub struct EvidenceConfig {
    pub root_dir: String,
    pub max_item_bytes: u64,
    pub max_total_bytes: u64,
    pub max_items: usize,
    pub allowed_extensions: Vec<String>,
    pub evidence_paths: Vec<String>,
}

/// Why an artefact is not collected, or that it is.
#[derive(Debug, Clone, Copy, PartialEq, Eq, Structural)]
pub enum ItemVerdict {
    OutsideRoot,
    DisallowedExtension,
    NotRegularFile,
    TooLarge,
    Collect,
}

/// The collection rules for one artefact, in order: it must resolve inside
/// the evidence root, have an allowed extension, be a regular file and fit
/// the per-item limit.
pub open spec fn item_verdict(inside_root: bool, extension_ok: bool, is_file: bool, size: u64, max_item_bytes: u64) -> ItemVerdict {
    if !inside_root {
        ItemVerdict::OutsideRoot
    } else if !extension_ok {
        ItemVerdict::DisallowedExtension
    } else if !is_file {
        ItemVerdict::NotRegularFile
    } else if size > max_item_bytes {
        ItemVerdict::TooLarge
    } else {
        ItemVerdict::Collect
    }
}

pub fn classify_item(inside_root: bool, extension_ok: bool, is_file: bool, size: u64, max_item_bytes: u64) -> (r:
    ItemVerdict)
    ensures
        r == item_verdict(inside_root, extension_ok, is_file, size, max_item_bytes),
{
    if !inside_root {
        ItemVerdict::OutsideRoot
    } else if !extension_ok {
        ItemVerdict::DisallowedExtension
    } else if !is_file {
        ItemVerdict::NotRegularFile
    } else if size > max_item_bytes {
        ItemVerdict::TooLarge
    } else {
        ItemVerdict::Collect
    }
}

impl ItemVerdict {
    pub open spec fn reason(&self) -> Seq<char> {
        match self {
            ItemVerdict::OutsideRoot => "Path outside evidence root"@,
            ItemVerdict::DisallowedExtension => "Disallowed file extension"@,
            ItemVerdict::NotRegularFile => "Not a regular file"@,
            ItemVerdict::TooLarge => "File exceeds per-item limit"@,
            ItemVerdict::Collect => Seq::empty(),
        }
    }

    /// The reason recorded for a skipped artefact.
    pub fn reason_text(&self) -> (r: String)
        ensures
            r@ == self.reason(),
    {
        match self {
            ItemVerdict::OutsideRoot => String::from_str("Path outside evidence root"),
            ItemVerdict::DisallowedExtension => String::from_str("Disallowed file extension"),
            ItemVerdict::NotRegularFile => String::from_str("Not a regular file"),
            ItemVerdict::TooLarge => String::from_str("File exceeds per-item limit"),
            ItemVerdict::Collect => String::new(),
        }
    }
}

/// ASCII upper-case letters mapped to lower case; other characters kept.
pub open spec fn ascii_lower(c: char) -> char {
    if 'A' <= c <= 'Z' {
        (((c as u32) + 32) as u8) as char
    } else {
        c
    }
}

/// Equal but for ASCII case, as `str::eq_ignore_ascii_case` decides.
pub open spec fn eq_ignore_ascii_case(a: Seq<char>, b: Seq<char>) -> bool {
    a.len() == b.len() && forall|i: int| 0 <= i < a.len() ==> ascii_lower(#[trigger] a[i]) == ascii_lower(b[i])
}

fn ascii_lower_exec(c: char) -> (r: char)
    ensures
        r == ascii_lower(c),
{
    if 'A' <= c && c <= 'Z' {
        (((c as u32) + 32) as u8) as char
    } else {
        c
    }
}

pub fn eq_ignore_case(a: &str, b: &str) -> (r: bool)
    ensures
        r == eq_ignore_ascii_case(a@, b@),
{
    let x = crate::text::chars_of(a);
    let y = crate::text::chars_of(b);
    if x.len() != y.len() {
        return false;
    }
    let mut i: usize = 0;
    while i < x.len()
        invariant
            x@ == a@,
            y@ == b@,
            x@.len() == y@.len(),
            i <= x@.len(),
            forall|j: int| 0 <= j < i ==> ascii_lower(#[trigger] x@[j]) == ascii_lower(y@[j]),
        decreases x.len() - i,
    {
        if ascii_lower_exec(x[i]) != ascii_lower_exec(y[i]) {
            return false;
        }
        i = i + 1;
    }
    true
}

/// An empty list allows every extension; otherwise the file must have an
/// extension equal, but for ASCII case, to a listed one.
pub open spec fn extension_allowed(extension: Option<Seq<char>>, allowed: Seq<Seq<char>>) -> bool {
    if allowed.len() == 0 {
        true
    } else {
        match extension {
            None => false,
            Some(ext) => exists|i: int| 0 <= i < allowed.len() && eq_ignore_ascii_case(#[trigger] allowed[i], ext),
        }
    }
}

#[verifier::loop_isolation(false)]
pub fn is_extension_allowed(extension: Option<&str>, allowed: &Vec<String>) -> (r: bool)
    ensures
        r == extension_allowed(
            match extension {
                Some(e) => Some(e@),
                None => None,
            },
            names_of(allowed@),
        ),
{
    if allowed.len() == 0 {
        return true;
    }
    let ext = match extension {
        Some(e) => e,
        None => return false,
    };
    let ghost names = names_of(allowed@);
    let mut i: usize = 0;
    while i < allowed.len()
        invariant
            i <= allowed@.len(),
            names == names_of(allowed@),
            forall|j: int| 0 <= j < i ==> !eq_ignore_ascii_case(#[trigger] names[j], ext@),
        decreases allowed.len() - i,
    {
        if eq_ignore_case(allowed[i].as_str(), ext) {
            assert(eq_ignore_ascii_case(names[i as int], ext@));
            return true;
        }
        i = i + 1;
    }
    false
}

/// What reading one configured path gave: an item, with the bytes it counts
/// and whether it was collected, or an error reading it.
#[derive(Debug, Clone)]
pub enum ItemResult {
    Done { item: EvidenceItem, bytes: u64, collected: bool },
    Failed { path: String, error: String },
}

/// An item as text: what the record and its digest read.
pub struct ItemText {
    pub item_id: Seq<char>,
    pub path: Seq<char>,
    pub sha256: Seq<char>,
    pub size_bytes: u64,
}

impl EvidenceItem {
    pub open spec fn text(&self) -> ItemText {
        ItemText { item_id: self.item_id@, path: self.path@, sha256: self.sha256@, size_bytes: self.size_bytes }
    }
}

pub open spec fn item_texts(items: Seq<EvidenceItem>) -> Seq<ItemText> {
    items.map_values(|i: EvidenceItem| i.text())
}

/// The digest text of no bytes at all.
pub open spec fn empty_digest() -> Seq<char> {
    hex_of(sha256_of(Seq::empty()))
}

/// What a record holds after some results were taken in.
pub struct Assembly {
    pub items: Seq<ItemText>,
    pub notes: Seq<Seq<char>>,
    pub total: u64,
    pub collected_any: bool,
    pub stopped: bool,
}

/// `a + b`, held at `u64::MAX`.
pub open spec fn sat_add(a: u64, b: u64) -> u64 {
    if a + b > u64::MAX {
        u64::MAX
    } else {
        (a + b) as u64
    }
}

/// The results taken in order: a full item list stops the run with a note
/// before the next result, an error becomes a skipped item and a note, and
/// reaching the total limit stops the run with a note after the result.
pub open spec fn assembly(results: Seq<ItemResult>, config: &EvidenceConfig, n: nat) -> Assembly
    decreases n,
{
    if n == 0 {
        Assembly { items: Seq::empty(), notes: Seq::empty(), total: 0, collected_any: false, stopped: false }
    } else {
        let prev = assembly(results, config, (n - 1) as nat);
        if prev.stopped {
            prev
        } else if prev.items.len() >= config.max_items {
            Assembly {
                notes: prev.notes.push("Maximum evidence item count reached."@),
                stopped: true,
                ..prev
            }
        } else {
            let taken = match results[n - 1] {
                ItemResult::Done { item, bytes, collected } => Assembly {
                    items: prev.items.push(item.text()),
                    notes: prev.notes,
                    total: sat_add(prev.total, bytes),
                    collected_any: prev.collected_any || collected,
                    stopped: false,
                },
                ItemResult::Failed { path, error } => Assembly {
                    items: prev.items.push(
                        ItemText {
                            item_id: "item-"@ + decimal((n - 1) as nat),
                            path: path@,
                            sha256: empty_digest(),
                            size_bytes: 0,
                        },
                    ),
                    notes: prev.notes.push("Failed to collect "@ + path@ + ": "@ + error@),
                    ..prev
                },
            };
            if taken.total >= config.max_total_bytes {
                Assembly {
                    notes: taken.notes.push("Maximum total evidence size reached."@),
                    stopped: true,
                    ..taken
                }
            } else {
                taken
            }
        }
    }
}

/// Empty without items; collected when something was collected and nothing
/// was noted; partial otherwise.
pub open spec fn status_of(item_count: nat, collected_any: bool, notes_empty: bool) -> EvidenceStatus {
    if item_count == 0 {
        EvidenceStatus::Empty
    } else if collected_any && notes_empty {
        EvidenceStatus::Collected
    } else {
        EvidenceStatus::Partial
    }
}

pub open spec fn manifest_bytes(items: Seq<ItemText>) -> Seq<u8>
    decreases items.len(),
{
    if items.len() == 0 {
        Seq::empty()
    } else {
        let i = items.last();
        manifest_bytes(items.drop_last()) + encode_utf8(i.item_id) + encode_utf8(i.sha256) + encode_utf8(i.path)
            + le_bytes(i.size_bytes)
    }
}

/// The digest over every item's id, digest, path and size.
pub fn hash_manifest(items: &Vec<EvidenceItem>) -> (r: String)
    ensures
        r@ == hex_of(sha256_of(manifest_bytes(item_texts(items@)))),
{
    let mut covered: Vec<u8> = Vec::new();
    let mut i: usize = 0;
    while i < items.len()
        invariant
            i <= items@.len(),
            covered@ == manifest_bytes(item_texts(items@.subrange(0, i as int))),
        decreases items.len() - i,
    {
        let ghost next = item_texts(items@.subrange(0, i + 1));
        assert(next.drop_last() =~= item_texts(items@.subrange(0, i as int)));
        let item = &items[i];
        append_bytes(&mut covered, item.item_id.as_str().as_bytes());
        append_bytes(&mut covered, item.sha256.as_str().as_bytes());
        append_bytes(&mut covered, item.path.as_str().as_bytes());
        append_le_u64(&mut covered, item.size_bytes);
        i = i + 1;
        assert(covered@ =~= manifest_bytes(item_texts(items@.subrange(0, i as int))));
    }
    assert(items@.subrange(0, items@.len() as int) =~= items@);
    sha256_hex(covered.as_slice())
}

/// The digest text of no bytes at all.
pub fn empty_hash() -> (r: String)
    ensures
        r@ == empty_digest(),
{
    let none: Vec<u8> = Vec::new();
    assert(none@ =~= Seq::<u8>::empty());
    sha256_hex(none.as_slice())
}

/// "item-" and the index.
pub fn item_id(index: usize) -> (r: String)
    ensures
        r@ == "item-"@ + decimal(index as nat),
{
    let number = decimal_string(index as u64);
    String::from_str("item-").concat(number.as_str())
}

/// The record of a run at `collected_at_unix_ms` over the results of reading
/// the configured paths, in order. Without configured paths the record is
/// empty and says so.
pub fn assemble_record(results: &[ItemResult], config: &EvidenceConfig, collected_at_unix_ms: u64) -> (r:
    EvidenceRecord)
    ensures
        r.evidence_id@ == "evd-"@ + decimal(collected_at_unix_ms as nat),
        r.collected_at_unix_ms == collected_at_unix_ms,
        config.evidence_paths@.len() == 0 ==> {
            &&& item_texts(r.items@) == Seq::<ItemText>::empty()
            &&& names_of(r.notes@) == seq![
                "No evidence paths configured; set EVIDENCE_PATHS to collect artefacts."@,
            ]
            &&& r.total_bytes == 0
            &&& r.status == EvidenceStatus::Empty
            &&& r.sha256@ == empty_digest()
        },
        config.evidence_paths@.len() > 0 ==> {
            let a = assembly(results@, config, results@.len());
            &&& item_texts(r.items@) == a.items
            &&& names_of(r.notes@) == a.notes
            &&& r.total_bytes == a.total
            &&& r.status == status_of(a.items.len(), a.collected_any, a.notes.len() == 0)
            &&& r.sha256@ == hex_of(sha256_of(manifest_bytes(a.items)))
        },
{
    let stamp = decimal_string(collected_at_unix_ms);
    let evidence_id = String::from_str("evd-").concat(stamp.as_str());
    let mut notes: Vec<String> = Vec::new();
    if config.evidence_paths.len() == 0 {
        notes.push(String::from_str("No evidence paths configured; set EVIDENCE_PATHS to collect artefacts."));
        let items: Vec<EvidenceItem> = Vec::new();
        assert(item_texts(items@) =~= Seq::<ItemText>::empty());
        assert(names_of(notes@) =~= seq![
            "No evidence paths configured; set EVIDENCE_PATHS to collect artefacts."@,
        ]);
        return EvidenceRecord {
            evidence_id,
            sha256: empty_hash(),
            collected_at_unix_ms,
            total_bytes: 0,
            status: EvidenceStatus::Empty,
            items,
            notes,
        };
    }
    let mut items: Vec<EvidenceItem> = Vec::new();
    let mut total_bytes: u64 = 0;
    let mut collected_any = false;
    let mut stopped = false;
    let mut i: usize = 0;
    while i < results.len()
        invariant
            i <= results@.len(),
            ({
                let a = assembly(results@, config, i as nat);
                &&& item_texts(items@) == a.items
                &&& names_of(notes@) == a.notes
                &&& total_bytes == a.total
                &&& collected_any == a.collected_any
                &&& stopped == a.stopped
            }),
        decreases results.len() - i,
    {
        let ghost before_items = items@;
        let ghost before_notes = notes@;
        if stopped {
        } else if items.len() >= config.max_items {
            notes.push(String::from_str("Maximum evidence item count reached."));
            stopped = true;
            assert(names_of(notes@) =~= names_of(before_notes).push("Maximum evidence item count reached."@));
        } else {
            match &results[i] {
                ItemResult::Done { item, bytes, collected } => {
                    total_bytes = total_bytes.saturating_add(*bytes);
                    collected_any = collected_any || *collected;
                    let kept = EvidenceItem {
                        item_id: item.item_id.clone(),
                        path: item.path.clone(),
                        sha256: item.sha256.clone(),
                        size_bytes: item.size_bytes,
                        collected_at_unix_ms: item.collected_at_unix_ms,
                        outcome: item.outcome.clone(),
                    };
                    items.push(kept);
                    assert(item_texts(items@) =~= item_texts(before_items).push(item.text()));
                },
                ItemResult::Failed { path, error } => {
                    let note = String::from_str("Failed to collect ").concat(path.as_str()).concat(": ").concat(
                        error.as_str(),
                    );
                    notes.push(note);
                    let failed = EvidenceItem {
                        item_id: item_id(i),
                        path: path.clone(),
                        sha256: empty_hash(),
                        size_bytes: 0,
                        collected_at_unix_ms,
                        outcome: EvidenceOutcome::Skipped { reason: String::from_str("Collection error") },
                    };
                    let ghost t = failed.text();
                    items.push(failed);
                    assert(item_texts(items@) =~= item_texts(before_items).push(t));
                    assert(names_of(notes@) =~= names_of(before_notes).push(note@));
                },
            }
            if total_bytes >= config.max_total_bytes {
                let ghost mid = notes@;
                notes.push(String::from_str("Maximum total evidence size reached."));
                stopped = true;
                assert(names_of(notes@) =~= names_of(mid).push("Maximum total evidence size reached."@));
            }
        }
        i = i + 1;
    }
    let status = if items.len() == 0 {
        EvidenceStatus::Empty
    } else if collected_any && notes.len() == 0 {
        EvidenceStatus::Collected
    } else {
        EvidenceStatus::Partial
    };
    let sha256 = hash_manifest(&items);
    EvidenceRecord { evidence_id, sha256, collected_at_unix_ms, total_bytes, status, items, notes }
}

} // verus!
