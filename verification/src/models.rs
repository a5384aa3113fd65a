//! Data model of the document side: documents, metadata, file-operation
//! results and backup records.  Times are carried as milliseconds since the
//! Unix epoch; identifiers come from the `uuid` crate behind a trusted
//! wrapper.
use vstd::prelude::*;
use vstd::string::StrSliceExecFns;
use vstd::string::StringExecFns;
use vstd::string::StringSliceAdditionalSpecFns;
use crate::text::is_space;
use crate::text::is_space_char;
use vstd::multiset::Multiset;

verus! {

/// Metadata of one document.  Timestamps are milliseconds since the Unix
/// epoch, UTC.
#[derive(Debug, Clone)]
pub struct DocumentMetadata {
    pub id: String,
    pub title: String,
    pub created_at_ms: i64,
    pub modified_at_ms: i64,
    pub word_count: u32,
    pub character_count: u32,
    pub language: String,
    pub tags: Vec<String>,
    pub version: u32,
}

/// A document as persisted: its metadata, body and format tag.
#[derive(Debug, Clone)]
pub struct ClarezaDocument {
    pub metadata: DocumentMetadata,
    pub content: String,
    pub format_version: String,
}

/// Result record of one file-level operation, handed to the UI.
#[derive(Debug, Clone)]
pub struct FileOperation {
    pub success: bool,
    pub message: String,
    pub path: Option<String>,
    pub content: Option<String>,
    pub metadata: Option<DocumentMetadata>,
}

/// Record of one backup copy of a document.
#[derive(Debug, Clone)]
pub struct BackupInfo {
    pub id: String,
    pub original_path: String,
    pub backup_path: String,
    pub created_at_ms: i64,
    pub size_bytes: u64,
}

/// A recently opened file, as shown in the UI.
#[derive(Debug, Clone)]
pub struct RecentFile {
    pub path: String,
    pub title: String,
    pub last_opened_ms: i64,
    pub exists: bool,
}

/// Options for exporting a document to another format.
#[derive(Debug, Clone)]
pub struct ExportOptions {
    pub format: String,
    pub include_metadata: bool,
    pub template: Option<String>,
}

/// Relies on `uuid::Uuid::new_v4` and its default `Display` form: a fresh
/// random identifier rendered as 36 hyphenated ASCII characters.
#[verifier::external_body]
fn fresh_id() -> (r: String)
    ensures
        r@.len() == 36,
{
    uuid::Uuid::new_v4().to_string()
}

/// Relies on `chrono::Utc::now`: the current wall-clock time in
/// milliseconds since the Unix epoch.  Nothing can be promised of it.
#[verifier::external_body]
fn now_millis() -> i64 {
    chrono::Utc::now().timestamp_millis()
}

/// Number of words (maximal runs of non-whitespace) among the first `n`
/// characters of `s`, counted by their starting positions.
pub open spec fn count_words_prefix(s: Seq<char>, n: int) -> int
    decreases n,
{
    if n <= 0 {
        0
    } else {
        count_words_prefix(s, n - 1) + if word_starts_at(s, n - 1) {
            1 as int
        } else {
            0 as int
        }
    }
}

/// A word starts at position `i` of `s`.
pub open spec fn word_starts_at(s: Seq<char>, i: int) -> bool {
    0 <= i < s.len() && !is_space(s[i]) && (i == 0 || is_space(s[i - 1]))
}

/// Number of whitespace-separated words in `s`.
pub open spec fn count_words(s: Seq<char>) -> int {
    count_words_prefix(s, s.len() as int)
}

/// Count the whitespace-separated words of `s`.
pub fn word_count_of(s: &str) -> (r: usize)
    ensures
        r == count_words(s@),
        r <= s@.len(),
{
    let s_len = s.unicode_len();
    let mut count: usize = 0;
    let mut prev_space = true;
    let mut i: usize = 0;
    while i < s_len
        invariant
            0 <= i <= s_len,
            s_len == s@.len(),
            count == count_words_prefix(s@, i as int),
            count <= i,
            prev_space == (i == 0 || is_space(s@[i - 1])),
        decreases s_len - i,
    {
        let c = s.get_char(i);
        if !is_space_char(c) && prev_space {
            count += 1;
        }
        prev_space = is_space_char(c);
        i += 1;
    }
    count
}

/// Fresh metadata for a new document titled `title`: a fresh identifier,
/// equal creation and modification times, zero statistics, language
/// `pt-BR` and version 1.
pub fn create_document_metadata(title: &str) -> (r: DocumentMetadata)
    ensures
        r.id@.len() == 36,
        r.title@ == title@,
        r.created_at_ms == r.modified_at_ms,
        r.word_count == 0,
        r.character_count == 0,
        r.language@ == "pt-BR"@,
        r.tags@.len() == 0,
        r.version == 1,
{
    let now = now_millis();
    DocumentMetadata {
        id: fresh_id(),
        title: String::from_str(title),
        created_at_ms: now,
        modified_at_ms: now,
        word_count: 0,
        character_count: 0,
        language: String::from_str("pt-BR"),
        tags: Vec::new(),
        version: 1,
    }
}

/// Refresh the content statistics of `metadata` for `content`: byte count,
/// word count and a new modification time.  All other fields are kept.
pub fn update_content_stats(metadata: &mut DocumentMetadata, content: &str)
    requires
        content@.len() <= u32::MAX,
        content.spec_bytes().len() <= u32::MAX,
    ensures
        final(metadata).character_count == content.spec_bytes().len(),
        final(metadata).word_count == count_words(content@),
        final(metadata).id == old(metadata).id,
        final(metadata).title == old(metadata).title,
        final(metadata).created_at_ms == old(metadata).created_at_ms,
        final(metadata).language == old(metadata).language,
        final(metadata).tags == old(metadata).tags,
        final(metadata).version == old(metadata).version,
{
    metadata.character_count = content.len() as u32;
    let words = word_count_of(content);
    metadata.word_count = words as u32;
    metadata.modified_at_ms = now_millis();
}

/// A new, empty document titled `title`, reported as a successful
/// operation carrying the empty content and the fresh metadata.
pub fn create_document(title: &str) -> (r: FileOperation)
    ensures
        r.success == true,
        r.message@ == "Document created successfully"@,
        r.path is None,
        r.content matches Some(c) && c@.len() == 0,
        r.metadata matches Some(m) && m.title@ == title@ && m.word_count == 0
            && m.character_count == 0 && m.version == 1 && m.id@.len() == 36,
{
    let metadata = create_document_metadata(title);
    FileOperation {
        success: true,
        message: String::from_str("Document created successfully"),
        path: None,
        content: Some(String::new()),
        metadata: Some(metadata),
    }
}

/// Record of a backup copy just made of `original_path` at `backup_path`,
/// `size_bytes` long, stamped with the current time and a fresh identifier.
pub fn make_backup_info(original_path: &str, backup_path: &str, size_bytes: u64) -> (r: BackupInfo)
    ensures
        r.id@.len() == 36,
        r.original_path@ == original_path@,
        r.backup_path@ == backup_path@,
        r.size_bytes == size_bytes,
{
    BackupInfo {
        id: fresh_id(),
        original_path: String::from_str(original_path),
        backup_path: String::from_str(backup_path),
        created_at_ms: now_millis(),
        size_bytes,
    }
}

/// Backups ordered newest first.
pub open spec fn backups_sorted_desc(s: Seq<BackupInfo>) -> bool {
    forall|i: int, j: int| 0 <= i < j < s.len() ==> s[i].created_at_ms >= s[j].created_at_ms
}

/// Order backups newest first: the result is a permutation of the input,
/// sorted by creation time, descending.
pub fn sort_backups_desc(items: Vec<BackupInfo>) -> (r: Vec<BackupInfo>)
    ensures
        backups_sorted_desc(r@),
        r@.to_multiset() == items@.to_multiset(),
        r@.len() == items@.len(),
{
    broadcast use vstd::seq_lib::group_to_multiset_ensures;

    let ghost all = items@.to_multiset();
    let mut rest = items;
    let mut out: Vec<BackupInfo> = Vec::new();
    proof {
        assert(out@.to_multiset().add(rest@.to_multiset()) =~= all);
    }
    while rest.len() > 0
        invariant
            out@.to_multiset().add(rest@.to_multiset()) == all,
            out@.len() + rest@.len() == all.len(),
            backups_sorted_desc(out@),
            forall|i: int, j: int|
                0 <= i < out@.len() && 0 <= j < rest@.len() ==> out@[i].created_at_ms
                    >= rest@[j].created_at_ms,
        decreases rest.len(),
    {
        let mut m: usize = 0;
        let mut k: usize = 1;
        while k < rest.len()
            invariant
                0 <= m < k <= rest@.len(),
                rest@.len() > 0,
                forall|j: int| 0 <= j < k ==> rest@[m as int].created_at_ms >= rest@[j].created_at_ms,
            decreases rest@.len() - k,
        {
            if rest[k].created_at_ms > rest[m].created_at_ms {
                m = k;
            }
            k += 1;
        }
        let ghost rest_pre = rest@;
        let ghost out_pre = out@;
        let item = rest.remove(m);
        out.push(item);
        proof {
            assert(rest@ =~= rest_pre.remove(m as int));
            assert(out@ =~= out_pre.push(rest_pre[m as int]));
            vstd::seq_lib::to_multiset_build(out_pre, rest_pre[m as int]);
            vstd::seq_lib::to_multiset_remove(rest_pre, m as int);
            assert(out@.to_multiset() =~= out_pre.to_multiset().insert(rest_pre[m as int]));
            assert(rest@.to_multiset() =~= rest_pre.to_multiset().remove(rest_pre[m as int]));
            assert(rest_pre.contains(rest_pre[m as int]));
            vstd::seq_lib::to_multiset_contains(rest_pre, rest_pre[m as int]);
            assert(rest_pre.to_multiset().count(rest_pre[m as int]) > 0);
            assert(out@.to_multiset().add(rest@.to_multiset()) =~= out_pre.to_multiset().add(
                rest_pre.to_multiset(),
            ));
            assert(forall|j: int|
                0 <= j < rest@.len() ==> rest@[j] == rest_pre[
                    if j < m {
                        j
                    } else {
                        j + 1
                    }
                ]);
        }
    }
    proof {
        assert(rest@.to_multiset() =~= Multiset::<BackupInfo>::empty());
        assert(out@.to_multiset() =~= all);
    }
    out
}

/// The list of recently opened files; none are tracked yet.
pub fn get_recent_files() -> (r: Vec<RecentFile>)
    ensures
        r@.len() == 0,
{
    Vec::new()
}

} // verus!
