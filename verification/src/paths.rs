//! Path bookkeeping for documents: the per-document versions directory,
//! timestamped backup names, and extension handling.  A path is modelled
//! as a string of segments joined by a separator character; the functions
//! expect a path that does not end with the separator.
use crate::errors::ClarezaError;
use crate::text;
use vstd::prelude::*;
use vstd::string::StrSliceExecFns;
use vstd::string::StringExecFns;

verus! {

/// The prefix of `s` before its last separator: the whole string without
/// the file name.  A path with no separator has the empty parent; a
/// leading separator alone is kept, so the parent stays absolute.
pub open spec fn spec_parent(s: Seq<char>, sep: char) -> Seq<char> {
    match text::spec_rfind(s, sep) {
        Option::None => Seq::<char>::empty(),
        Option::Some(i) => if i == 0 {
            s.take(1)
        } else {
            s.take(i)
        },
    }
}

/// The suffix of `s` after its last separator: the file name.
pub open spec fn spec_file_name(s: Seq<char>, sep: char) -> Seq<char> {
    match text::spec_rfind(s, sep) {
        Option::None => s,
        Option::Some(i) => s.skip(i + 1),
    }
}

/// Join a directory and a file name, inserting the separator unless the
/// directory is empty or already ends with it.
pub open spec fn spec_join(dir: Seq<char>, name: Seq<char>, sep: char) -> Seq<char> {
    if dir.len() == 0 {
        name
    } else if dir.last() == sep {
        dir + name
    } else {
        dir + seq![sep] + name
    }
}

/// The stem of a file name: everything before the last dot, unless the
/// dot is missing or leads the name (a hidden file keeps its full name).
pub open spec fn spec_stem(name: Seq<char>) -> Seq<char> {
    match text::spec_rfind(name, '.') {
        Option::None => name,
        Option::Some(p) => if p == 0 {
            name
        } else {
            name.take(p)
        },
    }
}

/// The extension of a file name: everything after the last dot, or empty
/// if the dot is missing or leads the name.
pub open spec fn spec_extension(name: Seq<char>) -> Seq<char> {
    match text::spec_rfind(name, '.') {
        Option::None => Seq::<char>::empty(),
        Option::Some(p) => if p == 0 {
            Seq::<char>::empty()
        } else {
            name.skip(p + 1)
        },
    }
}

/// The parent directory of `path`, or a path error for an empty path.
pub fn parent_dir(path: &str, sep: char) -> (r: Result<String, ClarezaError>)
    ensures
        match r {
            Ok(p) => path@.len() > 0 && p@ == spec_parent(path@, sep),
            Err(e) => path@.len() == 0 && (e matches ClarezaError::Path(m) && m@
                == "Cannot determine parent directory"@),
        },
{
    let path_len = path.unicode_len();
    if path_len == 0 {
        return Err(ClarezaError::Path(String::from_str("Cannot determine parent directory")));
    }
    match text::rfind_char(path, sep) {
        Option::None => Ok(String::new()),
        Option::Some(i) => {
            if i == 0 {
                Ok(String::from_str(path.substring_char(0, 1)))
            } else {
                Ok(String::from_str(path.substring_char(0, i)))
            }
        },
    }
}

/// The file name of `path`, or a path error when it is empty (an empty
/// path, or one ending with the separator).
pub fn file_name_of(path: &str, sep: char) -> (r: Result<String, ClarezaError>)
    ensures
        match r {
            Ok(n) => n@ == spec_file_name(path@, sep) && n@.len() > 0,
            Err(e) => spec_file_name(path@, sep).len() == 0 && (e matches ClarezaError::Path(m)
                && m@ == "Invalid file name"@),
        },
{
    let path_len = path.unicode_len();
    let name = match text::rfind_char(path, sep) {
        Option::None => String::from_str(path),
        Option::Some(i) => String::from_str(path.substring_char(i + 1, path_len)),
    };
    if name.as_str().unicode_len() == 0 {
        Err(ClarezaError::Path(String::from_str("Invalid file name")))
    } else {
        Ok(name)
    }
}

/// Join a directory and a file name with the separator.
pub fn join_path(dir: &str, name: &str, sep: char) -> (r: String)
    ensures
        r@ == spec_join(dir@, name@, sep),
{
    let dir_len = dir.unicode_len();
    if dir_len == 0 {
        return String::from_str(name);
    }
    let mut out = String::from_str(dir);
    if dir.get_char(dir_len - 1) != sep {
        out.push(sep);
        assert(out@ =~= dir@ + seq![sep]);
    }
    out.append(name);
    assert(dir@.last() == sep ==> out@ =~= dir@ + name@);
    out
}

/// Where the saved versions of `path` are kept: a `.clareza_versions`
/// directory beside the document, with one subdirectory per file name.
pub open spec fn spec_versions_dir(path: Seq<char>, sep: char) -> Seq<char> {
    spec_join(
        spec_join(spec_parent(path, sep), ".clareza_versions"@, sep),
        spec_file_name(path, sep),
        sep,
    )
}

/// The utility surface for document paths.
pub struct FileUtils;

impl FileUtils {
    /// The directory that holds the saved versions of `path`.
    pub fn get_versions_dir(path: &str, sep: char) -> (r: Result<String, ClarezaError>)
        ensures
            match r {
                Ok(p) => p@ == spec_versions_dir(path@, sep) && path@.len() > 0 && spec_file_name(
                    path@,
                    sep,
                ).len() > 0,
                Err(e) => e matches ClarezaError::Path(m) && (m@
                    == "Cannot determine parent directory"@ || m@ == "Invalid file name"@) && (
                path@.len() == 0 || spec_file_name(path@, sep).len() == 0),
            },
    {
        let parent = match parent_dir(path, sep) {
            Ok(p) => p,
            Err(e) => {
                return Err(e);
            },
        };
        let name = match file_name_of(path, sep) {
            Ok(n) => n,
            Err(e) => {
                return Err(e);
            },
        };
        let base = join_path(parent.as_str(), ".clareza_versions", sep);
        Ok(join_path(base.as_str(), name.as_str(), sep))
    }
}

/// What `format_backup_stamp` returns for a given millisecond value: the
/// compact rendering of that UTC instant.
pub uninterp spec fn backup_stamp_of(ms: i64) -> Seq<char>;

/// Relies on `chrono::DateTime::<Utc>::from_timestamp_millis` and
/// `DateTime::format` with a year-to-second pattern: a compact digits-only
/// rendering, 15 characters for any time up to the year 9999, and a
/// deterministic function of the millisecond value alone.
#[verifier::external_body]
fn format_backup_stamp(ms: i64) -> (r: String)
    requires
        0 <= ms <= 253402300799999,
    ensures
        r@ == backup_stamp_of(ms),
        r@.len() == 15,
{
    let instant = chrono::DateTime::<chrono::Utc>::from_timestamp_millis(ms).unwrap();
    instant.format("%Y%m%d_%H%M%S").to_string()
}

/// The name of a backup of a file with the given stem and extension, made
/// at the given stamp.
pub open spec fn spec_backup_name(stem: Seq<char>, ext: Seq<char>, stamp: Seq<char>) -> Seq<char> {
    if ext.len() == 0 {
        stem + ".backup."@ + stamp
    } else {
        stem + ".backup."@ + stamp + "."@ + ext
    }
}

/// The full path of a backup of `path` stamped with `stamp`: beside the
/// original, named from its stem and extension.
pub open spec fn spec_backup_path(path: Seq<char>, stamp: Seq<char>, sep: char) -> Seq<char> {
    spec_join(
        spec_parent(path, sep),
        spec_backup_name(
            spec_stem(spec_file_name(path, sep)),
            spec_extension(spec_file_name(path, sep)),
            stamp,
        ),
        sep,
    )
}

/// The stem of the file name of `path`.
pub fn stem_of(path: &str, sep: char) -> (r: Result<String, ClarezaError>)
    ensures
        match r {
            Ok(s) => s@ == spec_stem(spec_file_name(path@, sep)) && path@.len() > 0
                && spec_file_name(path@, sep).len() > 0,
            Err(e) => e matches ClarezaError::Path(m) && (path@.len() == 0 || spec_file_name(
                path@,
                sep,
            ).len() == 0),
        },
{
    if path.unicode_len() == 0 {
        return Err(ClarezaError::Path(String::from_str("Cannot determine parent directory")));
    }
    let name = match file_name_of(path, sep) {
        Ok(n) => n,
        Err(e) => {
            return Err(e);
        },
    };
    match text::rfind_char(name.as_str(), '.') {
        Option::None => Ok(name),
        Option::Some(p) => {
            if p == 0 {
                Ok(name)
            } else {
                Ok(String::from_str(name.as_str().substring_char(0, p)))
            }
        },
    }
}

/// The extension of the file name of `path`, empty when there is none.
pub fn extension_of(path: &str, sep: char) -> (r: String)
    ensures
        r@ == spec_extension(spec_file_name(path@, sep)),
{
    let path_len = path.unicode_len();
    let name = match text::rfind_char(path, sep) {
        Option::None => String::from_str(path),
        Option::Some(i) => String::from_str(path.substring_char(i + 1, path_len)),
    };
    let name_len = name.as_str().unicode_len();
    match text::rfind_char(name.as_str(), '.') {
        Option::None => String::new(),
        Option::Some(p) => {
            if p == 0 {
                String::new()
            } else {
                String::from_str(name.as_str().substring_char(p + 1, name_len))
            }
        },
    }
}

impl FileUtils {
    /// Where a backup of `path` made at time `now_ms` (milliseconds since
    /// the Unix epoch, up to the year 9999) is to be written: a sibling
    /// file named from the stem, a timestamp, and the kept extension.
    pub fn create_backup_path(path: &str, now_ms: i64, sep: char) -> (r: Result<
        String,
        ClarezaError,
    >)
        requires
            0 <= now_ms <= 253402300799999,
        ensures
            match r {
                Ok(p) => p@ == spec_backup_path(path@, backup_stamp_of(now_ms), sep)
                    && path@.len() > 0 && spec_file_name(path@, sep).len() > 0,
                Err(e) => e matches ClarezaError::Path(m) && (path@.len() == 0 || spec_file_name(
                    path@,
                    sep,
                ).len() == 0),
            },
    {
        let parent = match parent_dir(path, sep) {
            Ok(p) => p,
            Err(e) => {
                return Err(e);
            },
        };
        let stem = match stem_of(path, sep) {
            Ok(s) => s,
            Err(e) => {
                return Err(e);
            },
        };
        let ext = extension_of(path, sep);
        let stamp = format_backup_stamp(now_ms);
        let mut name = stem;
        name.append(".backup.");
        name.append(stamp.as_str());
        if ext.as_str().unicode_len() > 0 {
            name.push('.');
            name.append(ext.as_str());
            proof {
                reveal_strlit(".");
            }
            assert(name@ =~= spec_backup_name(
                spec_stem(spec_file_name(path@, sep)),
                spec_extension(spec_file_name(path@, sep)),
                backup_stamp_of(now_ms),
            ));
        } else {
            assert(name@ =~= spec_backup_name(
                spec_stem(spec_file_name(path@, sep)),
                spec_extension(spec_file_name(path@, sep)),
                backup_stamp_of(now_ms),
            ));
        }
        Ok(join_path(parent.as_str(), name.as_str(), sep))
    }
}

/// `path` unchanged if its extension is already `md`, else `path` with
/// its extension replaced by (or extended with) `md`.
pub open spec fn spec_with_md(path: Seq<char>, sep: char) -> Seq<char> {
    if spec_extension(spec_file_name(path, sep)) == "md"@ {
        path
    } else {
        spec_join(spec_parent(path, sep), spec_stem(spec_file_name(path, sep)) + ".md"@, sep)
    }
}

/// Give `path` the `md` extension unless it already has it.
pub fn ensure_md_extension(path: &str, sep: char) -> (r: Result<String, ClarezaError>)
    ensures
        match r {
            Ok(p) => p@ == spec_with_md(path@, sep),
            Err(e) => e matches ClarezaError::Path(m) && (path@.len() == 0 || spec_file_name(
                path@,
                sep,
            ).len() == 0),
        },
{
    let ext = extension_of(path, sep);
    if ext == String::from_str("md") {
        return Ok(String::from_str(path));
    }
    let parent = match parent_dir(path, sep) {
        Ok(p) => p,
        Err(e) => {
            return Err(e);
        },
    };
    let mut name = match stem_of(path, sep) {
        Ok(s) => s,
        Err(e) => {
            return Err(e);
        },
    };
    name.append(".md");
    Ok(join_path(parent.as_str(), name.as_str(), sep))
}

/// Backup files of a document with stem `stem` are the directory entries
/// whose names open with the stem followed by the backup marker.
pub fn is_backup_name(entry: &str, stem: &str) -> (r: bool)
    ensures
        r == text::occurs_at(entry@, stem@ + ".backup."@, 0),
{
    let mut pat = String::from_str(stem);
    pat.append(".backup.");
    let entry_len = entry.unicode_len();
    let pat_len = pat.as_str().unicode_len();
    if pat_len > entry_len {
        return false;
    }
    text::match_at(entry, pat.as_str(), 0)
}

/// The full path of one saved version `version` of the document at `path`.
pub fn version_file_path(path: &str, version: &str, sep: char) -> (r: Result<
    String,
    ClarezaError,
>)
    ensures
        match r {
            Ok(p) => p@ == spec_join(spec_versions_dir(path@, sep), version@, sep),
            Err(e) => e matches ClarezaError::Path(m) && (path@.len() == 0 || spec_file_name(
                path@,
                sep,
            ).len() == 0),
        },
{
    let dir = match FileUtils::get_versions_dir(path, sep) {
        Ok(d) => d,
        Err(e) => {
            return Err(e);
        },
    };
    Ok(join_path(dir.as_str(), version, sep))
}

} // verus!
