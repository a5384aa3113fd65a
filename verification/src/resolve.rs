//! Locating the external tool: the ordered list of candidate paths built
//! from the process search path, the first-match rule, and the detection
//! of batch/script executables that need a shell wrapper.
use crate::paths;
use crate::text;
use vstd::prelude::*;
use vstd::string::StrSliceExecFns;
use vstd::string::StringExecFns;

verus! {

/// The executable names tried on each search-path entry, most specific
/// first; only platforms with batch files need the suffixed variants.
pub open spec fn spec_candidate_names(windows: bool) -> Seq<Seq<char>> {
    if windows {
        seq!["gemini.cmd"@, "gemini.exe"@, "gemini.bat"@, "gemini"@]
    } else {
        seq!["gemini"@]
    }
}

/// The executable names tried on each search-path entry, in order.
pub fn candidate_names(windows: bool) -> (r: Vec<String>)
    ensures
        r.deep_view() == spec_candidate_names(windows),
{
    let mut names: Vec<String> = Vec::new();
    if windows {
        names.push(String::from_str("gemini.cmd"));
        names.push(String::from_str("gemini.exe"));
        names.push(String::from_str("gemini.bat"));
        names.push(String::from_str("gemini"));
        assert(names.deep_view() =~~= spec_candidate_names(windows));
    } else {
        names.push(String::from_str("gemini"));
        assert(names.deep_view() =~~= spec_candidate_names(windows));
    }
    names
}

/// The separator between search-path entries.
pub fn path_list_separator(windows: bool) -> (r: char)
    ensures
        r == if windows {
            ';'
        } else {
            ':'
        },
{
    if windows {
        ';'
    } else {
        ':'
    }
}

/// The separator between path segments.
pub fn path_segment_separator(windows: bool) -> (r: char)
    ensures
        r == if windows {
            '\\'
        } else {
            '/'
        },
{
    if windows {
        '\\'
    } else {
        '/'
    }
}

/// Every candidate name joined onto one directory, in name order.
pub open spec fn spec_joined_names(dir: Seq<char>, names: Seq<Seq<char>>, sep: char) -> Seq<
    Seq<char>,
> {
    names.map_values(|n: Seq<char>| paths::spec_join(dir, n, sep))
}

/// The ordered candidate paths: all names on the first directory, then
/// all names on the second, and so on.
pub open spec fn spec_candidate_paths(
    dirs: Seq<Seq<char>>,
    names: Seq<Seq<char>>,
    sep: char,
) -> Seq<Seq<char>>
    decreases dirs.len(),
{
    if dirs.len() == 0 {
        Seq::<Seq<char>>::empty()
    } else {
        spec_joined_names(dirs[0], names, sep) + spec_candidate_paths(dirs.skip(1), names, sep)
    }
}

proof fn lemma_candidate_paths_push(dirs: Seq<Seq<char>>, d: Seq<char>, names: Seq<Seq<char>>, sep: char)
    ensures
        spec_candidate_paths(dirs.push(d), names, sep) == spec_candidate_paths(dirs, names, sep)
            + spec_joined_names(d, names, sep),
    decreases dirs.len(),
{
    if dirs.len() == 0 {
        assert(dirs.push(d)[0] == d);
        assert(dirs.push(d).skip(1) =~~= Seq::<Seq<char>>::empty());
        assert(spec_candidate_paths(dirs.push(d).skip(1), names, sep) =~~= Seq::<
            Seq<char>,
        >::empty());
        assert(spec_candidate_paths(dirs, names, sep) =~~= Seq::<Seq<char>>::empty());
        assert(spec_candidate_paths(dirs.push(d), names, sep) =~~= spec_candidate_paths(
            dirs,
            names,
            sep,
        ) + spec_joined_names(d, names, sep));
    } else {
        assert(dirs.push(d).skip(1) =~~= dirs.skip(1).push(d));
        lemma_candidate_paths_push(dirs.skip(1), d, names, sep);
        assert(dirs.push(d)[0] == dirs[0]);
        assert(spec_candidate_paths(dirs.push(d), names, sep) =~~= spec_candidate_paths(
            dirs,
            names,
            sep,
        ) + spec_joined_names(d, names, sep));
    }
}

/// The ordered candidate paths for the whole search-path value: split it
/// on the list separator, then join every candidate name onto every
/// directory, directories in listed order and names in candidate order.
pub open spec fn spec_search_candidates(path_var: Seq<char>, windows: bool) -> Seq<Seq<char>> {
    spec_candidate_paths(
        text::spec_split(path_var, if windows { ';' } else { ':' }),
        spec_candidate_names(windows),
        if windows { '\\' } else { '/' },
    )
}

/// Build the ordered candidate paths from the search-path value.
pub fn search_candidates(path_var: &str, windows: bool) -> (r: Vec<String>)
    ensures
        r.deep_view() == spec_search_candidates(path_var@, windows),
{
    let list_sep = path_list_separator(windows);
    let seg_sep = path_segment_separator(windows);
    let dirs = text::split_char(path_var, list_sep);
    let names = candidate_names(windows);
    let mut out: Vec<String> = Vec::new();
    let mut i: usize = 0;
    assert(out.deep_view() =~~= spec_candidate_paths(
        dirs.deep_view().take(0),
        names.deep_view(),
        seg_sep,
    ));
    while i < dirs.len()
        invariant
            0 <= i <= dirs.len(),
            dirs.deep_view().len() == dirs.len(),
            names.deep_view() == spec_candidate_names(windows),
            out.deep_view() == spec_candidate_paths(
                dirs.deep_view().take(i as int),
                names.deep_view(),
                seg_sep,
            ),
        decreases dirs.len() - i,
    {
        let dir = &dirs[i];
        let mut j: usize = 0;
        while j < names.len()
            invariant
                0 <= j <= names.len(),
                0 <= i < dirs.len(),
                dirs.deep_view().len() == dirs.len(),
                names.deep_view() == spec_candidate_names(windows),
                dir@ == dirs.deep_view()[i as int],
                out.deep_view() == spec_candidate_paths(
                    dirs.deep_view().take(i as int),
                    names.deep_view(),
                    seg_sep,
                ) + spec_joined_names(dirs.deep_view()[i as int], names.deep_view().take(j as int), seg_sep),
            decreases names.len() - j,
        {
            let p = paths::join_path(dir.as_str(), names[j].as_str(), seg_sep);
            let ghost pre = out.deep_view();
            let ghost p_view = p@;
            out.push(p);
            proof {
                assert(out.deep_view() =~~= pre.push(p_view));
                assert(names.deep_view()[j as int] == names@[j as int]@);
                assert(names.deep_view().take(j + 1) =~~= names.deep_view().take(j as int).push(
                    names.deep_view()[j as int],
                ));
                assert(spec_joined_names(
                    dirs.deep_view()[i as int],
                    names.deep_view().take(j + 1),
                    seg_sep,
                ) =~~= spec_joined_names(
                    dirs.deep_view()[i as int],
                    names.deep_view().take(j as int),
                    seg_sep,
                ).push(paths::spec_join(dirs.deep_view()[i as int], names.deep_view()[j as int], seg_sep)));
                assert(out.deep_view() =~~= spec_candidate_paths(
                    dirs.deep_view().take(i as int),
                    names.deep_view(),
                    seg_sep,
                ) + spec_joined_names(
                    dirs.deep_view()[i as int],
                    names.deep_view().take(j + 1),
                    seg_sep,
                ));
            }
            j += 1;
        }
        proof {
            assert(names.deep_view().take(names.deep_view().len() as int) =~~= names.deep_view());
            lemma_candidate_paths_push(
                dirs.deep_view().take(i as int),
                dirs.deep_view()[i as int],
                names.deep_view(),
                seg_sep,
            );
            assert(dirs.deep_view().take(i + 1) =~~= dirs.deep_view().take(i as int).push(
                dirs.deep_view()[i as int],
            ));
        }
        i += 1;
    }
    assert(dirs.deep_view().take(dirs.deep_view().len() as int) =~~= dirs.deep_view());
    out
}

/// Pick the first candidate that the probe found: `found[i]` says whether
/// `candidates[i]` names an existing regular file.
pub fn pick_first_found(candidates: &Vec<String>, found: &Vec<bool>) -> (r: Option<String>)
    requires
        candidates@.len() == found@.len(),
    ensures
        match r {
            Some(p) => exists|i: int|
                0 <= i < found@.len() && found@[i] && p@ == candidates.deep_view()[i] && (forall|
                    j: int,
                |
                    0 <= j < i ==> !found@[j]),
            None => forall|i: int| 0 <= i < found@.len() ==> !found@[i],
        },
{
    let mut i: usize = 0;
    while i < found.len()
        invariant
            0 <= i <= found@.len(),
            candidates@.len() == found@.len(),
            forall|j: int| 0 <= j < i ==> !found@[j],
        decreases found@.len() - i,
    {
        if found[i] {
            return Some(candidates[i].clone());
        }
        i += 1;
    }
    None
}

/// A batch/script executable, recognized by its extension regardless of
/// ASCII case; such a file must be run through a shell wrapper.
pub open spec fn spec_is_batch_file(path: Seq<char>) -> bool {
    text::ends_with_ignore_case(path, ".cmd"@) || text::ends_with_ignore_case(path, ".bat"@)
}

/// Is `path` a batch/script executable (by its extension, ignoring case)?
pub fn is_batch_file(path: &str) -> (r: bool)
    ensures
        r == spec_is_batch_file(path@),
{
    text::has_suffix_ignore_case(path, ".cmd") || text::has_suffix_ignore_case(path, ".bat")
}

} // verus!
