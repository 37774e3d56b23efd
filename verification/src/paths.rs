//! Data-directory path conventions: the fixed identifiers, path joining, and
//! the derivation of the legacy installation's data directory from the
//! current one.
//!
//! Paths are modelled as text with `/` as the segment separator.  The legacy
//! derivation is a best-effort heuristic over that text, not a guaranteed
//! inverse of how the platform laid the directories out.

use vstd::prelude::*;
use vstd::string::*;

use crate::text::{concat2, concat3, first_match, match_at, replace_first, splice, str_eq};

verus! {

/// The bundle identifier of the current installation.
pub open spec fn current_bundle_identifier() -> Seq<char> {
    "com.solutionsstudio.solostack"@
}

pub fn current_bundle_identifier_str() -> (r: &'static str)
    ensures
        r@ == current_bundle_identifier(),
{
    "com.solutionsstudio.solostack"
}

/// The bundle identifier a prior installation used.
pub open spec fn legacy_bundle_identifier() -> Seq<char> {
    "com.antigravity.solostack"@
}

pub fn legacy_bundle_identifier_str() -> (r: &'static str)
    ensures
        r@ == legacy_bundle_identifier(),
{
    "com.antigravity.solostack"
}

/// The fixed filename of the application database.
pub open spec fn database_filename() -> Seq<char> {
    "solostack.db"@
}

pub fn database_filename_str() -> (r: &'static str)
    ensures
        r@ == database_filename(),
{
    "solostack.db"
}

/// The fixed filename of the startup-migration marker.
pub open spec fn migration_marker_filename() -> Seq<char> {
    "startup-migration-v1.json"@
}

pub fn migration_marker_filename_str() -> (r: &'static str)
    ensures
        r@ == migration_marker_filename(),
{
    "startup-migration-v1.json"
}

/// A directory joined with a file name: a `/` goes between them unless the
/// directory is empty or already ends with one.
pub open spec fn joined(dir: Seq<char>, name: Seq<char>) -> Seq<char> {
    if dir.len() == 0 {
        name
    } else if dir[dir.len() - 1] == '/' {
        dir + name
    } else {
        dir + seq!['/'] + name
    }
}

pub fn join_path(dir: &str, name: &str) -> (r: String)
    ensures
        r@ == joined(dir@, name@),
{
    let n = dir.unicode_len();
    if n == 0 {
        String::from_str(name)
    } else if dir.get_char(n - 1) == '/' {
        concat2(dir, name)
    } else {
        let r = concat3(dir, "/", name);
        proof {
            reveal_strlit("/");
            assert("/"@ =~= seq!['/']);
        }
        r
    }
}

/// The position of the last `/` in the text, if any.
pub open spec fn last_slash(s: Seq<char>) -> Option<int>
    decreases s.len(),
{
    if s.len() == 0 {
        None
    } else if s.last() == '/' {
        Some(s.len() - 1)
    } else {
        last_slash(s.drop_last())
    }
}

/// The text after the last `/`, or the whole text if there is none.
pub open spec fn last_segment(s: Seq<char>) -> Seq<char> {
    match last_slash(s) {
        Some(i) => s.subrange(i + 1, s.len() as int),
        None => s,
    }
}

/// The text up to and including the last `/`, or nothing if there is none.
pub open spec fn parent_prefix(s: Seq<char>) -> Seq<char> {
    match last_slash(s) {
        Some(i) => s.subrange(0, i + 1),
        None => Seq::empty(),
    }
}

proof fn lemma_last_slash_none(s: Seq<char>)
    requires
        forall|k: int| 0 <= k < s.len() ==> s[k] != '/',
    ensures
        last_slash(s) is None,
    decreases s.len(),
{
    if s.len() > 0 {
        lemma_last_slash_none(s.drop_last());
    }
}

proof fn lemma_last_slash_some(s: Seq<char>, j: int)
    requires
        0 <= j < s.len(),
        s[j] == '/',
        forall|k: int| j < k < s.len() ==> s[k] != '/',
    ensures
        last_slash(s) == Some(j),
    decreases s.len(),
{
    if j < s.len() - 1 {
        lemma_last_slash_some(s.drop_last(), j);
    }
}

fn find_last_slash(s: &str) -> (r: Option<usize>)
    ensures
        match r {
            Some(i) => last_slash(s@) == Some(i as int) && i < s@.len(),
            None => last_slash(s@) is None,
        },
{
    let n = s.unicode_len();
    let mut i: usize = n;
    while i > 0 && s.get_char(i - 1) != '/'
        invariant
            n == s@.len(),
            i <= n,
            forall|k: int| i <= k < n ==> s@[k] != '/',
        decreases i,
    {
        i = i - 1;
    }
    if i == 0 {
        proof {
            lemma_last_slash_none(s@);
        }
        None
    } else {
        proof {
            lemma_last_slash_some(s@, i - 1);
        }
        Some(i - 1)
    }
}

/// The legacy data directory the current one points back to, if any: the
/// first occurrence of the current bundle identifier is replaced by the
/// legacy one; failing that, a last path segment equal to the current
/// identifier is swapped for the legacy one; otherwise there is nothing to
/// infer.
pub open spec fn legacy_dir_spec(dir: Seq<char>) -> Option<Seq<char>> {
    match first_match(dir, current_bundle_identifier()) {
        Some(i) => Some(
            splice(dir, i, current_bundle_identifier().len() as int, legacy_bundle_identifier()),
        ),
        None => if last_segment(dir) == current_bundle_identifier() {
            Some(parent_prefix(dir) + legacy_bundle_identifier())
        } else {
            None
        },
    }
}

/// Derives the legacy installation's data directory from the current one, as
/// `legacy_dir_spec` describes.
pub fn derive_legacy_app_data_dir(new_app_data_dir: &str) -> (r: Option<String>)
    ensures
        crate::text::opt_text(r) == legacy_dir_spec(new_app_data_dir@),
{
    let current = current_bundle_identifier_str();
    let legacy = legacy_bundle_identifier_str();
    match replace_first(new_app_data_dir, current, legacy) {
        Some(out) => Some(out),
        None => {
            let n = new_app_data_dir.unicode_len();
            match find_last_slash(new_app_data_dir) {
                Some(i) => {
                    let segment = new_app_data_dir.substring_char(i + 1, n);
                    if str_eq(segment, current) {
                        let parent = new_app_data_dir.substring_char(0, i + 1);
                        Some(concat2(parent, legacy))
                    } else {
                        None
                    }
                },
                None => {
                    if str_eq(new_app_data_dir, current) {
                        proof {
                            assert(parent_prefix(new_app_data_dir@) + legacy_bundle_identifier()
                                =~= legacy_bundle_identifier());
                        }
                        Some(String::from_str(legacy))
                    } else {
                        None
                    }
                },
            }
        },
    }
}

} // verus!
