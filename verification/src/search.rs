//! The external-command lookup: splitting the search-path value into
//! directories, forming the candidate file path for each directory,
//! and selecting the first candidate that the file system confirmed.
//! Whether a candidate names an existing regular file is a question
//! about the world outside, so the caller probes the candidates and
//! hands the answers back; the selection itself is verified.

use vstd::prelude::*;
use crate::text::joined_with;

verus! {

/// Splits the search-path value at every `:` into directory entries.
/// The result is pinned down by its re-joining: gluing the entries
/// back together with `:` gives back the input, and no entry contains
/// a `:` of its own.
#[verifier::loop_isolation(false)]
pub fn split_search_path(path: &str) -> (r: Vec<String>)
    ensures
        r.deep_view().len() >= 1,
        joined_with(r.deep_view(), ":"@) == path@,
        forall|i: int| 0 <= i < r.deep_view().len() ==> !#[trigger] r.deep_view()[i].contains(':'),
{
    proof {
        reveal_strlit(":");
    }
    let len = path.unicode_len();
    let mut result: Vec<String> = Vec::new();
    let mut cur = String::new();
    let mut i: usize = 0;
    while i < len
        invariant
            len == path@.len(),
            i <= len,
            joined_with(result.deep_view().push(cur@), ":"@) == path@.take(i as int),
            forall|k: int|
                0 <= k < result.deep_view().len() ==> !#[trigger] result.deep_view()[k].contains(
                    ':',
                ),
            !cur@.contains(':'),
        decreases len - i,
    {
        let ghost prev = result.deep_view().push(cur@);
        let ghost r0 = result.deep_view();
        let c = path.get_char(i);
        proof {
            assert(path@.take(i + 1) =~= path@.take(i as int) + seq![path@[i as int]]);
        }
        if c == ':' {
            result.push(cur);
            cur = String::new();
            proof {
                assert(result.deep_view() =~= prev);
                let d = result.deep_view().push(cur@);
                assert(d.drop_last() =~= prev);
                assert(d.last() =~= Seq::<char>::empty());
                assert(joined_with(d, ":"@) == joined_with(prev, ":"@) + ":"@ + d.last());
                assert(seq![path@[i as int]] =~= ":"@);
                assert(joined_with(d, ":"@) =~= path@.take(i + 1));
            }
        } else {
            let piece = path.substring_char(i, i + 1);
            cur.append(piece);
            proof {
                assert(piece@ =~= seq![path@[i as int]]);
                let d = result.deep_view().push(cur@);
                assert(result.deep_view() == r0);
                if d.len() == 1 {
                    assert(prev.len() == 1);
                    assert(joined_with(d, ":"@) == d.last());
                    assert(joined_with(prev, ":"@) == prev.last());
                    assert(joined_with(d, ":"@) =~= path@.take(i + 1));
                } else {
                    assert(d.drop_last() =~= prev.drop_last());
                    assert(joined_with(d, ":"@) == joined_with(d.drop_last(), ":"@) + ":"@
                        + d.last());
                    assert(joined_with(prev, ":"@) == joined_with(prev.drop_last(), ":"@) + ":"@
                        + prev.last());
                    assert(joined_with(d, ":"@) =~= path@.take(i + 1));
                }
                assert(forall|k: int| 0 <= k < cur@.len() ==> cur@[k] != ':');
            }
        }
        i = i + 1;
    }
    let ghost pre_final = result.deep_view().push(cur@);
    result.push(cur);
    proof {
        assert(result.deep_view() =~= pre_final);
        assert(path@.take(len as int) =~= path@);
    }
    result
}

/// The file path a directory entry contributes for a command name:
/// the directory and the name, with a `/` between them unless the
/// directory already ends in one or is empty.
pub open spec fn path_join(dir: Seq<char>, name: Seq<char>) -> Seq<char> {
    if dir.len() == 0 {
        name
    } else if dir.last() == '/' {
        dir + name
    } else {
        dir + "/"@ + name
    }
}

/// Forms, in order, the candidate file path of every directory entry.
#[verifier::loop_isolation(false)]
pub fn candidate_paths(dirs: &Vec<String>, cmd: &str) -> (r: Vec<String>)
    ensures
        r.deep_view().len() == dirs.deep_view().len(),
        forall|i: int|
            0 <= i < dirs.deep_view().len() ==> #[trigger] r.deep_view()[i] == path_join(
                dirs.deep_view()[i],
                cmd@,
            ),
{
    let mut r: Vec<String> = Vec::new();
    let mut i: usize = 0;
    while i < dirs.len()
        invariant
            i <= dirs@.len(),
            r.deep_view().len() == i,
            forall|k: int|
                0 <= k < i ==> #[trigger] r.deep_view()[k] == path_join(
                    dirs.deep_view()[k],
                    cmd@,
                ),
        decreases dirs@.len() - i,
    {
        let dir = &dirs[i];
        let n = dir.unicode_len();
        let candidate = if n == 0 {
            String::from_str(cmd)
        } else if dir.as_str().get_char(n - 1) == '/' {
            let mut s = dir.clone();
            s.append(cmd);
            s
        } else {
            let mut s = dir.clone();
            s.append("/");
            s.append(cmd);
            s
        };
        let ghost r0 = r.deep_view();
        let ghost cand = candidate@;
        r.push(candidate);
        proof {
            assert(r.deep_view() =~= r0.push(cand));
            assert(dirs.deep_view()[i as int] == dirs@[i as int]@);
            assert(r.deep_view()[i as int] == path_join(dirs.deep_view()[i as int], cmd@));
        }
        i = i + 1;
    }
    r
}

/// The position of the first `true` in a sequence of answers.
pub open spec fn first_true(flags: Seq<bool>) -> Option<int>
    decreases flags.len(),
{
    if flags.len() == 0 {
        None
    } else if flags[0] {
        Some(0)
    } else {
        match first_true(flags.drop_first()) {
            Some(i) => Some(i + 1),
            None => None,
        }
    }
}

proof fn lemma_first_true_none(flags: Seq<bool>)
    requires
        forall|j: int| 0 <= j < flags.len() ==> !flags[j],
    ensures
        first_true(flags) is None,
    decreases flags.len(),
{
    if flags.len() > 0 {
        let rest = flags.drop_first();
        assert(forall|j: int| 0 <= j < rest.len() ==> #[trigger] rest[j] == flags[j + 1]);
        lemma_first_true_none(rest);
    }
}

proof fn lemma_first_true_at(flags: Seq<bool>, i: int)
    requires
        0 <= i < flags.len(),
        flags[i],
        forall|j: int| 0 <= j < i ==> !flags[j],
    ensures
        first_true(flags) == Some(i),
    decreases i,
{
    if i > 0 {
        let rest = flags.drop_first();
        assert(forall|j: int| 0 <= j < rest.len() ==> #[trigger] rest[j] == flags[j + 1]);
        lemma_first_true_at(rest, i - 1);
    }
}

/// Selects the first candidate that the file-system probe confirmed:
/// `is_file[i]` answers whether `candidates[i]` names an existing
/// regular file. Returns that candidate, or nothing when no probe
/// answered yes.
#[verifier::loop_isolation(false)]
pub fn find_external_cmd(candidates: &Vec<String>, is_file: &Vec<bool>) -> (r: Option<String>)
    requires
        candidates@.len() == is_file@.len(),
    ensures
        match r {
            Some(p) => first_true(is_file@) matches Some(i) && 0 <= i < candidates@.len() && p@
                == candidates.deep_view()[i],
            None => first_true(is_file@) is None,
        },
{
    let mut i: usize = 0;
    while i < candidates.len()
        invariant
            i <= candidates@.len(),
            forall|j: int| 0 <= j < i ==> !is_file@[j],
        decreases candidates@.len() - i,
    {
        if is_file[i] {
            proof {
                lemma_first_true_at(is_file@, i as int);
            }
            return Some(candidates[i].clone());
        }
        i = i + 1;
    }
    proof {
        lemma_first_true_none(is_file@);
    }
    None
}

} // verus!
