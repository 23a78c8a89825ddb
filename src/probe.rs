//! Matching a tracked process name against the names in the process table:
//! case-insensitive, and tolerant of a trailing `.exe`.
use vstd::prelude::*;

verus! {

/// Names the lower-case form that `str::to_lowercase` gives.
pub uninterp spec fn lower_of(s: Seq<char>) -> Seq<char>;

/// Relies on `str::to_lowercase`: the result depends on the characters alone.
#[verifier::external_body]
fn lowercase(s: &str) -> (r: String)
    ensures
        r@ == lower_of(s@),
{
    s.to_lowercase()
}

pub open spec fn exe_suffix() -> Seq<char> {
    seq!['.', 'e', 'x', 'e']
}

pub open spec fn ends_with_exe(s: Seq<char>) -> bool {
    s.len() >= 4 && s.subrange(s.len() - 4, s.len() as int) == exe_suffix()
}

/// `s` with every trailing `.exe` removed, repeatedly.
pub open spec fn trim_exe(s: Seq<char>) -> Seq<char>
    decreases s.len(),
{
    if ends_with_exe(s) {
        trim_exe(s.subrange(0, s.len() - 4))
    } else {
        s
    }
}

/// A lower-cased process name matches the key when it equals it, with or
/// without its trailing `.exe`.
pub open spec fn names_match(candidate_lower: Seq<char>, key: Seq<char>) -> bool {
    candidate_lower == key || trim_exe(candidate_lower) == key
}

/// The key that process names are compared with: the tracked name
/// lower-cased, then without its trailing `.exe`.
pub open spec fn match_key(process_name: Seq<char>) -> Seq<char> {
    trim_exe(lower_of(process_name))
}

fn ends_with_exe_at(s: &str, end: usize) -> (r: bool)
    requires
        end <= s@.len(),
    ensures
        r == ends_with_exe(s@.subrange(0, end as int)),
{
    if end < 4 {
        return false;
    }
    let a = s.get_char(end - 4);
    let b = s.get_char(end - 3);
    let c = s.get_char(end - 2);
    let d = s.get_char(end - 1);
    let r = a == '.' && b == 'e' && c == 'x' && d == 'e';
    proof {
        let t = s@.subrange(0, end as int);
        let tail = t.subrange(t.len() - 4, t.len() as int);
        if r {
            assert(tail =~= exe_suffix());
        } else {
            if tail == exe_suffix() {
                assert(tail[0] == a && tail[1] == b && tail[2] == c && tail[3] == d);
            }
        }
    }
    r
}

/// `s` with every trailing `.exe` removed.
pub fn trim_exe_suffix(s: &str) -> (r: &str)
    ensures
        r@ == trim_exe(s@),
{
    let mut end = s.unicode_len();
    proof {
        assert(s@.subrange(0, end as int) =~= s@);
    }
    while ends_with_exe_at(s, end)
        invariant
            end <= s@.len(),
            trim_exe(s@.subrange(0, end as int)) == trim_exe(s@),
        decreases end,
    {
        proof {
            let t = s@.subrange(0, end as int);
            assert(t.subrange(0, t.len() - 4) =~= s@.subrange(0, end - 4));
        }
        end = end - 4;
    }
    s.substring_char(0, end)
}

/// Whether a lower-cased process name matches the key.
pub fn lowered_names_match(candidate_lower: &str, key: &str) -> (r: bool)
    ensures
        r == names_match(candidate_lower@, key@),
{
    let k = String::from_str(key);
    let full = String::from_str(candidate_lower);
    if full == k {
        return true;
    }
    let trimmed = String::from_str(trim_exe_suffix(candidate_lower));
    trimmed == k
}

/// Whether the process table entry `candidate` is the process `process_name`.
pub fn process_name_matches(candidate: &str, process_name: &str) -> (r: bool)
    ensures
        r == names_match(lower_of(candidate@), match_key(process_name@)),
{
    let lowered = lowercase(process_name);
    let key = String::from_str(trim_exe_suffix(lowered.as_str()));
    let cand = lowercase(candidate);
    lowered_names_match(cand.as_str(), key.as_str())
}

/// Whether any of the running processes' names is the process `process_name`.
pub fn is_process_running(running_names: &Vec<String>, process_name: &str) -> (r: bool)
    ensures
        r == exists|i: int|
            0 <= i < running_names@.len() && names_match(
                lower_of(#[trigger] running_names@[i]@),
                match_key(process_name@),
            ),
{
    let lowered = lowercase(process_name);
    let key = String::from_str(trim_exe_suffix(lowered.as_str()));
    let mut i: usize = 0;
    while i < running_names.len()
        invariant
            i <= running_names@.len(),
            key@ == match_key(process_name@),
            forall|j: int|
                0 <= j < i ==> !names_match(lower_of(#[trigger] running_names@[j]@), key@),
        decreases running_names@.len() - i,
    {
        let cand = lowercase(running_names[i].as_str());
        if lowered_names_match(cand.as_str(), key.as_str()) {
            return true;
        }
        i = i + 1;
    }
    false
}

} // verus!
