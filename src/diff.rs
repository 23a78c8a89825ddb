//! Line-granularity detection of added content between two text snapshots.
use vstd::prelude::*;

verus! {

/// Splitting text at `'\n'`: the pieces ended by a newline so far, and the
/// unfinished piece after the last newline.
pub open spec fn split_newlines(s: Seq<char>) -> (Seq<Seq<char>>, Seq<char>)
    decreases s.len(),
{
    if s.len() == 0 {
        (Seq::empty(), Seq::empty())
    } else {
        let (done, cur) = split_newlines(s.drop_last());
        if s.last() == '\n' {
            (done.push(strip_cr(cur)), Seq::empty())
        } else {
            (done, cur.push(s.last()))
        }
    }
}

/// A line ended by `"\r\n"` loses its carriage return.
pub open spec fn strip_cr(line: Seq<char>) -> Seq<char> {
    if line.len() > 0 && line.last() == '\r' {
        line.drop_last()
    } else {
        line
    }
}

/// The lines of a text: split at `'\n'` or `"\r\n"`, terminators removed,
/// the final terminator optional.
pub open spec fn lines_of(s: Seq<char>) -> Seq<Seq<char>> {
    let (done, cur) = split_newlines(s);
    if cur.len() == 0 {
        done
    } else {
        done.push(cur)
    }
}

pub open spec fn digit_char(d: nat) -> char {
    seq!['0', '1', '2', '3', '4', '5', '6', '7', '8', '9'][d as int]
}

/// Decimal digits of `n`, most significant first.
pub open spec fn decimal(n: nat) -> Seq<char>
    decreases n,
{
    if n < 10 {
        seq![digit_char(n)]
    } else {
        decimal(n / 10).push(digit_char(n % 10))
    }
}

/// `"Line {n}: {line}"`.
pub open spec fn line_label(n: nat, line: Seq<char>) -> Seq<char> {
    seq!['L', 'i', 'n', 'e', ' '] + decimal(n) + seq![':', ' '] + line
}

/// New line `i` counts as added when the old text is shorter, or when the old
/// line at the same position differs and the text occurs nowhere in the old
/// lines.
pub open spec fn added_at(old: Seq<Seq<char>>, new: Seq<Seq<char>>, i: int) -> bool {
    i >= old.len() || (old[i] != new[i] && !old.contains(new[i]))
}

/// Labels of the added lines among the first `k` new lines.
pub open spec fn positional_pass(old: Seq<Seq<char>>, new: Seq<Seq<char>>, k: nat) -> Seq<
    Seq<char>,
>
    decreases k,
{
    if k == 0 {
        Seq::empty()
    } else {
        let i = k - 1;
        let prev = positional_pass(old, new, i as nat);
        if added_at(old, new, i) {
            prev.push(line_label(k, new[i]))
        } else {
            prev
        }
    }
}

/// Labels of the tail lines `old.len() .. old.len() + k` whose text occurs
/// nowhere in the old lines.
pub open spec fn tail_pass(old: Seq<Seq<char>>, new: Seq<Seq<char>>, k: nat) -> Seq<Seq<char>>
    decreases k,
{
    if k == 0 {
        Seq::empty()
    } else {
        let i = old.len() + k - 1;
        let prev = tail_pass(old, new, (k - 1) as nat);
        if !old.contains(new[i]) {
            prev.push(line_label((i + 1) as nat, new[i]))
        } else {
            prev
        }
    }
}

/// The labelled added lines: the positional pass over every new line, then,
/// where the new text is longer, the tail lines absent from the old text once more.
pub open spec fn added_lines(old: Seq<Seq<char>>, new: Seq<Seq<char>>) -> Seq<Seq<char>> {
    let tail_len: nat = if new.len() > old.len() {
        (new.len() - old.len()) as nat
    } else {
        0
    };
    positional_pass(old, new, new.len()) + tail_pass(old, new, tail_len)
}

pub open spec fn views(v: Seq<String>) -> Seq<Seq<char>> {
    v.map_values(|s: String| s@)
}

/// Relies on `str::lines`: lines split at `"\n"` or `"\r\n"`, terminators
/// dropped, the last terminator optional.
#[verifier::external_body]
fn text_lines(text: &str) -> (r: Vec<String>)
    ensures
        views(r@) == lines_of(text@),
{
    text.lines().map(|l| l.to_string()).collect()
}

fn digit_str(d: usize) -> (r: &'static str)
    requires
        d < 10,
    ensures
        r@ == seq![digit_char(d as nat)],
{
    proof {
        reveal_strlit("0");
        reveal_strlit("1");
        reveal_strlit("2");
        reveal_strlit("3");
        reveal_strlit("4");
        reveal_strlit("5");
        reveal_strlit("6");
        reveal_strlit("7");
        reveal_strlit("8");
        reveal_strlit("9");
    }
    let r = if d == 0 {
        "0"
    } else if d == 1 {
        "1"
    } else if d == 2 {
        "2"
    } else if d == 3 {
        "3"
    } else if d == 4 {
        "4"
    } else if d == 5 {
        "5"
    } else if d == 6 {
        "6"
    } else if d == 7 {
        "7"
    } else if d == 8 {
        "8"
    } else {
        "9"
    };
    assert(r@ =~= seq![digit_char(d as nat)]);
    r
}

/// Appends the decimal digits of `n` to `s`.
fn push_decimal(s: &mut String, n: usize)
    ensures
        final(s)@ == old(s)@ + decimal(n as nat),
    decreases n,
{
    if n >= 10 {
        push_decimal(s, n / 10);
    }
    s.append(digit_str(n % 10));
    proof {
        if n >= 10 {
            assert(decimal(n as nat) == decimal((n / 10) as nat).push(digit_char((n % 10) as nat)));
        }
    }
    assert(s@ =~= old(s)@ + decimal(n as nat));
}

/// `"Line {n}: {line}"`.
fn format_label(n: usize, line: &str) -> (r: String)
    ensures
        r@ == line_label(n as nat, line@),
{
    let mut r = String::from_str("Line ");
    push_decimal(&mut r, n);
    r.append(": ");
    r.append(line);
    proof {
        reveal_strlit("Line ");
        reveal_strlit(": ");
    }
    assert(r@ =~= line_label(n as nat, line@));
    r
}

fn contains_line(lines: &Vec<String>, line: &String) -> (r: bool)
    ensures
        r == views(lines@).contains(line@),
{
    let mut i: usize = 0;
    while i < lines.len()
        invariant
            i <= lines@.len(),
            forall|j: int| 0 <= j < i ==> lines@[j]@ != line@,
        decreases lines@.len() - i,
    {
        if lines[i] == *line {
            assert(views(lines@)[i as int] == line@);
            return true;
        }
        i = i + 1;
    }
    proof {
        if views(lines@).contains(line@) {
            let j = choose|j: int| 0 <= j < views(lines@).len() && views(lines@)[j] == line@;
            assert(lines@[j]@ == line@);
        }
    }
    false
}

/// The added lines of `new_content` against `old_content`, each as
/// `"Line {n}: {text}"` with `n` counted from one.
pub fn get_added_lines(old_content: &str, new_content: &str) -> (r: Vec<String>)
    ensures
        views(r@) == added_lines(lines_of(old_content@), lines_of(new_content@)),
{
    let old_lines = text_lines(old_content);
    let new_lines = text_lines(new_content);
    let ghost old = views(old_lines@);
    let ghost new = views(new_lines@);
    let mut added: Vec<String> = Vec::new();
    let mut i: usize = 0;
    while i < new_lines.len()
        invariant
            i <= new_lines@.len(),
            old == views(old_lines@),
            new == views(new_lines@),
            views(added@) == positional_pass(old, new, i as nat),
        decreases new_lines@.len() - i,
    {
        let ghost prev = added@;
        let report = if i >= old_lines.len() {
            true
        } else if old_lines[i] != new_lines[i] {
            !contains_line(&old_lines, &new_lines[i])
        } else {
            false
        };
        if report {
            let label = format_label(i + 1, new_lines[i].as_str());
            added.push(label);
            assert(views(added@) =~= views(prev).push(label@));
        }
        i = i + 1;
    }
    let ghost first = added@;
    if new_lines.len() > old_lines.len() {
        let new_len = new_lines.len();
        let diff_count = new_len - old_lines.len();
        let mut k: usize = 0;
        while k < diff_count
            invariant
                k <= diff_count,
                new_len == new_lines@.len(),
                diff_count == new_lines@.len() - old_lines@.len(),
                old == views(old_lines@),
                new == views(new_lines@),
                views(added@) == views(first) + tail_pass(old, new, k as nat),
            decreases diff_count - k,
        {
            let ghost prev = added@;
            let idx = old_lines.len() + k;
            if !contains_line(&old_lines, &new_lines[idx]) {
                let label = format_label(idx + 1, new_lines[idx].as_str());
                added.push(label);
                assert(views(added@) =~= views(prev).push(label@));
            }
            k = k + 1;
        }
    } else {
        assert(views(added@) =~= views(first) + tail_pass(old, new, 0));
    }
    added
}

/// Diffing a text against itself reports nothing.
pub proof fn lemma_identical_content_adds_nothing(content: Seq<char>)
    ensures
        added_lines(lines_of(content), lines_of(content)).len() == 0,
{
    let lines = lines_of(content);
    lemma_positional_pass_identical(lines, lines.len());
    assert(tail_pass(lines, lines, 0).len() == 0);
}

proof fn lemma_positional_pass_identical(lines: Seq<Seq<char>>, k: nat)
    requires
        k <= lines.len(),
    ensures
        positional_pass(lines, lines, k).len() == 0,
    decreases k,
{
    if k > 0 {
        lemma_positional_pass_identical(lines, (k - 1) as nat);
    }
}

} // verus!
