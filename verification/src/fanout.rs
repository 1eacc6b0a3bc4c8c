use vstd::prelude::*;
use crate::errors::TranslationError;
use crate::text::chars_vec;

verus! {

// ---------------------------------------------------------------------------
// Fan-out mode: one invocation answers with a labeled block, one line
// per configured target language, `language: translation`, in the
// configured order. The block is parsed and checked here.
// ---------------------------------------------------------------------------
/// The lines that the scan reads from position `i` on, given the
/// partial line already read; a final newline yields a last empty line.
pub open spec fn scan_lines(s: Seq<char>, i: int, cur: Seq<char>) -> Seq<Seq<char>>
    decreases s.len() - i,
{
    if i >= s.len() {
        seq![cur]
    } else if s[i] == '\n' {
        seq![cur] + scan_lines(s, i + 1, Seq::empty())
    } else {
        scan_lines(s, i + 1, cur.push(s[i]))
    }
}

/// The text split at newlines.
pub open spec fn lines_of(s: Seq<char>) -> Seq<Seq<char>> {
    scan_lines(s, 0, Seq::empty())
}

/// The lines of a response block, with one trailing empty line (from a
/// final newline) forgiven.
pub open spec fn block_lines(s: Seq<char>) -> Seq<Seq<char>> {
    if lines_of(s).len() > 1 && lines_of(s).last().len() == 0 {
        lines_of(s).drop_last()
    } else {
        lines_of(s)
    }
}

/// The line starts with `label`, a colon and a space.
pub open spec fn line_is_labeled(line: Seq<char>, label: Seq<char>) -> bool {
    &&& line.len() >= label.len() + 2
    &&& line.subrange(0, label.len() as int) == label
    &&& line[label.len() as int] == ':'
    &&& line[label.len() as int + 1] == ' '
}

/// The translation text of a labeled line.
pub open spec fn line_value(line: Seq<char>, label: Seq<char>) -> Seq<char> {
    line.subrange(label.len() as int + 2, line.len() as int)
}

/// The block is exactly one correctly labeled line per configured
/// language, in the configured order.
pub open spec fn block_matches(ls: Seq<Seq<char>>, labels: Seq<Seq<char>>) -> bool {
    &&& ls.len() == labels.len()
    &&& forall|k: int| 0 <= k < ls.len() ==> line_is_labeled(#[trigger] ls[k], labels[k])
}

/// The translations of a matching block, in the configured order.
pub open spec fn block_values(ls: Seq<Seq<char>>, labels: Seq<Seq<char>>) -> Seq<Seq<char>> {
    Seq::new(ls.len(), |k: int| line_value(ls[k], labels[k]))
}

/// Splits `block` at newlines, forgiving one trailing newline.
fn split_block(block: &str) -> (r: Vec<Vec<char>>)
    ensures
        r.deep_view() == block_lines(block@),
{
    let bv = chars_vec(block);
    let ghost s = block@;
    let n = bv.len();
    let mut done: Vec<Vec<char>> = Vec::new();
    let mut cur: Vec<char> = Vec::new();
    let mut i: usize = 0;
    proof {
        assert(done.deep_view() + scan_lines(s, 0, Seq::empty()) =~= scan_lines(
            s,
            0,
            Seq::empty(),
        ));
    }
    while i < n
        invariant
            n == s.len(),
            bv@ == s,
            i <= n,
            lines_of(s) == done.deep_view() + scan_lines(s, i as int, cur@),
        decreases n - i,
    {
        let c = bv[i];
        if c == '\n' {
            let ghost old_done = done.deep_view();
            let ghost cur_v = cur@;
            done.push(cur);
            proof {
                assert(done.deep_view() =~~= old_done.push(cur_v));
                assert(old_done.push(cur_v) + scan_lines(s, i + 1, Seq::empty()) =~= old_done + (
                seq![cur_v] + scan_lines(s, i + 1, Seq::empty())));
            }
            cur = Vec::new();
            proof {
                assert(cur@ =~= Seq::<char>::empty());
            }
        } else {
            cur.push(c);
        }
        i = i + 1;
    }
    let ghost old_done = done.deep_view();
    let ghost cur_v = cur@;
    let last_empty = cur.len() == 0;
    done.push(cur);
    proof {
        assert(done.deep_view() =~~= old_done.push(cur_v));
        assert(lines_of(s) =~= done.deep_view());
        assert(lines_of(s).last() == cur_v);
    }
    if last_empty && done.len() > 1 {
        let _ = done.pop();
        proof {
            assert(done.deep_view() =~= lines_of(s).drop_last());
        }
    }
    done
}

/// Checks one line against its configured language label and hands back
/// the translation text after `label: `.
fn check_labeled(line: &Vec<char>, label: &str) -> (r: Option<Vec<char>>)
    ensures
        r is Some <==> line_is_labeled(line@, label@),
        r matches Some(v) ==> v@ == line_value(line@, label@),
{
    let lab = chars_vec(label);
    let m = lab.len();
    if line.len() < 2 || line.len() - 2 < m {
        return None;
    }
    let mut j: usize = 0;
    while j < m
        invariant
            m == lab.len(),
            lab@ == label@,
            line@.len() >= m + 2,
            j <= m,
            forall|k: int| 0 <= k < j ==> line@[k] == label@[k],
        decreases m - j,
    {
        if line[j] != lab[j] {
            proof {
                assert(line@.subrange(0, m as int)[j as int] != label@[j as int]);
            }
            return None;
        }
        j = j + 1;
    }
    proof {
        assert(line@.subrange(0, m as int) =~= label@);
    }
    if line[m] != ':' {
        return None;
    }
    if line[m + 1] != ' ' {
        return None;
    }
    let mut v: Vec<char> = Vec::new();
    let mut k: usize = m + 2;
    while k < line.len()
        invariant
            m == lab.len(),
            lab@ == label@,
            line@.len() >= m + 2,
            m + 2 <= k <= line@.len(),
            v@ == line@.subrange(m + 2, k as int),
        decreases line@.len() - k,
    {
        v.push(line[k]);
        proof {
            assert(v@ =~= line@.subrange(m + 2, k + 1));
        }
        k = k + 1;
    }
    proof {
        assert(v@ =~= line_value(line@, label@));
    }
    Some(v)
}

/// Parses a fan-out response block against the configured languages:
/// succeeds exactly when the block is one `language: translation` line
/// per configured language, in the configured order, and then hands the
/// translations back in that order. Anything else is a malformed model
/// response.
pub fn parse_fanout_block(block: &str, languages: &Vec<String>) -> (r: Result<
    Vec<String>,
    TranslationError,
>)
    ensures
        r is Ok <==> block_matches(block_lines(block@), languages.deep_view()),
        r matches Ok(vs) ==> vs.deep_view() == block_values(
            block_lines(block@),
            languages.deep_view(),
        ),
        r matches Err(e) ==> e is ModelInvocation,
{
    let lines = split_block(block);
    let ghost ls = block_lines(block@);
    let ghost labels = languages.deep_view();
    if lines.len() != languages.len() {
        proof {
            assert(ls.len() != labels.len());
        }
        return Err(
            TranslationError::ModelInvocation(
                String::from_str("fan-out response does not have one line per language"),
            ),
        );
    }
    let mut out: Vec<String> = Vec::new();
    let mut k: usize = 0;
    while k < lines.len()
        invariant
            ls == block_lines(block@),
            lines.deep_view() == ls,
            languages.deep_view() == labels,
            ls.len() == labels.len(),
            lines.len() == ls.len(),
            languages.len() == labels.len(),
            k <= ls.len(),
            out.deep_view() == block_values(ls, labels).take(k as int),
            forall|j: int| 0 <= j < k ==> line_is_labeled(#[trigger] ls[j], labels[j]),
        decreases ls.len() - k,
    {
        proof {
            assert(lines@[k as int].deep_view() == ls[k as int]);
            assert(lines@[k as int]@ =~= lines@[k as int].deep_view());
            assert(languages@[k as int].deep_view() == labels[k as int]);
        }
        match check_labeled(&lines[k], languages[k].as_str()) {
            Some(v) => {
                let ghost old_out = out.deep_view();
                out.push(crate::text::string_from_chars(&v));
                proof {
                    assert(out.deep_view() =~= old_out.push(line_value(
                        ls[k as int],
                        labels[k as int],
                    )));
                    assert(out.deep_view() =~= block_values(ls, labels).take(k + 1));
                }
            },
            None => {
                proof {
                    assert(!line_is_labeled(ls[k as int], labels[k as int]));
                    assert(!block_matches(ls, labels));
                }
                return Err(
                    TranslationError::ModelInvocation(
                        String::from_str("fan-out response line does not match its language"),
                    ),
                );
            },
        }
        k = k + 1;
    }
    proof {
        assert(out.deep_view() =~= block_values(ls, labels));
    }
    Ok(out)
}

} // verus!
