use vstd::prelude::*;
use crate::errors::TranslationError;
use crate::params::{covers, first_unbound, lookup, Params};
use crate::text::{chars_vec, push_str_chars, string_from_chars};

verus! {

// ---------------------------------------------------------------------------
// The placeholder grammar, as a character-at-a-time scan.
//
// A template is literal text with `{name}`-style placeholders. The scan
// walks the text with two pieces of state: whether the position is inside
// a placeholder, and how much of the current name has been read.
// ---------------------------------------------------------------------------
/// The text from position `i` on scans correctly: every `{` is closed by
/// a later `}` around a non-empty name, no stray `}` or nested `{`
/// occurs, and the text ends outside a placeholder.
pub open spec fn scan_ok(s: Seq<char>, i: int, inside: bool, name_len: int) -> bool
    decreases s.len() - i,
{
    if i >= s.len() {
        !inside
    } else if inside {
        if s[i] == '}' {
            name_len > 0 && scan_ok(s, i + 1, false, 0)
        } else if s[i] == '{' {
            false
        } else {
            scan_ok(s, i + 1, true, name_len + 1)
        }
    } else {
        if s[i] == '{' {
            scan_ok(s, i + 1, true, 0)
        } else if s[i] == '}' {
            false
        } else {
            scan_ok(s, i + 1, false, 0)
        }
    }
}

/// The template text is well formed: its placeholder syntax is balanced.
pub open spec fn well_formed(s: Seq<char>) -> bool {
    scan_ok(s, 0, false, 0)
}

/// The placeholder names that the scan reads from position `i` on, given
/// the partial name already read.
pub open spec fn scan_names(s: Seq<char>, i: int, inside: bool, name: Seq<char>) -> Seq<Seq<char>>
    decreases s.len() - i,
{
    if i >= s.len() {
        Seq::empty()
    } else if inside {
        if s[i] == '}' {
            seq![name] + scan_names(s, i + 1, false, Seq::empty())
        } else {
            scan_names(s, i + 1, true, name.push(s[i]))
        }
    } else {
        if s[i] == '{' {
            scan_names(s, i + 1, true, Seq::empty())
        } else {
            scan_names(s, i + 1, false, Seq::empty())
        }
    }
}

/// The placeholder names of the template, in order of occurrence, with
/// repetitions kept.
pub open spec fn placeholders(s: Seq<char>) -> Seq<Seq<char>> {
    scan_names(s, 0, false, Seq::empty())
}

/// The substituted text from position `i` on: literal characters are
/// kept, each completed placeholder is replaced by its first binding in
/// `ps` (or by nothing where no binding exists; substitution is only
/// claimed complete under `covers`).
pub open spec fn scan_subst(
    s: Seq<char>,
    i: int,
    inside: bool,
    name: Seq<char>,
    ps: Seq<(Seq<char>, Seq<char>)>,
) -> Seq<char>
    decreases s.len() - i,
{
    if i >= s.len() {
        Seq::empty()
    } else if inside {
        if s[i] == '}' {
            (match lookup(ps, name) {
                Some(v) => v,
                None => Seq::empty(),
            }) + scan_subst(s, i + 1, false, Seq::empty(), ps)
        } else {
            scan_subst(s, i + 1, true, name.push(s[i]), ps)
        }
    } else {
        if s[i] == '{' {
            scan_subst(s, i + 1, true, Seq::empty(), ps)
        } else {
            seq![s[i]] + scan_subst(s, i + 1, false, Seq::empty(), ps)
        }
    }
}

/// The template text with every placeholder replaced by its binding.
pub open spec fn substituted(s: Seq<char>, ps: Seq<(Seq<char>, Seq<char>)>) -> Seq<char> {
    scan_subst(s, 0, false, Seq::empty(), ps)
}

/// When every name of `done` is bound and the head of `rest` is not, the
/// head of `rest` is the first unbound name of `done + rest`, and the
/// whole list is not covered.
proof fn lemma_first_unbound_at(
    ps: Seq<(Seq<char>, Seq<char>)>,
    done: Seq<Seq<char>>,
    rest: Seq<Seq<char>>,
)
    requires
        forall|k: int| 0 <= k < done.len() ==> lookup(ps, #[trigger] done[k]) is Some,
        rest.len() > 0,
        lookup(ps, rest[0]) is None,
    ensures
        first_unbound(ps, done + rest) == rest[0],
        !covers(ps, done + rest),
    decreases done.len(),
{
    let all = done + rest;
    assert(all[done.len() as int] == rest[0]);
    assert(!covers(ps, all)) by {
        assert(lookup(ps, all[done.len() as int]) is None);
    }
    if done.len() == 0 {
        assert(all =~= rest);
    } else {
        assert(all[0] == done[0]);
        assert(lookup(ps, all[0]) is Some);
        assert(all.drop_first() =~= done.drop_first() + rest);
        assert forall|k: int|
            0 <= k < done.drop_first().len() implies lookup(
            ps,
            #[trigger] done.drop_first()[k],
        ) is Some by {
            assert(done.drop_first()[k] == done[k + 1]);
        }
        lemma_first_unbound_at(ps, done.drop_first(), rest);
        assert(first_unbound(ps, all) == first_unbound(ps, all.drop_first()));
    }
}

/// Walks `human` once; reports whether the placeholder syntax is
/// balanced, and if so hands back the placeholder names in order.
fn extract(human: &Vec<char>) -> (r: Option<Vec<String>>)
    ensures
        r is Some <==> well_formed(human@),
        r matches Some(names) ==> names.deep_view() == placeholders(human@),
{
    let ghost s = human@;
    let n = human.len();
    let mut names: Vec<String> = Vec::new();
    let mut cur: Vec<char> = Vec::new();
    let mut inside: bool = false;
    let mut i: usize = 0;
    proof {
        assert(names.deep_view() + scan_names(s, 0, false, Seq::empty()) =~= scan_names(
            s,
            0,
            false,
            Seq::empty(),
        ));
    }
    while i < n
        invariant
            n == s.len(),
            human@ == s,
            i <= n,
            !inside ==> cur@ == Seq::<char>::empty(),
            well_formed(s) <==> scan_ok(s, i as int, inside, cur@.len() as int),
            placeholders(s) == names.deep_view() + scan_names(s, i as int, inside, cur@),
        decreases n - i,
    {
        let c = human[i];
        if inside {
            if c == '}' {
                if cur.len() == 0 {
                    return None;
                }
                let name = string_from_chars(&cur);
                let ghost old_names = names.deep_view();
                names.push(name);
                proof {
                    assert(scan_names(s, i as int, true, cur@) == seq![cur@] + scan_names(
                        s,
                        i + 1,
                        false,
                        Seq::empty(),
                    ));
                    assert(names.deep_view() =~= old_names.push(cur@));
                    assert(old_names.push(cur@) + scan_names(s, i + 1, false, Seq::empty())
                        =~= old_names + (seq![cur@] + scan_names(s, i + 1, false, Seq::empty())));
                }
                cur = Vec::new();
                inside = false;
                proof {
                    assert(cur@ =~= Seq::<char>::empty());
                }
            } else if c == '{' {
                return None;
            } else {
                cur.push(c);
            }
        } else {
            if c == '{' {
                inside = true;
            } else if c == '}' {
                return None;
            }
        }
        i = i + 1;
    }
    if inside {
        return None;
    }
    proof {
        assert(placeholders(s) =~= names.deep_view());
    }
    Some(names)
}

/// The immutable, process-wide prompt specification: one system-role
/// instruction and one human-role template with named placeholders,
/// validated once at construction.
pub struct PromptTemplate {
    system: Vec<char>,
    human: Vec<char>,
    names: Vec<String>,
}

impl PromptTemplate {
    /// The system-role instruction.
    pub closed spec fn system_text(&self) -> Seq<char> {
        self.system@
    }

    /// The human-role template text.
    pub closed spec fn human_text(&self) -> Seq<char> {
        self.human@
    }

    /// The extracted placeholder names.
    pub closed spec fn names_view(&self) -> Seq<Seq<char>> {
        self.names.deep_view()
    }

    /// Validity: the template text is well formed and the stored names
    /// are exactly its placeholders, in order.
    pub open spec fn wf(&self) -> bool {
        &&& well_formed(self.human_text())
        &&& self.names_view() == placeholders(self.human_text())
    }

    /// Builds the template from its two texts. Fails, and the process
    /// must treat the failure as fatal, exactly when the human template
    /// text is malformed.
    pub fn new(system: &str, human: &str) -> (r: Result<PromptTemplate, TranslationError>)
        ensures
            well_formed(human@) ==> (r matches Ok(t) && t.wf() && t.human_text() == human@
                && t.system_text() == system@),
            !well_formed(human@) ==> (r matches Err(e) && e is TemplateConstruction),
    {
        let hv = chars_vec(human);
        match extract(&hv) {
            Some(names) => Ok(PromptTemplate { system: chars_vec(system), human: hv, names }),
            None => Err(
                TranslationError::TemplateConstruction(
                    String::from_str("unbalanced placeholder braces in the human template"),
                ),
            ),
        }
    }

    /// The system-role instruction, as an owned string.
    pub fn system_prompt(&self) -> (r: String)
        ensures
            r@ == self.system_text(),
    {
        string_from_chars(&self.system)
    }

    /// The human-role template text, as an owned string.
    pub fn human_pattern(&self) -> (r: String)
        ensures
            r@ == self.human_text(),
    {
        string_from_chars(&self.human)
    }

    /// The placeholder names, in order of occurrence.
    pub fn placeholder_names(&self) -> (r: &Vec<String>)
        ensures
            r.deep_view() == self.names_view(),
    {
        &self.names
    }

    /// Replaces every placeholder with its bound value. Fails with
    /// `MissingParameter`, naming the first unbound placeholder, exactly
    /// when some placeholder has no binding.
    pub fn substitute(&self, params: &Params) -> (r: Result<String, TranslationError>)
        requires
            self.wf(),
        ensures
            covers(params@, placeholders(self.human_text())) ==> (r matches Ok(t) && t@
                == substituted(self.human_text(), params@)),
            !covers(params@, placeholders(self.human_text())) ==> (r matches Err(
                TranslationError::MissingParameter(m),
            ) && m@ == first_unbound(params@, placeholders(self.human_text()))),
    {
        let ghost s = self.human@;
        let ghost ps = params@;
        let n = self.human.len();
        let mut out: Vec<char> = Vec::new();
        let mut cur: Vec<char> = Vec::new();
        let mut inside: bool = false;
        let mut i: usize = 0;
        let ghost mut done: Seq<Seq<char>> = Seq::empty();
        proof {
            assert(out@ + scan_subst(s, 0, false, Seq::empty(), ps) =~= scan_subst(
                s,
                0,
                false,
                Seq::empty(),
                ps,
            ));
            assert(done + scan_names(s, 0, false, Seq::empty()) =~= scan_names(
                s,
                0,
                false,
                Seq::empty(),
            ));
        }
        while i < n
            invariant
                n == s.len(),
                self.human@ == s,
                params@ == ps,
                i <= n,
                !inside ==> cur@ == Seq::<char>::empty(),
                scan_ok(s, i as int, inside, cur@.len() as int),
                substituted(s, ps) == out@ + scan_subst(s, i as int, inside, cur@, ps),
                placeholders(s) == done + scan_names(s, i as int, inside, cur@),
                forall|k: int| 0 <= k < done.len() ==> lookup(ps, #[trigger] done[k]) is Some,
            decreases n - i,
        {
            let c = self.human[i];
            if inside {
                if c == '}' {
                    match params.get(&cur) {
                        Some(v) => {
                            let ghost old_out = out@;
                            push_str_chars(&mut out, v.as_str());
                            proof {
                                assert(scan_subst(s, i as int, true, cur@, ps) == v@ + scan_subst(
                                    s,
                                    i + 1,
                                    false,
                                    Seq::empty(),
                                    ps,
                                ));
                                assert(out@ + scan_subst(s, i + 1, false, Seq::empty(), ps)
                                    =~= old_out + scan_subst(s, i as int, true, cur@, ps));
                                assert(scan_names(s, i as int, true, cur@) == seq![cur@]
                                    + scan_names(s, i + 1, false, Seq::empty()));
                                done = done.push(cur@);
                                assert(done + scan_names(s, i + 1, false, Seq::empty())
                                    =~= done.drop_last() + scan_names(s, i as int, true, cur@));
                            }
                            cur = Vec::new();
                            inside = false;
                            proof {
                                assert(cur@ =~= Seq::<char>::empty());
                            }
                        },
                        None => {
                            proof {
                                let rest = scan_names(s, i as int, true, cur@);
                                assert(rest[0] == cur@);
                                lemma_first_unbound_at(ps, done, rest);
                            }
                            return Err(
                                TranslationError::MissingParameter(string_from_chars(&cur)),
                            );
                        },
                    }
                } else {
                    cur.push(c);
                }
            } else {
                if c == '{' {
                    inside = true;
                } else {
                    let ghost old_out = out@;
                    out.push(c);
                    proof {
                        assert(out@ + scan_subst(s, i + 1, false, Seq::empty(), ps) =~= old_out
                            + (seq![s[i as int]] + scan_subst(s, i + 1, false, Seq::empty(), ps)));
                    }
                }
            }
            i = i + 1;
        }
        proof {
            assert(out@ =~= substituted(s, ps));
            assert(placeholders(s) =~= done);
        }
        Ok(string_from_chars(&out))
    }
}

} // verus!
