use vstd::prelude::*;
use crate::text::str_eq_chars;

verus! {

/// First binding of `name` in `ps`, if any.
///
/// A parameter mapping is a sequence of (name, value) pairs; the first
/// binding of a name wins, later bindings of the same name are ignored.
pub open spec fn lookup(ps: Seq<(Seq<char>, Seq<char>)>, name: Seq<char>) -> Option<Seq<char>>
    decreases ps.len(),
{
    if ps.len() == 0 {
        None
    } else if ps[0].0 == name {
        Some(ps[0].1)
    } else {
        lookup(ps.drop_first(), name)
    }
}

/// Every name of `names` has a binding in `ps`.
pub open spec fn covers(ps: Seq<(Seq<char>, Seq<char>)>, names: Seq<Seq<char>>) -> bool {
    forall|k: int| 0 <= k < names.len() ==> lookup(ps, #[trigger] names[k]) is Some
}

/// The first name of `names` without a binding in `ps`; the empty name
/// when all are bound.
pub open spec fn first_unbound(ps: Seq<(Seq<char>, Seq<char>)>, names: Seq<Seq<char>>) -> Seq<
    char,
>
    decreases names.len(),
{
    if names.len() == 0 {
        Seq::empty()
    } else if lookup(ps, names[0]) is None {
        names[0]
    } else {
        first_unbound(ps, names.drop_first())
    }
}

/// The per-call mapping from placeholder name to text value.
///
/// Supplied parameters that no placeholder of the active template names
/// are ignored at substitution time.
pub struct Params {
    pairs: Vec<(String, String)>,
}

impl View for Params {
    type V = Seq<(Seq<char>, Seq<char>)>;

    closed spec fn view(&self) -> Seq<(Seq<char>, Seq<char>)> {
        self.pairs@.map_values(|p: (String, String)| (p.0@, p.1@))
    }
}

impl Params {
    /// An empty mapping.
    pub fn new() -> (r: Params)
        ensures
            r@ == Seq::<(Seq<char>, Seq<char>)>::empty(),
    {
        let r = Params { pairs: Vec::new() };
        proof {
            assert(r@ =~= Seq::<(Seq<char>, Seq<char>)>::empty());
        }
        r
    }

    /// Number of bindings supplied so far.
    pub fn len(&self) -> (r: usize)
        ensures
            r == self@.len(),
    {
        self.pairs.len()
    }

    /// Adds the binding `name` -> `value` after the bindings already
    /// supplied.
    pub fn set(&mut self, name: &str, value: &str)
        ensures
            final(self)@ == old(self)@.push((name@, value@)),
    {
        self.pairs.push((name.to_owned(), value.to_owned()));
        proof {
            assert(self@ =~= old(self)@.push((name@, value@)));
        }
    }

    /// The value bound to the characters of `name`, if any.
    pub fn get(&self, name: &Vec<char>) -> (r: Option<&String>)
        ensures
            match lookup(self@, name@) {
                Some(v) => r matches Some(s) && s@ == v,
                None => r is None,
            },
    {
        let n = self.pairs.len();
        proof {
            assert(self@.len() == n);
            assert(self@.skip(0) =~= self@);
        }
        let mut j: usize = 0;
        while j < n
            invariant
                n == self.pairs.len(),
                self@.len() == n,
                j <= n,
                lookup(self@, name@) == lookup(self@.skip(j as int), name@),
            decreases n - j,
        {
            proof {
                assert(self@.skip(j as int)[0] == self@[j as int]);
                assert(self@[j as int] == (self.pairs@[j as int].0@, self.pairs@[j as int].1@));
            }
            if str_eq_chars(self.pairs[j].0.as_str(), name) {
                return Some(&self.pairs[j].1);
            }
            proof {
                assert(self@.skip(j as int).drop_first() =~= self@.skip(j + 1 as int));
            }
            j = j + 1;
        }
        proof {
            assert(self@.skip(n as int) =~= Seq::<(Seq<char>, Seq<char>)>::empty());
        }
        None
    }
}

} // verus!
