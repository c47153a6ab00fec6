//! The secret lookup: named secrets, with keys normalized so that each
//! double underscore reads as one underscore.

use vstd::prelude::*;
use vstd::string::*;
use crate::errors::PlimErrorKind;

verus! {

/// `s` with each non-overlapping `__`, read from the left, turned into `_`.
pub open spec fn collapse_underscores(s: Seq<char>) -> Seq<char>
    decreases s.len(),
{
    if s.len() < 2 {
        s
    } else if s[0] == '_' && s[1] == '_' {
        seq!['_'] + collapse_underscores(s.skip(2))
    } else {
        seq![s[0]] + collapse_underscores(s.skip(1))
    }
}

/// The secret named `name`: the last entry with that name wins.
pub open spec fn token_value(vars: Seq<(String, String)>, name: Seq<char>) -> Option<Seq<char>>
    decreases vars.len(),
{
    if vars.len() == 0 {
        None
    } else if vars.last().0@ == name {
        Some(vars.last().1@)
    } else {
        token_value(vars.drop_last(), name)
    }
}

/// The normalized form of a secret's name.
pub fn normalize_name(s: &str) -> (r: String)
    ensures
        r@ == collapse_underscores(s@),
{
    let n = s.unicode_len();
    let mut out = String::new();
    let mut i: usize = 0;
    proof {
        assert(s@.skip(0) =~= s@);
        assert(out@ + collapse_underscores(s@) =~= collapse_underscores(s@));
    }
    while i < n
        invariant
            n as int == s@.len(),
            i <= n,
            out@ + collapse_underscores(s@.skip(i as int)) == collapse_underscores(s@),
        decreases n - i,
    {
        let ghost rest = s@.skip(i as int);
        if i + 1 < n && s.get_char(i) == '_' && s.get_char(i + 1) == '_' {
            proof {
                assert(rest[0] == s@[i as int]);
                assert(rest[1] == s@[i + 1]);
                assert(rest.skip(2) =~= s@.skip(i + 2));
                assert(collapse_underscores(rest) == seq!['_'] + collapse_underscores(s@.skip(i + 2)));
                reveal_strlit("_");
                assert("_"@ =~= seq!['_']);
                assert(out@ + seq!['_'] + collapse_underscores(s@.skip(i + 2)) =~= out@ + (seq!['_']
                    + collapse_underscores(s@.skip(i + 2))));
            }
            out.append("_");
            i = i + 2;
        } else {
            let piece = s.substring_char(i, i + 1);
            proof {
                assert(rest[0] == s@[i as int]);
                if i + 1 < n {
                    assert(rest[1] == s@[i + 1]);
                }
                assert(piece@ =~= seq![s@[i as int]]);
                if rest.len() >= 2 {
                    assert(rest.skip(1) =~= s@.skip(i + 1));
                } else {
                    assert(rest =~= seq![s@[i as int]]);
                    assert(s@.skip(i + 1) =~= Seq::<char>::empty());
                }
                assert(collapse_underscores(rest) == seq![s@[i as int]] + collapse_underscores(
                    s@.skip(i + 1),
                ));
                assert(out@ + piece@ + collapse_underscores(s@.skip(i + 1)) =~= out@ + (piece@
                    + collapse_underscores(s@.skip(i + 1))));
            }
            out.append(piece);
            i = i + 1;
        }
    }
    proof {
        assert(s@.skip(n as int) =~= Seq::<char>::empty());
        assert(out@ + Seq::<char>::empty() =~= out@);
    }
    out
}

/// Named secrets, looked up by normalized name.
pub struct GitlabTokens {
    pub all_vars: Vec<(String, String)>,
}

impl GitlabTokens {
    /// The secrets `vars` with their names normalized, in order.
    pub fn new(vars: Vec<(String, String)>) -> (r: Self)
        ensures
            r.all_vars@.len() == vars@.len(),
            forall|i: int|
                0 <= i < vars@.len() ==> (#[trigger] r.all_vars@[i]).0@ == collapse_underscores(
                    vars@[i].0@,
                ) && r.all_vars@[i].1 == vars@[i].1,
    {
        let mut out: Vec<(String, String)> = Vec::new();
        let ghost all = vars@;
        let total: usize = vars.len();
        let mut rest = vars;
        let mut k: usize = 0;
        while rest.len() > 0
            invariant
                total == all.len(),
                k + rest@.len() == total,
                rest@ == all.skip(k as int),
                out@.len() == k,
                forall|i: int|
                    0 <= i < k ==> (#[trigger] out@[i]).0@ == collapse_underscores(all[i].0@)
                        && out@[i].1 == all[i].1,
            decreases rest.len(),
        {
            let (key, value) = rest.remove(0);
            proof {
                assert(all[k as int] == (key, value));
            }
            out.push((normalize_name(key.as_str()), value));
            k = k + 1;
        }
        GitlabTokens { all_vars: out }
    }

    /// The secret named `token_var`; not found when there is none.
    pub fn get(&self, token_var: &str) -> (r: Result<String, PlimErrorKind>)
        ensures
            match token_value(self.all_vars@, token_var@) {
                Some(v) => r matches Ok(s) && s@ == v,
                None => r matches Err(PlimErrorKind::NotFound(_)),
            },
    {
        let wanted = token_var.to_owned();
        let mut i: usize = self.all_vars.len();
        proof {
            assert(self.all_vars@.take(i as int) =~= self.all_vars@);
        }
        while i > 0
            invariant
                i <= self.all_vars@.len(),
                wanted@ == token_var@,
                token_value(self.all_vars@, token_var@) == token_value(
                    self.all_vars@.take(i as int),
                    token_var@,
                ),
            decreases i,
        {
            proof {
                assert(self.all_vars@.take(i as int).drop_last() =~= self.all_vars@.take(i - 1));
            }
            if self.all_vars[i - 1].0 == wanted {
                return Ok(self.all_vars[i - 1].1.clone());
            }
            i = i - 1;
        }
        Err(PlimErrorKind::not_found("Your token is missing"))
    }
}

} // verus!
