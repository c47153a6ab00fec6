//! Plans and users kept in a key-value store: the names they are loaded
//! under, and how they join the configuration.

use vstd::prelude::*;
use vstd::string::*;
use crate::config::{Config, PlimPlan, PlimUser, name_index};

verus! {

/// `s` with every occurrence of `p`, read from the left, removed; an empty
/// `p` removes nothing.
pub open spec fn remove_all(s: Seq<char>, p: Seq<char>) -> Seq<char>
    decreases s.len(),
{
    if p.len() == 0 || s.len() == 0 {
        s
    } else if s.len() >= p.len() && s.subrange(0, p.len() as int) == p {
        remove_all(s.skip(p.len() as int), p)
    } else {
        seq![s[0]] + remove_all(s.skip(1), p)
    }
}

/// `s` without leading slashes.
pub open spec fn trim_leading_slashes(s: Seq<char>) -> Seq<char>
    decreases s.len(),
{
    if s.len() > 0 && s[0] == '/' {
        trim_leading_slashes(s.skip(1))
    } else {
        s
    }
}

/// `s` without trailing slashes.
pub open spec fn trim_trailing_slashes(s: Seq<char>) -> Seq<char>
    decreases s.len(),
{
    if s.len() > 0 && s.last() == '/' {
        trim_trailing_slashes(s.drop_last())
    } else {
        s
    }
}

/// The name an entry of the store `etcd_name` is loaded under: the store's
/// name, an underscore, and the entry's key with the prefix removed and
/// without slashes at either end.
pub open spec fn entry_name_spec(etcd_name: Seq<char>, prefix: Seq<char>, key: Seq<char>) -> Seq<char> {
    etcd_name + "_"@ + trim_trailing_slashes(trim_leading_slashes(remove_all(key, prefix)))
}

fn remove_all_exec(s: &str, p: &str) -> (r: String)
    ensures
        r@ == remove_all(s@, p@),
{
    let n = s.unicode_len();
    let m = p.unicode_len();
    if m == 0 {
        return s.to_owned();
    }
    let pat = p.to_owned();
    let mut out = String::new();
    let mut i: usize = 0;
    proof {
        assert(s@.skip(0) =~= s@);
        assert(out@ + remove_all(s@, p@) =~= remove_all(s@, p@));
    }
    while i < n
        invariant
            n as int == s@.len(),
            m as int == p@.len(),
            m > 0,
            pat@ == p@,
            i <= n,
            out@ + remove_all(s@.skip(i as int), p@) == remove_all(s@, p@),
        decreases n - i,
    {
        let ghost rest = s@.skip(i as int);
        if n - i >= m && s.substring_char(i, i + m).to_owned() == pat {
            proof {
                assert(rest.subrange(0, m as int) =~= s@.subrange(i as int, i + m));
                assert(rest.skip(m as int) =~= s@.skip(i + m));
            }
            i = i + m;
        } else {
            let piece = s.substring_char(i, i + 1);
            proof {
                assert(rest[0] == s@[i as int]);
                if n - i >= m {
                    assert(rest.subrange(0, m as int) =~= s@.subrange(i as int, i + m));
                }
                assert(rest.skip(1) =~= s@.skip(i + 1));
                assert(piece@ =~= seq![s@[i as int]]);
                assert(out@ + piece@ + remove_all(s@.skip(i + 1), p@) =~= out@ + (piece@ + remove_all(
                    s@.skip(i + 1),
                    p@,
                )));
            }
            out.append(piece);
            i = i + 1;
        }
    }
    proof {
        assert(s@.skip(n as int) =~= Seq::<char>::empty());
        assert(out@ + Seq::<char>::empty() =~= out@);
    }
    out
}

proof fn lemma_trim_leading(s: Seq<char>, i: int)
    requires
        0 <= i <= s.len(),
        forall|j: int| 0 <= j < i ==> s[j] == '/',
        i == s.len() || s[i] != '/',
    ensures
        trim_leading_slashes(s) == s.skip(i),
    decreases i,
{
    if i > 0 {
        lemma_trim_leading(s.skip(1), i - 1);
        assert(s.skip(1).skip(i - 1) =~= s.skip(i));
    } else {
        assert(s.skip(0) =~= s);
    }
}

proof fn lemma_trim_trailing(s: Seq<char>, k: int)
    requires
        0 <= k <= s.len(),
        forall|j: int| k <= j < s.len() ==> s[j] == '/',
        k == 0 || s[k - 1] != '/',
    ensures
        trim_trailing_slashes(s) == s.take(k),
    decreases s.len() - k,
{
    if s.len() > k {
        lemma_trim_trailing(s.drop_last(), k);
        assert(s.drop_last().take(k) =~= s.take(k));
    } else {
        assert(s.take(k) =~= s);
    }
}

fn trim_slashes(s: &str) -> (r: String)
    ensures
        r@ == trim_trailing_slashes(trim_leading_slashes(s@)),
{
    let n = s.unicode_len();
    let mut i: usize = 0;
    while i < n
        invariant
            i <= n,
            n as int == s@.len(),
            forall|j: int| 0 <= j < i ==> s@[j] == '/',
        ensures
            i <= n,
            forall|j: int| 0 <= j < i ==> s@[j] == '/',
            i == n || s@[i as int] != '/',
        decreases n - i,
    {
        if s.get_char(i) != '/' {
            break;
        }
        i = i + 1;
    }
    proof {
        lemma_trim_leading(s@, i as int);
    }
    let mut k: usize = n;
    while k > i
        invariant
            i <= k <= n,
            n as int == s@.len(),
            forall|j: int| k <= j < n ==> s@[j] == '/',
        ensures
            i <= k <= n,
            forall|j: int| k <= j < n ==> s@[j] == '/',
            k == i || s@[k - 1] != '/',
        decreases k - i,
    {
        if s.get_char(k - 1) != '/' {
            break;
        }
        k = k - 1;
    }
    proof {
        let t = s@.skip(i as int);
        assert forall|j: int| (k - i) <= j < t.len() implies t[j] == '/' by {
            assert(t[j] == s@[i + j]);
        }
        if k > i {
            assert(t[k - i - 1] == s@[k - 1]);
        }
        lemma_trim_trailing(t, k - i);
        assert(t.take(k - i) =~= s@.subrange(i as int, k as int));
    }
    s.substring_char(i, k).to_owned()
}

/// The name an entry of the store `etcd_name` is loaded under, from its key.
pub fn etcd_entry_name(etcd_name: &str, prefix: &str, key: &str) -> (r: String)
    ensures
        r@ == entry_name_spec(etcd_name@, prefix@, key@),
{
    let stripped = remove_all_exec(key, prefix);
    let trimmed = trim_slashes(stripped.as_str());
    let mut name = etcd_name.to_owned();
    name.append("_");
    name.append(trimmed.as_str());
    name
}

/// `acc` with the named entry put in: it replaces the first entry of that
/// name, or is appended.
pub open spec fn put_named<T>(acc: Seq<(String, T)>, name: String, value: T) -> Seq<(String, T)> {
    let i = name_index(acc, name@);
    if i >= 0 {
        acc.update(i, (name, value))
    } else {
        acc.push((name, value))
    }
}

/// Puts the named entry into `acc`.
pub fn insert_named<T>(acc: &mut Vec<(String, T)>, name: String, value: T)
    ensures
        final(acc)@ == put_named(old(acc)@, name, value),
{
    match crate::config::find_named(acc, name.as_str()) {
        Some(i) => {
            acc.set(i, (name, value));
        },
        None => {
            acc.push((name, value));
        },
    }
}

/// How an entry read from a store joins the configuration.
pub trait EtcdConfigLoader: Sized {
    spec fn loaded(self, before: Config, after: Config, name: String) -> bool;

    fn load_into_config(self, conf: &mut Config, name: String)
        ensures
            self.loaded(*old(conf), *final(conf), name),
    ;
}

impl EtcdConfigLoader for PlimPlan {
    /// The plan is put into the plans under the name; all else is kept.
    open spec fn loaded(self, before: Config, after: Config, name: String) -> bool {
        after == Config { plans: after.plans, ..before } && after.plans@ == put_named(
            before.plans@,
            name,
            self,
        )
    }

    fn load_into_config(self, conf: &mut Config, name: String) {
        insert_named(&mut conf.plans, name, self);
    }
}

impl EtcdConfigLoader for PlimUser {
    /// The user is put into the users under the name; all else is kept.
    open spec fn loaded(self, before: Config, after: Config, name: String) -> bool {
        after == Config { users: after.users, ..before } && after.users@ == put_named(
            before.users@,
            name,
            self,
        )
    }

    fn load_into_config(self, conf: &mut Config, name: String) {
        insert_named(&mut conf.users, name, self);
    }
}

} // verus!
