//! The value model shared by views, data sources and command synthesis.

use vstd::prelude::*;
use vstd::string::*;

verus! {

/// A scalar, list or boolean value.
pub enum AnyValue {
    String(String),
    VecString(Vec<String>),
    Bool(bool),
}

/// The mathematical model of an `AnyValue`.
pub enum ValueModel {
    Text(Seq<char>),
    List(Seq<Seq<char>>),
    Flag(bool),
}

/// The character sequences of a list of strings.
pub open spec fn texts_of(v: Seq<String>) -> Seq<Seq<char>> {
    v.map_values(|s: String| s@)
}

impl View for AnyValue {
    type V = ValueModel;

    open spec fn view(&self) -> ValueModel {
        match self {
            AnyValue::String(s) => ValueModel::Text(s@),
            AnyValue::VecString(v) => ValueModel::List(texts_of(v@)),
            AnyValue::Bool(b) => ValueModel::Flag(*b),
        }
    }
}

/// The model of an optional value.
pub open spec fn opt_value_view(v: Option<AnyValue>) -> Option<ValueModel> {
    match v {
        Some(x) => Some(x@),
        None => None,
    }
}

/// `parts` joined with `sep` between consecutive elements.
pub open spec fn join(parts: Seq<Seq<char>>, sep: Seq<char>) -> Seq<char>
    decreases parts.len(),
{
    if parts.len() == 0 {
        Seq::empty()
    } else if parts.len() == 1 {
        parts[0]
    } else {
        join(parts.drop_last(), sep) + sep + parts.last()
    }
}

/// The text of a boolean.
pub open spec fn bool_text(b: bool) -> Seq<char> {
    if b {
        "true"@
    } else {
        "false"@
    }
}

/// The canonical string form of a value: a list is joined by commas.
pub open spec fn value_text(v: ValueModel) -> Seq<char> {
    match v {
        ValueModel::Text(s) => s,
        ValueModel::List(l) => join(l, ","@),
        ValueModel::Flag(b) => bool_text(b),
    }
}

/// Joins `parts` with `sep`.
pub fn join_strings(parts: &Vec<String>, sep: &str) -> (r: String)
    ensures
        r@ == join(texts_of(parts@), sep@),
{
    let mut out = String::new();
    let mut i: usize = 0;
    while i < parts.len()
        invariant
            i <= parts.len(),
            out@ == join(texts_of(parts@).take(i as int), sep@),
        decreases parts.len() - i,
    {
        proof {
            let t = texts_of(parts@);
            assert(t.take(i + 1).drop_last() =~= t.take(i as int));
        }
        if i > 0 {
            out.append(sep);
        }
        out.append(parts[i].as_str());
        i = i + 1;
    }
    proof {
        assert(texts_of(parts@).take(parts@.len() as int) =~= texts_of(parts@));
    }
    out
}

/// The text of a boolean.
pub fn bool_to_string(b: bool) -> (r: String)
    ensures
        r@ == bool_text(b),
{
    if b {
        String::from_str("true")
    } else {
        String::from_str("false")
    }
}

/// A copy of a list of strings.
pub fn copy_strings(v: &Vec<String>) -> (r: Vec<String>)
    ensures
        r@ == v@,
{
    let mut out: Vec<String> = Vec::new();
    let mut i: usize = 0;
    while i < v.len()
        invariant
            i <= v.len(),
            out@ == v@.take(i as int),
        decreases v.len() - i,
    {
        out.push(v[i].clone());
        i = i + 1;
        proof {
            assert(out@ =~= v@.take(i as int));
        }
    }
    proof {
        assert(v@.take(v@.len() as int) =~= v@);
    }
    out
}

impl AnyValue {
    /// The canonical string form of the value.
    pub fn to_string(&self) -> (r: String)
        ensures
            r@ == value_text(self@),
    {
        match self {
            AnyValue::String(s) => s.clone(),
            AnyValue::VecString(v) => join_strings(v, ","),
            AnyValue::Bool(b) => bool_to_string(*b),
        }
    }

    /// A copy of the value.
    pub fn copy(&self) -> (r: AnyValue)
        ensures
            r@ == self@,
    {
        match self {
            AnyValue::String(s) => AnyValue::String(s.clone()),
            AnyValue::VecString(v) => AnyValue::VecString(copy_strings(v)),
            AnyValue::Bool(b) => AnyValue::Bool(*b),
        }
    }
}

impl Clone for AnyValue {
    fn clone(&self) -> (r: AnyValue)
        ensures
            r@ == self@,
    {
        self.copy()
    }
}

impl Default for AnyValue {
    fn default() -> (r: AnyValue)
        ensures
            r@ == ValueModel::Text(Seq::empty()),
    {
        AnyValue::String(String::new())
    }
}

/// The decimal digit `d` as text.
pub open spec fn digit_text(d: nat) -> Seq<char> {
    if d == 0 {
        "0"@
    } else if d == 1 {
        "1"@
    } else if d == 2 {
        "2"@
    } else if d == 3 {
        "3"@
    } else if d == 4 {
        "4"@
    } else if d == 5 {
        "5"@
    } else if d == 6 {
        "6"@
    } else if d == 7 {
        "7"@
    } else if d == 8 {
        "8"@
    } else {
        "9"@
    }
}

/// The decimal form of `n`, without leading zeros.
pub open spec fn decimal(n: nat) -> Seq<char>
    decreases n,
{
    if n < 10 {
        digit_text(n)
    } else {
        decimal(n / 10) + digit_text(n % 10)
    }
}

fn digit_str(d: u64) -> (r: &'static str)
    requires
        d < 10,
    ensures
        r@ == digit_text(d as nat),
{
    if d == 0 {
        "0"
    } else if d == 1 {
        "1"
    } else if d == 2 {
        "2"
    } else if d == 3 {
        "3"
    } else if d == 4 {
        "4"
    } else if d == 5 {
        "5"
    } else if d == 6 {
        "6"
    } else if d == 7 {
        "7"
    } else if d == 8 {
        "8"
    } else {
        "9"
    }
}

/// The decimal form of `n`.
pub fn decimal_string(n: u64) -> (r: String)
    ensures
        r@ == decimal(n as nat),
    decreases n,
{
    if n < 10 {
        String::from_str(digit_str(n))
    } else {
        let head = decimal_string(n / 10);
        head.concat(digit_str(n % 10))
    }
}

/// A copy of an optional value.
pub fn copy_opt_value(v: &Option<AnyValue>) -> (r: Option<AnyValue>)
    ensures
        opt_value_view(r) == opt_value_view(*v),
{
    match v {
        Some(x) => Some(x.copy()),
        None => None,
    }
}

} // verus!
