use vstd::prelude::*;

verus! {

/// The environment variables that the host set for the plugin, in the
/// order in which it gave them. A name may occur more than once; the last
/// occurrence is the one that counts.
pub struct Environment {
    pub entries: Vec<(String, String)>,
}

/// Whether the entry `i` of `entries` is the last one with its name.
pub open spec fn is_last(entries: Seq<(String, String)>, i: int) -> bool {
    forall|j: int| i < j < entries.len() ==> entries[j].0@ != entries[i].0@
}

/// The places of the entries among the first `upto` of `entries` that are
/// the last one with their name, in ascending order.
pub open spec fn last_places(entries: Seq<(String, String)>, upto: int) -> Seq<int>
    decreases upto,
{
    if upto <= 0 {
        Seq::empty()
    } else if is_last(entries, upto - 1) {
        last_places(entries, upto - 1).push(upto - 1)
    } else {
        last_places(entries, upto - 1)
    }
}

impl Environment {
    /// The environment with the given variables.
    pub fn new(entries: Vec<(String, String)>) -> (r: Self)
        ensures
            r.entries == entries,
    {
        Environment { entries }
    }
}

/// Get an environment variable value: that of the last entry with the
/// name.
pub fn var<'a>(env: &'a Environment, name: &str) -> (r: Option<&'a str>)
    ensures
        match r {
            Some(value) => exists|i: int|
                0 <= i < env.entries@.len() && #[trigger] env.entries@[i].0@ == name@
                    && env.entries@[i].1@ == value@ && is_last(env.entries@, i),
            None => forall|i: int|
                0 <= i < env.entries@.len() ==> #[trigger] env.entries@[i].0@ != name@,
        },
{
    let owned = name.to_owned();
    let mut i: usize = env.entries.len();
    while i > 0
        invariant
            i <= env.entries@.len(),
            owned@ == name@,
            forall|j: int| i <= j < env.entries@.len() ==> #[trigger] env.entries@[j].0@ != name@,
        decreases i,
    {
        i = i - 1;
        if env.entries[i].0 == owned {
            assert(is_last(env.entries@, i as int));
            return Some(env.entries[i].1.as_str());
        }
    }
    None
}

/// Whether a later entry than the entry `i` has its name.
fn has_later(env: &Environment, i: usize) -> (r: bool)
    requires
        i < env.entries@.len(),
    ensures
        r == !is_last(env.entries@, i as int),
{
    let n = env.entries.len();
    let mut j: usize = i + 1;
    while j < n
        invariant
            n == env.entries@.len(),
            i < j <= env.entries@.len(),
            forall|k: int| i < k < j ==> env.entries@[k].0@ != env.entries@[i as int].0@,
        decreases env.entries@.len() - j,
    {
        if env.entries[j].0 == env.entries[i].0 {
            return true;
        }
        j = j + 1;
    }
    false
}

/// Get all environment variable values: each name once, with the value of
/// its last entry, in the order of those entries.
pub fn vars<'a>(env: &'a Environment) -> (r: Vec<(&'a str, &'a str)>)
    ensures
        r@.len() == last_places(env.entries@, env.entries@.len() as int).len(),
        forall|k: int|
            0 <= k < r@.len() ==> {
                let i = #[trigger] last_places(env.entries@, env.entries@.len() as int)[k];
                &&& 0 <= i < env.entries@.len()
                &&& r@[k].0@ == env.entries@[i].0@
                &&& r@[k].1@ == env.entries@[i].1@
            },
{
    let mut out: Vec<(&'a str, &'a str)> = Vec::new();
    let mut i: usize = 0;
    while i < env.entries.len()
        invariant
            i <= env.entries@.len(),
            out@.len() == last_places(env.entries@, i as int).len(),
            forall|k: int|
                0 <= k < out@.len() ==> {
                    let at = #[trigger] last_places(env.entries@, i as int)[k];
                    &&& 0 <= at < i
                    &&& out@[k].0@ == env.entries@[at].0@
                    &&& out@[k].1@ == env.entries@[at].1@
                },
        decreases env.entries@.len() - i,
    {
        let ghost before = last_places(env.entries@, i as int);
        let ghost after = last_places(env.entries@, i + 1);
        if !has_later(env, i) {
            out.push((env.entries[i].0.as_str(), env.entries[i].1.as_str()));
            assert(after == before.push(i as int));
        } else {
            assert(after == before);
        }
        assert forall|k: int| 0 <= k < out@.len() implies {
            let at = #[trigger] after[k];
            &&& 0 <= at < i + 1
            &&& out@[k].0@ == env.entries@[at].0@
            &&& out@[k].1@ == env.entries@[at].1@
        } by {
            if k < before.len() {
                assert(after[k] == before[k]);
            }
        }
        i = i + 1;
    }
    out
}

/// Get all environment variable values in the order in which the host
/// gave them.
pub fn vars_ordered<'a>(env: &'a Environment) -> (r: &'a [(String, String)])
    ensures
        r@ == env.entries@,
{
    env.entries.as_slice()
}

} // verus!
