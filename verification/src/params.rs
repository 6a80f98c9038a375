//! Query parameters: an ordered mapping from names to values in which every
//! name occurs once, and its form-urlencoded text.

use crate::text::{decimal, decimal_string};
use vstd::prelude::*;

verus! {

/// Whether some pair of `pairs` has the name `key`.
pub open spec fn has_key(pairs: Seq<(Seq<char>, Seq<char>)>, key: Seq<char>) -> bool {
    exists|i: int| 0 <= i < pairs.len() && (#[trigger] pairs[i]).0 == key
}

/// The position of a pair with the name `key`.
pub open spec fn key_index(pairs: Seq<(Seq<char>, Seq<char>)>, key: Seq<char>) -> int {
    choose|i: int| 0 <= i < pairs.len() && (#[trigger] pairs[i]).0 == key
}

/// No two pairs have the same name.
pub open spec fn distinct_keys(pairs: Seq<(Seq<char>, Seq<char>)>) -> bool {
    forall|i: int, j: int|
        0 <= i < j < pairs.len() ==> (#[trigger] pairs[i]).0 != (#[trigger] pairs[j]).0
}

/// The value that `pairs` gives to `key`.
pub open spec fn lookup(pairs: Seq<(Seq<char>, Seq<char>)>, key: Seq<char>) -> Option<Seq<char>> {
    if has_key(pairs, key) {
        Some(pairs[key_index(pairs, key)].1)
    } else {
        None
    }
}

/// `pairs` after `key` was given `value`: a pair with that name is
/// overwritten where it stands, a new name goes to the end.
pub open spec fn upsert(pairs: Seq<(Seq<char>, Seq<char>)>, key: Seq<char>, value: Seq<char>) -> Seq<
    (Seq<char>, Seq<char>),
> {
    if has_key(pairs, key) {
        pairs.update(key_index(pairs, key), (key, value))
    } else {
        pairs.push((key, value))
    }
}

/// Writing a name keeps the names distinct.
pub proof fn lemma_upsert_distinct(
    pairs: Seq<(Seq<char>, Seq<char>)>,
    key: Seq<char>,
    value: Seq<char>,
)
    requires
        distinct_keys(pairs),
    ensures
        distinct_keys(upsert(pairs, key, value)),
        upsert(pairs, key, value).len() == if has_key(pairs, key) {
            pairs.len()
        } else {
            pairs.len() + 1
        },
{
    let after = upsert(pairs, key, value);
    if has_key(pairs, key) {
        let at = key_index(pairs, key);
        assert forall|i: int, j: int| 0 <= i < j < after.len() implies (#[trigger] after[i]).0 != (
        #[trigger] after[j]).0 by {
            assert(pairs[i].0 != pairs[j].0);
            if i == at {
                assert(pairs[at].0 != pairs[j].0);
            }
            if j == at {
                assert(pairs[i].0 != pairs[at].0);
            }
        }
    } else {
        assert forall|i: int, j: int| 0 <= i < j < after.len() implies (#[trigger] after[i]).0 != (
        #[trigger] after[j]).0 by {
            if j == pairs.len() {
                assert(pairs[i].0 != key);
            } else {
                assert(pairs[i].0 != pairs[j].0);
            }
        }
    }
}

/// A value that was written is the value that is read, whatever stood
/// there before, and every other name keeps its value.
pub proof fn lemma_lookup_upsert(
    pairs: Seq<(Seq<char>, Seq<char>)>,
    key: Seq<char>,
    value: Seq<char>,
    other: Seq<char>,
)
    requires
        distinct_keys(pairs),
    ensures
        lookup(upsert(pairs, key, value), key) == Some(value),
        other != key ==> lookup(upsert(pairs, key, value), other) == lookup(pairs, other),
{
    let after = upsert(pairs, key, value);
    lemma_upsert_distinct(pairs, key, value);
    let at = if has_key(pairs, key) {
        key_index(pairs, key)
    } else {
        pairs.len() as int
    };
    assert(after[at] == (key, value));
    assert(has_key(after, key));
    lemma_key_index(after, key, at);
    if other != key {
        if has_key(pairs, other) {
            let o = key_index(pairs, other);
            assert(after[o] == pairs[o]);
            assert(has_key(after, other));
            lemma_key_index(after, other, o);
        } else {
            if has_key(after, other) {
                let o = key_index(after, other);
                assert(after[o].0 == other);
                if o < pairs.len() {
                    assert(pairs[o].0 == other);
                }
                assert(false);
            }
        }
    }
}

/// With distinct names, a position that holds `key` is its position.
pub proof fn lemma_key_index(pairs: Seq<(Seq<char>, Seq<char>)>, key: Seq<char>, at: int)
    requires
        distinct_keys(pairs),
        0 <= at < pairs.len(),
        pairs[at].0 == key,
    ensures
        has_key(pairs, key),
        key_index(pairs, key) == at,
{
    assert(has_key(pairs, key));
    let found = key_index(pairs, key);
    if found < at {
        assert(pairs[found].0 != pairs[at].0);
    } else if at < found {
        assert(pairs[at].0 != pairs[found].0);
    }
}

/// An ordered mapping from names to values. Every name occurs once; a name
/// keeps the place at which it was first written.
#[derive(Debug, PartialEq, Eq)]
pub struct QueryParams {
    entries: Vec<(String, String)>,
}

/// The pairs of a vector of entries, as text.
pub open spec fn entries_view(entries: Seq<(String, String)>) -> Seq<(Seq<char>, Seq<char>)> {
    Seq::new(entries.len(), |i: int| (entries[i].0@, entries[i].1@))
}

impl View for QueryParams {
    type V = Seq<(Seq<char>, Seq<char>)>;

    closed spec fn view(&self) -> Seq<(Seq<char>, Seq<char>)> {
        entries_view(self.entries@)
    }
}

impl QueryParams {
    #[verifier::type_invariant]
    spec fn names_are_distinct(&self) -> bool {
        distinct_keys(self@)
    }

    /// The empty mapping.
    pub fn new() -> (r: QueryParams)
        ensures
            r@ == Seq::<(Seq<char>, Seq<char>)>::empty(),
    {
        let r = QueryParams { entries: Vec::new() };
        assert(r@ =~= Seq::<(Seq<char>, Seq<char>)>::empty());
        r
    }

    /// The number of names.
    pub fn len(&self) -> (r: usize)
        ensures
            r == self@.len(),
    {
        self.entries.len()
    }

    /// The pairs in their order.
    pub fn entries(&self) -> (r: &Vec<(String, String)>)
        ensures
            entries_view(r@) == self@,
            distinct_keys(self@),
    {
        proof {
            use_type_invariant(self);
        }
        &self.entries
    }

    /// The value of `key`.
    pub fn get(&self, key: &str) -> (r: Option<&String>)
        ensures
            match r {
                Some(value) => lookup(self@, key@) == Some(value@),
                None => lookup(self@, key@) is None,
            },
    {
        proof {
            use_type_invariant(self);
        }
        let wanted = String::from_str(key);
        let n = self.entries.len();
        let mut i: usize = 0;
        while i < n
            invariant
                n == self.entries.len(),
                i <= n,
                wanted@ == key@,
                distinct_keys(self@),
                forall|j: int| 0 <= j < i ==> (#[trigger] self@[j]).0 != key@,
            decreases n - i,
        {
            if self.entries[i].0 == wanted {
                proof {
                    lemma_key_index(self@, key@, i as int);
                    assert(self@[i as int].1 == self.entries@[i as int].1@);
                }
                return Some(&self.entries[i].1);
            }
            i += 1;
        }
        None
    }

    /// Gives `key` the value `value`. A value that `key` had is overwritten.
    pub fn insert(&mut self, key: String, value: String)
        ensures
            final(self)@ == upsert(old(self)@, key@, value@),
            distinct_keys(final(self)@),
    {
        proof {
            use_type_invariant(&*self);
            lemma_upsert_distinct(self@, key@, value@);
        }
        let n = self.entries.len();
        let mut i: usize = 0;
        while i < n
            invariant
                n == self.entries.len(),
                i <= n,
                self.entries == old(self).entries,
                distinct_keys(self@),
                forall|j: int| 0 <= j < i ==> (#[trigger] self@[j]).0 != key@,
            decreases n - i,
        {
            if self.entries[i].0 == key {
                proof {
                    lemma_key_index(self@, key@, i as int);
                }
                let ghost before = self@;
                let mut entries = Vec::new();
                core::mem::swap(&mut entries, &mut self.entries);
                entries.set(i, (key, value));
                assert(entries_view(entries@) =~= upsert(before, key@, value@));
                self.entries = entries;
                return ;
            }
            i += 1;
        }
        let ghost before = self@;
        let mut entries = Vec::new();
        core::mem::swap(&mut entries, &mut self.entries);
        entries.push((key, value));
        assert(entries_view(entries@) =~= upsert(before, key@, value@));
        self.entries = entries;
    }
}

impl Clone for QueryParams {
    fn clone(&self) -> (r: Self)
        ensures
            r@ == self@,
    {
        proof {
            use_type_invariant(self);
        }
        let n = self.entries.len();
        let mut entries: Vec<(String, String)> = Vec::new();
        let mut i: usize = 0;
        while i < n
            invariant
                n == self.entries.len(),
                i <= n,
                entries@.len() == i,
                entries_view(entries@) == self@.take(i as int),
            decreases n - i,
        {
            let ghost before = entries@;
            let pair = (self.entries[i].0.clone(), self.entries[i].1.clone());
            entries.push(pair);
            assert forall|j: int| 0 <= j <= i implies entries_view(entries@)[j] == self@[j] by {
                if j < i {
                    assert(entries_view(before)[j] == self@.take(i as int)[j]);
                }
            }
            assert(entries_view(entries@) =~= self@.take(i + 1));
            i += 1;
        }
        assert(self@.take(n as int) =~= self@);
        QueryParams { entries }
    }
}

/// The text that `url::form_urlencoded` writes for `text`: its
/// `application/x-www-form-urlencoded` byte serialisation.
pub uninterp spec fn form_encoded(text: Seq<char>) -> Seq<char>;

/// A query string after one more pair: an `&` where something stands
/// already, then the name, `=` and the value.
pub open spec fn with_pair(query: Seq<char>, name: Seq<char>, value: Seq<char>) -> Seq<char> {
    let start = if query.len() > 0 {
        query + "&"@
    } else {
        query
    };
    start + name + "="@ + value
}

/// Appends one pair to a query string with
/// `url::form_urlencoded::Serializer` (`new`, `append_pair`, `finish`).
///
/// Trusted: the serializer separates pairs by `&`, name and value by `=`,
/// and writes both form-urlencoded; what that encoding is for a given text
/// is named by `form_encoded` and not stated.
#[verifier::external_body]
fn append_pair(query: String, name: &str, value: &str) -> (r: String)
    ensures
        r@ == with_pair(query@, form_encoded(name@), form_encoded(value@)),
{
    url::form_urlencoded::Serializer::new(query).append_pair(name, value).finish()
}

/// The query string of `pairs`, in their order.
pub open spec fn query_string(pairs: Seq<(Seq<char>, Seq<char>)>) -> Seq<char>
    decreases pairs.len(),
{
    if pairs.len() == 0 {
        Seq::empty()
    } else {
        with_pair(
            query_string(pairs.drop_last()),
            form_encoded(pairs.last().0),
            form_encoded(pairs.last().1),
        )
    }
}

impl QueryParams {
    /// The parameters as a form-urlencoded query string.
    pub fn to_query_string(&self) -> (r: String)
        ensures
            r@ == query_string(self@),
    {
        let n = self.entries.len();
        let mut query = String::new();
        let mut i: usize = 0;
        while i < n
            invariant
                n == self.entries.len(),
                i <= n,
                query@ == query_string(self@.take(i as int)),
            decreases n - i,
        {
            proof {
                assert(self@.take(i + 1).drop_last() =~= self@.take(i as int));
            }
            query = append_pair(query, self.entries[i].0.as_str(), self.entries[i].1.as_str());
            i += 1;
        }
        assert(self@.take(n as int) =~= self@);
        query
    }
}

/// The value of the `timeout` parameter: the request timeout in whole
/// seconds, followed by `s`.
pub open spec fn timeout_value(secs: u64) -> Seq<char> {
    decimal(secs as nat) + "s"@
}

/// The query parameters of the bulk URL: those of the configuration, then
/// `timeout`, then `pipeline` where a pipeline is configured. A later one
/// overwrites an earlier one of the same name.
pub open spec fn merged_query(
    configured: Seq<(Seq<char>, Seq<char>)>,
    timeout_secs: u64,
    pipeline: Option<Seq<char>>,
) -> Seq<(Seq<char>, Seq<char>)> {
    let with_timeout = upsert(configured, "timeout"@, timeout_value(timeout_secs));
    match pipeline {
        Some(name) => upsert(with_timeout, "pipeline"@, name),
        None => with_timeout,
    }
}

/// Merges the configured query parameters with the computed ones.
pub fn merge_query(configured: Option<&QueryParams>, timeout_secs: u64, pipeline: &Option<String>) -> (r:
    QueryParams)
    ensures
        r@ == merged_query(
            match configured {
                Some(q) => q@,
                None => Seq::empty(),
            },
            timeout_secs,
            crate::uri::optional_text(*pipeline),
        ),
        distinct_keys(r@),
{
    let mut params = match configured {
        Some(q) => q.clone(),
        None => QueryParams::new(),
    };
    let mut timeout = decimal_string(timeout_secs);
    timeout.append("s");
    params.insert(String::from_str("timeout"), timeout);
    match pipeline {
        Some(name) => {
            params.insert(String::from_str("pipeline"), name.clone());
        },
        None => {},
    }
    proof {
        use_type_invariant(&params);
    }
    params
}

/// In the merged query parameters the computed ones win: `timeout` has the
/// computed value whatever the configuration gave it, `pipeline` has the
/// configured pipeline where there is one, and every other name keeps the
/// value of the configuration. No name occurs twice.
pub proof fn lemma_merged_query(
    configured: Seq<(Seq<char>, Seq<char>)>,
    timeout_secs: u64,
    pipeline: Option<Seq<char>>,
    other: Seq<char>,
)
    requires
        distinct_keys(configured),
    ensures
        distinct_keys(merged_query(configured, timeout_secs, pipeline)),
        lookup(merged_query(configured, timeout_secs, pipeline), "timeout"@) == Some(
            timeout_value(timeout_secs),
        ),
        lookup(merged_query(configured, timeout_secs, pipeline), "pipeline"@) == match pipeline {
            Some(name) => Some(name),
            None => lookup(configured, "pipeline"@),
        },
        other != "timeout"@ && other != "pipeline"@ ==> lookup(
            merged_query(configured, timeout_secs, pipeline),
            other,
        ) == lookup(configured, other),
{
    reveal_strlit("timeout");
    reveal_strlit("pipeline");
    assert("timeout"@ != "pipeline"@) by {
        assert("timeout"@.len() == 7);
        assert("pipeline"@.len() == 8);
    }
    let timeout = timeout_value(timeout_secs);
    let with_timeout = upsert(configured, "timeout"@, timeout);
    lemma_upsert_distinct(configured, "timeout"@, timeout);
    lemma_lookup_upsert(configured, "timeout"@, timeout, other);
    lemma_lookup_upsert(configured, "timeout"@, timeout, "pipeline"@);
    match pipeline {
        Some(name) => {
            lemma_upsert_distinct(with_timeout, "pipeline"@, name);
            lemma_lookup_upsert(with_timeout, "pipeline"@, name, other);
            lemma_lookup_upsert(with_timeout, "pipeline"@, name, "timeout"@);
        },
        None => {},
    }
}

} // verus!
