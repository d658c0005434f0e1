use crate::issues::search_issues::SearchIssuesRequest;
use crate::issues::transition_issue::TransitionIssueRequest;
use crate::issues::update::UpdateIssueRequest;
use crate::util::Cli;
use vstd::prelude::*;
use vstd::string::*;

verus! {

/// One named value of a query string or of a flat JSON body.
#[derive(Debug, Clone)]
pub struct Param {
    pub key: String,
    pub value: String,
}

/// Named values in the order they were added.
#[derive(Debug, Clone)]
pub struct Params {
    pub entries: Vec<Param>,
}

/// The value under `key`: the first entry with that name.
pub open spec fn lookup(entries: Seq<(Seq<char>, Seq<char>)>, key: Seq<char>) -> Option<Seq<char>>
    decreases entries.len(),
{
    if entries.len() == 0 {
        None
    } else if entries[0].0 == key {
        Some(entries[0].1)
    } else {
        lookup(entries.drop_first(), key)
    }
}

/// An optional text, seen as characters.
pub open spec fn opt_text(o: Option<String>) -> Option<Seq<char>> {
    match o {
        Some(s) => Some(s@),
        None => None,
    }
}

/// The entry `key = value` when there is a value, nothing otherwise.
pub open spec fn optional_entry(key: Seq<char>, value: Option<Seq<char>>) -> Seq<(Seq<char>, Seq<char>)> {
    match value {
        Some(v) => seq![(key, v)],
        None => seq![],
    }
}

/// `true` or `false`, as written in a request.
pub open spec fn bool_text(b: bool) -> Seq<char> {
    if b {
        "true"@
    } else {
        "false"@
    }
}

/// No two entries share a name.
pub open spec fn keys_unique(entries: Seq<(Seq<char>, Seq<char>)>) -> bool {
    forall|i: int, j: int|
        0 <= i < j < entries.len() ==> (#[trigger] entries[i]).0 != (#[trigger] entries[j]).0
}

/// The names of the entries.
pub open spec fn key_set(entries: Seq<(Seq<char>, Seq<char>)>) -> Set<Seq<char>> {
    Set::new(|k: Seq<char>| exists|i: int| 0 <= i < entries.len() && (#[trigger] entries[i]).0 == k)
}

proof fn lemma_key_set_push(s: Seq<(Seq<char>, Seq<char>)>, e: (Seq<char>, Seq<char>))
    ensures
        key_set(s.push(e)) == key_set(s).insert(e.0),
{
    let t = s.push(e);
    assert forall|k: Seq<char>| key_set(t).contains(k) implies key_set(s).insert(e.0).contains(k) by {
        let i = choose|i: int| 0 <= i < t.len() && (#[trigger] t[i]).0 == k;
        if i < s.len() {
            assert(s[i] == t[i]);
        }
    }
    assert forall|k: Seq<char>| key_set(s).insert(e.0).contains(k) implies key_set(t).contains(k) by {
        if k == e.0 {
            assert(t[s.len() as int].0 == k);
        } else {
            let i = choose|i: int| 0 <= i < s.len() && (#[trigger] s[i]).0 == k;
            assert(t[i] == s[i]);
        }
    }
    assert(key_set(t) =~= key_set(s).insert(e.0));
}

proof fn lemma_key_set_empty(s: Seq<(Seq<char>, Seq<char>)>)
    requires
        s.len() == 0,
    ensures
        key_set(s) == Set::<Seq<char>>::empty(),
{
    assert(key_set(s) =~= Set::<Seq<char>>::empty());
}

impl View for Params {
    type V = Seq<(Seq<char>, Seq<char>)>;

    open spec fn view(&self) -> Seq<(Seq<char>, Seq<char>)> {
        self.entries@.map_values(|p: Param| (p.key@, p.value@))
    }
}

impl Params {
    pub fn new() -> (r: Params)
        ensures
            r@ == Seq::<(Seq<char>, Seq<char>)>::empty(),
            key_set(r@) == Set::<Seq<char>>::empty(),
            keys_unique(r@),
    {
        let r = Params { entries: Vec::new() };
        proof {
            lemma_key_set_empty(r@);
        }
        r
    }

    /// Whether some entry is named `key`.
    pub open spec fn has_key(&self, key: Seq<char>) -> bool {
        key_set(self@).contains(key)
    }

    /// Adds `key = value`, under a name not used yet, after the entries
    /// already there.
    pub fn push(&mut self, key: &str, value: String)
        requires
            !old(self).has_key(key@),
        ensures
            final(self)@ == old(self)@.push((key@, value@)),
            key_set(final(self)@) == key_set(old(self)@).insert(key@),
            keys_unique(old(self)@) ==> keys_unique(final(self)@),
    {
        self.entries.push(Param { key: String::from_str(key), value });
        assert(final(self)@ =~= old(self)@.push((key@, value@)));
        proof {
            lemma_key_set_push(old(self)@, (key@, value@));
        }
        assert forall|i: int, j: int|
            0 <= i < j < final(self)@.len() && keys_unique(old(self)@) implies (#[trigger] final(self)@[i]).0
            != (#[trigger] final(self)@[j]).0 by {
            if j == old(self)@.len() {
                assert(final(self)@[i] == old(self)@[i]);
                assert(key_set(old(self)@).contains(old(self)@[i].0));
            } else {
                assert(final(self)@[i] == old(self)@[i]);
                assert(final(self)@[j] == old(self)@[j]);
            }
        }
    }

    /// Adds `key = value`, under a name not used yet, when `value` is present.
    pub fn push_optional(&mut self, key: &str, value: &Option<String>)
        requires
            !old(self).has_key(key@),
        ensures
            final(self)@ == old(self)@ + optional_entry(key@, opt_text(*value)),
            key_set(final(self)@) == if value is Some {
                key_set(old(self)@).insert(key@)
            } else {
                key_set(old(self)@)
            },
            keys_unique(old(self)@) ==> keys_unique(final(self)@),
    {
        match value {
            Some(v) => {
                self.push(key, v.clone());
                assert(final(self)@ =~= old(self)@ + optional_entry(key@, opt_text(*value)));
            },
            None => {
                assert(final(self)@ =~= old(self)@ + optional_entry(key@, opt_text(*value)));
            },
        }
    }

    pub fn len(&self) -> (r: usize)
        ensures
            r == self@.len(),
    {
        self.entries.len()
    }

    /// The value of the first entry named `key`.
    pub fn get(&self, key: &str) -> (r: Option<String>)
        ensures
            opt_text(r) == lookup(self@, key@),
    {
        let wanted = String::from_str(key);
        let mut i: usize = 0;
        assert(self@.skip(0) =~= self@);
        while i < self.entries.len()
            invariant
                0 <= i <= self.entries@.len(),
                wanted@ == key@,
                lookup(self@, key@) == lookup(self@.skip(i as int), key@),
            decreases self.entries@.len() - i,
        {
            let ghost rest = self@.skip(i as int);
            assert(rest[0] == (self.entries@[i as int].key@, self.entries@[i as int].value@));
            if self.entries[i].key == wanted {
                return Some(self.entries[i].value.clone());
            }
            assert(rest.drop_first() =~= self@.skip(i + 1));
            i = i + 1;
        }
        None
    }

    /// Whether some entry is named `key`.
    pub fn contains_key(&self, key: &str) -> (r: bool)
        ensures
            r == lookup(self@, key@) is Some,
    {
        self.get(key).is_some()
    }
}

/// The HTTP method of a call.
#[derive(Debug, Clone, Copy, PartialEq, Eq, Structural)]
pub enum Method {
    Get,
    Post,
    Put,
}

/// What a call sends: query parameters for a `GET`, a flat JSON object for a
/// `POST` or `PUT`.
#[derive(Debug, Clone)]
pub enum Payload {
    Query(Params),
    Fields(Params),
    Search(SearchIssuesRequest),
    Transition(TransitionIssueRequest),
    IssueUpdate(UpdateIssueRequest),
}

/// One call to the backend, ready to be sent.
#[derive(Debug, Clone)]
pub struct ApiRequest {
    pub method: Method,
    pub url: String,
    pub payload: Payload,
}

/// `{base}/rest/api/3/` followed by `path`.
pub open spec fn api_url(base: Seq<char>, path: Seq<char>) -> Seq<char> {
    base + "/rest/api/3/"@ + path
}

/// Builds `{base}/rest/api/3/{head}{id}{tail}`.
pub fn api_url_of(ctx: &Cli, head: &str, id: &str, tail: &str) -> (r: String)
    ensures
        r@ == api_url(ctx.base_jira_url@, head@ + id@ + tail@),
{
    let mut url = ctx.base_jira_url.clone();
    url.append("/rest/api/3/");
    url.append(head);
    url.append(id);
    url.append(tail);
    assert(url@ =~= api_url(ctx.base_jira_url@, head@ + id@ + tail@));
    url
}

} // verus!

verus! {

/// The one-element sequence holding `v` when present, empty otherwise.
pub open spec fn opt_seq(o: Option<Seq<char>>) -> Seq<Seq<char>> {
    match o {
        Some(v) => seq![v],
        None => seq![],
    }
}

/// A copy of each string, in order.
pub fn copy_texts(v: &Vec<String>) -> (r: Vec<String>)
    ensures
        r@ == v@,
{
    let mut out: Vec<String> = Vec::new();
    let mut i: usize = 0;
    while i < v.len()
        invariant
            0 <= i <= v@.len(),
            out@ == v@.take(i as int),
        decreases v@.len() - i,
    {
        out.push(v[i].clone());
        assert(out@ =~= v@.take(i + 1));
        i = i + 1;
    }
    assert(v@.take(v@.len() as int) =~= v@);
    out
}

/// A copy of an optional string.
pub fn copy_opt_text(o: &Option<String>) -> (r: Option<String>)
    ensures
        r == *o,
{
    match o {
        Some(s) => Some(s.clone()),
        None => None,
    }
}

/// The texts of a vector of strings.
pub open spec fn texts(v: Seq<String>) -> Seq<Seq<char>> {
    v.map_values(|s: String| s@)
}

} // verus!
