//! The localization context: the set of loaded catalogs keyed by locale
//! code, the optional fallback table, and message resolution over them.
//! Both the bundle lookup and the message lookup follow the fallback chain
//! under a visited-set guard, so a cyclic fallback table ends a resolution
//! with "no translation" instead of looping.

use vstd::prelude::*;
use vstd::seq_lib::seq_to_set_is_finite;
use fluent::FluentBundle;
use fluent::FluentResource;
use crate::fluent_api::catalog_ids;
use crate::fluent_api::catalog_literals;
use crate::fluent_api::catalog_plain;
use crate::fluent_api::catalog_valued;
use crate::fluent_api::render_message;
use crate::fluent_api::has_message;
use crate::localizeable_data::LocalizeableData;
use crate::localizeable_data::data_size;

verus! {

/// First index whose pair's key reads `key`; None when no pair's key does.
pub open spec fn assoc_index<T>(s: Seq<(String, T)>, key: Seq<char>) -> Option<int>
    decreases s.len(),
{
    if s.len() == 0 {
        None
    } else if s[0].0@ == key {
        Some(0)
    } else {
        match assoc_index(s.drop_first(), key) {
            Some(i) => Some(i + 1),
            None => None,
        }
    }
}

pub proof fn lemma_assoc_index_some<T>(s: Seq<(String, T)>, key: Seq<char>)
    requires
        assoc_index(s, key) is Some,
    ensures
        assoc_index(s, key) matches Some(i) && 0 <= i < s.len() && s[i].0@ == key,
    decreases s.len(),
{
    if s.len() > 0 && s[0].0@ != key {
        lemma_assoc_index_some(s.drop_first(), key);
    }
}

pub proof fn lemma_assoc_index_from_scan<T>(s: Seq<(String, T)>, key: Seq<char>, i: int)
    requires
        0 <= i < s.len(),
        s[i].0@ == key,
        forall|j: int| 0 <= j < i ==> s[j].0@ != key,
    ensures
        assoc_index(s, key) == Some(i),
    decreases i,
{
    if i > 0 {
        lemma_assoc_index_from_scan(s.drop_first(), key, i - 1);
    }
}

pub proof fn lemma_assoc_index_none<T>(s: Seq<(String, T)>, key: Seq<char>)
    requires
        forall|j: int| 0 <= j < s.len() ==> s[j].0@ != key,
    ensures
        assoc_index(s, key) is None,
    decreases s.len(),
{
    if s.len() > 0 {
        lemma_assoc_index_none(s.drop_first(), key);
    }
}

/// The locale codes a list of owned strings stands for.
pub open spec fn codes_set(v: Seq<String>) -> Set<Seq<char>> {
    v.map_values(|s: String| s@).to_set()
}

pub proof fn lemma_codes_set_contains(v: Seq<String>, c: Seq<char>)
    ensures
        codes_set(v).contains(c) <==> exists|j: int| 0 <= j < v.len() && v[j]@ == c,
{
    let m = v.map_values(|s: String| s@);
    if codes_set(v).contains(c) {
        let j = choose|j: int| 0 <= j < m.len() && m[j] == c;
        assert(v[j]@ == c);
    }
    if exists|j: int| 0 <= j < v.len() && v[j]@ == c {
        let j = choose|j: int| 0 <= j < v.len() && v[j]@ == c;
        assert(m[j] == c);
        assert(m.contains(c));
    }
}

pub proof fn lemma_codes_set_push(v: Seq<String>, x: String)
    ensures
        codes_set(v.push(x)) == codes_set(v).insert(x@),
{
    assert(codes_set(v.push(x)) =~= codes_set(v).insert(x@)) by {
        assert forall|c: Seq<char>| codes_set(v.push(x)).contains(c) implies codes_set(
            v,
        ).insert(x@).contains(c) by {
            lemma_codes_set_contains(v.push(x), c);
            let j = choose|j: int| 0 <= j < v.push(x).len() && v.push(x)[j]@ == c;
            if j < v.len() {
                lemma_codes_set_contains(v, c);
                assert(v[j]@ == c);
            } else {
                assert(c == x@);
            }
        }
        assert forall|c: Seq<char>| codes_set(v).insert(x@).contains(c) implies codes_set(
            v.push(x),
        ).contains(c) by {
            lemma_codes_set_contains(v.push(x), c);
            if c == x@ {
                assert(v.push(x)[v.len() as int]@ == c);
            } else {
                lemma_codes_set_contains(v, c);
                let j = choose|j: int| 0 <= j < v.len() && v[j]@ == c;
                assert(v.push(x)[j]@ == c);
            }
        }
    }
}

/// A key that an association list holds lies in the set its keys make.
pub proof fn lemma_assoc_key_in_set<T>(s: Seq<(String, T)>, key: Seq<char>)
    requires
        assoc_index(s, key) is Some,
    ensures
        s.map_values(|p: (String, T)| p.0@).to_set().contains(key),
{
    lemma_assoc_index_some(s, key);
    let i = choose|i: int| assoc_index(s, key) == Some(i);
    let m = s.map_values(|p: (String, T)| p.0@);
    assert(m[i] == key);
    assert(m.contains(key));
}

/// String equality by character content.
pub(crate) fn str_eq(a: &str, b: &str) -> (r: bool)
    ensures
        r == (a@ == b@),
{
    let x = a.to_owned();
    let y = b.to_owned();
    x.eq(&y)
}

/// A shared reference to one element of a vector.
pub(crate) fn vec_ref<'a, T>(v: &'a Vec<T>, i: usize) -> (r: &'a T)
    requires
        i < v@.len(),
    ensures
        *r == v@[i as int],
{
    vstd::slice::slice_index_get(v.as_slice(), i)
}

/// Whether one of the owned strings reads `code`.
pub(crate) fn contains_code(v: &Vec<String>, code: &str) -> (r: bool)
    ensures
        r == codes_set(v@).contains(code@),
{
    proof {
        lemma_codes_set_contains(v@, code@);
    }
    let n = v.len();
    let mut i: usize = 0;
    while i < n
        invariant
            i <= n,
            n == v@.len(),
            forall|j: int| 0 <= j < i ==> v@[j]@ != code@,
        decreases n - i,
    {
        if str_eq(vec_ref(v, i).as_str(), code) {
            proof {
                lemma_codes_set_contains(v@, code@);
            }
            return true;
        }
        i = i + 1;
    }
    false
}

/// The localization context: owns every loaded catalog, keyed by locale
/// code, and the optional fallback table (locale code to locale code).
pub struct LocalizationBundles {
    pub bundles: Vec<(String, FluentBundle<FluentResource>)>,
    pub fallbacks_table: Option<Vec<(String, String)>>,
}

impl LocalizationBundles {
    /// A catalog is loaded under this locale code.
    pub open spec fn has_bundle(self, c: Seq<char>) -> bool {
        assoc_index(self.bundles@, c) is Some
    }

    /// The catalog loaded under this code (the first, where several share it).
    pub open spec fn bundle_for(self, c: Seq<char>) -> FluentBundle<FluentResource>
        recommends
            self.has_bundle(c),
    {
        match assoc_index(self.bundles@, c) {
            Some(i) => self.bundles@[i].1,
            None => arbitrary(),
        }
    }

    /// The fallback table's entry for this code, if a table is set and holds one.
    pub open spec fn fallback_next(self, c: Seq<char>) -> Option<Seq<char>> {
        match self.fallbacks_table {
            None => None,
            Some(t) => match assoc_index(t@, c) {
                Some(i) => Some(t@[i].1@),
                None => None,
            },
        }
    }

    /// The set of locale codes the fallback table maps.
    pub open spec fn fallback_keys(self) -> Set<Seq<char>> {
        match self.fallbacks_table {
            None => Set::empty(),
            Some(t) => t@.map_values(|p: (String, String)| p.0@).to_set(),
        }
    }

    /// How many fallback keys are still unvisited: the chase's termination
    /// measure.
    pub open spec fn chase_measure(self, visited: Set<Seq<char>>) -> nat {
        self.fallback_keys().difference(visited).len()
    }

    /// Taking a fallback step from an unvisited code shrinks the measure.
    pub proof fn lemma_chase_step(self, c: Seq<char>, visited: Set<Seq<char>>)
        requires
            self.fallback_next(c) is Some,
            !visited.contains(c),
        ensures
            self.chase_measure(visited.insert(c)) < self.chase_measure(visited),
    {
        broadcast use seq_to_set_is_finite;

        match self.fallbacks_table {
            None => {
                assert(false);
            },
            Some(t) => {
                lemma_assoc_key_in_set(t@, c);
                self.fallback_keys().lemma_set_insert_diff_decreases(visited, c);
            },
        }
    }

    /// The locale code at which the bundle chase for `c` ends: `c` itself
    /// when its catalog is loaded, else the chase follows the fallback table,
    /// and a missing entry — or a code already tried, which is how a cycle
    /// shows itself — ends it with None.
    pub open spec fn chase(self, c: Seq<char>, visited: Set<Seq<char>>) -> Option<Seq<char>>
        decreases self.chase_measure(visited),
    {
        if self.has_bundle(c) {
            Some(c)
        } else if visited.contains(c) {
            None
        } else {
            match self.fallback_next(c) {
                None => None,
                Some(next) => {
                    proof {
                        self.lemma_chase_step(c, visited);
                    }
                    self.chase(next, visited.insert(c))
                },
            }
        }
    }

    /// The locale code whose catalog ends the message chase for `id` from
    /// `c`: the first code along the (message-level) fallback chain whose
    /// resolved catalog holds the message. None when the chain ends without
    /// one, when a cycle is hit, or when the found message has no value to
    /// render.
    pub open spec fn msg_chase(self, id: Seq<char>, c: Seq<char>, visited: Set<Seq<char>>) -> Option<
        Seq<char>,
    >
        decreases self.chase_measure(visited),
    {
        match self.chase(c, Set::empty()) {
            None => None,
            Some(bc) => {
                if catalog_ids(self.bundle_for(bc)).contains(id) {
                    if catalog_valued(self.bundle_for(bc)).contains(id) {
                        Some(bc)
                    } else {
                        None
                    }
                } else if visited.contains(c) {
                    None
                } else {
                    match self.fallback_next(c) {
                        None => None,
                        Some(next) => {
                            proof {
                                self.lemma_chase_step(c, visited);
                            }
                            self.msg_chase(id, next, visited.insert(c))
                        },
                    }
                }
            },
        }
    }

    /// An empty context: no catalogs, no fallback table.
    pub fn new() -> (r: Self)
        ensures
            r.bundles@.len() == 0,
            r.fallbacks_table is None,
    {
        LocalizationBundles { bundles: Vec::new(), fallbacks_table: None }
    }

    /// The loaded catalogs, keyed by locale code.
    pub fn bundles(&self) -> (r: &Vec<(String, FluentBundle<FluentResource>)>)
        ensures
            r@ == self.bundles@,
    {
        &self.bundles
    }

    /// Mutable access to the loaded catalogs, for the load or reload path.
    pub fn bundles_mut(&mut self) -> (r: &mut Vec<(String, FluentBundle<FluentResource>)>)
        ensures
            *r == old(self).bundles,
            final(self).bundles == *final(r),
            final(self).fallbacks_table == old(self).fallbacks_table,
    {
        &mut self.bundles
    }

    /// The fallback table, if one is set.
    pub fn fallbacks(&self) -> (r: Option<&Vec<(String, String)>>)
        ensures
            match r {
                Some(t) => self.fallbacks_table matches Some(v) && v@ == t@,
                None => self.fallbacks_table is None,
            },
    {
        self.fallbacks_table.as_ref()
    }

    /// Install a fallback table, replacing any prior one wholesale.
    pub fn set_fallbacks(&mut self, fallbacks: Vec<(String, String)>)
        ensures
            final(self).fallbacks_table matches Some(t) && t@ == fallbacks@,
            final(self).bundles@ == old(self).bundles@,
    {
        self.fallbacks_table = Some(fallbacks);
    }

    /// Load a catalog under a locale code, shadowing any catalog the code
    /// held before; the fallback table is untouched.
    pub fn add_bundle(&mut self, code: String, bundle: FluentBundle<FluentResource>)
        ensures
            final(self).bundles@ == old(self).bundles@.insert(0, (code, bundle)),
            final(self).fallbacks_table == old(self).fallbacks_table,
    {
        self.bundles.insert(0, (code, bundle));
    }

    fn find_bundle_index(&self, code: &str) -> (r: Option<usize>)
        ensures
            match r {
                Some(i) => assoc_index(self.bundles@, code@) == Some(i as int),
                None => assoc_index(self.bundles@, code@) is None,
            },
    {
        let n = self.bundles.len();
        let mut i: usize = 0;
        while i < n
            invariant
                i <= n,
                n == self.bundles@.len(),
                forall|j: int| 0 <= j < i ==> self.bundles@[j].0@ != code@,
            decreases n - i,
        {
            if str_eq(vec_ref(&self.bundles, i).0.as_str(), code) {
                proof {
                    lemma_assoc_index_from_scan(self.bundles@, code@, i as int);
                }
                return Some(i);
            }
            i = i + 1;
        }
        proof {
            lemma_assoc_index_none(self.bundles@, code@);
        }
        None
    }

    fn find_fallback<'a>(&'a self, code: &str) -> (r: Option<&'a String>)
        ensures
            match r {
                Some(s) => self.fallback_next(code@) == Some(s@),
                None => self.fallback_next(code@) is None,
            },
    {
        match &self.fallbacks_table {
            None => None,
            Some(t) => {
                let n = t.len();
                let mut i: usize = 0;
                while i < n
                    invariant
                        i <= n,
                        n == t@.len(),
                        self.fallbacks_table matches Some(v) && v@ == t@,
                        forall|j: int| 0 <= j < i ==> t@[j].0@ != code@,
                    decreases n - i,
                {
                    let p = vec_ref(t, i);
                    if str_eq(p.0.as_str(), code) {
                        proof {
                            lemma_assoc_index_from_scan(t@, code@, i as int);
                        }
                        return Some(&p.1);
                    }
                    i = i + 1;
                }
                proof {
                    lemma_assoc_index_none(t@, code@);
                }
                None
            },
        }
    }

    /// Resolve the catalog for a locale code: the code's own catalog where
    /// one is loaded, else the fallback chain is followed; a missing entry
    /// or a cycle ends the chase with None.
    pub fn resolve_bundle<'a>(&'a self, code: &str) -> (r: Option<
        &'a FluentBundle<FluentResource>,
    >)
        ensures
            match self.chase(code@, Set::empty()) {
                Some(rc) => r matches Some(b) && self.has_bundle(rc) && *b == self.bundle_for(rc),
                None => r is None,
            },
    {
        let mut cur: String = code.to_owned();
        let mut visited: Vec<String> = Vec::new();
        proof {
            assert(codes_set(visited@) =~= Set::<Seq<char>>::empty());
        }
        loop
            invariant
                self.chase(code@, Set::empty()) == self.chase(cur@, codes_set(visited@)),
            decreases self.chase_measure(codes_set(visited@)),
        {
            if let Some(i) = self.find_bundle_index(cur.as_str()) {
                proof {
                    lemma_assoc_index_some(self.bundles@, cur@);
                }
                let p = vec_ref(&self.bundles, i);
                return Some(&p.1);
            }
            if contains_code(&visited, cur.as_str()) {
                return None;
            }
            let next: String = match self.find_fallback(cur.as_str()) {
                None => {
                    return None;
                },
                Some(s) => s.clone(),
            };
            proof {
                self.lemma_chase_step(cur@, codes_set(visited@));
                lemma_codes_set_push(visited@, cur);
            }
            visited.push(cur);
            cur = next;
        }
    }

    /// Render a found message of a catalog with the request's arguments;
    /// the non-fatal render errors come back out of band, beside the text,
    /// instead of aborting the render. A pure-literal message of a plain
    /// catalog renders to its own text, unchanged.
    fn format_message(
        &self,
        bundle: &FluentBundle<FluentResource>,
        data: &LocalizeableData,
    ) -> (r: Option<(String, Vec<String>)>)
        ensures
            (r is Some) == catalog_valued(*bundle).contains(data.id@),
            r matches Some(p) ==> (catalog_plain(*bundle) && catalog_literals(
                *bundle,
            ).dom().contains(data.id@) ==> p.0@ == catalog_literals(*bundle)[data.id@]),
        decreases data_size(*data), 1int,
    {
        let fargs = data.parse_args(self);
        render_message(bundle, data.id.as_str(), fargs.as_ref())
    }

    /// What resolution promises of the rendered text itself: where the
    /// message chase lands on a pure-literal message of a plain catalog,
    /// the text is that literal, unchanged. Every other pattern's output
    /// passes through the renderer unspecified.
    pub open spec fn resolved_text_ok(self, id: Seq<char>, code: Seq<char>, text: Seq<char>) -> bool {
        self.msg_chase(id, code, Set::empty()) matches Some(bc) && {
            let b = self.bundle_for(bc);
            catalog_plain(b) && catalog_literals(b).dom().contains(id) ==> text
                == catalog_literals(b)[id]
        }
    }

    pub(crate) fn resolve_message_inner(&self, data: &LocalizeableData) -> (r: Option<
        (String, Vec<String>),
    >)
        ensures
            (r is Some) == (self.msg_chase(data.id@, data.code@, Set::empty()) is Some),
            r matches Some(p) ==> self.resolved_text_ok(data.id@, data.code@, p.0@),
        decreases data_size(*data), 2int,
    {
        let mut cur: String = data.code.clone();
        let mut visited: Vec<String> = Vec::new();
        proof {
            assert(codes_set(visited@) =~= Set::<Seq<char>>::empty());
        }
        loop
            invariant
                self.msg_chase(data.id@, data.code@, Set::empty()) == self.msg_chase(
                    data.id@,
                    cur@,
                    codes_set(visited@),
                ),
            decreases self.chase_measure(codes_set(visited@)),
        {
            let bundle = match self.resolve_bundle(cur.as_str()) {
                None => {
                    return None;
                },
                Some(b) => b,
            };
            if has_message(bundle, data.id.as_str()) {
                let rendered = self.format_message(bundle, data);
                return rendered;
            }
            if contains_code(&visited, cur.as_str()) {
                return None;
            }
            let next: String = match self.find_fallback(cur.as_str()) {
                None => {
                    return None;
                },
                Some(s) => s.clone(),
            };
            proof {
                self.lemma_chase_step(cur@, codes_set(visited@));
                lemma_codes_set_push(visited@, cur);
            }
            visited.push(cur);
            cur = next;
        }
    }

    /// Resolve a whole request to a rendered string. None exactly when the
    /// request finds no translation: no catalog after the full fallback
    /// chase, no catalog along the chain holding the message id, or a found
    /// message without a renderable value. Render-time substitution errors
    /// do not fail a resolution.
    pub fn resolve_message(&self, data: LocalizeableData) -> (r: Option<String>)
        ensures
            (r is Some) == (self.msg_chase(data.id@, data.code@, Set::empty()) is Some),
            r matches Some(text) ==> self.resolved_text_ok(data.id@, data.code@, text@),
    {
        match self.resolve_message_inner(&data) {
            Some((text, _render_errors)) => Some(text),
            None => None,
        }
    }

    /// As `resolve_message`, but the non-fatal render error descriptions
    /// come back out of band beside the text, for the caller to log.
    pub fn resolve_message_with_errors(&self, data: LocalizeableData) -> (r: Option<
        (String, Vec<String>),
    >)
        ensures
            (r is Some) == (self.msg_chase(data.id@, data.code@, Set::empty()) is Some),
            r matches Some(p) ==> self.resolved_text_ok(data.id@, data.code@, p.0@),
    {
        self.resolve_message_inner(&data)
    }
}

impl Default for LocalizationBundles {
    fn default() -> (r: Self)
        ensures
            r.bundles@.len() == 0,
            r.fallbacks_table is None,
    {
        LocalizationBundles::new()
    }
}

/// Law: a message that a loaded catalog holds with a renderable value
/// resolves at its own locale code, with no fallback consulted.
pub proof fn lemma_direct_hit(s: LocalizationBundles, id: Seq<char>, c: Seq<char>)
    requires
        s.has_bundle(c),
        catalog_ids(s.bundle_for(c)).contains(id),
        catalog_valued(s.bundle_for(c)).contains(id),
    ensures
        s.msg_chase(id, c, Set::empty()) == Some(c),
{
}

/// Law: an existing message whose value is pure literal text, in a plain
/// catalog loaded under the requested code itself, resolves to exactly that
/// text — the pattern's literal text comes back unchanged.
pub proof fn lemma_literal_message_text(
    s: LocalizationBundles,
    id: Seq<char>,
    c: Seq<char>,
    text: Seq<char>,
)
    requires
        s.has_bundle(c),
        catalog_ids(s.bundle_for(c)).contains(id),
        catalog_valued(s.bundle_for(c)).contains(id),
        catalog_plain(s.bundle_for(c)),
        catalog_literals(s.bundle_for(c)).dom().contains(id),
        s.resolved_text_ok(id, c, text),
    ensures
        text == catalog_literals(s.bundle_for(c))[id],
{
    lemma_direct_hit(s, id, c);
}

/// Law: a locale code with no loaded catalog and no fallback entry resolves
/// to no bundle, whatever else the context holds.
pub proof fn lemma_unresolvable_code(s: LocalizationBundles, c: Seq<char>)
    requires
        !s.has_bundle(c),
        s.fallback_next(c) is None,
    ensures
        s.chase(c, Set::empty()) is None,
{
}

/// Law: with no catalogs loaded at all, the fallback chase ends with None
/// for every code, every visited set and every fallback table — a cyclic
/// table included; the chase terminates rather than looping.
pub proof fn lemma_no_catalogs_chase_none(s: LocalizationBundles, c: Seq<char>, visited: Set<Seq<char>>)
    requires
        s.bundles@.len() == 0,
    ensures
        s.chase(c, visited) is None,
    decreases s.chase_measure(visited),
{
    if !s.has_bundle(c) && !visited.contains(c) {
        match s.fallback_next(c) {
            None => {
            },
            Some(next) => {
                s.lemma_chase_step(c, visited);
                lemma_no_catalogs_chase_none(s, next, visited.insert(c));
            },
        }
    }
}

} // verus!
