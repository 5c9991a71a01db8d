//! The context a page layout is rendered with: a map from names to texts.

use vstd::prelude::*;
use vstd::pervasive::VecAdditionalExecFns;
use vstd::string::StrSliceExecFns;
use crate::text::str_eq;

verus! {

/// The map a list of name/text pairs gives, later pairs overriding earlier
/// ones.
pub open spec fn pairs_map(s: Seq<(String, String)>) -> Map<Seq<char>, Seq<char>>
    decreases s.len(),
{
    if s.len() == 0 {
        Map::empty()
    } else {
        pairs_map(s.drop_last()).insert(s.last().0@, s.last().1@)
    }
}

/// No name occurs twice in a list of pairs.
pub open spec fn distinct_names(s: Seq<(String, String)>) -> bool {
    forall|i: int, j: int| 0 <= i < j < s.len() ==> #[trigger] s[i].0@ != #[trigger] s[j].0@
}

/// Whether name `a` comes before name `b` in the order of `String`: texts
/// are compared character by character by code point (the order of their
/// UTF-8 bytes), and a text comes before its longer extensions.
pub open spec fn name_lt(a: Seq<char>, b: Seq<char>) -> bool
    decreases a.len(),
{
    if b.len() == 0 {
        false
    } else if a.len() == 0 {
        true
    } else if a[0] != b[0] {
        (a[0] as int) < (b[0] as int)
    } else {
        name_lt(a.drop_first(), b.drop_first())
    }
}

/// The names of a list of pairs are in strictly increasing order.
pub open spec fn sorted_names(s: Seq<(String, String)>) -> bool {
    forall|i: int, j: int| 0 <= i < j < s.len() ==> name_lt(#[trigger] s[i].0@, #[trigger] s[j].0@)
}

proof fn lemma_name_lt_irreflexive(a: Seq<char>)
    ensures
        !name_lt(a, a),
    decreases a.len(),
{
    if a.len() > 0 {
        lemma_name_lt_irreflexive(a.drop_first());
    }
}

proof fn lemma_name_lt_total(a: Seq<char>, b: Seq<char>)
    ensures
        a != b ==> name_lt(a, b) || name_lt(b, a),
        name_lt(a, b) ==> !name_lt(b, a),
    decreases a.len(),
{
    if a.len() > 0 && b.len() > 0 {
        if a[0] == b[0] {
            lemma_name_lt_total(a.drop_first(), b.drop_first());
            if a != b {
                assert(a.drop_first() != b.drop_first()) by {
                    if a.drop_first() == b.drop_first() {
                        assert(a =~= b.drop_first().insert(0, b[0]));
                        assert(b =~= b.drop_first().insert(0, b[0]));
                    }
                }
            }
        } else {
            assert((a[0] as int) != (b[0] as int));
        }
    } else if a.len() == 0 && b.len() == 0 {
        assert(a =~= b);
    }
}

proof fn lemma_name_lt_transitive(a: Seq<char>, b: Seq<char>, c: Seq<char>)
    requires
        name_lt(a, b),
        name_lt(b, c),
    ensures
        name_lt(a, c),
    decreases a.len(),
{
    if a.len() > 0 {
        if a[0] == b[0] && b[0] == c[0] {
            lemma_name_lt_transitive(a.drop_first(), b.drop_first(), c.drop_first());
        }
    }
}

proof fn lemma_sorted_distinct(s: Seq<(String, String)>)
    requires
        sorted_names(s),
    ensures
        distinct_names(s),
{
    assert forall|i: int, j: int| 0 <= i < j < s.len() implies #[trigger] s[i].0@ != #[trigger] s[j].0@ by {
        lemma_name_lt_irreflexive(s[i].0@);
    }
}

/// Whether name `a` comes before name `b`, in the order `name_lt` states.
fn name_less(a: &str, b: &str) -> (r: bool)
    ensures
        r == name_lt(a@, b@),
{
    let la = a.unicode_len();
    let lb = b.unicode_len();
    let mut i: usize = 0;
    assert(a@.skip(0) =~= a@ && b@.skip(0) =~= b@);
    while i < la && i < lb
        invariant
            i <= la,
            i <= lb,
            la == a@.len(),
            lb == b@.len(),
            name_lt(a@, b@) == name_lt(a@.skip(i as int), b@.skip(i as int)),
        decreases la - i,
    {
        let ca = a.get_char(i);
        let cb = b.get_char(i);
        assert(a@.skip(i as int)[0] == ca && b@.skip(i as int)[0] == cb);
        if ca != cb {
            return (ca as u32) < (cb as u32);
        }
        assert(a@.skip(i + 1) =~= a@.skip(i as int).drop_first());
        assert(b@.skip(i + 1) =~= b@.skip(i as int).drop_first());
        i = i + 1;
    }
    assert(a@.skip(i as int).len() == la - i);
    assert(b@.skip(i as int).len() == lb - i);
    i < lb
}

proof fn lemma_pairs_map_push(s: Seq<(String, String)>, e: (String, String))
    ensures
        pairs_map(s.push(e)) == pairs_map(s).insert(e.0@, e.1@),
{
    assert(s.push(e).drop_last() =~= s);
}

proof fn lemma_pairs_map_take_next(s: Seq<(String, String)>, i: int)
    requires
        0 <= i < s.len(),
    ensures
        pairs_map(s.take(i + 1)) == pairs_map(s.take(i)).insert(s[i].0@, s[i].1@),
{
    assert(s.take(i + 1).drop_last() =~= s.take(i));
}

proof fn lemma_pairs_map_domain(s: Seq<(String, String)>, k: Seq<char>)
    ensures
        pairs_map(s).contains_key(k) <==> exists|i: int| 0 <= i < s.len() && #[trigger] s[i].0@ == k,
    decreases s.len(),
{
    if s.len() > 0 {
        lemma_pairs_map_domain(s.drop_last(), k);
        if pairs_map(s).contains_key(k) && s.last().0@ != k {
            let i = choose|i: int| 0 <= i < s.len() - 1 && #[trigger] s.drop_last()[i].0@ == k;
            assert(s[i].0@ == k);
        }
        if exists|i: int| 0 <= i < s.len() && #[trigger] s[i].0@ == k {
            let i = choose|i: int| 0 <= i < s.len() && #[trigger] s[i].0@ == k;
            if i < s.len() - 1 {
                assert(s.drop_last()[i].0@ == k);
            }
        }
    }
}

proof fn lemma_pairs_map_value(s: Seq<(String, String)>, i: int)
    requires
        distinct_names(s),
        0 <= i < s.len(),
    ensures
        pairs_map(s).contains_key(s[i].0@),
        pairs_map(s)[s[i].0@] == s[i].1@,
    decreases s.len(),
{
    if i < s.len() - 1 {
        assert(s.drop_last()[i] == s[i]);
        lemma_pairs_map_value(s.drop_last(), i);
        assert(s[i].0@ != s[s.len() - 1].0@);
    }
}

proof fn lemma_pairs_map_update(s: Seq<(String, String)>, i: int, e: (String, String))
    requires
        distinct_names(s),
        0 <= i < s.len(),
        e.0@ == s[i].0@,
    ensures
        pairs_map(s.update(i, e)) == pairs_map(s).insert(e.0@, e.1@),
    decreases s.len(),
{
    let t = s.update(i, e);
    if i == s.len() - 1 {
        assert(t.drop_last() =~= s.drop_last());
        assert(pairs_map(t) =~= pairs_map(s).insert(e.0@, e.1@));
    } else {
        assert(t.drop_last() =~= s.drop_last().update(i, e));
        lemma_pairs_map_update(s.drop_last(), i, e);
        assert(s[i].0@ != s[s.len() - 1].0@);
        assert(pairs_map(t) =~= pairs_map(s).insert(e.0@, e.1@));
    }
}

proof fn lemma_pairs_map_insert_at(s: Seq<(String, String)>, p: int, e: (String, String))
    requires
        distinct_names(s),
        0 <= p <= s.len(),
        forall|i: int| 0 <= i < s.len() ==> #[trigger] s[i].0@ != e.0@,
    ensures
        distinct_names(s.insert(p, e)),
        pairs_map(s.insert(p, e)) == pairs_map(s).insert(e.0@, e.1@),
{
    let t = s.insert(p, e);
    assert forall|i: int, j: int| 0 <= i < j < t.len() implies #[trigger] t[i].0@ != #[trigger] t[j].0@ by {
        if i < p && j < p {
            assert(t[i] == s[i] && t[j] == s[j]);
        } else if i < p && j == p {
            assert(t[i] == s[i]);
        } else if i < p {
            assert(t[i] == s[i] && t[j] == s[j - 1]);
        } else if i == p {
            assert(t[j] == s[j - 1]);
        } else {
            assert(t[i] == s[i - 1] && t[j] == s[j - 1]);
        }
    }
    let m = pairs_map(s).insert(e.0@, e.1@);
    assert forall|k: Seq<char>| #[trigger] pairs_map(t).contains_key(k) == m.contains_key(k) by {
        lemma_pairs_map_domain(t, k);
        lemma_pairs_map_domain(s, k);
        if exists|i: int| 0 <= i < t.len() && #[trigger] t[i].0@ == k {
            let i = choose|i: int| 0 <= i < t.len() && #[trigger] t[i].0@ == k;
            if i < p {
                assert(s[i] == t[i]);
            } else if i > p {
                assert(s[i - 1] == t[i]);
            }
        }
        if exists|i: int| 0 <= i < s.len() && #[trigger] s[i].0@ == k {
            let i = choose|i: int| 0 <= i < s.len() && #[trigger] s[i].0@ == k;
            if i < p {
                assert(t[i] == s[i]);
            } else {
                assert(t[i + 1] == s[i]);
            }
        }
        if k == e.0@ {
            assert(t[p] == e);
        }
    }
    assert forall|k: Seq<char>| #[trigger] pairs_map(t).contains_key(k) implies pairs_map(t)[k] == m[k] by {
        lemma_pairs_map_domain(t, k);
        let i = choose|i: int| 0 <= i < t.len() && #[trigger] t[i].0@ == k;
        lemma_pairs_map_value(t, i);
        if i < p {
            assert(s[i] == t[i]);
            lemma_pairs_map_value(s, i);
        } else if i > p {
            assert(s[i - 1] == t[i]);
            lemma_pairs_map_value(s, i - 1);
        }
    }
    assert(pairs_map(t) =~= m);
}

/// Named texts that a page layout is rendered with.
pub struct LayoutContext {
    entries: Vec<(String, String)>,
}

impl View for LayoutContext {
    type V = Map<Seq<char>, Seq<char>>;

    closed spec fn view(&self) -> Map<Seq<char>, Seq<char>> {
        pairs_map(self.entries@)
    }
}

impl LayoutContext {
    #[verifier::type_invariant]
    closed spec fn inv(&self) -> bool {
        sorted_names(self.entries@)
    }

    /// An empty context.
    pub fn new() -> (c: Self)
        ensures
            c@ == Map::<Seq<char>, Seq<char>>::empty(),
    {
        LayoutContext { entries: Vec::new() }
    }

    /// The number of names in the context.
    pub fn len(&self) -> (n: usize)
        ensures
            n == self@.len(),
    {
        proof {
            use_type_invariant(self);
            lemma_sorted_distinct(self.entries@);
            lemma_pairs_map_len(self.entries@);
        }
        self.entries.len()
    }

    /// The position of `key` among the entries, if present.
    fn position(&self, key: &str) -> (r: Option<usize>)
        ensures
            match r {
                Some(i) => i < self.entries@.len() && self.entries@[i as int].0@ == key@,
                None => forall|i: int|
                    0 <= i < self.entries@.len() ==> #[trigger] self.entries@[i].0@ != key@,
            },
    {
        let mut i: usize = 0;
        while i < self.entries.len()
            invariant
                i <= self.entries@.len(),
                forall|j: int| 0 <= j < i ==> #[trigger] self.entries@[j].0@ != key@,
            decreases self.entries@.len() - i,
        {
            if str_eq(self.entries[i].0.as_str(), key) {
                return Some(i);
            }
            i = i + 1;
        }
        None
    }

    /// Where `key` stands among the sorted entries: whether it is there, and
    /// the position it has or would have.
    fn locate(&self, key: &str) -> (r: (bool, usize))
        requires
            sorted_names(self.entries@),
        ensures
            r.1 <= self.entries@.len(),
            forall|i: int| 0 <= i < r.1 ==> name_lt(#[trigger] self.entries@[i].0@, key@),
            r.0 ==> r.1 < self.entries@.len() && self.entries@[r.1 as int].0@ == key@,
            !r.0 ==> forall|i: int|
                r.1 <= i < self.entries@.len() ==> name_lt(key@, #[trigger] self.entries@[i].0@),
    {
        let mut i: usize = 0;
        while i < self.entries.len()
            invariant
                i <= self.entries@.len(),
                sorted_names(self.entries@),
                forall|j: int| 0 <= j < i ==> name_lt(#[trigger] self.entries@[j].0@, key@),
            decreases self.entries@.len() - i,
        {
            let name = self.entries[i].0.as_str();
            if str_eq(name, key) {
                return (true, i);
            }
            if name_less(key, name) {
                proof {
                    assert forall|j: int| i <= j < self.entries@.len() implies name_lt(
                        key@,
                        #[trigger] self.entries@[j].0@,
                    ) by {
                        if j > i {
                            lemma_name_lt_transitive(key@, self.entries@[i as int].0@, self.entries@[j].0@);
                        }
                    }
                }
                return (false, i);
            }
            proof {
                lemma_name_lt_total(name@, key@);
            }
            i = i + 1;
        }
        (false, i)
    }

    /// The text named `key`.
    pub fn get(&self, key: &str) -> (r: Option<&String>)
        ensures
            match r {
                Some(v) => self@.contains_key(key@) && self@[key@] == v@,
                None => !self@.contains_key(key@),
            },
    {
        proof {
            use_type_invariant(self);
            lemma_sorted_distinct(self.entries@);
            lemma_pairs_map_domain(self.entries@, key@);
        }
        match self.position(key) {
            Some(i) => {
                proof {
                    lemma_pairs_map_value(self.entries@, i as int);
                }
                Some(&self.entries[i].1)
            },
            None => None,
        }
    }

    /// Whether the context names `key`.
    pub fn contains_key(&self, key: &str) -> (r: bool)
        ensures
            r == self@.contains_key(key@),
    {
        self.get(key).is_some()
    }

    /// Names `value` as `key`, returning the text `key` named before.
    pub fn insert(&mut self, key: String, value: String) -> (r: Option<String>)
        ensures
            final(self)@ == old(self)@.insert(key@, value@),
            match r {
                Some(v) => old(self)@.contains_key(key@) && old(self)@[key@] == v@,
                None => !old(self)@.contains_key(key@),
            },
    {
        proof {
            use_type_invariant(&*self);
            lemma_sorted_distinct(self.entries@);
            lemma_pairs_map_domain(self.entries@, key@);
        }
        let (found, p) = self.locate(key.as_str());
        if found {
            proof {
                lemma_pairs_map_value(self.entries@, p as int);
                lemma_pairs_map_update(self.entries@, p as int, (key, value));
            }
            let mut entries: Vec<(String, String)> = Vec::new();
            std::mem::swap(&mut entries, &mut self.entries);
            let mut entry = (key, value);
            entries.set_and_swap(p, &mut entry);
            proof {
                assert forall|a: int, b: int| 0 <= a < b < entries@.len() implies name_lt(
                    #[trigger] entries@[a].0@,
                    #[trigger] entries@[b].0@,
                ) by {
                    assert(name_lt(old(self).entries@[a].0@, old(self).entries@[b].0@));
                }
            }
            self.entries = entries;
            Some(entry.1)
        } else {
            proof {
                assert forall|i: int| 0 <= i < self.entries@.len() implies #[trigger] self.entries@[i].0@
                    != key@ by {
                    lemma_name_lt_irreflexive(key@);
                }
                lemma_pairs_map_insert_at(self.entries@, p as int, (key, value));
            }
            let mut entries: Vec<(String, String)> = Vec::new();
            std::mem::swap(&mut entries, &mut self.entries);
            let ghost before = entries@;
            entries.insert(p, (key, value));
            proof {
                assert(entries@ == before.insert(p as int, (key, value)));
                assert forall|a: int, b: int| 0 <= a < b < entries@.len() implies name_lt(
                    #[trigger] entries@[a].0@,
                    #[trigger] entries@[b].0@,
                ) by {
                    if b < p {
                        assert(entries@[a] == before[a] && entries@[b] == before[b]);
                    } else if b == p {
                        assert(entries@[a] == before[a]);
                    } else if a < p {
                        assert(entries@[a] == before[a] && entries@[b] == before[b - 1]);
                    } else if a == p {
                        assert(entries@[b] == before[b - 1]);
                    } else {
                        assert(entries@[a] == before[a - 1] && entries@[b] == before[b - 1]);
                    }
                }
            }
            self.entries = entries;
            None
        }
    }

    /// A context naming the given texts, later pairs overriding earlier
    /// ones.
    pub fn from_pairs(pairs: Vec<(String, String)>) -> (c: Self)
        ensures
            c@ == pairs_map(pairs@),
    {
        let ghost all = pairs@;
        let mut c = LayoutContext::new();
        let mut rest = pairs;
        let total = rest.len();
        let mut done: usize = 0;
        while rest.len() > 0
            invariant
                all == pairs@,
                all.len() == total,
                done + rest@.len() == total,
                rest@ == all.subrange(done as int, total as int),
                c@ == pairs_map(all.take(done as int)),
            decreases rest@.len(),
        {
            let (k, v) = rest.remove(0);
            proof {
                lemma_pairs_map_take_next(all, done as int);
            }
            c.insert(k, v);
            done = done + 1;
            assert(rest@ =~= all.subrange(done as int, total as int));
        }
        assert(all.take(total as int) =~= all);
        c
    }

    /// Moves every text of `other` into this context, overriding texts of
    /// the same name; `other` is left empty.
    pub fn append(&mut self, other: &mut LayoutContext)
        ensures
            final(self)@ == old(self)@.union_prefer_right(old(other)@),
            final(other)@ == Map::<Seq<char>, Seq<char>>::empty(),
    {
        let ghost start = self@;
        let mut taken: Vec<(String, String)> = Vec::new();
        std::mem::swap(&mut taken, &mut other.entries);
        let ghost all = taken@;
        assert(pairs_map(all) == old(other)@);
        let total = taken.len();
        let mut done: usize = 0;
        while taken.len() > 0
            invariant
                all.len() == total,
                done + taken@.len() == total,
                taken@ == all.subrange(done as int, total as int),
                self@ == start.union_prefer_right(pairs_map(all.take(done as int))),
            decreases taken@.len(),
        {
            let (k, v) = taken.remove(0);
            proof {
                lemma_pairs_map_take_next(all, done as int);
                assert(start.union_prefer_right(pairs_map(all.take(done as int))).insert(k@, v@)
                    =~= start.union_prefer_right(pairs_map(all.take(done + 1))));
            }
            self.insert(k, v);
            done = done + 1;
            assert(taken@ =~= all.subrange(done as int, total as int));
        }
        assert(all.take(total as int) =~= all);
    }

    /// The name/text pairs of the context, each name once, in the order of
    /// their names.
    pub fn pairs(&self) -> (r: &Vec<(String, String)>)
        ensures
            pairs_map(r@) == self@,
            sorted_names(r@),
            distinct_names(r@),
    {
        proof {
            use_type_invariant(self);
            lemma_sorted_distinct(self.entries@);
        }
        &self.entries
    }
}

proof fn lemma_pairs_map_len(s: Seq<(String, String)>)
    requires
        distinct_names(s),
    ensures
        pairs_map(s).len() == s.len(),
        pairs_map(s).dom().finite(),
    decreases s.len(),
{
    if s.len() > 0 {
        let t = s.drop_last();
        assert(distinct_names(t)) by {
            assert forall|i: int, j: int| 0 <= i < j < t.len() implies #[trigger] t[i].0@ != #[trigger] t[j].0@ by {
                assert(t[i] == s[i] && t[j] == s[j]);
            }
        }
        lemma_pairs_map_len(t);
        lemma_pairs_map_domain(t, s.last().0@);
        if pairs_map(t).contains_key(s.last().0@) {
            let i = choose|i: int| 0 <= i < t.len() && #[trigger] t[i].0@ == s.last().0@;
            assert(s[i].0@ == s[s.len() - 1].0@);
        }
    }
}

impl Default for LayoutContext {
    fn default() -> (c: Self)
        ensures
            c@ == Map::<Seq<char>, Seq<char>>::empty(),
    {
        LayoutContext::new()
    }
}

impl Clone for LayoutContext {
    fn clone(&self) -> (c: Self)
        ensures
            c@ == self@,
    {
        proof {
            use_type_invariant(self);
        }
        let mut entries: Vec<(String, String)> = Vec::new();
        let mut i: usize = 0;
        while i < self.entries.len()
            invariant
                i <= self.entries@.len(),
                entries@ == self.entries@.take(i as int),
                sorted_names(self.entries@),
            decreases self.entries@.len() - i,
        {
            let k = self.entries[i].0.clone();
            let v = self.entries[i].1.clone();
            entries.push((k, v));
            i = i + 1;
            assert(entries@ =~= self.entries@.take(i as int));
        }
        assert(entries@ =~= self.entries@);
        LayoutContext { entries }
    }
}

} // verus!

verus! {

/// The context every page is rendered with: the framework's version and the
/// application's title, overridden by the texts the page supplied.
pub open spec fn spec_page_context(
    app_title: Seq<char>,
    lowboy_version: Seq<char>,
    page: Map<Seq<char>, Seq<char>>,
) -> Map<Seq<char>, Seq<char>> {
    Map::<Seq<char>, Seq<char>>::empty().insert("lowboy_version"@, lowboy_version).insert(
        "app_title"@,
        app_title,
    ).union_prefer_right(page)
}

/// Builds the context a page's layout is rendered with, from the
/// application's title, the framework's version and the texts the page
/// supplied, if any.
pub fn page_context(app_title: &str, lowboy_version: &str, page: Option<LayoutContext>) -> (c:
    LayoutContext)
    ensures
        c@ == spec_page_context(
            app_title@,
            lowboy_version@,
            match page {
                Some(p) => p@,
                None => Map::empty(),
            },
        ),
{
    let mut c = LayoutContext::new();
    c.insert("lowboy_version".to_owned(), lowboy_version.to_owned());
    c.insert("app_title".to_owned(), app_title.to_owned());
    match page {
        Some(mut p) => {
            c.append(&mut p);
        },
        None => {
            assert(c@.union_prefer_right(Map::empty()) =~= c@);
        },
    }
    c
}

/// What a page supplies always wins over the framework's defaults, and a
/// default the page does not name is kept: `app_title` names the
/// application's title and `lowboy_version` the framework version passed
/// in. The context names exactly the page's names and these two.
pub proof fn lemma_page_context_prefers_page(
    app_title: Seq<char>,
    lowboy_version: Seq<char>,
    page: Map<Seq<char>, Seq<char>>,
    key: Seq<char>,
)
    ensures
        page.contains_key(key) ==> spec_page_context(app_title, lowboy_version, page).contains_key(key)
            && spec_page_context(app_title, lowboy_version, page)[key] == page[key],
        !page.contains_key("app_title"@) ==> spec_page_context(app_title, lowboy_version, page)["app_title"@]
            == app_title,
        !page.contains_key("lowboy_version"@) ==> spec_page_context(
            app_title,
            lowboy_version,
            page,
        )["lowboy_version"@] == lowboy_version,
        spec_page_context(app_title, lowboy_version, page).contains_key("lowboy_version"@),
        spec_page_context(app_title, lowboy_version, page).contains_key("app_title"@),
        spec_page_context(app_title, lowboy_version, page).contains_key(key) <==> (page.contains_key(key)
            || key == "app_title"@ || key == "lowboy_version"@),
{
    reveal_strlit("app_title");
    reveal_strlit("lowboy_version");
    assert("app_title"@.len() != "lowboy_version"@.len());
}

/// In a layout context, reading a name right after `insert` set it gives
/// the text just set, and `insert` leaves every other name as it was (the
/// views that `LayoutContext::insert` and `LayoutContext::get` speak of).
/// An `insert` that replaced a text is undone by inserting the text it
/// returned: the context is as it was before both.
pub proof fn lemma_layout_insert_then_get(
    before: Map<Seq<char>, Seq<char>>,
    key: Seq<char>,
    value: Seq<char>,
    other: Seq<char>,
)
    ensures
        before.insert(key, value).contains_key(key),
        before.insert(key, value)[key] == value,
        other != key ==> (before.insert(key, value).contains_key(other) == before.contains_key(other)
            && before.insert(key, value)[other] == before[other]),
        before.contains_key(key) ==> before.insert(key, value).insert(key, before[key]) == before,
{
    if before.contains_key(key) {
        assert(before.insert(key, value).insert(key, before[key]) =~= before);
    }
}

} // verus!
