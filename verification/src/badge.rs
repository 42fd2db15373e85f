//! The badge template cache.
//!
//! A badge for a count is rendered from a cached SVG template fetched once
//! per digit-width class: the template's message field holds an asterisk
//! padding placeholder, one asterisk per decimal digit, and serving a count
//! substitutes the decimal digits for the placeholder. The cache is keyed by
//! the full query string, which ends in the placeholder, so the key encodes
//! the badge parameters together with the digit width.

use vstd::prelude::*;
use vstd::string::StringExecFns;

use crate::digits;
use crate::digits::dec_digits;
use crate::fetcher::RenderFailure;
use crate::fetcher::SheildsIO;
use crate::text::replaced;
use crate::text::replace_all;

verus! {

/// The asterisk padding placeholder for a digit width.
pub open spec fn padding_seq(w: nat) -> Seq<char> {
    Seq::new(w, |i: int| '*')
}

/// The mathematical value of badge parameters: the three non-numeric query
/// fields of a badge request.
pub ghost struct ParamsModel {
    pub label: Seq<char>,
    pub color: Seq<char>,
    pub style: Seq<char>,
}

/// The non-numeric badge parameters supplied with a request: label, color
/// and style. The message field is not part of them; it varies per call.
pub struct ShieldsIoParams {
    label: String,
    color: String,
    style: String,
}

impl View for ShieldsIoParams {
    type V = ParamsModel;

    closed spec fn view(&self) -> ParamsModel {
        ParamsModel { label: self.label@, color: self.color@, style: self.style@ }
    }
}

/// The badge query string for given parameters and digit width: the message
/// field carries the padding placeholder, not a count.
pub open spec fn query_template_seq(p: ParamsModel, w: nat) -> Seq<char> {
    "label="@ + p.label + "&color="@ + p.color + "&style="@ + p.style + "&message="@
        + padding_seq(w)
}

/// The cache key for given parameters and a count: the query string whose
/// placeholder is as wide as the count's decimal representation.
pub open spec fn badge_key(p: ParamsModel, views: u64) -> Seq<char> {
    query_template_seq(p, dec_digits(views as nat).len())
}

/// The badge served for a count from a template: every occurrence of the
/// padding placeholder replaced by the decimal digits of the count.
pub open spec fn substituted(template: Seq<char>, views: u64) -> Seq<char> {
    replaced(template, padding_seq(dec_digits(views as nat).len()), dec_digits(views as nat))
}

/// The asterisk padding placeholder for a digit width.
pub fn make_padding(w: usize) -> (s: String)
    ensures
        s@ == padding_seq(w as nat),
{
    let mut s = String::new();
    let mut i: usize = 0;
    proof {
        assert(s@ =~= padding_seq(0));
    }
    while i < w
        invariant
            0 <= i <= w,
            s@ == padding_seq(i as nat),
        decreases w - i,
    {
        proof {
            reveal_strlit("*");
        }
        s.append("*");
        i = i + 1;
        proof {
            assert(s@ =~= padding_seq(i as nat));
        }
    }
    s
}

impl ShieldsIoParams {
    /// Badge parameters from their three fields.
    pub fn new(label: String, color: String, style: String) -> (p: ShieldsIoParams)
        ensures
            p@ == (ParamsModel { label: label@, color: color@, style: style@ }),
    {
        ShieldsIoParams { label, color, style }
    }

    /// The badge label text.
    pub fn label(&self) -> (s: &str)
        ensures
            s@ == self@.label,
    {
        self.label.as_str()
    }

    /// The badge color.
    pub fn color(&self) -> (s: &str)
        ensures
            s@ == self@.color,
    {
        self.color.as_str()
    }

    /// The badge style.
    pub fn style(&self) -> (s: &str)
        ensures
            s@ == self@.style,
    {
        self.style.as_str()
    }

    /// The query string template and the padding placeholder for a count:
    /// the message field of the query string is the placeholder, one
    /// asterisk per decimal digit of `views`.
    pub fn to_query_string_template(&self, views: u64) -> (r: (String, String))
        ensures
            r.0@ == badge_key(self@, views),
            r.1@ == padding_seq(dec_digits(views as nat).len()),
            r.1@.len() >= 1,
    {
        let width = digits::digit_width(views);
        let padding = make_padding(width);
        let mut q = "label=".to_owned();
        q.append(self.label.as_str());
        q.append("&color=");
        q.append(self.color.as_str());
        q.append("&style=");
        q.append(self.style.as_str());
        q.append("&message=");
        q.append(padding.as_str());
        proof {
            assert(q@ =~= query_template_seq(self@, dec_digits(views as nat).len()));
        }
        (q, padding)
    }
}

/// One cached badge template, held under its full query string.
struct CacheEntry {
    key: String,
    template: String,
}

/// The mapping a sequence of cache entries stands for: later entries win.
spec fn cache_map(entries: Seq<CacheEntry>) -> Map<Seq<char>, Seq<char>>
    decreases entries.len(),
{
    if entries.len() == 0 {
        Map::empty()
    } else {
        cache_map(entries.drop_last()).insert(entries.last().key@, entries.last().template@)
    }
}

/// No two entries share a key.
spec fn unique_keys(entries: Seq<CacheEntry>) -> bool {
    forall|i: int, j: int| 0 <= i < j < entries.len() ==> entries[i].key@ != entries[j].key@
}

/// An entry's key and template are in the mapping when keys are unique.
proof fn lemma_cache_map_get(entries: Seq<CacheEntry>, i: int)
    requires
        unique_keys(entries),
        0 <= i < entries.len(),
    ensures
        cache_map(entries).contains_key(entries[i].key@),
        cache_map(entries)[entries[i].key@] == entries[i].template@,
    decreases entries.len(),
{
    if i < entries.len() - 1 {
        assert(unique_keys(entries.drop_last()));
        assert(entries.drop_last()[i] == entries[i]);
        lemma_cache_map_get(entries.drop_last(), i);
        assert(entries.last().key@ != entries[i].key@);
    }
}

/// A key held by no entry is not in the mapping.
proof fn lemma_cache_map_absent(entries: Seq<CacheEntry>, k: Seq<char>)
    requires
        forall|i: int| 0 <= i < entries.len() ==> entries[i].key@ != k,
    ensures
        !cache_map(entries).contains_key(k),
    decreases entries.len(),
{
    if entries.len() > 0 {
        assert(forall|i: int|
            0 <= i < entries.len() - 1 ==> entries.drop_last()[i].key@ != k);
        lemma_cache_map_absent(entries.drop_last(), k);
        assert(entries.last().key@ != k);
    }
}

/// Removing the entry at an index removes exactly its key from the mapping.
proof fn lemma_cache_map_remove(entries: Seq<CacheEntry>, i: int)
    requires
        unique_keys(entries),
        0 <= i < entries.len(),
    ensures
        unique_keys(entries.remove(i)),
        cache_map(entries.remove(i)) == cache_map(entries).remove(entries[i].key@),
    decreases entries.len(),
{
    entries.remove_ensures(i);
    assert forall|a: int, b: int| 0 <= a < b < entries.remove(i).len() implies entries.remove(
        i,
    )[a].key@ != entries.remove(i)[b].key@ by {
        let a0 = if a < i {
            a
        } else {
            a + 1
        };
        let b0 = if b < i {
            b
        } else {
            b + 1
        };
        assert(entries.remove(i)[a] == entries[a0]);
        assert(entries.remove(i)[b] == entries[b0]);
    }
    let k = entries[i].key@;
    if i == entries.len() - 1 {
        assert(entries.remove(i) =~= entries.drop_last());
        assert(forall|j: int|
            0 <= j < entries.len() - 1 ==> entries.drop_last()[j].key@ != k);
        lemma_cache_map_absent(entries.drop_last(), k);
        assert(cache_map(entries.drop_last()) =~= cache_map(entries).remove(k));
    } else {
        let d = entries.drop_last();
        assert(unique_keys(d));
        assert(entries.remove(i).drop_last() =~= d.remove(i));
        assert(entries.remove(i).last() == entries.last());
        assert(d[i] == entries[i]);
        lemma_cache_map_remove(d, i);
        assert(entries.last().key@ != k);
        assert(cache_map(d).remove(k).insert(entries.last().key@, entries.last().template@)
            =~= cache_map(d).insert(entries.last().key@, entries.last().template@).remove(k));
    }
}

/// Drop the entry that holds `key`, if any.
fn remove_entry(cache: &mut Vec<CacheEntry>, key: &String)
    requires
        unique_keys(old(cache)@),
    ensures
        unique_keys(final(cache)@),
        cache_map(final(cache)@) == cache_map(old(cache)@).remove(key@),
        forall|j: int| 0 <= j < final(cache)@.len() ==> final(cache)@[j].key@ != key@,
{
    let n = cache.len();
    let mut i: usize = 0;
    while i < n
        invariant
            cache@ == old(cache)@,
            n == cache@.len(),
            0 <= i <= n,
            unique_keys(cache@),
            forall|k: int| 0 <= k < i ==> cache@[k].key@ != key@,
        decreases n - i,
    {
        if cache[i].key == *key {
            proof {
                lemma_cache_map_remove(cache@, i as int);
                cache@.remove_ensures(i as int);
            }
            let _removed = cache.remove(i);
            proof {
                assert forall|j: int| 0 <= j < cache@.len() implies cache@[j].key@ != key@ by {
                    let j0 = if j < i {
                        j
                    } else {
                        j + 1
                    };
                    assert(cache@[j] == old(cache)@[j0]);
                }
            }
            return;
        }
        i = i + 1;
    }
    proof {
        lemma_cache_map_absent(cache@, key@);
        assert(cache_map(cache@).remove(key@) =~= cache_map(cache@));
    }
}

/// The badge component: the template cache over a remote badge renderer.
/// Holds at most one template per cached query string; a miss for a new
/// digit width evicts the entry of the immediately preceding width.
pub struct Shields<F: SheildsIO> {
    fetcher: F,
    cache: Vec<CacheEntry>,
}

impl<F: SheildsIO> View for Shields<F> {
    type V = Map<Seq<char>, Seq<char>>;

    closed spec fn view(&self) -> Map<Seq<char>, Seq<char>> {
        cache_map(self.cache@)
    }
}

/// The cache after a completed miss for `(p, views)`: the entry for the
/// immediately preceding digit width is evicted and the fetched template is
/// stored under the key for the current width.
pub open spec fn after_miss(
    m: Map<Seq<char>, Seq<char>>,
    p: ParamsModel,
    views: u64,
    template: Seq<char>,
) -> Map<Seq<char>, Seq<char>> {
    m.remove(badge_key(p, views).drop_last()).insert(badge_key(p, views), template)
}

/// A successful render of `(p, views)` taking the cache from `m0` to `m1`
/// and returning `badge`: a hit substitutes into the cached template and
/// leaves the cache alone; a miss stores the freshly fetched template —
/// evicting the preceding width — and substitutes into it.
pub open spec fn render_ok(
    m0: Map<Seq<char>, Seq<char>>,
    m1: Map<Seq<char>, Seq<char>>,
    p: ParamsModel,
    views: u64,
    badge: Seq<char>,
) -> bool {
    if m0.contains_key(badge_key(p, views)) {
        &&& m1 == m0
        &&& badge == substituted(m0[badge_key(p, views)], views)
    } else {
        &&& m1 == after_miss(m0, p, views, m1[badge_key(p, views)])
        &&& badge == substituted(m1[badge_key(p, views)], views)
    }
}

impl<F: SheildsIO> Shields<F> {
    /// The cache keys are unique.
    pub closed spec fn wf(&self) -> bool {
        unique_keys(self.cache@)
    }

    /// A badge component over the given renderer, with an empty cache.
    pub fn new(fetcher: F) -> (s: Shields<F>)
        ensures
            s.wf(),
            s@ == Map::<Seq<char>, Seq<char>>::empty(),
    {
        Shields { fetcher, cache: Vec::new() }
    }

    /// The cached template for a query string, if one is held.
    pub fn cached_template(&self, key: &String) -> (r: Option<&String>)
        requires
            self.wf(),
        ensures
            match r {
                Some(t) => self@.contains_key(key@) && t@ == self@[key@],
                None => !self@.contains_key(key@),
            },
    {
        let n = self.cache.len();
        let mut i: usize = 0;
        while i < n
            invariant
                n == self.cache@.len(),
                0 <= i <= n,
                self.wf(),
                forall|k: int| 0 <= k < i ==> self.cache@[k].key@ != key@,
            decreases n - i,
        {
            if self.cache[i].key == *key {
                proof {
                    lemma_cache_map_get(self.cache@, i as int);
                }
                return Some(&self.cache[i].template);
            }
            i = i + 1;
        }
        proof {
            lemma_cache_map_absent(self.cache@, key@);
        }
        None
    }

    /// Store a fetched template under its query string, evicting the key
    /// one padding character shorter: the entry of the immediately
    /// preceding digit width for the same parameters.
    pub fn update_cache(&mut self, key: String, value: String)
        requires
            old(self).wf(),
            key@.len() >= 1,
        ensures
            final(self).wf(),
            final(self)@ == old(self)@.remove(key@.drop_last()).insert(key@, value@),
    {
        let key_len = key.as_str().unicode_len();
        let old_key = key.as_str().substring_char(0, key_len - 1).to_owned();
        proof {
            assert(old_key@ =~= key@.drop_last());
        }
        remove_entry(&mut self.cache, &old_key);
        remove_entry(&mut self.cache, &key);
        let ghost mid = self.cache@;
        self.cache.push(CacheEntry { key, template: value });
        proof {
            assert(self.cache@.drop_last() =~= mid);
            assert(forall|a: int, b: int|
                0 <= a < b < self.cache@.len() ==> self.cache@[a].key@ != self.cache@[b].key@);
            assert(cache_map(self.cache@) =~= old(self)@.remove(old_key@).insert(
                self.cache@.last().key@,
                value@,
            ));
        }
    }

    /// Render the badge for a count: serve the cached template for the
    /// count's digit width by substituting the decimal digits for the
    /// padding placeholder, or on a miss fetch a fresh template from the
    /// renderer, cache it, and serve it the same way. A cache hit never
    /// fails and never touches the renderer; a failed fetch caches nothing.
    pub fn fetch(&mut self, params: &ShieldsIoParams, views: u64) -> (r: Result<
        String,
        RenderFailure,
    >)
        requires
            old(self).wf(),
        ensures
            final(self).wf(),
            old(self)@.contains_key(badge_key(params@, views)) ==> r is Ok,
            (match r {
                Ok(badge) => render_ok(old(self)@, final(self)@, params@, views, badge@),
                Err(_) => final(self)@ == old(self)@ && !old(self)@.contains_key(
                    badge_key(params@, views),
                ),
            }),
    {
        let (query, padding) = params.to_query_string_template(views);
        let digits_str = digits::to_decimal(views);
        let cached = self.cached_template(&query);
        match cached {
            Some(template) => {
                let badge = replace_all(template.as_str(), padding.as_str(), digits_str.as_str());
                Ok(badge)
            },
            None => {
                let template = match self.fetcher.get_badge(query.clone()) {
                    Ok(t) => t,
                    Err(e) => {
                        return Err(e);
                    },
                };
                let badge = replace_all(template.as_str(), padding.as_str(), digits_str.as_str());
                proof {
                    crate::digits::lemma_dec_digits_nonempty(views as nat);
                }
                self.update_cache(query, template);
                Ok(badge)
            },
        }
    }
}

/// The badge component interface the request handler consumes: render the
/// badge for the given parameters and count. `fetch_wf` is the state the
/// implementation needs and preserves.
pub trait ShieldsIoFetcher {
    spec fn fetch_wf(&self) -> bool;

    fn fetch(&mut self, params: &ShieldsIoParams, views: u64) -> (r: Result<String, RenderFailure>)
        requires
            old(self).fetch_wf(),
        ensures
            final(self).fetch_wf(),
    ;
}

impl<F: SheildsIO> ShieldsIoFetcher for Shields<F> {
    open spec fn fetch_wf(&self) -> bool {
        self.wf()
    }

    fn fetch(&mut self, params: &ShieldsIoParams, views: u64) -> (r: Result<
        String,
        RenderFailure,
    >) {
        Shields::fetch(self, params, views)
    }
}

/// Rendering is idempotent: after any successful render of `(p, views)`,
/// a second render of the same parameters and count is a cache hit — it
/// leaves the cache untouched and returns byte-identical output, without a
/// renderer call standing between the two.
pub proof fn lemma_render_idempotent(
    m0: Map<Seq<char>, Seq<char>>,
    m1: Map<Seq<char>, Seq<char>>,
    m2: Map<Seq<char>, Seq<char>>,
    p: ParamsModel,
    views: u64,
    badge1: Seq<char>,
    badge2: Seq<char>,
)
    requires
        render_ok(m0, m1, p, views, badge1),
        render_ok(m1, m2, p, views, badge2),
    ensures
        m1.contains_key(badge_key(p, views)),
        m2 == m1,
        badge2 == badge1,
{
}

/// Width transition: a completed miss for a count one digit wider evicts
/// the entry of the immediately preceding width for the same parameters, so
/// a later render for a count of that width misses instead of serving a
/// stale template.
pub proof fn lemma_width_transition(
    m: Map<Seq<char>, Seq<char>>,
    p: ParamsModel,
    views: u64,
    prev_views: u64,
    template: Seq<char>,
)
    requires
        dec_digits(prev_views as nat).len() + 1 == dec_digits(views as nat).len(),
    ensures
        !after_miss(m, p, views, template).contains_key(badge_key(p, prev_views)),
{
    let w = dec_digits(views as nat).len();
    let wp = dec_digits(prev_views as nat).len();
    assert(badge_key(p, prev_views) =~= badge_key(p, views).drop_last());
    reveal_strlit("label=");
    reveal_strlit("&color=");
    reveal_strlit("&style=");
    reveal_strlit("&message=");
    assert(badge_key(p, prev_views).len() < badge_key(p, views).len());
}

} // verus!
