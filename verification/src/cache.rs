use vstd::prelude::*;
use crate::json::JsonMember;
use crate::json::JsonValue;
use crate::json::json_of;
use crate::json::parse_json;
use crate::json::pairs_view;
use crate::json::spec_object_text;
use crate::json::append_object;
use crate::palette::Palette;
use crate::palette::PaletteView;
use crate::palette::palette_of_value;
use crate::palette::spec_palette_of;
use crate::palette::spec_palette_json;
use crate::utils::str_eq;

verus! {

/// The content cache: palettes already computed, keyed by the content hash
/// of the image they were derived from. It grows only; nothing is ever
/// evicted.
pub struct Cache {
    pub entries: Vec<(String, Palette)>,
}

/// Each key at most once, every stored palette well formed and non-empty.
pub open spec fn unique_keys(s: Seq<(String, Palette)>) -> bool {
    forall|a: int, b: int| 0 <= a < b < s.len() ==> s[a].0@ != s[b].0@
}

/// The mapping a sequence of entries stands for.
pub open spec fn entries_map(s: Seq<(String, Palette)>) -> Map<Seq<char>, PaletteView>
    decreases s.len(),
{
    if s.len() == 0 {
        Map::empty()
    } else {
        entries_map(s.drop_last()).insert(s.last().0@, s.last().1@)
    }
}

impl View for Cache {
    type V = Map<Seq<char>, PaletteView>;

    open spec fn view(&self) -> Map<Seq<char>, PaletteView> {
        entries_map(self.entries@)
    }
}

/// What a lookup yields: nothing under a forced bypass, otherwise the stored
/// palette, if one is there.
pub open spec fn spec_cache_lookup(
    m: Map<Seq<char>, PaletteView>,
    hash: Seq<char>,
    force: bool,
) -> Option<PaletteView> {
    if force {
        None
    } else if m.contains_key(hash) {
        Some(m[hash])
    } else {
        None
    }
}

/// Storing a palette under a hash and looking that hash up without a forced
/// bypass hands the same palette back.
pub proof fn lemma_cache_round_trip(m: Map<Seq<char>, PaletteView>, h: Seq<char>, p: PaletteView)
    ensures
        spec_cache_lookup(m.insert(h, p), h, false) == Some(p),
{
}

/// A forced lookup never yields a cached value, whatever is stored.
pub proof fn lemma_force_bypass(m: Map<Seq<char>, PaletteView>, h: Seq<char>)
    ensures
        spec_cache_lookup(m, h, true) == None::<PaletteView>,
{
}

proof fn lemma_em_present(s: Seq<(String, Palette)>, i: int)
    requires
        unique_keys(s),
        0 <= i < s.len(),
    ensures
        entries_map(s).contains_key(s[i].0@),
        entries_map(s)[s[i].0@] == s[i].1@,
    decreases s.len(),
{
    if i == s.len() - 1 {
    } else {
        assert(s.drop_last()[i] == s[i]);
        lemma_em_present(s.drop_last(), i);
        assert(s.last().0@ != s[i].0@);
    }
}

proof fn lemma_em_absent(s: Seq<(String, Palette)>, k: Seq<char>)
    requires
        forall|j: int| 0 <= j < s.len() ==> s[j].0@ != k,
    ensures
        !entries_map(s).contains_key(k),
    decreases s.len(),
{
    if s.len() > 0 {
        lemma_em_absent(s.drop_last(), k);
    }
}

proof fn lemma_em_insert_remove(s: Seq<(String, Palette)>, i: int, p: Palette)
    requires
        unique_keys(s),
        0 <= i < s.len(),
    ensures
        entries_map(s).insert(s[i].0@, p@) =~= entries_map(s.remove(i)).insert(s[i].0@, p@),
    decreases s.len(),
{
    let k = s[i].0@;
    if i == s.len() - 1 {
        assert(s.remove(i) =~= s.drop_last());
    } else {
        let t = s.drop_last();
        let last = s.last();
        assert(forall|a: int, b: int| 0 <= a < b < t.len() ==> t[a].0@ != t[b].0@);
        assert(t[i] == s[i]);
        assert(last.0@ != k);
        lemma_em_insert_remove(t, i, p);
        assert(s.remove(i).drop_last() =~= t.remove(i));
        assert(s.remove(i).last() == last);
        assert(entries_map(s).insert(k, p@) =~= entries_map(t).insert(k, p@).insert(
            last.0@,
            last.1@,
        ));
        assert(entries_map(s.remove(i)) == entries_map(t.remove(i)).insert(last.0@, last.1@));
        assert(entries_map(s.remove(i)).insert(k, p@) =~= entries_map(t.remove(i)).insert(
            k,
            p@,
        ).insert(last.0@, last.1@));
    }
}

impl Cache {
    /// Keys are unique and every stored palette is a well-formed, non-empty
    /// one.
    pub open spec fn wf(self) -> bool {
        &&& unique_keys(self.entries@)
        &&& forall|i: int|
            0 <= i < self.entries@.len() ==> (#[trigger] self.entries@[i]).1@.wf()
                && !self.entries@[i].1@.is_empty()
    }

    /// An empty cache.
    pub fn new() -> (r: Cache)
        ensures
            r.wf(),
            r@ == Map::<Seq<char>, PaletteView>::empty(),
    {
        let c = Cache { entries: Vec::new() };
        proof {
            assert(c@ =~= Map::<Seq<char>, PaletteView>::empty());
        }
        c
    }

    /// Looks a content hash up. Under `force` the stored content is ignored
    /// and the lookup comes back empty, so the caller will query afresh.
    pub fn get(&self, hash: &str, force: bool) -> (r: Option<&Palette>)
        requires
            self.wf(),
        ensures
            (r is Some) == (spec_cache_lookup(self@, hash@, force) is Some),
            r matches Some(p) ==> spec_cache_lookup(self@, hash@, force) == Some(p@) && p@.wf()
                && !p@.is_empty(),
    {
        if force {
            return None;
        }
        let n = self.entries.len();
        let mut i: usize = 0;
        while i < n
            invariant
                0 <= i <= n,
                !force,
                n == self.entries@.len(),
                self.wf(),
                forall|j: int| 0 <= j < i ==> self.entries@[j].0@ != hash@,
            decreases n - i,
        {
            if str_eq(self.entries[i].0.as_str(), hash) {
                proof {
                    lemma_em_present(self.entries@, i as int);
                }
                return Some(&self.entries[i].1);
            }
            i = i + 1;
        }
        proof {
            lemma_em_absent(self.entries@, hash@);
        }
        None
    }

    /// Stores a palette under a content hash, replacing whatever was there.
    pub fn put(&mut self, hash: String, p: Palette)
        requires
            old(self).wf(),
            p@.wf(),
            !p@.is_empty(),
        ensures
            final(self).wf(),
            final(self)@ == old(self)@.insert(hash@, p@),
    {
        let n = self.entries.len();
        let mut i: usize = 0;
        while i < n
            invariant
                0 <= i <= n,
                n == self.entries@.len(),
                self.wf(),
                self == old(self),
                p@.wf(),
                !p@.is_empty(),
                forall|j: int| 0 <= j < i ==> self.entries@[j].0@ != hash@,
            decreases n - i,
        {
            if str_eq(self.entries[i].0.as_str(), hash.as_str()) {
                let ghost s = self.entries@;
                let ghost t = s.remove(i as int);
                proof {
                    lemma_em_insert_remove(s, i as int, p);
                    assert(forall|j: int|
                        0 <= j < t.len() ==> #[trigger] t[j] == (if j < i {
                            s[j]
                        } else {
                            s[j + 1]
                        }));
                    assert(forall|a: int, b: int| 0 <= a < b < t.len() ==> t[a].0@ != t[b].0@);
                    assert(forall|j: int|
                        0 <= j < t.len() ==> (#[trigger] t[j]).1@.wf() && !t[j].1@.is_empty());
                    assert(forall|j: int| 0 <= j < t.len() ==> (#[trigger] t[j]).0@ != hash@);
                }
                let _ = self.entries.remove(i);
                self.entries.push((hash, p));
                proof {
                    assert(self.entries@.drop_last() =~= t);
                    assert(self.entries@.last() == (hash, p));
                    assert(forall|j: int|
                        0 <= j < t.len() ==> #[trigger] self.entries@[j] == t[j]);
                    assert(unique_keys(self.entries@));
                    assert(forall|j: int|
                        0 <= j < self.entries@.len() ==> (#[trigger] self.entries@[j]).1@.wf()
                            && !self.entries@[j].1@.is_empty());
                    assert(final(self)@ =~= old(self)@.insert(hash@, p@));
                }
                return ;
            }
            i = i + 1;
        }
        self.entries.push((hash, p));
        proof {
            assert(self.entries@.drop_last() =~= old(self).entries@);
            assert(final(self)@ =~= old(self)@.insert(hash@, p@));
        }
    }

    /// The raw key and rendered palette text of each entry.
    pub open spec fn spec_pairs(s: Seq<(String, Palette)>) -> Seq<(Seq<char>, Seq<char>)> {
        s.map(|i: int, e: (String, Palette)| (e.0@, spec_palette_json(e.1@)))
    }

    /// The rendered JSON text of a sequence of entries: each content hash
    /// mapped to its palette object.
    pub open spec fn spec_json(s: Seq<(String, Palette)>) -> Seq<char> {
        spec_object_text(Self::spec_pairs(s))
    }

    /// Renders the cache as one JSON document, the shape the cache file
    /// holds on disk.
    pub fn to_json(&self) -> (r: String)
        ensures
            r@ == Self::spec_json(self.entries@),
    {
        let mut pairs: Vec<(String, String)> = Vec::new();
        let n = self.entries.len();
        let mut i: usize = 0;
        proof {
            assert(pairs_view(pairs@) =~= Self::spec_pairs(self.entries@.take(0)));
        }
        while i < n
            invariant
                0 <= i <= n,
                n == self.entries@.len(),
                pairs@.len() == i,
                pairs_view(pairs@) == Self::spec_pairs(self.entries@.take(i as int)),
            decreases n - i,
        {
            let rendered = self.entries[i].1.palette_json();
            let ghost prev = pairs@;
            pairs.push((self.entries[i].0.clone(), rendered));
            proof {
                assert forall|j: int|
                    0 <= j < i + 1 implies pairs_view(pairs@)[j] == Self::spec_pairs(
                    self.entries@.take(i + 1),
                )[j] by {
                    assert(self.entries@.take(i + 1)[j] == self.entries@[j]);
                    if j < i {
                        assert(pairs@[j] == prev[j]);
                        assert(pairs_view(prev)[j] == Self::spec_pairs(
                            self.entries@.take(i as int),
                        )[j]);
                        assert(self.entries@.take(i as int)[j] == self.entries@[j]);
                    } else {
                        assert(pairs@[j] == (self.entries@[i as int].0, rendered));
                    }
                }
                assert(pairs_view(pairs@) =~= Self::spec_pairs(self.entries@.take(i + 1)));
            }
            i = i + 1;
        }
        let mut out = String::new();
        append_object(&mut out, &pairs);
        proof {
            assert(self.entries@.take(n as int) =~= self.entries@);
        }
        out
    }

    /// The mapping a parsed cache document stands for: each member whose
    /// value carries a palette, earlier members winning over later ones;
    /// members whose value is no palette — a legacy plain string among them —
    /// are dropped.
    pub open spec fn spec_of_members(ms: Seq<JsonMember>) -> Map<Seq<char>, PaletteView>
        decreases ms.len(),
    {
        if ms.len() == 0 {
            Map::empty()
        } else {
            let rest = Self::spec_of_members(ms.skip(1));
            match spec_palette_of(ms[0].value) {
                Some(pv) => rest.insert(ms[0].key@, pv),
                None => rest,
            }
        }
    }

    /// Reads a cache back from its JSON text. `None` exactly when the text
    /// is not a JSON object at all — the pipeline surfaces that as a cache
    /// failure rather than guessing.
    pub fn from_json(text: &str) -> (r: Option<Cache>)
        ensures
            (r is Some) == (json_of(text@) matches Some(v) && v matches JsonValue::Object(_)),
            r matches Some(c) ==> c.wf() && (json_of(text@) matches Some(v) && v matches
                JsonValue::Object(ms) && c@ == Self::spec_of_members(ms@)),
    {
        let parsed = match parse_json(text) {
            Some(v) => v,
            None => { return None; },
        };
        let members = match parsed {
            JsonValue::Object(ms) => ms,
            _ => { return None; },
        };
        let mut c = Cache::new();
        let mut i: usize = members.len();
        proof {
            assert(members@.skip(members@.len() as int) =~= Seq::<JsonMember>::empty());
        }
        while i > 0
            invariant
                0 <= i <= members@.len(),
                c.wf(),
                c@ == Self::spec_of_members(members@.skip(i as int)),
            decreases i,
        {
            i = i - 1;
            proof {
                assert(members@.skip(i as int)[0] == members@[i as int]);
                assert(members@.skip(i as int).skip(1) =~= members@.skip(i + 1));
            }
            match palette_of_value(&members[i].value) {
                Some(p) => {
                    c.put(members[i].key.clone(), p);
                },
                None => {},
            }
        }
        proof {
            assert(members@.skip(0) =~= members@);
        }
        Some(c)
    }
}

} // verus!
