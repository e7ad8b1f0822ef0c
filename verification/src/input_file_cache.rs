//! In-memory cache of `@<token>` resolutions kept while the user is
//! composing input, so the estimated token counter can sum file
//! contributions without re-reading disk on every keystroke.
//!
//! The cache maps paths to their estimated token counts. Paths are told apart as
//! `std::path::Path` tells them apart, by their components: `/tmp//a.md` and
//! `/tmp/./a.md` are the same path as `/tmp/a.md`. The cache is modelled by its
//! entries in insertion order, no path occurring twice.

use vstd::prelude::*;
use crate::text::{chars_of, words_view};

verus! {

#[derive(Debug, Clone, Copy, PartialEq, Eq)]
pub struct CachedResolution {
    pub estimated_tokens: usize,
}

#[derive(Debug)]
pub struct InputFileCache {
    entries: Vec<(String, CachedResolution)>,
}

/// The pieces of `s` between `/` separators, empty pieces included.
pub open spec fn slash_pieces(s: Seq<char>) -> Seq<Seq<char>>
    decreases s.len(),
{
    if s.len() == 0 {
        seq![Seq::empty()]
    } else {
        let p = slash_pieces(s.drop_last());
        if s.last() == '/' {
            p.push(Seq::empty())
        } else {
            p.update(p.len() - 1, p.last().push(s.last()))
        }
    }
}

proof fn lemma_slash_pieces_nonempty(s: Seq<char>)
    ensures
        slash_pieces(s).len() >= 1,
    decreases s.len(),
{
    if s.len() > 0 {
        lemma_slash_pieces_nonempty(s.drop_last());
    }
}

/// A piece that names something: neither empty nor `.`.
pub open spec fn named_piece(p: Seq<char>) -> bool {
    p.len() > 0 && p != seq!['.']
}

/// The components of a Unix path as `Path::components` gives them: the root (written
/// `/`) when the path starts with `/`; else a leading `.` when the path's first piece
/// is `.`; then every piece that is neither empty nor `.`. Two paths are equal
/// (`PathBuf` equality) exactly when their components are.
pub open spec fn path_key(s: Seq<char>) -> Seq<Seq<char>> {
    let ps = slash_pieces(s);
    let head: Seq<Seq<char>> = if s.len() > 0 && s[0] == '/' {
        seq![seq!['/']]
    } else if ps[0] == seq!['.'] {
        seq![seq!['.']]
    } else {
        Seq::empty()
    };
    head + ps.filter(|p: Seq<char>| named_piece(p))
}

fn split_slashes(v: &Vec<char>) -> (r: Vec<Vec<char>>)
    ensures
        words_view(r@) == slash_pieces(v@),
{
    let mut pieces: Vec<Vec<char>> = Vec::new();
    let mut cur: Vec<char> = Vec::new();
    let mut i: usize = 0;
    while i < v.len()
        invariant
            i <= v@.len(),
            words_view(pieces@).push(cur@) == slash_pieces(v@.take(i as int)),
        decreases v.len() - i,
    {
        let ghost before_p = words_view(pieces@);
        let ghost before_c = cur@;
        assert(v@.take(i + 1).drop_last() =~= v@.take(i as int));
        let c = v[i];
        if c == '/' {
            let done = cur;
            pieces.push(done);
            cur = Vec::new();
            assert(words_view(pieces@) =~= before_p.push(before_c));
            assert(words_view(pieces@).push(cur@) =~= before_p.push(before_c).push(Seq::<char>::empty()));
        } else {
            cur.push(c);
            assert(words_view(pieces@).push(cur@) =~= before_p.push(before_c).update(
                before_p.len() as int,
                before_c.push(c),
            ));
        }
        i = i + 1;
    }
    assert(v@.take(i as int) =~= v@);
    let ghost before_p = words_view(pieces@);
    pieces.push(cur);
    assert(words_view(pieces@) =~= before_p.push(pieces@.last()@));
    pieces
}

/// The components of `v` (see `path_key`).
fn path_key_exec(v: &Vec<char>) -> (r: Vec<Vec<char>>)
    ensures
        words_view(r@) == path_key(v@),
{
    let pieces = split_slashes(v);
    let ghost ps = words_view(pieces@);
    proof {
        lemma_slash_pieces_nonempty(v@);
    }
    let mut out: Vec<Vec<char>> = Vec::new();
    if v.len() > 0 && v[0] == '/' {
        let root: Vec<char> = vec!['/'];
        assert(root@ =~= seq!['/']);
        out.push(root);
        assert(words_view(out@) =~= seq![seq!['/']]);
    } else if pieces[0].len() == 1 && pieces[0][0] == '.' {
        assert(pieces@[0]@ =~= seq!['.']);
        let cur: Vec<char> = vec!['.'];
        assert(cur@ =~= seq!['.']);
        out.push(cur);
        assert(words_view(out@) =~= seq![seq!['.']]);
    } else {
        assert(ps[0] != seq!['.']) by {
            if ps[0] == seq!['.'] {
                assert(pieces@[0]@ == ps[0]);
                assert(pieces@[0]@.len() == 1);
            }
        }
    }
    let ghost head = words_view(out@);
    assert(head == (if v@.len() > 0 && v@[0] == '/' {
        seq![seq!['/']]
    } else if ps[0] == seq!['.'] {
        seq![seq!['.']]
    } else {
        Seq::<Seq<char>>::empty()
    })) by {
        if v@.len() > 0 && v@[0] == '/' {
            assert(head =~= seq![seq!['/']]);
        } else if ps[0] == seq!['.'] {
            assert(head =~= seq![seq!['.']]);
        } else {
            assert(head =~= Seq::<Seq<char>>::empty());
        }
    }
    let mut i: usize = 0;
    while i < pieces.len()
        invariant
            i <= pieces@.len(),
            ps == words_view(pieces@),
            words_view(out@) == head + ps.take(i as int).filter(|p: Seq<char>| named_piece(p)),
        decreases pieces.len() - i,
    {
        let ghost before = out@;
        proof {
            assert(ps.take(i + 1) =~= ps.take(i as int).push(ps[i as int]));
            ps.take(i as int).lemma_filter_push(ps[i as int], |p: Seq<char>| named_piece(p));
        }
        let named = pieces[i].len() > 0 && !(pieces[i].len() == 1 && pieces[i][0] == '.');
        assert(named == named_piece(ps[i as int])) by {
            assert(pieces@[i as int]@ == ps[i as int]);
            if pieces@[i as int]@.len() == 1 && pieces@[i as int]@[0] == '.' {
                assert(ps[i as int] =~= seq!['.']);
            }
        }
        if named {
            let piece = copy_chars(&pieces[i]);
            out.push(piece);
            assert(words_view(out@) =~= words_view(before).push(ps[i as int]));
        }
        i = i + 1;
    }
    assert(ps.take(pieces@.len() as int) =~= ps);
    out
}

fn copy_chars(v: &Vec<char>) -> (r: Vec<char>)
    ensures
        r@ == v@,
{
    let mut r: Vec<char> = Vec::new();
    let mut i: usize = 0;
    while i < v.len()
        invariant
            i <= v@.len(),
            r@ == v@.take(i as int),
        decreases v.len() - i,
    {
        r.push(v[i]);
        assert(v@.take(i + 1) =~= v@.take(i as int).push(v@[i as int]));
        i = i + 1;
    }
    assert(v@.take(v@.len() as int) =~= v@);
    r
}

fn keys_eq(a: &Vec<Vec<char>>, b: &Vec<Vec<char>>) -> (r: bool)
    ensures
        r == (words_view(a@) == words_view(b@)),
{
    if a.len() != b.len() {
        assert(words_view(a@).len() != words_view(b@).len());
        return false;
    }
    let mut i: usize = 0;
    while i < a.len()
        invariant
            a.len() == b.len(),
            i <= a.len(),
            forall|j: int| 0 <= j < i ==> a@[j]@ == b@[j]@,
        decreases a.len() - i,
    {
        if !vec_eq(&a[i], &b[i]) {
            assert(words_view(a@)[i as int] != words_view(b@)[i as int]);
            return false;
        }
        i = i + 1;
    }
    assert(words_view(a@) =~= words_view(b@));
    true
}

/// Each path occurs at most once.
pub open spec fn keys_distinct(s: Seq<(Seq<char>, usize)>) -> bool {
    forall|i: int, j: int| 0 <= i < j < s.len() ==> path_key(s[i].0) != path_key(s[j].0)
}

/// The token count cached for `k`, if any.
pub open spec fn lookup_spec(s: Seq<(Seq<char>, usize)>, k: Seq<char>) -> Option<usize>
    decreases s.len(),
{
    if s.len() == 0 {
        None
    } else if path_key(s.last().0) == path_key(k) {
        Some(s.last().1)
    } else {
        lookup_spec(s.drop_last(), k)
    }
}

pub open spec fn index_of(s: Seq<(Seq<char>, usize)>, k: Seq<char>) -> Option<int>
    decreases s.len(),
{
    if s.len() == 0 {
        None
    } else if path_key(s.last().0) == path_key(k) {
        Some(s.len() - 1)
    } else {
        index_of(s.drop_last(), k)
    }
}

/// Inserting replaces the count of a cached path in place (keeping the path as it was
/// first written, as `HashMap::insert` keeps its key), or appends a new entry.
pub open spec fn insert_spec(s: Seq<(Seq<char>, usize)>, k: Seq<char>, v: usize) -> Seq<
    (Seq<char>, usize),
> {
    match index_of(s, k) {
        Some(i) => s.update(i, (s[i].0, v)),
        None => s.push((k, v)),
    }
}

/// The entries whose path is one of `live` (given by their components), in their order.
pub open spec fn retain_spec(s: Seq<(Seq<char>, usize)>, live: Set<Seq<Seq<char>>>) -> Seq<
    (Seq<char>, usize),
>
    decreases s.len(),
{
    if s.len() == 0 {
        seq![]
    } else {
        let p = retain_spec(s.drop_last(), live);
        if live.contains(path_key(s.last().0)) {
            p.push(s.last())
        } else {
            p
        }
    }
}

/// Sum of the cached token counts.
pub open spec fn sum_spec(s: Seq<(Seq<char>, usize)>) -> nat
    decreases s.len(),
{
    if s.len() == 0 {
        0
    } else {
        sum_spec(s.drop_last()) + s.last().1 as nat
    }
}

/// The paths of `v`, by their components.
pub open spec fn strings_set(v: Seq<String>) -> Set<Seq<Seq<char>>> {
    Set::new(|k: Seq<Seq<char>>| exists|i: int| 0 <= i < v.len() && path_key(v[i]@) == k)
}

impl InputFileCache {
    /// The entries as `(path, token count)` pairs, in insertion order.
    pub closed spec fn view(&self) -> Seq<(Seq<char>, usize)> {
        self.entries@.map_values(|e: (String, CachedResolution)| (e.0@, e.1.estimated_tokens))
    }

    #[verifier::type_invariant]
    closed spec fn inv(self) -> bool {
        keys_distinct(self.view())
    }

    pub fn new() -> (s: Self)
        ensures
            s.view() == Seq::<(Seq<char>, usize)>::empty(),
            keys_distinct(s.view()),
    {
        let s = Self { entries: Vec::new() };
        assert(s.view() =~= Seq::<(Seq<char>, usize)>::empty());
        s
    }

    /// Index of the last entry whose path has components `kk` (those of `k`).
    fn position(&self, k: Ghost<Seq<char>>, kk: &Vec<Vec<char>>) -> (r: Option<usize>)
        requires
            words_view(kk@) == path_key(k@),
        ensures
            r matches Some(i) ==> index_of(self.view(), k@) == Some(i as int),
            r is None ==> index_of(self.view(), k@) is None,
            r matches Some(i) ==> i < self.entries@.len(),
    {
        let mut i = self.entries.len();
        assert(self.view().len() == self.entries@.len());
        assert(self.view().take(i as int) =~= self.view());
        while i > 0
            invariant
                i <= self.entries.len(),
                words_view(kk@) == path_key(k@),
                index_of(self.view(), k@) == index_of(self.view().take(i as int), k@),
            decreases i,
        {
            let ghost t = self.view().take(i as int);
            assert(t.drop_last() =~= self.view().take(i - 1));
            assert(t.last() == self.view()[i - 1]);
            assert(self.view()[i - 1] == (
                self.entries@[i - 1].0@,
                self.entries@[i - 1].1.estimated_tokens,
            ));
            let key = path_key_exec(&chars_of(self.entries[i - 1].0.as_str()));
            if keys_eq(&key, kk) {
                return Some(i - 1);
            }
            i = i - 1;
        }
        None
    }

    /// Caches `res` for `canonical_path`. A path already cached (by its components)
    /// keeps its entry and its place, with the new count.
    pub fn insert(&mut self, canonical_path: String, res: CachedResolution)
        ensures
            final(self).view() == insert_spec(old(self).view(), canonical_path@, res.estimated_tokens),
            keys_distinct(final(self).view()),
    {
        proof {
            use_type_invariant(&*self);
        }
        let kk = path_key_exec(&chars_of(canonical_path.as_str()));
        let ghost old_view = self.view();
        proof {
            lemma_index_of(old_view, canonical_path@);
        }
        match self.position(Ghost(canonical_path@), &kk) {
            Some(i) => {
                let mut entries: Vec<(String, CachedResolution)> = Vec::new();
                std::mem::swap(&mut entries, &mut self.entries);
                let old_key = entries[i].0.clone();
                assert(old_key@ == old_view[i as int].0);
                entries.set(i, (old_key, res));
                assert(entries@.map_values(
                    |e: (String, CachedResolution)| (e.0@, e.1.estimated_tokens),
                ) =~= old_view.update(i as int, (old_view[i as int].0, res.estimated_tokens)));
                proof {
                    lemma_update_distinct(old_view, i as int, res.estimated_tokens);
                }
                self.entries = entries;
            },
            None => {
                let mut entries: Vec<(String, CachedResolution)> = Vec::new();
                std::mem::swap(&mut entries, &mut self.entries);
                entries.push((canonical_path, res));
                assert(entries@.map_values(
                    |e: (String, CachedResolution)| (e.0@, e.1.estimated_tokens),
                ) =~= old_view.push((canonical_path@, res.estimated_tokens)));
                proof {
                    lemma_push_distinct(old_view, canonical_path@, res.estimated_tokens);
                }
                self.entries = entries;
            },
        }
    }

    /// The count cached for `canonical_path` (compared by components), if any.
    pub fn lookup(&self, canonical_path: &str) -> (r: Option<&CachedResolution>)
        ensures
            (match r {
                Some(c) => Some(c.estimated_tokens),
                None => None,
            }) == lookup_spec(self.view(), canonical_path@),
    {
        let kk = path_key_exec(&chars_of(canonical_path));
        proof {
            lemma_index_of(self.view(), canonical_path@);
        }
        match self.position(Ghost(canonical_path@), &kk) {
            Some(i) => {
                assert(self.view()[i as int] == (
                    self.entries@[i as int].0@,
                    self.entries@[i as int].1.estimated_tokens,
                ));
                Some(&self.entries[i].1)
            },
            None => None,
        }
    }

    /// Drops the entries whose path is not among `live` (compared by components).
    pub fn retain_paths(&mut self, live: &Vec<String>)
        ensures
            final(self).view() == retain_spec(old(self).view(), strings_set(live@)),
            keys_distinct(final(self).view()),
    {
        proof {
            use_type_invariant(&*self);
        }
        let ghost old_view = self.view();
        let ghost live_set = strings_set(live@);
        let mut old_entries: Vec<(String, CachedResolution)> = Vec::new();
        std::mem::swap(&mut old_entries, &mut self.entries);
        assert(old_entries@.map_values(
            |e: (String, CachedResolution)| (e.0@, e.1.estimated_tokens),
        ) == old_view);
        let mut kept: Vec<(String, CachedResolution)> = Vec::new();
        let mut i: usize = 0;
        while i < old_entries.len()
            invariant
                i <= old_entries.len(),
                old_view == old_entries@.map_values(
                    |e: (String, CachedResolution)| (e.0@, e.1.estimated_tokens),
                ),
                keys_distinct(old_view),
                live_set == strings_set(live@),
                kept@.map_values(|e: (String, CachedResolution)| (e.0@, e.1.estimated_tokens))
                    == retain_spec(old_view.take(i as int), live_set),
            decreases old_entries.len() - i,
        {
            let ghost t = old_view.take(i + 1);
            assert(t.drop_last() =~= old_view.take(i as int));
            assert(t.last() == old_view[i as int]);
            let is_live = contains_path(live, old_entries[i].0.as_str());
            if is_live {
                let e = (old_entries[i].0.clone(), old_entries[i].1);
                let ghost before = kept@;
                kept.push(e);
                assert(kept@.map_values(
                    |e: (String, CachedResolution)| (e.0@, e.1.estimated_tokens),
                ) =~= before.map_values(
                    |e: (String, CachedResolution)| (e.0@, e.1.estimated_tokens),
                ).push(old_view[i as int]));
            }
            i = i + 1;
        }
        assert(old_view.take(old_entries.len() as int) =~= old_view);
        proof {
            lemma_retain_distinct(old_view, live_set);
        }
        self.entries = kept;
    }

    pub fn sum_estimated_tokens(&self) -> (r: usize)
        requires
            sum_spec(self.view()) <= usize::MAX,
        ensures
            r == sum_spec(self.view()),
    {
        let mut total: usize = 0;
        let mut i: usize = 0;
        while i < self.entries.len()
            invariant
                i <= self.entries.len(),
                sum_spec(self.view()) <= usize::MAX,
                total == sum_spec(self.view().take(i as int)),
            decreases self.entries.len() - i,
        {
            let ghost t = self.view().take(i + 1);
            assert(t.drop_last() =~= self.view().take(i as int));
            proof {
                lemma_sum_prefix(self.view(), i + 1);
            }
            total = total + self.entries[i].1.estimated_tokens;
            i = i + 1;
        }
        assert(self.view().take(self.entries.len() as int) =~= self.view());
        total
    }
}

impl Default for InputFileCache {
    fn default() -> (s: Self)
        ensures
            s.view() == Seq::<(Seq<char>, usize)>::empty(),
    {
        Self::new()
    }
}

fn vec_eq(a: &Vec<char>, b: &Vec<char>) -> (r: bool)
    ensures
        r == (a@ == b@),
{
    if a.len() != b.len() {
        return false;
    }
    let mut i: usize = 0;
    while i < a.len()
        invariant
            a.len() == b.len(),
            i <= a.len(),
            forall|j: int| 0 <= j < i ==> a@[j] == b@[j],
        decreases a.len() - i,
    {
        if a[i] != b[i] {
            return false;
        }
        i = i + 1;
    }
    assert(a@ =~= b@);
    true
}

fn contains_path(live: &Vec<String>, k: &str) -> (r: bool)
    ensures
        r == strings_set(live@).contains(path_key(k@)),
{
    let kk = path_key_exec(&chars_of(k));
    let mut i: usize = 0;
    while i < live.len()
        invariant
            i <= live.len(),
            words_view(kk@) == path_key(k@),
            forall|j: int| 0 <= j < i ==> path_key(live@[j]@) != path_key(k@),
        decreases live.len() - i,
    {
        let c = path_key_exec(&chars_of(live[i].as_str()));
        if keys_eq(&c, &kk) {
            assert(strings_set(live@).contains(path_key(k@)));
            return true;
        }
        i = i + 1;
    }
    false
}

// ---------------------------------------------------------------------
// Lemmas
// ---------------------------------------------------------------------

pub proof fn lemma_index_of(s: Seq<(Seq<char>, usize)>, k: Seq<char>)
    ensures
        index_of(s, k) matches Some(i) ==> 0 <= i < s.len() && path_key(s[i].0) == path_key(k)
            && lookup_spec(s, k) == Some(s[i].1) && forall|j: int|
            i < j < s.len() ==> path_key(#[trigger] s[j].0) != path_key(k),
        index_of(s, k) is None ==> lookup_spec(s, k) is None && forall|j: int|
            0 <= j < s.len() ==> path_key(#[trigger] s[j].0) != path_key(k),
    decreases s.len(),
{
    if s.len() > 0 {
        lemma_index_of(s.drop_last(), k);
        if path_key(s.last().0) != path_key(k) {
            assert forall|j: int| 0 <= j < s.len() - 1 implies s[j] == s.drop_last()[j] by {}
        }
    }
}

proof fn lemma_update_distinct(s: Seq<(Seq<char>, usize)>, i: int, v: usize)
    requires
        keys_distinct(s),
        0 <= i < s.len(),
    ensures
        keys_distinct(s.update(i, (s[i].0, v))),
{
    let t = s.update(i, (s[i].0, v));
    assert forall|a: int, b: int| 0 <= a < b < t.len() implies path_key(t[a].0) != path_key(t[b].0) by {
        assert(t[a].0 == s[a].0 && t[b].0 == s[b].0);
    }
}

proof fn lemma_push_distinct(s: Seq<(Seq<char>, usize)>, k: Seq<char>, v: usize)
    requires
        keys_distinct(s),
        forall|j: int| 0 <= j < s.len() ==> path_key(#[trigger] s[j].0) != path_key(k),
    ensures
        keys_distinct(s.push((k, v))),
{
    let t = s.push((k, v));
    assert forall|a: int, b: int| 0 <= a < b < t.len() implies path_key(t[a].0) != path_key(t[b].0) by {
        if b == s.len() {
            assert(t[a] == s[a]);
        } else {
            assert(t[a] == s[a] && t[b] == s[b]);
        }
    }
}

proof fn lemma_retain_subseq(s: Seq<(Seq<char>, usize)>, live: Set<Seq<Seq<char>>>)
    ensures
        forall|j: int|
            0 <= j < retain_spec(s, live).len() ==> exists|m: int|
                0 <= m < s.len() && #[trigger] retain_spec(s, live)[j] == s[m],
    decreases s.len(),
{
    if s.len() > 0 {
        lemma_retain_subseq(s.drop_last(), live);
        let p = retain_spec(s.drop_last(), live);
        assert forall|j: int| 0 <= j < retain_spec(s, live).len() implies exists|m: int|
            0 <= m < s.len() && #[trigger] retain_spec(s, live)[j] == s[m] by {
            if j < p.len() {
                let m = choose|m: int| 0 <= m < s.drop_last().len() && p[j] == s.drop_last()[m];
                assert(retain_spec(s, live)[j] == s[m]);
            } else {
                assert(retain_spec(s, live)[j] == s[s.len() - 1]);
            }
        }
    }
}

proof fn lemma_retain_distinct(s: Seq<(Seq<char>, usize)>, live: Set<Seq<Seq<char>>>)
    requires
        keys_distinct(s),
    ensures
        keys_distinct(retain_spec(s, live)),
    decreases s.len(),
{
    if s.len() > 0 {
        let d = s.drop_last();
        assert(keys_distinct(d)) by {
            assert forall|i: int, j: int| 0 <= i < j < d.len() implies path_key(d[i].0) != path_key(d[j].0) by {
                assert(d[i] == s[i] && d[j] == s[j]);
            }
        }
        lemma_retain_distinct(d, live);
        lemma_retain_subseq(d, live);
        let p = retain_spec(d, live);
        if live.contains(path_key(s.last().0)) {
            let t = p.push(s.last());
            assert forall|a: int, b: int| 0 <= a < b < t.len() implies path_key(t[a].0) != path_key(t[b].0) by {
                if b == p.len() {
                    let m = choose|m: int| 0 <= m < d.len() && #[trigger] p[a] == d[m];
                    assert(d[m] == s[m]);
                    assert(t[a] == p[a]);
                } else {
                    assert(t[a] == p[a] && t[b] == p[b]);
                }
            }
        }
    }
}

proof fn lemma_sum_prefix(s: Seq<(Seq<char>, usize)>, i: int)
    requires
        0 <= i <= s.len(),
    ensures
        sum_spec(s.take(i)) <= sum_spec(s),
    decreases s.len() - i,
{
    if i < s.len() {
        lemma_sum_prefix(s, i + 1);
        assert(s.take(i + 1).drop_last() =~= s.take(i));
    } else {
        assert(s.take(i) =~= s);
    }
}

proof fn lemma_lookup_update(s: Seq<(Seq<char>, usize)>, i: int, v: usize, q: Seq<char>)
    requires
        0 <= i < s.len(),
        forall|j: int| i < j < s.len() ==> path_key(#[trigger] s[j].0) != path_key(s[i].0),
    ensures
        lookup_spec(s.update(i, (s[i].0, v)), q) == (if path_key(q) == path_key(s[i].0) {
            Some(v)
        } else {
            lookup_spec(s, q)
        }),
    decreases s.len(),
{
    let t = s.update(i, (s[i].0, v));
    if i == s.len() - 1 {
        assert(t.drop_last() =~= s.drop_last());
    } else {
        assert(t.drop_last() =~= s.drop_last().update(i, (s[i].0, v)));
        assert forall|j: int| i < j < s.drop_last().len() implies path_key(
            #[trigger] s.drop_last()[j].0,
        ) != path_key(s.drop_last()[i].0) by {
            assert(s.drop_last()[j] == s[j]);
        }
        lemma_lookup_update(s.drop_last(), i, v, q);
        if path_key(q) == path_key(s[i].0) {
            assert(path_key(t.last().0) != path_key(q));
        }
    }
}

/// A lookup right after an insert gives back the inserted count.
pub proof fn law_lookup_after_insert(s: Seq<(Seq<char>, usize)>, k: Seq<char>, v: usize)
    ensures
        lookup_spec(insert_spec(s, k, v), k) == Some(v),
{
    law_insert_lookup(s, k, v, k);
}

/// After an insert of `k`, a path with the components of `k` finds the new count and
/// every other path finds what it found before.
pub proof fn law_insert_lookup(s: Seq<(Seq<char>, usize)>, k: Seq<char>, v: usize, q: Seq<char>)
    ensures
        lookup_spec(insert_spec(s, k, v), q) == (if path_key(q) == path_key(k) {
            Some(v)
        } else {
            lookup_spec(s, q)
        }),
{
    lemma_index_of(s, k);
    match index_of(s, k) {
        Some(i) => {
            lemma_lookup_update(s, i, v, q);
        },
        None => {
            assert(s.push((k, v)).drop_last() =~= s);
        },
    }
}

/// An insert leaves the counts of the other paths as they were.
pub proof fn law_insert_keeps_others(
    s: Seq<(Seq<char>, usize)>,
    k: Seq<char>,
    v: usize,
    other: Seq<char>,
)
    requires
        path_key(other) != path_key(k),
    ensures
        lookup_spec(insert_spec(s, k, v), other) == lookup_spec(s, other),
{
    law_insert_lookup(s, k, v, other);
}

/// After `retain_paths`, a path is cached exactly when it was cached before and is live,
/// with the same count.
pub proof fn law_retain_lookup(s: Seq<(Seq<char>, usize)>, live: Set<Seq<Seq<char>>>, k: Seq<char>)
    ensures
        lookup_spec(retain_spec(s, live), k) == (if live.contains(path_key(k)) {
            lookup_spec(s, k)
        } else {
            None
        }),
    decreases s.len(),
{
    if s.len() > 0 {
        let d = s.drop_last();
        law_retain_lookup(d, live, k);
        let p = retain_spec(d, live);
        if live.contains(path_key(s.last().0)) {
            assert(p.push(s.last()).drop_last() =~= p);
        }
    }
}

/// Inserting a path adds its new count to the sum and takes away the count it had
/// (none when it was not cached): a path is never counted twice.
pub proof fn law_sum_after_insert(s: Seq<(Seq<char>, usize)>, k: Seq<char>, v: usize)
    ensures
        sum_spec(insert_spec(s, k, v)) + (match lookup_spec(s, k) { Some(o) => o as nat, None => 0 })
            == sum_spec(s) + v,
{
    lemma_index_of(s, k);
    match index_of(s, k) {
        Some(i) => {
            lemma_sum_update(s, i, (s[i].0, v));
        },
        None => {
            assert(s.push((k, v)).drop_last() =~= s);
        },
    }
}

proof fn lemma_sum_update(s: Seq<(Seq<char>, usize)>, i: int, e: (Seq<char>, usize))
    requires
        0 <= i < s.len(),
    ensures
        sum_spec(s.update(i, e)) + s[i].1 == sum_spec(s) + e.1,
    decreases s.len(),
{
    let t = s.update(i, e);
    if i == s.len() - 1 {
        assert(t.drop_last() =~= s.drop_last());
    } else {
        assert(t.drop_last() =~= s.drop_last().update(i, e));
        lemma_sum_update(s.drop_last(), i, e);
    }
}

/// Inserting a path that is not cached adds its count to the sum.
pub proof fn law_sum_after_fresh_insert(s: Seq<(Seq<char>, usize)>, k: Seq<char>, v: usize)
    requires
        lookup_spec(s, k) is None,
    ensures
        sum_spec(insert_spec(s, k, v)) == sum_spec(s) + v,
{
    law_sum_after_insert(s, k, v);
}

/// `retain_paths` only drops entries: the sum does not grow, and keeping the same
/// live paths a second time changes nothing.
pub proof fn law_retain_shrinks_once(s: Seq<(Seq<char>, usize)>, live: Set<Seq<Seq<char>>>)
    ensures
        sum_spec(retain_spec(s, live)) <= sum_spec(s),
        retain_spec(retain_spec(s, live), live) == retain_spec(s, live),
    decreases s.len(),
{
    if s.len() > 0 {
        let d = s.drop_last();
        law_retain_shrinks_once(d, live);
        let p = retain_spec(d, live);
        if live.contains(path_key(s.last().0)) {
            let t = p.push(s.last());
            assert(t.drop_last() =~= p);
            assert(retain_spec(t, live) == retain_spec(p, live).push(s.last()));
        }
    }
}

} // verus!
