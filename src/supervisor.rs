use crate::address::{parse_address, pubkey_of_text};
use crate::config::ConfigError;
use vstd::prelude::*;

verus! {

pub open spec fn views(v: Seq<String>) -> Seq<Seq<char>> {
    v.map_values(|s: String| s@)
}

/// Whether `v` holds a string whose text is `s`.
pub fn contains_text(v: &Vec<String>, s: &String) -> (r: bool)
    ensures
        r == views(v@).contains(s@),
{
    let mut i: usize = 0;
    while i < v.len()
        invariant
            i <= v@.len(),
            forall|j: int| 0 <= j < i ==> v@[j]@ != s@,
        decreases v@.len() - i,
    {
        if v[i] == *s {
            assert(views(v@)[i as int] == s@);
            return true;
        }
        i = i + 1;
    }
    assert forall|j: int| 0 <= j < views(v@).len() implies views(v@)[j] != s@ by {
        assert(views(v@)[j] == v@[j]@);
    };
    false
}

proof fn lemma_views_push(v: Seq<String>, s: String)
    ensures
        views(v.push(s)) == views(v).push(s@),
{
    assert(views(v.push(s)) =~= views(v).push(s@));
}

/// A listed row is indexed when its address is present and is a valid
/// base58 address.
pub open spec fn indexable(row: Option<String>) -> bool {
    row matches Some(s) && pubkey_of_text(s@) is Some
}

/// The addresses of the indexable rows, in row order.
pub open spec fn selected(rows: Seq<Option<String>>) -> Seq<Seq<char>>
    decreases rows.len(),
{
    if rows.len() == 0 {
        Seq::empty()
    } else {
        let prev = selected(rows.drop_last());
        if indexable(rows.last()) {
            prev.push(rows.last()->0@)
        } else {
            prev
        }
    }
}

/// Keeps the addresses of the listed rows that are present and valid,
/// skipping the others.
pub fn select_trees(rows: &Vec<Option<String>>) -> (r: Vec<String>)
    ensures
        views(r@) == selected(rows@),
{
    let mut out: Vec<String> = Vec::new();
    let mut i: usize = 0;
    while i < rows.len()
        invariant
            i <= rows@.len(),
            views(out@) == selected(rows@.subrange(0, i as int)),
        decreases rows@.len() - i,
    {
        proof {
            assert(rows@.subrange(0, i + 1).drop_last() =~= rows@.subrange(0, i as int));
        }
        match &rows[i] {
            Some(address) => {
                if parse_address(address.as_str()).is_some() {
                    let copy = address.clone();
                    proof {
                        lemma_views_push(out@, copy);
                    }
                    out.push(copy);
                }
            },
            None => {},
        }
        i = i + 1;
    }
    assert(rows@.subrange(0, rows@.len() as int) =~= rows@);
    out
}

/// The trees to index at startup: the indexable rows, or `NoTrees` when
/// there is none, since then no useful work is possible.
pub fn trees_to_index(rows: &Vec<Option<String>>) -> (r: Result<Vec<String>, ConfigError>)
    ensures
        selected(rows@).len() == 0 ==> r == Err::<Vec<String>, ConfigError>(ConfigError::NoTrees),
        selected(rows@).len() > 0 ==> (r matches Ok(v) && views(v@) == selected(rows@)),
{
    let trees = select_trees(rows);
    if trees.len() == 0 {
        Err(ConfigError::NoTrees)
    } else {
        Ok(trees)
    }
}

/// What a reload asks of the caller: abort the pipelines of `abort`, spawn
/// one for each of `spawn`, and leave every other running pipeline alone.
#[derive(Clone, Debug)]
pub struct ReloadPlan {
    pub abort: Vec<String>,
    pub spawn: Vec<String>,
}

/// The registry of trees that have a running pipeline, keyed by address.
pub struct Supervisor {
    running: Vec<String>,
}

impl View for Supervisor {
    type V = Seq<Seq<char>>;

    closed spec fn view(&self) -> Seq<Seq<char>> {
        views(self.running@)
    }
}

impl Supervisor {
    pub open spec fn wf(&self) -> bool {
        self@.no_duplicates()
    }

    /// A registry with nothing running.
    pub fn new() -> (r: Supervisor)
        ensures
            r.wf(),
            r@ == Seq::<Seq<char>>::empty(),
    {
        let r = Supervisor { running: Vec::new() };
        assert(r@ =~= Seq::<Seq<char>>::empty());
        r
    }

    /// The addresses that have a running pipeline.
    pub fn running(&self) -> (r: &Vec<String>)
        ensures
            views(r@) == self@,
    {
        &self.running
    }

    /// Brings the registry in line with the tree set `trees`: each tree of
    /// the set ends up with exactly one pipeline, those already running are
    /// left untouched, new ones are spawned once each, and every running tree
    /// that left the set is aborted.
    pub fn reload(&mut self, trees: &Vec<String>) -> (plan: ReloadPlan)
        requires
            old(self).wf(),
        ensures
            final(self).wf(),
            forall|x: Seq<char>| #[trigger]
                final(self)@.contains(x) <==> views(trees@).contains(x),
            views(plan.abort@).no_duplicates(),
            forall|x: Seq<char>| #[trigger]
                views(plan.abort@).contains(x) <==> old(self)@.contains(x) && !views(
                    trees@,
                ).contains(x),
            views(plan.spawn@).no_duplicates(),
            forall|x: Seq<char>| #[trigger]
                views(plan.spawn@).contains(x) <==> views(trees@).contains(x) && !old(
                    self,
                )@.contains(x),
    {
        let mut kept: Vec<String> = Vec::new();
        let mut abort: Vec<String> = Vec::new();
        let n = self.running.len();
        let mut i: usize = 0;
        while i < n
            invariant
                n == self.running@.len(),
                i <= n,
                views(kept@).no_duplicates(),
                views(abort@).no_duplicates(),
                forall|x: Seq<char>| #[trigger]
                    views(kept@).contains(x) <==> views(self.running@.subrange(0, i as int)).contains(x)
                        && views(trees@).contains(x),
                forall|x: Seq<char>| #[trigger]
                    views(abort@).contains(x) <==> views(self.running@.subrange(0, i as int)).contains(x)
                        && !views(trees@).contains(x),
            decreases n - i,
        {
            let name = &self.running[i];
            proof {
                lemma_views_push(self.running@.subrange(0, i as int), *name);
                lemma_push_contains(views(self.running@.subrange(0, i as int)), name@);
                assert(self.running@.subrange(0, i + 1) =~= self.running@.subrange(0, i as int).push(*name));
            }
            if contains_text(trees, name) {
                push_unique(&mut kept, name);
            } else {
                push_unique(&mut abort, name);
            }
            i = i + 1;
        }
        assert(self.running@.subrange(0, n as int) =~= self.running@);
        let mut running = kept;
        let mut spawn: Vec<String> = Vec::new();
        let m = trees.len();
        let mut j: usize = 0;
        while j < m
            invariant
                m == trees@.len(),
                j <= m,
                views(running@).no_duplicates(),
                views(spawn@).no_duplicates(),
                forall|x: Seq<char>| #[trigger]
                    views(spawn@).contains(x) <==> views(trees@.subrange(0, j as int)).contains(x)
                        && !views(self.running@).contains(x),
                forall|x: Seq<char>| #[trigger]
                    views(running@).contains(x) <==> views(trees@.subrange(0, j as int)).contains(x)
                        || (views(self.running@).contains(x) && views(trees@).contains(x)),
            decreases m - j,
        {
            let name = &trees[j];
            proof {
                lemma_views_push(trees@.subrange(0, j as int), *name);
                lemma_push_contains(views(trees@.subrange(0, j as int)), name@);
                assert(trees@.subrange(0, j + 1) =~= trees@.subrange(0, j as int).push(*name));
                assert(views(trees@)[j as int] == name@);
            }
            if !contains_text(&self.running, name) {
                push_unique(&mut spawn, name);
                push_unique(&mut running, name);
            }
            j = j + 1;
        }
        assert(trees@.subrange(0, m as int) =~= trees@);
        self.running = running;
        ReloadPlan { abort, spawn }
    }
}

/// Appends a copy of `s` unless `v` already holds its text.
fn push_unique(v: &mut Vec<String>, s: &String)
    requires
        views(old(v)@).no_duplicates(),
    ensures
        views(final(v)@).no_duplicates(),
        forall|y: Seq<char>| #[trigger]
            views(final(v)@).contains(y) <==> views(old(v)@).contains(y) || y == s@,
{
    if !contains_text(v, s) {
        let copy = s.clone();
        proof {
            lemma_views_push(v@, copy);
            lemma_push_contains(views(v@), copy@);
            lemma_push_no_dup(views(v@), copy@);
        }
        v.push(copy);
    }
}

proof fn lemma_push_contains(s: Seq<Seq<char>>, x: Seq<char>)
    ensures
        forall|y: Seq<char>| #[trigger] s.push(x).contains(y) <==> s.contains(y) || y == x,
{
    assert forall|y: Seq<char>| #[trigger] s.push(x).contains(y) implies s.contains(y) || y == x by {
        let w = choose|w: int| 0 <= w < s.push(x).len() && s.push(x)[w] == y;
        if w < s.len() {
            assert(s[w] == y);
        }
    };
    assert forall|y: Seq<char>| s.contains(y) || y == x implies #[trigger] s.push(x).contains(y) by {
        if y == x {
            assert(s.push(x)[s.len() as int] == y);
        } else {
            let w = choose|w: int| 0 <= w < s.len() && s[w] == y;
            assert(s.push(x)[w] == y);
        }
    };
}

proof fn lemma_push_no_dup(s: Seq<Seq<char>>, x: Seq<char>)
    requires
        s.no_duplicates(),
        !s.contains(x),
    ensures
        s.push(x).no_duplicates(),
{
    assert forall|i: int, j: int|
        0 <= i < s.push(x).len() && 0 <= j < s.push(x).len() && i != j implies s.push(x)[i]
        != s.push(x)[j] by {
        if i < s.len() && j == s.len() {
            assert(s[i] == s.push(x)[i]);
        } else if j < s.len() && i == s.len() {
            assert(s[j] == s.push(x)[j]);
        }
    };
}

} // verus!
