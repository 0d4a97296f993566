//! Envelope flags and flag sets.

use vstd::prelude::*;

verus! {

/// A message flag.
#[derive(Debug, PartialEq, Eq, Hash)]
pub enum Flag {
    Seen,
    Answered,
    Flagged,
    Deleted,
    Draft,
    Custom(String),
}

/// The mathematical value of a [`Flag`].
pub ghost enum FlagView {
    Seen,
    Answered,
    Flagged,
    Deleted,
    Draft,
    Custom(Seq<char>),
}

impl View for Flag {
    type V = FlagView;

    open spec fn view(&self) -> FlagView {
        match self {
            Flag::Seen => FlagView::Seen,
            Flag::Answered => FlagView::Answered,
            Flag::Flagged => FlagView::Flagged,
            Flag::Deleted => FlagView::Deleted,
            Flag::Draft => FlagView::Draft,
            Flag::Custom(s) => FlagView::Custom(s@),
        }
    }
}

impl Flag {
    /// A copy of the flag.
    pub fn duplicate(&self) -> (r: Flag)
        ensures
            r@ == self@,
    {
        match self {
            Flag::Seen => Flag::Seen,
            Flag::Answered => Flag::Answered,
            Flag::Flagged => Flag::Flagged,
            Flag::Deleted => Flag::Deleted,
            Flag::Draft => Flag::Draft,
            Flag::Custom(s) => Flag::Custom(s.clone()),
        }
    }

    /// Whether the two flags are the same flag.
    pub fn same(&self, other: &Flag) -> (r: bool)
        ensures
            r == (self@ == other@),
    {
        match (self, other) {
            (Flag::Seen, Flag::Seen) => true,
            (Flag::Answered, Flag::Answered) => true,
            (Flag::Flagged, Flag::Flagged) => true,
            (Flag::Deleted, Flag::Deleted) => true,
            (Flag::Draft, Flag::Draft) => true,
            (Flag::Custom(a), Flag::Custom(b)) => *a == *b,
            _ => false,
        }
    }
}

/// A set of flags: order irrelevant, duplicates collapse.
#[derive(Debug)]
pub struct Flags {
    pub items: Vec<Flag>,
}

/// Whether the list `v` holds flag `f`.
pub open spec fn has_flag(v: Seq<Flag>, f: FlagView) -> bool {
    exists|i: int| 0 <= i < v.len() && #[trigger] v[i]@ == f
}

impl View for Flags {
    type V = Set<FlagView>;

    open spec fn view(&self) -> Set<FlagView> {
        Set::new(|f: FlagView| has_flag(self.items@, f))
    }
}

impl Flags {
    /// The empty flag set.
    pub fn new() -> (r: Flags)
        ensures
            r@ == Set::<FlagView>::empty(),
    {
        let r = Flags { items: Vec::new() };
        assert(r@ =~= Set::<FlagView>::empty());
        r
    }

    /// Whether the set holds `f`.
    pub fn contains(&self, f: &Flag) -> (r: bool)
        ensures
            r == self@.contains(f@),
    {
        let mut i: usize = 0;
        while i < self.items.len()
            invariant
                0 <= i <= self.items.len(),
                forall|k: int| 0 <= k < i ==> self.items@[k]@ != f@,
            decreases self.items.len() - i,
        {
            if self.items[i].same(f) {
                return true;
            }
            i = i + 1;
        }
        false
    }

    /// Adds `f` to the set.
    pub fn insert(&mut self, f: Flag)
        ensures
            final(self)@ == old(self)@.insert(f@),
    {
        if !self.contains(&f) {
            let ghost v0 = self.items@;
            let ghost fv = f@;
            self.items.push(f);
            assert forall|g: FlagView| has_flag(self.items@, g) <==> (has_flag(v0, g) || g == fv) by {
                if has_flag(self.items@, g) {
                    let k = choose|k: int| 0 <= k < self.items@.len() && #[trigger] self.items@[k]@ == g;
                    if k < v0.len() {
                        assert(v0[k]@ == g);
                    }
                }
                if has_flag(v0, g) {
                    let k = choose|k: int| 0 <= k < v0.len() && #[trigger] v0[k]@ == g;
                    assert(self.items@[k]@ == g);
                }
                if g == fv {
                    assert(self.items@[v0.len() as int]@ == g);
                }
            }
        }
        assert(self@ =~= old(self)@.insert(f@));
    }

    /// A copy of the set.
    pub fn duplicate(&self) -> (r: Flags)
        ensures
            r@ == self@,
    {
        let mut r = Flags::new();
        let mut i: usize = 0;
        while i < self.items.len()
            invariant
                0 <= i <= self.items.len(),
                r@ == Set::new(|g: FlagView| has_flag(self.items@.take(i as int), g)),
            decreases self.items.len() - i,
        {
            let ghost r0 = r@;
            let d = self.items[i].duplicate();
            r.insert(d);
            proof {
                lemma_has_flag_take_step(self.items@, i as int);
                assert forall|g: FlagView| r@.contains(g) <==> has_flag(self.items@.take(i + 1), g) by {
                    assert(r0.contains(g) <==> has_flag(self.items@.take(i as int), g));
                }
                assert(r@ =~= Set::new(|g: FlagView| has_flag(self.items@.take(i + 1), g)));
            }
            i = i + 1;
        }
        assert(self.items@.take(i as int) =~= self.items@);
        assert(r@ =~= self@);
        r
    }

    /// Adds every flag of `other` to the set.
    pub fn extend(&mut self, other: &Flags)
        ensures
            final(self)@ == old(self)@.union(other@),
    {
        let ghost s0 = self@;
        let mut i: usize = 0;
        while i < other.items.len()
            invariant
                0 <= i <= other.items.len(),
                self@ == s0.union(Set::new(|g: FlagView| has_flag(other.items@.take(i as int), g))),
            decreases other.items.len() - i,
        {
            let ghost r0 = self@;
            let d = other.items[i].duplicate();
            self.insert(d);
            proof {
                lemma_has_flag_take_step(other.items@, i as int);
                assert forall|g: FlagView|
                    self@.contains(g) <==> (s0.contains(g) || has_flag(other.items@.take(i + 1), g)) by {
                    assert(r0.contains(g) <==> (s0.contains(g) || has_flag(
                        other.items@.take(i as int),
                        g,
                    )));
                }
                assert(self@ =~= s0.union(
                    Set::new(|g: FlagView| has_flag(other.items@.take(i + 1), g)),
                ));
            }
            i = i + 1;
        }
        assert(other.items@.take(i as int) =~= other.items@);
        assert(self@ =~= s0.union(other@));
    }

    /// Removes `f` from the set.
    pub fn remove(&mut self, f: &Flag)
        ensures
            final(self)@ == old(self)@.remove(f@),
    {
        let ghost v0 = self.items@;
        let mut kept: Vec<Flag> = Vec::new();
        let mut i: usize = 0;
        while i < self.items.len()
            invariant
                0 <= i <= self.items.len(),
                self.items@ == v0,
                forall|g: FlagView|
                    has_flag(kept@, g) <==> (has_flag(v0.take(i as int), g) && g != f@),
            decreases self.items.len() - i,
        {
            proof { lemma_has_flag_take_step(v0, i as int); }
            let ghost k0 = kept@;
            if !self.items[i].same(f) {
                let d = self.items[i].duplicate();
                kept.push(d);
                proof { lemma_has_flag_push(k0, d); }
            }
            assert forall|g: FlagView|
                has_flag(kept@, g) <==> (has_flag(v0.take(i + 1), g) && g != f@) by {
                assert(has_flag(k0, g) <==> (has_flag(v0.take(i as int), g) && g != f@));
            }
            i = i + 1;
        }
        assert(v0.take(i as int) =~= v0);
        self.items = kept;
        assert(self@ =~= old(self)@.remove(f@));
    }

    /// Whether the two sets hold the same flags.
    pub fn same(&self, other: &Flags) -> (r: bool)
        ensures
            r == (self@ == other@),
    {
        let a = self.includes(other);
        let b = other.includes(self);
        if a && b {
            assert(self@ =~= other@);
        } else if !a {
            assert(!(other@ <= self@));
        } else {
            assert(!(self@ <= other@));
        }
        a && b
    }

    /// Whether every flag of `other` is in the set.
    pub fn includes(&self, other: &Flags) -> (r: bool)
        ensures
            r == (other@ <= self@),
    {
        let mut i: usize = 0;
        while i < other.items.len()
            invariant
                0 <= i <= other.items.len(),
                forall|k: int| 0 <= k < i ==> self@.contains(#[trigger] other.items@[k]@),
            decreases other.items.len() - i,
        {
            if !self.contains(&other.items[i]) {
                assert(other@.contains(other.items@[i as int]@));
                return false;
            }
            i = i + 1;
        }
        assert forall|g: FlagView| other@.contains(g) implies self@.contains(g) by {
            let k = choose|k: int| 0 <= k < other.items@.len() && #[trigger] other.items@[k]@ == g;
        }
        true
    }
}

proof fn lemma_has_flag_take_step(v: Seq<Flag>, i: int)
    requires
        0 <= i < v.len(),
    ensures
        forall|g: FlagView|
            has_flag(v.take(i + 1), g) <==> (has_flag(v.take(i), g) || g == v[i]@),
{
    assert forall|g: FlagView| has_flag(v.take(i + 1), g) <==> (has_flag(v.take(i), g) || g == v[i]@) by {
        if has_flag(v.take(i + 1), g) {
            let k = choose|k: int| 0 <= k < v.take(i + 1).len() && #[trigger] v.take(i + 1)[k]@ == g;
            if k < i {
                assert(v.take(i)[k]@ == g);
            }
        }
        if has_flag(v.take(i), g) {
            let k = choose|k: int| 0 <= k < v.take(i).len() && #[trigger] v.take(i)[k]@ == g;
            assert(v.take(i + 1)[k]@ == g);
        }
        if g == v[i]@ {
            assert(v.take(i + 1)[i]@ == g);
        }
    }
}

proof fn lemma_has_flag_push(v: Seq<Flag>, f: Flag)
    ensures
        forall|g: FlagView| has_flag(v.push(f), g) <==> (has_flag(v, g) || g == f@),
{
    let w = v.push(f);
    assert forall|g: FlagView| has_flag(w, g) implies (has_flag(v, g) || g == f@) by {
        let k = choose|k: int| 0 <= k < w.len() && #[trigger] w[k]@ == g;
        if k < v.len() {
            assert(w[k] == v[k]);
            assert(v[k]@ == g);
        } else {
            assert(w[k] == f);
        }
    }
    assert forall|g: FlagView| (has_flag(v, g) || g == f@) implies has_flag(w, g) by {
        if has_flag(v, g) {
            let k = choose|k: int| 0 <= k < v.len() && #[trigger] v[k]@ == g;
            assert(w[k] == v[k]);
            assert(w[k]@ == g);
        } else {
            assert(w[v.len() as int] == f);
            assert(w[v.len() as int]@ == g);
        }
    }
}

} // verus!
