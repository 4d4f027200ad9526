//! The extensions a builder will initialize on a new token account or mint:
//! at most one value per extension type, the latest value winning, kept in
//! the order in which the types were last set.
use vstd::prelude::*;

verus! {

/// `s` without its entries of extension type `kind`.
pub open spec fn without_kind<T>(s: Seq<(u16, T)>, kind: u16) -> Seq<(u16, T)>
    decreases s.len(),
{
    if s.len() == 0 {
        s
    } else {
        let rest = without_kind(s.drop_last(), kind);
        if s.last().0 == kind {
            rest
        } else {
            rest.push(s.last())
        }
    }
}

/// No extension type occurs twice in `s`.
pub open spec fn kinds_distinct<T>(s: Seq<(u16, T)>) -> bool {
    forall|i: int, j: int| 0 <= i < j < s.len() ==> s[i].0 != s[j].0
}

/// Whether `s` has an entry of extension type `kind`.
pub open spec fn has_kind<T>(s: Seq<(u16, T)>, kind: u16) -> bool {
    exists|i: int| 0 <= i < s.len() && s[i].0 == kind
}

/// The value of the last entry of extension type `kind` in `s`, if any.
pub open spec fn value_of<T>(s: Seq<(u16, T)>, kind: u16) -> Option<T>
    decreases s.len(),
{
    if s.len() == 0 {
        None
    } else if s.last().0 == kind {
        Some(s.last().1)
    } else {
        value_of(s.drop_last(), kind)
    }
}

/// The extension types of `s`, in order.
pub open spec fn kinds_of<T>(s: Seq<(u16, T)>) -> Seq<u16> {
    s.map_values(|e: (u16, T)| e.0)
}

/// Every entry of `without_kind(s, kind)` is an entry of `s` whose type is
/// not `kind`, and every entry of `s` of another type is kept.
pub proof fn lemma_without_kind_members<T>(s: Seq<(u16, T)>, kind: u16)
    ensures
        forall|i: int|
            0 <= i < without_kind(s, kind).len() ==> (#[trigger] without_kind(s, kind)[i]).0
                != kind && s.contains(without_kind(s, kind)[i]),
        forall|i: int| 0 <= i < s.len() && (#[trigger] s[i]).0 != kind ==> without_kind(
            s,
            kind,
        ).contains(s[i]),
        without_kind(s, kind).len() <= s.len(),
    decreases s.len(),
{
    if s.len() > 0 {
        let p = s.drop_last();
        lemma_without_kind_members(p, kind);
        let r = without_kind(p, kind);
        assert forall|i: int| 0 <= i < without_kind(s, kind).len() implies (#[trigger] without_kind(
            s,
            kind,
        )[i]).0 != kind && s.contains(without_kind(s, kind)[i]) by {
            if i < r.len() {
                assert(without_kind(s, kind)[i] == r[i]);
                let j = choose|j: int| 0 <= j < p.len() && p[j] == r[i];
                assert(s[j] == p[j]);
            } else {
                assert(s[s.len() - 1] == s.last());
            }
        }
        assert forall|i: int| 0 <= i < s.len() && (#[trigger] s[i]).0 != kind implies without_kind(
            s,
            kind,
        ).contains(s[i]) by {
            if i < s.len() - 1 {
                assert(p[i] == s[i]);
                let j = choose|j: int| 0 <= j < r.len() && r[j] == p[i];
                assert(without_kind(s, kind)[j] == r[j]);
            } else {
                let w = without_kind(s, kind);
                assert(w[w.len() - 1] == s.last());
            }
        }
    }
}

/// Dropping the entries of one type from a sequence without repeated types
/// leaves a sequence without repeated types and without that type.
pub proof fn lemma_without_kind_distinct<T>(s: Seq<(u16, T)>, kind: u16)
    requires
        kinds_distinct(s),
    ensures
        kinds_distinct(without_kind(s, kind)),
        !has_kind(without_kind(s, kind), kind),
    decreases s.len(),
{
    lemma_without_kind_members(s, kind);
    if s.len() > 0 {
        let p = s.drop_last();
        assert(kinds_distinct(p));
        lemma_without_kind_distinct(p, kind);
        lemma_without_kind_members(p, kind);
        let r = without_kind(p, kind);
        let w = without_kind(s, kind);
        if s.last().0 != kind {
            assert forall|i: int, j: int| 0 <= i < j < w.len() implies w[i].0 != w[j].0 by {
                if j == w.len() - 1 {
                    assert(w[i] == r[i]);
                    let m = choose|m: int| 0 <= m < p.len() && p[m] == r[i];
                    assert(s[m] == p[m]);
                    assert(s[s.len() - 1] == s.last());
                } else {
                    assert(w[i] == r[i]);
                    assert(w[j] == r[j]);
                }
            }
        }
        assert(!has_kind(w, kind)) by {
            if has_kind(w, kind) {
                let i = choose|i: int| 0 <= i < w.len() && w[i].0 == kind;
                assert(w[i].0 != kind);
            }
        }
    }
}

/// The extensions to initialize, keyed by extension type.
pub struct FixedExtensions<T> {
    entries: Vec<(u16, T)>,
}

impl<T> FixedExtensions<T> {
    #[verifier::type_invariant]
    spec fn distinct(self) -> bool {
        kinds_distinct(self.entries@)
    }

    /// The entries, in order.
    pub closed spec fn view(self) -> Seq<(u16, T)> {
        self.entries@
    }

    /// An empty set of extensions.
    pub fn new() -> (r: Self)
        ensures
            r.view() == Seq::<(u16, T)>::empty(),
    {
        FixedExtensions { entries: Vec::new() }
    }

    /// Drops the extension of type `kind`, if present.
    pub fn remove_fixed_extension(&mut self, kind: u16)
        ensures
            final(self).view() == without_kind(old(self).view(), kind),
            kinds_distinct(final(self).view()),
    {
        proof {
            use_type_invariant(&*self);
        }
        let ghost orig = self.entries@;
        let mut rest: Vec<(u16, T)> = Vec::new();
        std::mem::swap(&mut rest, &mut self.entries);
        let mut kept: Vec<(u16, T)> = Vec::new();
        let ghost mut taken: int = 0;
        while rest.len() > 0
            invariant
                0 <= taken <= orig.len(),
                rest@ == orig.subrange(taken, orig.len() as int),
                kept@ == without_kind(orig.subrange(0, taken), kind),
                kinds_distinct(orig),
            decreases rest.len(),
        {
            let e = rest.remove(0);
            proof {
                assert(orig.subrange(0, taken + 1).drop_last() =~= orig.subrange(0, taken));
                assert(orig.subrange(0, taken + 1).last() == e);
            }
            if e.0 != kind {
                kept.push(e);
            }
            proof {
                taken = taken + 1;
                assert(rest@ =~= orig.subrange(taken, orig.len() as int));
            }
        }
        proof {
            assert(orig.subrange(0, taken) =~= orig);
            lemma_without_kind_distinct(orig, kind);
        }
        self.entries = kept;
    }

    /// Sets the extension of type `kind` to `value`: an earlier value of the
    /// same type is dropped and the new one goes last.
    pub fn push_fixed_extension(&mut self, kind: u16, value: T)
        ensures
            final(self).view() == without_kind(old(self).view(), kind).push((kind, value)),
            kinds_distinct(final(self).view()),
    {
        self.remove_fixed_extension(kind);
        proof {
            use_type_invariant(&*self);
        }
        let ghost before = self.entries@;
        let mut entries: Vec<(u16, T)> = Vec::new();
        std::mem::swap(&mut entries, &mut self.entries);
        entries.push((kind, value));
        proof {
            assert forall|i: int, j: int| 0 <= i < j < entries@.len() implies entries@[i].0
                != entries@[j].0 by {
                if j == entries@.len() - 1 {
                    assert(entries@[i] == before[i]);
                    lemma_without_kind_members(old(self).entries@, kind);
                }
            }
        }
        self.entries = entries;
    }

    /// Whether an extension of type `kind` is set.
    pub fn contains(&self, kind: u16) -> (r: bool)
        ensures
            r == has_kind(self.view(), kind),
    {
        let mut i: usize = 0;
        while i < self.entries.len()
            invariant
                0 <= i <= self.entries@.len(),
                forall|j: int| 0 <= j < i ==> self.entries@[j].0 != kind,
            decreases self.entries@.len() - i,
        {
            if self.entries[i].0 == kind {
                return true;
            }
            i = i + 1;
        }
        false
    }

    /// The extension types that are set, in order.
    pub fn extension_types(&self) -> (r: Vec<u16>)
        ensures
            r@ == kinds_of(self.view()),
    {
        let mut types: Vec<u16> = Vec::new();
        let mut i: usize = 0;
        while i < self.entries.len()
            invariant
                0 <= i <= self.entries@.len(),
                types@ == kinds_of(self.entries@.subrange(0, i as int)),
            decreases self.entries@.len() - i,
        {
            types.push(self.entries[i].0);
            i = i + 1;
            proof {
                assert(types@ =~= kinds_of(self.entries@.subrange(0, i as int)));
            }
        }
        proof {
            assert(self.entries@.subrange(0, i as int) =~= self.entries@);
        }
        types
    }

    /// The number of extensions that are set.
    pub fn len(&self) -> (r: usize)
        ensures
            r == self.view().len(),
    {
        self.entries.len()
    }

    /// The entries, in order.
    pub fn into_entries(self) -> (r: Vec<(u16, T)>)
        ensures
            r@ == self.view(),
            kinds_distinct(r@),
    {
        proof {
            use_type_invariant(&self);
        }
        self.entries
    }
}

/// After setting an extension, its type has exactly that value, and every
/// other type keeps the value it had.
pub proof fn lemma_push_sets_value<T>(s: Seq<(u16, T)>, kind: u16, value: T, other: u16)
    requires
        other != kind,
    ensures
        value_of(without_kind(s, kind).push((kind, value)), kind) == Some(value),
        value_of(without_kind(s, kind).push((kind, value)), other) == value_of(s, other),
    decreases s.len(),
{
    lemma_value_of_without_kind(s, kind, other);
    let t = without_kind(s, kind).push((kind, value));
    assert(t.drop_last() =~= without_kind(s, kind));
}

/// Dropping the entries of one type does not change the value of another.
pub proof fn lemma_value_of_without_kind<T>(s: Seq<(u16, T)>, kind: u16, other: u16)
    requires
        other != kind,
    ensures
        value_of(without_kind(s, kind), other) == value_of(s, other),
    decreases s.len(),
{
    if s.len() > 0 {
        lemma_value_of_without_kind(s.drop_last(), kind, other);
        let r = without_kind(s.drop_last(), kind);
        if s.last().0 != kind {
            assert(r.push(s.last()).drop_last() =~= r);
        }
    }
}

/// Dropping the entries of one type twice is the same as dropping them once.
pub proof fn lemma_without_kind_idempotent<T>(s: Seq<(u16, T)>, kind: u16)
    ensures
        without_kind(without_kind(s, kind), kind) == without_kind(s, kind),
    decreases s.len(),
{
    if s.len() > 0 {
        lemma_without_kind_idempotent(s.drop_last(), kind);
        let r = without_kind(s.drop_last(), kind);
        if s.last().0 != kind {
            assert(r.push(s.last()).drop_last() =~= r);
        }
    }
}

/// Setting the same extension type twice is the same as setting it once to
/// the later value: the earlier value is gone.
pub proof fn lemma_push_twice_keeps_last<T>(s: Seq<(u16, T)>, kind: u16, first: T, second: T)
    ensures
        without_kind(without_kind(s, kind).push((kind, first)), kind).push((kind, second))
            == without_kind(s, kind).push((kind, second)),
{
    let t = without_kind(s, kind).push((kind, first));
    assert(t.drop_last() =~= without_kind(s, kind));
    lemma_without_kind_idempotent(s, kind);
}

} // verus!
