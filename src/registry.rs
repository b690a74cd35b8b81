use vstd::prelude::*;

use crate::pubkey::Pubkey;

verus! {

/// One registered principal: its address, its position in the registry, and
/// the bump seed of the record that holds it.
#[derive(Clone, Copy, Debug)]
pub struct RoleEntry {
    pub principal: Pubkey,
    pub index: usize,
    pub bump: u8,
}

/// Why a registry change was refused.
#[derive(Clone, Copy, Debug, PartialEq, Eq, Structural)]
pub enum RegistryError {
    /// The principal is already registered.
    AlreadyExists,
    /// The principal is not registered.
    Nonexistent,
}

/// A dense set of principals. Each entry's `index` is its position, and no
/// principal appears twice; removal moves the last entry into the gap.
pub struct RoleRegistry {
    entries: Vec<RoleEntry>,
}

/// Each entry's index is its position, and principals are distinct.
pub open spec fn registry_wf(s: Seq<RoleEntry>) -> bool {
    &&& forall|i: int| 0 <= i < s.len() ==> (#[trigger] s[i]).index == i
    &&& forall|i: int, j: int|
        0 <= i < s.len() && 0 <= j < s.len() && i != j ==> (#[trigger] s[i]).principal@
            != (#[trigger] s[j]).principal@
}

/// Whether `p` is registered in `s`.
pub open spec fn has_principal(s: Seq<RoleEntry>, p: Seq<u8>) -> bool {
    exists|i: int| 0 <= i < s.len() && (#[trigger] s[i]).principal@ == p
}

/// `s` after appending `p` at the end.
pub open spec fn added(s: Seq<RoleEntry>, p: Pubkey, bump: u8) -> Seq<RoleEntry> {
    s.push(RoleEntry { principal: p, index: s.len() as usize, bump })
}

/// `s` after removing position `i`: the last entry takes its place and its
/// index, and the sequence shrinks by one.
pub open spec fn swap_removed(s: Seq<RoleEntry>, i: int) -> Seq<RoleEntry> {
    s.update(i, RoleEntry { index: i as usize, ..s.last() }).drop_last()
}

/// Adding to a well-formed registry a principal it lacks keeps it well-formed.
pub proof fn lemma_added_wf(s: Seq<RoleEntry>, p: Pubkey, bump: u8)
    requires
        registry_wf(s),
        !has_principal(s, p@),
        s.len() < usize::MAX,
    ensures
        registry_wf(added(s, p, bump)),
        has_principal(added(s, p, bump), p@),
        forall|q: Seq<u8>| #[trigger]
            has_principal(added(s, p, bump), q) == (has_principal(s, q) || q == p@),
{
    let t = added(s, p, bump);
    assert(t[s.len() as int].principal@ == p@);
    assert forall|q: Seq<u8>| #[trigger] has_principal(t, q) == (has_principal(s, q) || q == p@) by {
        if has_principal(s, q) {
            let i = choose|i: int| 0 <= i < s.len() && (#[trigger] s[i]).principal@ == q;
            assert(t[i] == s[i]);
        }
        if has_principal(t, q) && q != p@ {
            let i = choose|i: int| 0 <= i < t.len() && (#[trigger] t[i]).principal@ == q;
            assert(s[i] == t[i]);
        }
    }
}

/// Removing position `i` of a well-formed registry keeps it well-formed and
/// drops exactly that entry's principal.
pub proof fn lemma_swap_removed_wf(s: Seq<RoleEntry>, i: int)
    requires
        registry_wf(s),
        0 <= i < s.len(),
    ensures
        registry_wf(swap_removed(s, i)),
        swap_removed(s, i).len() == s.len() - 1,
        forall|q: Seq<u8>| #[trigger]
            has_principal(swap_removed(s, i), q) == (has_principal(s, q) && q != s[i].principal@),
{
    let t = swap_removed(s, i);
    let last = s.len() - 1;
    assert forall|q: Seq<u8>| #[trigger]
        has_principal(t, q) == (has_principal(s, q) && q != s[i].principal@) by {
        if has_principal(t, q) {
            let k = choose|k: int| 0 <= k < t.len() && (#[trigger] t[k]).principal@ == q;
            if k == i {
                assert(s[last].principal@ == q);
            } else {
                assert(s[k].principal@ == q);
            }
        }
        if has_principal(s, q) && q != s[i].principal@ {
            let k = choose|k: int| 0 <= k < s.len() && (#[trigger] s[k]).principal@ == q;
            if k == last {
                assert(t[i].principal@ == q);
            } else {
                assert(t[k].principal@ == q);
            }
        }
    }
}

/// Adding three distinct new principals and then removing the first: the
/// third takes the first's position and index, the first is gone, the second
/// and third remain, and the registry stays well-formed.
pub proof fn lemma_remove_first_of_three(
    s: Seq<RoleEntry>,
    a: Pubkey,
    b: Pubkey,
    c: Pubkey,
    bump_a: u8,
    bump_b: u8,
    bump_c: u8,
)
    requires
        registry_wf(s),
        !has_principal(s, a@),
        !has_principal(s, b@),
        !has_principal(s, c@),
        a@ != b@,
        a@ != c@,
        b@ != c@,
        s.len() + 3 < usize::MAX,
    ensures
        ({
            let full = added(added(added(s, a, bump_a), b, bump_b), c, bump_c);
            let after = swap_removed(full, s.len() as int);
            &&& registry_wf(full)
            &&& full[s.len() as int].principal == a
            &&& full[s.len() as int].index == s.len()
            &&& registry_wf(after)
            &&& after.len() == s.len() + 2
            &&& after[s.len() as int].principal == c
            &&& after[s.len() as int].index == s.len()
            &&& !has_principal(after, a@)
            &&& has_principal(after, b@)
            &&& has_principal(after, c@)
        }),
{
    let s1 = added(s, a, bump_a);
    lemma_added_wf(s, a, bump_a);
    let s2 = added(s1, b, bump_b);
    lemma_added_wf(s1, b, bump_b);
    let full = added(s2, c, bump_c);
    lemma_added_wf(s2, c, bump_c);
    assert(has_principal(full, b@));
    assert(has_principal(full, c@));
    lemma_swap_removed_wf(full, s.len() as int);
}

impl View for RoleRegistry {
    type V = Seq<RoleEntry>;

    closed spec fn view(&self) -> Seq<RoleEntry> {
        self.entries@
    }
}

impl RoleRegistry {
    /// The registry's invariant.
    pub open spec fn wf(&self) -> bool {
        registry_wf(self@)
    }

    /// An empty registry.
    pub fn new() -> (r: RoleRegistry)
        ensures
            r.wf(),
            r@.len() == 0,
    {
        RoleRegistry { entries: Vec::new() }
    }

    /// How many principals are registered.
    pub fn len(&self) -> (r: usize)
        ensures
            r == self@.len(),
    {
        self.entries.len()
    }

    /// The entry at position `i`, if there is one.
    pub fn get(&self, i: usize) -> (r: Option<RoleEntry>)
        ensures
            i < self@.len() ==> r == Some(self@[i as int]),
            i >= self@.len() ==> r is None,
    {
        if i < self.entries.len() {
            Some(self.entries[i])
        } else {
            None
        }
    }

    /// The position of `p`, if it is registered.
    pub fn index_of(&self, p: &Pubkey) -> (r: Option<usize>)
        requires
            self.wf(),
        ensures
            r is None <==> !has_principal(self@, p@),
            r matches Some(i) ==> i < self@.len() && self@[i as int].principal@ == p@ && forall|
                j: int,
            |
                0 <= j < i ==> (#[trigger] self@[j]).principal@ != p@,
    {
        let mut i: usize = 0;
        while i < self.entries.len()
            invariant
                0 <= i <= self@.len(),
                forall|j: int| 0 <= j < i ==> (#[trigger] self@[j]).principal@ != p@,
            decreases self@.len() - i,
        {
            if self.entries[i].principal.same(p) {
                return Some(i);
            }
            i += 1;
        }
        None
    }

    /// Whether `p` is registered.
    pub fn contains(&self, p: &Pubkey) -> (r: bool)
        requires
            self.wf(),
        ensures
            r == has_principal(self@, p@),
    {
        self.index_of(p).is_some()
    }

    /// The entry of `p`, if it is registered.
    pub fn entry(&self, p: &Pubkey) -> (r: Option<RoleEntry>)
        requires
            self.wf(),
        ensures
            r is None <==> !has_principal(self@, p@),
            r matches Some(e) ==> e.principal@ == p@ && e.index < self@.len() && self@[e.index
                as int] == e,
    {
        match self.index_of(p) {
            None => None,
            Some(i) => Some(self.entries[i]),
        }
    }

    /// Registers `p` at the end. Fails if it is already registered, and then
    /// changes nothing.
    pub fn add(&mut self, p: &Pubkey, bump: u8) -> (r: Result<usize, RegistryError>)
        requires
            old(self).wf(),
            old(self)@.len() < usize::MAX,
        ensures
            final(self).wf(),
            has_principal(old(self)@, p@) ==> r == Err::<usize, RegistryError>(
                RegistryError::AlreadyExists,
            ) && final(self)@ == old(self)@,
            !has_principal(old(self)@, p@) ==> r == Ok::<usize, RegistryError>(
                old(self)@.len() as usize,
            ) && final(self)@ == added(old(self)@, *p, bump),
            forall|q: Seq<u8>| #[trigger]
                has_principal(final(self)@, q) == (has_principal(old(self)@, q) || q == p@),
    {
        if self.contains(p) {
            return Err(RegistryError::AlreadyExists);
        }
        let index = self.entries.len();
        proof {
            lemma_added_wf(self@, *p, bump);
        }
        self.entries.push(RoleEntry { principal: *p, index, bump });
        Ok(index)
    }

    /// Unregisters `p`: the last entry moves into its position and takes its
    /// index. Fails if `p` is not registered, and then changes nothing.
    /// Returns the removed entry.
    pub fn remove(&mut self, p: &Pubkey) -> (r: Result<RoleEntry, RegistryError>)
        requires
            old(self).wf(),
        ensures
            final(self).wf(),
            !has_principal(old(self)@, p@) ==> r == Err::<RoleEntry, RegistryError>(
                RegistryError::Nonexistent,
            ) && final(self)@ == old(self)@,
            has_principal(old(self)@, p@) ==> (r matches Ok(e) && e.principal@ == p@ && e.index
                < old(self)@.len() && old(self)@[e.index as int] == e && final(self)@
                == swap_removed(old(self)@, e.index as int)),
            forall|q: Seq<u8>| #[trigger]
                has_principal(final(self)@, q) == (has_principal(old(self)@, q) && q != p@),
    {
        let i = match self.index_of(p) {
            None => return Err(RegistryError::Nonexistent),
            Some(i) => i,
        };
        proof {
            lemma_swap_removed_wf(self@, i as int);
        }
        let ghost before = self@;
        let removed = self.entries.swap_remove(i);
        if i < self.entries.len() {
            self.entries[i].index = i;
        }
        assert(self@ =~= swap_removed(before, i as int));
        Ok(removed)
    }
}

} // verus!
