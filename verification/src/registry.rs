//! The server-wide registry of claimed display names.
//!
//! The registry is a set of names with unique membership. Address-derived
//! default names are never inserted, so they can never collide. The
//! check-and-insert of a rename is a single call, so no interleaving can
//! observe both the old and the new name, or neither.

use vstd::prelude::*;

use crate::messages::str_eq;

verus! {

/// A set of currently claimed display names.
///
/// Viewed as the set of claimed names, each a sequence of characters.
pub struct NameRegistry {
    names: Vec<String>,
}

impl View for NameRegistry {
    type V = Set<Seq<char>>;

    closed spec fn view(&self) -> Set<Seq<char>> {
        self.stored().to_set()
    }
}

impl NameRegistry {
    /// The claimed names in storage order.
    pub closed spec fn stored(self) -> Seq<Seq<char>> {
        self.names@.map_values(|s: String| s@)
    }

    /// No name is ever stored twice.
    #[verifier::type_invariant]
    spec fn inv(self) -> bool {
        self.stored().no_duplicates()
    }

    /// Creates an empty registry: no name is claimed.
    pub fn new() -> (r: Self)
        ensures
            r@ == Set::<Seq<char>>::empty(),
            r.stored() == Seq::<Seq<char>>::empty(),
    {
        let r = NameRegistry { names: Vec::new() };
        proof {
            assert(r.stored() =~= Seq::<Seq<char>>::empty());
            assert(r@ =~= Set::<Seq<char>>::empty());
        }
        r
    }

    /// The index of `name` in storage, if it is claimed.
    fn find(&self, name: &str) -> (r: Option<usize>)
        ensures
            match r {
                Some(i) => i < self.stored().len() && self.stored()[i as int] == name@,
                None => !self@.contains(name@),
            },
    {
        let mut i: usize = 0;
        while i < self.names.len()
            invariant
                i <= self.names.len(),
                forall|j: int| 0 <= j < i ==> self.stored()[j] != name@,
            decreases self.names.len() - i,
        {
            if str_eq(self.names[i].as_str(), name) {
                return Some(i);
            }
            i += 1;
        }
        proof {
            assert(forall|j: int| 0 <= j < self.stored().len() ==> self.stored()[j] != name@);
            assert(!self.stored().contains(name@));
        }
        None
    }

    /// Whether `name` is currently claimed.
    pub fn is_claimed(&self, name: &str) -> (r: bool)
        ensures
            r == self@.contains(name@),
    {
        self.find(name).is_some()
    }

    /// The number of claimed names.
    pub fn len(&self) -> (n: usize)
        ensures
            n == self@.len(),
    {
        proof {
            use_type_invariant(&*self);
            self.stored().unique_seq_to_set();
        }
        self.names.len()
    }

    /// Atomic check-and-insert of a rename, one critical section.
    ///
    /// If `new_name` is unclaimed, claims it, gives up `old_name` (a no-op
    /// when `old_name` was never claimed, as a default name is not), and
    /// returns `true`; otherwise returns `false` and changes nothing.
    pub fn try_claim(&mut self, new_name: &str, old_name: &str) -> (r: bool)
        ensures
            r == !old(self)@.contains(new_name@),
            r ==> final(self)@ == old(self)@.insert(new_name@).remove(old_name@),
            !r ==> final(self)@ == old(self)@,
    {
        proof {
            use_type_invariant(&*self);
        }
        let found = self.find(new_name);
        if let Some(i) = found {
            proof {
                assert(self.stored()[i as int] == new_name@);
                assert(self@.contains(new_name@));
            }
            return false;
        }
        self.push_absent(new_name);
        self.remove_present(old_name);
        true
    }

    /// Removes `name` from the registry; a no-op when it is not claimed.
    /// Idempotent: removing a name twice is the same as removing it once.
    pub fn release(&mut self, name: &str)
        ensures
            final(self)@ == old(self)@.remove(name@),
            !final(self)@.contains(name@),
    {
        self.remove_present(name);
        proof {
            assert(!self@.contains(name@));
        }
    }

    /// Inserts a name known to be absent.
    fn push_absent(&mut self, name: &str)
        requires
            !old(self)@.contains(name@),
        ensures
            final(self)@ == old(self)@.insert(name@),
            final(self).stored() == old(self).stored().push(name@),
    {
        proof {
            use_type_invariant(&*self);
            assert(!old(self).stored().contains(name@));
        }
        let owned = name.to_owned();
        let mut working: Vec<String> = Vec::new();
        proof {
            assert(Seq::<String>::empty().map_values(|s: String| s@) =~= Seq::<Seq<char>>::empty());
        }
        core::mem::swap(&mut self.names, &mut working);
        working.push(owned);
        proof {
            lemma_to_set_of_push(old(self).stored(), name@);
            assert(working@.map_values(|s: String| s@) =~= old(self).stored().push(name@));
        }
        core::mem::swap(&mut self.names, &mut working);
        proof {
            assert(self.stored() == old(self).stored().push(name@));
        }
    }

    /// Removes a name's entry if one is stored.
    fn remove_present(&mut self, name: &str)
        ensures
            final(self)@ == old(self)@.remove(name@),
    {
        proof {
            use_type_invariant(&*self);
        }
        let found = self.find(name);
        match found {
            None => {
                proof {
                    assert(self@ =~= old(self)@.remove(name@));
                }
            },
            Some(i) => {
                let mut working: Vec<String> = Vec::new();
                proof {
                    assert(Seq::<String>::empty().map_values(|s: String| s@)
                        =~= Seq::<Seq<char>>::empty());
                }
                core::mem::swap(&mut self.names, &mut working);
                working.remove(i);
                proof {
                    lemma_to_set_of_remove(old(self).stored(), i as int);
                    assert(working@.map_values(|s: String| s@)
                        =~= old(self).stored().remove(i as int));
                }
                core::mem::swap(&mut self.names, &mut working);
                proof {
                    assert(self.stored() == old(self).stored().remove(i as int));
                    assert(old(self).stored()[i as int] == name@);
                }
            },
        }
    }

    /// Name uniqueness: the registry never holds a claimed name twice.
    /// In the multiset of stored names every name counts at most once.
    /// Stated over a reference so that it holds of every registry a
    /// caller can ever have in hand.
    pub fn name_uniqueness(&self)
        ensures
            self.stored().no_duplicates(),
            forall|n: Seq<char>| self.stored().to_multiset().count(n) <= 1,
    {
        proof {
            use_type_invariant(&*self);
            self.stored().lemma_multiset_has_no_duplicates();
        }
    }
}

/// Releasing a name is idempotent: a second release of the same name
/// changes nothing. `release` ensures the registry's view becomes the
/// old view with the name removed, so the view after two releases of
/// `n` equals the view after one.
pub proof fn lemma_release_idempotent(claimed: Set<Seq<char>>, n: Seq<char>)
    ensures
        claimed.remove(n).remove(n) == claimed.remove(n),
{
    assert(claimed.remove(n).remove(n) =~= claimed.remove(n));
}

/// A name just claimed cannot be claimed again. When `try_claim(n, o)`
/// succeeds, the registry's view becomes the old view with `n` inserted
/// and the caller's old name `o` removed; as long as `o` differs from
/// `n`, that view still contains `n`, and `try_claim` returns `true`
/// only on a view lacking `n`, so an immediate `try_claim(n, _)` by
/// any other session returns `false`. (When the first claim fails the
/// registry is unchanged and already holds `n`, so a second claim
/// fails as well.)
pub proof fn lemma_second_claim_collides(claimed: Set<Seq<char>>, n: Seq<char>, o: Seq<char>)
    requires
        !claimed.contains(n),
        o != n,
    ensures
        claimed.insert(n).remove(o).contains(n),
{
}

/// Pushing an element onto a duplicate-free sequence that lacks it keeps
/// it duplicate-free and inserts the element into the induced set.
proof fn lemma_to_set_of_push(s: Seq<Seq<char>>, x: Seq<char>)
    requires
        s.no_duplicates(),
        !s.contains(x),
    ensures
        s.push(x).no_duplicates(),
        s.push(x).to_set() == s.to_set().insert(x),
{
    assert forall|y: Seq<char>| s.push(x).to_set().contains(y)
        implies s.to_set().insert(x).contains(y) by {
        let i = choose|i: int| 0 <= i < s.push(x).len() && s.push(x)[i] == y;
        if i < s.len() {
            assert(s.contains(y));
        }
    }
    assert forall|y: Seq<char>| s.to_set().insert(x).contains(y)
        implies s.push(x).to_set().contains(y) by {
        if y == x {
            assert(s.push(x)[s.len() as int] == x);
        } else {
            let i = choose|i: int| 0 <= i < s.len() && s[i] == y;
            assert(s.push(x)[i] == y);
        }
    }
    assert(s.push(x).to_set() =~= s.to_set().insert(x));
}

/// Removing one entry of a duplicate-free sequence keeps it duplicate-free
/// and removes exactly that element from the induced set.
proof fn lemma_to_set_of_remove(s: Seq<Seq<char>>, i: int)
    requires
        s.no_duplicates(),
        0 <= i < s.len(),
    ensures
        s.remove(i).no_duplicates(),
        s.remove(i).to_set() == s.to_set().remove(s[i]),
{
    let t = s.remove(i);
    assert forall|y: Seq<char>| t.to_set().contains(y)
        implies s.to_set().remove(s[i]).contains(y) by {
        let j = choose|j: int| 0 <= j < t.len() && t[j] == y;
        if j < i {
            assert(s[j] == y);
            assert(s.contains(y));
            assert(y != s[i]);
        } else {
            assert(s[j + 1] == y);
            assert(s.contains(y));
            assert(y != s[i]);
        }
    }
    assert forall|y: Seq<char>| s.to_set().remove(s[i]).contains(y)
        implies t.to_set().contains(y) by {
        let j = choose|j: int| 0 <= j < s.len() && s[j] == y;
        assert(j != i);
        if j < i {
            assert(t[j] == y);
        } else {
            assert(t[j - 1] == y);
        }
        assert(t.contains(y));
    }
    assert(t.to_set() =~= s.to_set().remove(s[i]));
}

} // verus!
