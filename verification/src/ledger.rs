//! One column of the ledger store: a mapping from account identity to a
//! non-negative 128-bit amount. Used for both the collateral and the debt
//! positions. The abstract view is a partial map — storage records which
//! accounts have an entry — but the engine reads an absent entry as zero;
//! entries are created lazily and a position reduced to zero keeps its
//! zero-valued entry.

use vstd::prelude::*;

verus! {

/// One recorded position: an account identity and its amount.
struct AccountEntry {
    addr: String,
    amount: u128,
}

/// Account identity -> amount. Entries are created lazily and never removed;
/// a position reduced to zero remains a zero-valued entry.
pub struct AccountMap {
    entries: Vec<AccountEntry>,
}

/// The map that a sequence of entries denotes (later entries would win, but
/// the well-formedness invariant keeps keys unique).
spec fn entries_map(s: Seq<AccountEntry>) -> Map<Seq<char>, u128>
    decreases s.len(),
{
    if s.len() == 0 {
        Map::empty()
    } else {
        entries_map(s.drop_last()).insert(s.last().addr@, s.last().amount)
    }
}

/// No two entries record the same account.
spec fn unique_keys(s: Seq<AccountEntry>) -> bool {
    forall|i: int, j: int| 0 <= i < j < s.len() ==> s[i].addr@ != s[j].addr@
}

impl View for AccountMap {
    type V = Map<Seq<char>, u128>;

    closed spec fn view(&self) -> Map<Seq<char>, u128> {
        entries_map(self.entries@)
    }
}

proof fn lemma_entries_map_dom(s: Seq<AccountEntry>, k: Seq<char>)
    ensures
        entries_map(s).contains_key(k) <==> (exists|i: int|
            0 <= i < s.len() && s[i].addr@ == k),
    decreases s.len(),
{
    if s.len() > 0 {
        lemma_entries_map_dom(s.drop_last(), k);
        if s.last().addr@ == k {
            assert(s[s.len() - 1].addr@ == k);
        } else {
            if exists|i: int| 0 <= i < s.len() && s[i].addr@ == k {
                let i = choose|i: int| 0 <= i < s.len() && s[i].addr@ == k;
                assert(s.drop_last()[i].addr@ == k);
            }
            if exists|i: int| 0 <= i < s.drop_last().len() && s.drop_last()[i].addr@ == k {
                let i = choose|i: int| 0 <= i < s.drop_last().len() && s.drop_last()[i].addr@
                    == k;
                assert(s[i].addr@ == k);
            }
        }
    }
}

proof fn lemma_entries_map_at(s: Seq<AccountEntry>, i: int)
    requires
        unique_keys(s),
        0 <= i < s.len(),
    ensures
        entries_map(s).contains_key(s[i].addr@),
        entries_map(s)[s[i].addr@] == s[i].amount,
    decreases s.len(),
{
    if i < s.len() - 1 {
        assert(unique_keys(s.drop_last()));
        lemma_entries_map_at(s.drop_last(), i);
        assert(s.last().addr@ != s[i].addr@);
        assert(s.drop_last()[i] == s[i]);
    }
}

proof fn lemma_entries_map_update(s: Seq<AccountEntry>, i: int, e: AccountEntry)
    requires
        unique_keys(s),
        0 <= i < s.len(),
        e.addr@ == s[i].addr@,
    ensures
        entries_map(s.update(i, e)) == entries_map(s).insert(e.addr@, e.amount),
    decreases s.len(),
{
    let t = s.update(i, e);
    if i == s.len() - 1 {
        assert(t.drop_last() =~= s.drop_last());
        assert(t.last() == e);
        assert(entries_map(t) =~= entries_map(s).insert(e.addr@, e.amount));
    } else {
        assert(unique_keys(s.drop_last()));
        assert(s.drop_last()[i] == s[i]);
        assert(t.drop_last() =~= s.drop_last().update(i, e));
        lemma_entries_map_update(s.drop_last(), i, e);
        assert(t.last() == s.last());
        assert(s.last().addr@ != e.addr@);
        assert(entries_map(t) =~= entries_map(s).insert(e.addr@, e.amount));
    }
}

impl AccountMap {
    #[verifier::type_invariant]
    spec fn wf(self) -> bool {
        unique_keys(self.entries@)
    }

    /// An empty column: no account has an entry.
    pub fn new() -> (m: AccountMap)
        ensures
            m@ == Map::<Seq<char>, u128>::empty(),
    {
        AccountMap { entries: Vec::new() }
    }

    /// The recorded amount for `addr`, or `None` when the account has no
    /// entry at all.
    pub fn get(&self, addr: &String) -> (r: Option<u128>)
        ensures
            r == (if self@.contains_key(addr@) {
                Some(self@[addr@])
            } else {
                None::<u128>
            }),
    {
        proof {
            use_type_invariant(self);
        }
        let n = self.entries.len();
        let mut i: usize = 0;
        while i < n
            invariant
                0 <= i <= n,
                n == self.entries@.len(),
                unique_keys(self.entries@),
                self@ == entries_map(self.entries@),
                forall|j: int| 0 <= j < i ==> self.entries@[j].addr@ != addr@,
            decreases n - i,
        {
            if self.entries[i].addr == *addr {
                proof {
                    lemma_entries_map_at(self.entries@, i as int);
                }
                return Some(self.entries[i].amount);
            }
            i += 1;
        }
        proof {
            lemma_entries_map_dom(self.entries@, addr@);
        }
        None
    }

    /// Record `value` for `addr`, creating the entry when absent.
    #[verifier::loop_isolation(false)]
    pub fn set(&mut self, addr: &String, value: u128)
        ensures
            final(self)@ == old(self)@.insert(addr@, value),
    {
        proof {
            use_type_invariant(&*self);
        }
        let ghost orig: Seq<AccountEntry> = self.entries@;
        let mut entries: Vec<AccountEntry> = Vec::new();
        core::mem::swap(&mut entries, &mut self.entries);
        let n = entries.len();
        let mut i: usize = 0;
        while i < n
            invariant
                0 <= i <= n,
                n == entries@.len(),
                entries@ == orig,
                unique_keys(orig),
                forall|j: int| 0 <= j < i ==> entries@[j].addr@ != addr@,
            decreases n - i,
        {
            if entries[i].addr == *addr {
                let e = AccountEntry { addr: addr.clone(), amount: value };
                proof {
                    lemma_entries_map_update(orig, i as int, e);
                }
                entries[i] = e;
                proof {
                    assert(unique_keys(entries@));
                }
                self.entries = entries;
                return;
            }
            i += 1;
        }
        entries.push(AccountEntry { addr: addr.clone(), amount: value });
        proof {
            assert(entries@.drop_last() =~= orig);
            assert(entries@.last().addr@ == addr@);
            lemma_entries_map_dom(orig, addr@);
            assert(unique_keys(entries@));
        }
        self.entries = entries;
    }
}

} // verus!
