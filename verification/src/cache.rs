//! The shared cache state: the account map, the program-membership map, and
//! the current-slot counter. Both maps are kept as entry lists where the
//! newest entry for a key wins; their meaning is a mathematical `Map`.

use vstd::prelude::*;

use crate::types::{copy_entry, opt_account_view, AccountInfo, AccountInfoView, Pubkey};

verus! {

/// One account-cache entry: `value: None` records that the key is known to be
/// absent on-chain, which is itself authoritative.
pub struct AccountEntry {
    pub key: Pubkey,
    pub value: Option<AccountInfo>,
}

/// One membership entry: the accounts currently believed owned by a program.
pub struct ProgramEntry {
    pub key: Pubkey,
    pub members: Vec<Pubkey>,
}

/// The byte images of a key list.
pub open spec fn keys_view(s: Seq<Pubkey>) -> Seq<Seq<u8>> {
    s.map_values(|p: Pubkey| p@)
}

/// Meaning of the account entry list: later entries overwrite earlier ones.
pub open spec fn accounts_map_of(s: Seq<AccountEntry>) -> Map<Seq<u8>, Option<AccountInfoView>>
    decreases s.len(),
{
    if s.len() == 0 {
        Map::empty()
    } else {
        accounts_map_of(s.drop_last()).insert(
            s.last().key@,
            opt_account_view(s.last().value),
        )
    }
}

/// Meaning of the membership entry list, likewise newest-wins.
pub open spec fn programs_map_of(s: Seq<ProgramEntry>) -> Map<Seq<u8>, Seq<Seq<u8>>>
    decreases s.len(),
{
    if s.len() == 0 {
        Map::empty()
    } else {
        programs_map_of(s.drop_last()).insert(s.last().key@, keys_view(s.last().members@))
    }
}

/// Total lookup: the value under a key, if the map has the key.
pub open spec fn spec_map_get<K, V>(m: Map<K, V>, k: K) -> Option<V> {
    if m.contains_key(k) {
        Some(m[k])
    } else {
        None
    }
}

/// Copy a key list; the byte images are unchanged.
pub fn copy_keys(v: &Vec<Pubkey>) -> (r: Vec<Pubkey>)
    ensures
        keys_view(r@) == keys_view(v@),
{
    let mut r: Vec<Pubkey> = Vec::new();
    let mut i: usize = 0;
    while i < v.len()
        invariant
            i <= v@.len(),
            keys_view(r@) == keys_view(v@.take(i as int)),
        decreases v@.len() - i,
    {
        r.push(v[i].clone());
        i = i + 1;
        proof {
            assert(keys_view(v@.take(i as int)) =~= keys_view(v@.take(i as int - 1)).push(
                v@[i as int - 1]@,
            ));
            assert(keys_view(r@) =~= keys_view(v@.take(i as int)));
        }
    }
    proof {
        assert(v@.take(v@.len() as int) =~= v@);
    }
    r
}

/// Overwriting the newest entry for a key changes the account map at that
/// key alone.
proof fn lemma_accounts_update(s: Seq<AccountEntry>, i: int, e: AccountEntry)
    requires
        0 <= i < s.len(),
        s[i].key@ == e.key@,
        forall|j: int| i < j < s.len() ==> s[j].key@ != e.key@,
    ensures
        accounts_map_of(s.update(i, e)) == accounts_map_of(s).insert(
            e.key@,
            opt_account_view(e.value),
        ),
    decreases s.len(),
{
    let t = s.update(i, e);
    if i == s.len() - 1 {
        assert(t.drop_last() =~= s.drop_last());
        assert(t.last() == e);
        assert(accounts_map_of(t) =~= accounts_map_of(s).insert(
            e.key@,
            opt_account_view(e.value),
        ));
    } else {
        assert(t.drop_last() =~= s.drop_last().update(i, e));
        assert(t.last() == s.last());
        assert(forall|j: int| i < j < s.len() - 1 ==> s.drop_last()[j] == s[j]);
        lemma_accounts_update(s.drop_last(), i, e);
        assert(s.last().key@ != e.key@);
        assert(accounts_map_of(t) =~= accounts_map_of(s).insert(
            e.key@,
            opt_account_view(e.value),
        ));
    }
}

/// Overwriting the newest entry for a program changes the membership map at
/// that key alone.
proof fn lemma_programs_update(s: Seq<ProgramEntry>, i: int, e: ProgramEntry)
    requires
        0 <= i < s.len(),
        s[i].key@ == e.key@,
        forall|j: int| i < j < s.len() ==> s[j].key@ != e.key@,
    ensures
        programs_map_of(s.update(i, e)) == programs_map_of(s).insert(
            e.key@,
            keys_view(e.members@),
        ),
    decreases s.len(),
{
    let t = s.update(i, e);
    if i == s.len() - 1 {
        assert(t.drop_last() =~= s.drop_last());
        assert(t.last() == e);
        assert(programs_map_of(t) =~= programs_map_of(s).insert(e.key@, keys_view(e.members@)));
    } else {
        assert(t.drop_last() =~= s.drop_last().update(i, e));
        assert(t.last() == s.last());
        assert(forall|j: int| i < j < s.len() - 1 ==> s.drop_last()[j] == s[j]);
        lemma_programs_update(s.drop_last(), i, e);
        assert(s.last().key@ != e.key@);
        assert(programs_map_of(t) =~= programs_map_of(s).insert(e.key@, keys_view(e.members@)));
    }
}

/// The shared state every request handler works over. One value of it is the
/// whole cache; the subscription feed and the handlers mutate it through the
/// methods below and nothing else.
pub struct State {
    pub accounts: Vec<AccountEntry>,
    pub program_accounts: Vec<ProgramEntry>,
    pub current_slot: u64,
}

impl State {
    /// What the account cache currently asserts, as a map. A key in the
    /// domain (even one mapped to `None`) is authoritative; a key outside it
    /// is unknown and must be fetched.
    pub open spec fn accounts_map(&self) -> Map<Seq<u8>, Option<AccountInfoView>> {
        accounts_map_of(self.accounts@)
    }

    /// The membership lists currently cached, as a map.
    pub open spec fn programs_map(&self) -> Map<Seq<u8>, Seq<Seq<u8>>> {
        programs_map_of(self.program_accounts@)
    }

    /// A fresh cache asserts nothing and sits at slot 0.
    pub fn new() -> (r: State)
        ensures
            r.accounts_map() == Map::<Seq<u8>, Option<AccountInfoView>>::empty(),
            r.programs_map() == Map::<Seq<u8>, Seq<Seq<u8>>>::empty(),
            r.current_slot == 0,
    {
        State { accounts: Vec::new(), program_accounts: Vec::new(), current_slot: 0 }
    }

    /// Look a key up in the account cache. `Some(None)` is cached absence;
    /// `None` means the cache holds nothing for the key. A caller serving a
    /// hit must also renew the key's subscription (a `Reset` command).
    pub fn get(&self, key: &Pubkey) -> (r: Option<Option<AccountInfo>>)
        ensures
            match r {
                Some(v) => spec_map_get(self.accounts_map(), key@) == Some(opt_account_view(v)),
                None => !self.accounts_map().contains_key(key@),
            },
    {
        let mut i: usize = self.accounts.len();
        proof {
            assert(self.accounts@.take(i as int) =~= self.accounts@);
        }
        while i > 0
            invariant
                i <= self.accounts@.len(),
                spec_map_get(accounts_map_of(self.accounts@), key@) == spec_map_get(
                    accounts_map_of(self.accounts@.take(i as int)),
                    key@,
                ),
            decreases i,
        {
            i = i - 1;
            proof {
                assert(self.accounts@.take(i as int + 1).drop_last() =~= self.accounts@.take(
                    i as int,
                ));
                assert(self.accounts@.take(i as int + 1).last() == self.accounts@[i as int]);
            }
            let e = &self.accounts[i];
            if e.key.key_eq(key) {
                return Some(copy_entry(&e.value));
            }
        }
        proof {
            assert(self.accounts@.take(0) =~= Seq::<AccountEntry>::empty());
        }
        None
    }

    /// Look a program key up in the membership cache, copying the list out.
    pub fn get_program_accounts(&self, key: &Pubkey) -> (r: Option<Vec<Pubkey>>)
        ensures
            match r {
                Some(ks) => spec_map_get(self.programs_map(), key@) == Some(keys_view(ks@)),
                None => !self.programs_map().contains_key(key@),
            },
    {
        let mut i: usize = self.program_accounts.len();
        proof {
            assert(self.program_accounts@.take(i as int) =~= self.program_accounts@);
        }
        while i > 0
            invariant
                i <= self.program_accounts@.len(),
                spec_map_get(programs_map_of(self.program_accounts@), key@) == spec_map_get(
                    programs_map_of(self.program_accounts@.take(i as int)),
                    key@,
                ),
            decreases i,
        {
            i = i - 1;
            proof {
                assert(self.program_accounts@.take(i as int + 1).drop_last()
                    =~= self.program_accounts@.take(i as int));
                assert(self.program_accounts@.take(i as int + 1).last()
                    == self.program_accounts@[i as int]);
            }
            let e = &self.program_accounts[i];
            if e.key.key_eq(key) {
                return Some(copy_keys(&e.members));
            }
        }
        proof {
            assert(self.program_accounts@.take(0) =~= Seq::<ProgramEntry>::empty());
        }
        None
    }

    /// Store a value (or cached absence) under a key; an entry the cache
    /// already holds for the key is overwritten in place, so the list never
    /// grows on repeated fills of one key. Nothing else changes.
    pub fn insert(&mut self, key: Pubkey, value: Option<AccountInfo>)
        ensures
            final(self).accounts_map() == old(self).accounts_map().insert(
                key@,
                opt_account_view(value),
            ),
            final(self).programs_map() == old(self).programs_map(),
            final(self).current_slot == old(self).current_slot,
    {
        let mut i: usize = self.accounts.len();
        while i > 0
            invariant
                i <= self.accounts@.len(),
                self.accounts@ == old(self).accounts@,
                self.program_accounts@ == old(self).program_accounts@,
                self.current_slot == old(self).current_slot,
                forall|j: int|
                    i <= j < self.accounts@.len() ==> self.accounts@[j].key@ != key@,
            decreases i,
        {
            i = i - 1;
            if self.accounts[i].key.key_eq(&key) {
                let ghost pre = self.accounts@;
                self.accounts[i] = AccountEntry { key, value };
                proof {
                    lemma_accounts_update(pre, i as int, self.accounts@[i as int]);
                }
                return ;
            }
        }
        self.accounts.push(AccountEntry { key, value });
        proof {
            assert(self.accounts@.drop_last() =~= old(self).accounts@);
            assert(self.program_accounts@ == old(self).program_accounts@);
        }
    }

    /// Replace the membership list for a program wholesale; partial updates
    /// are never visible, and a list the cache already holds is overwritten
    /// in place.
    pub fn insert_program_accounts(&mut self, key: Pubkey, members: Vec<Pubkey>)
        ensures
            final(self).programs_map() == old(self).programs_map().insert(
                key@,
                keys_view(members@),
            ),
            final(self).accounts_map() == old(self).accounts_map(),
            final(self).current_slot == old(self).current_slot,
    {
        let mut i: usize = self.program_accounts.len();
        while i > 0
            invariant
                i <= self.program_accounts@.len(),
                self.program_accounts@ == old(self).program_accounts@,
                self.accounts@ == old(self).accounts@,
                self.current_slot == old(self).current_slot,
                forall|j: int|
                    i <= j < self.program_accounts@.len() ==> self.program_accounts@[j].key@
                        != key@,
            decreases i,
        {
            i = i - 1;
            if self.program_accounts[i].key.key_eq(&key) {
                let ghost pre = self.program_accounts@;
                self.program_accounts[i] = ProgramEntry { key, members };
                proof {
                    lemma_programs_update(pre, i as int, self.program_accounts@[i as int]);
                }
                return ;
            }
        }
        self.program_accounts.push(ProgramEntry { key, members });
        proof {
            assert(self.program_accounts@.drop_last() =~= old(self).program_accounts@);
            assert(self.accounts@ == old(self).accounts@);
        }
    }

    /// Current blockchain height, as last written by the subscription feed.
    pub fn slot(&self) -> (r: u64)
        ensures
            r == self.current_slot,
    {
        self.current_slot
    }

    /// Record a fresh height from the feed; the counter never moves back.
    pub fn update_slot(&mut self, slot: u64)
        ensures
            final(self).current_slot == if slot > old(self).current_slot {
                slot
            } else {
                old(self).current_slot
            },
            final(self).accounts_map() == old(self).accounts_map(),
            final(self).programs_map() == old(self).programs_map(),
    {
        if slot > self.current_slot {
            self.current_slot = slot;
        }
    }
}

} // verus!
