//! A keyed store for policy records, the shape the engine's surroundings
//! persist them in: every record is addressed by a deterministic composite
//! key, every read is a point lookup, and writing a record then reading its
//! key back yields the record, field for field.

use vstd::prelude::*;

use crate::state::file::{File, Seed};
use crate::state::pubkey::Pubkey;
use crate::state::role::Role;
use crate::state::rule::Rule;

verus! {

/// A record with a deterministic key.
pub trait Keyed {
    type Key;

    /// The composite key the record is stored under.
    spec fn key(self) -> Self::Key;
}

/// No two records share a key.
pub open spec fn unique_keys<T: Keyed>(s: Seq<T>) -> bool {
    forall|i: int, j: int|
        0 <= i < j < s.len() ==> #[trigger] s[i].key() != #[trigger] s[j].key()
}

/// Whether some record is stored under `k`.
pub open spec fn has_key<T: Keyed>(s: Seq<T>, k: T::Key) -> bool {
    exists|i: int| 0 <= i < s.len() && #[trigger] s[i].key() == k
}

/// The record stored under `k`, if any.
pub open spec fn record_at<T: Keyed>(s: Seq<T>, k: T::Key) -> Option<T> {
    if has_key(s, k) {
        Some(s[choose|i: int| 0 <= i < s.len() && #[trigger] s[i].key() == k])
    } else {
        None
    }
}

/// With unique keys, the record found at an index is the record stored under
/// its key.
pub proof fn lemma_found_record<T: Keyed>(s: Seq<T>, i: int)
    requires
        unique_keys(s),
        0 <= i < s.len(),
    ensures
        record_at(s, s[i].key()) == Some(s[i]),
{
    let k = s[i].key();
    assert(has_key(s, k));
    let j = choose|j: int| 0 <= j < s.len() && #[trigger] s[j].key() == k;
    if j < i {
        assert(s[j].key() != s[i].key());
    } else if i < j {
        assert(s[i].key() != s[j].key());
    }
}

/// Appending a record whose key is absent stores it under its key and leaves
/// every other key's record unchanged.
pub proof fn lemma_push_stores<T: Keyed>(s: Seq<T>, x: T)
    requires
        unique_keys(s),
        !has_key(s, x.key()),
    ensures
        unique_keys(s.push(x)),
        record_at(s.push(x), x.key()) == Some(x),
        forall|k: T::Key| k != x.key() ==> #[trigger] record_at(s.push(x), k) == record_at(s, k),
{
    let t = s.push(x);
    let n = s.len() as int;
    assert forall|i: int, j: int| 0 <= i < j < t.len() implies #[trigger] t[i].key()
        != #[trigger] t[j].key() by {
        if j < n {
            assert(s[i].key() != s[j].key());
        } else {
            // t[j] is x; an equal key at i would mean x's key was present.
            assert(t[j] == x);
            if t[i].key() == x.key() {
                assert(s[i].key() == x.key());
                assert(has_key(s, x.key()));
            }
        }
    }
    assert(t[n].key() == x.key());
    lemma_found_record(t, n);
    assert forall|k: T::Key| k != x.key() implies #[trigger] record_at(t, k) == record_at(s, k) by {
        if has_key(s, k) {
            let i = choose|i: int| 0 <= i < s.len() && #[trigger] s[i].key() == k;
            assert(t[i].key() == k);
            lemma_found_record(s, i);
            lemma_found_record(t, i);
        } else {
            if has_key(t, k) {
                let i = choose|i: int| 0 <= i < t.len() && #[trigger] t[i].key() == k;
                // The witness cannot be the appended record (its key is
                // x.key()), nor an old one (k is absent from s).
                assert(i < n ==> s[i].key() == k);
                assert(false);
            }
        }
    }
}

/// Removing the record at an index erases its key and leaves every other
/// key's record unchanged.
pub proof fn lemma_remove_erases<T: Keyed>(s: Seq<T>, i: int)
    requires
        unique_keys(s),
        0 <= i < s.len(),
    ensures
        unique_keys(s.remove(i)),
        record_at(s.remove(i), s[i].key()) is None,
        forall|k: T::Key| k != s[i].key() ==> #[trigger] record_at(s.remove(i), k) == record_at(
            s,
            k,
        ),
{
    let t = s.remove(i);
    let n = s.len() as int;
    let k0 = s[i].key();
    // Each index of the shortened sequence maps to its source in `s`.
    assert forall|j: int| 0 <= j < t.len() implies t[j] == s[if j < i {
        j
    } else {
        j + 1
    }] by {}
    assert forall|p: int, q: int| 0 <= p < q < t.len() implies #[trigger] t[p].key()
        != #[trigger] t[q].key() by {
        let sp = if p < i {
            p
        } else {
            p + 1
        };
        let sq = if q < i {
            q
        } else {
            q + 1
        };
        assert(s[sp].key() != s[sq].key());
    }
    if has_key(t, k0) {
        let j = choose|j: int| 0 <= j < t.len() && #[trigger] t[j].key() == k0;
        let sj = if j < i {
            j
        } else {
            j + 1
        };
        assert(s[sj].key() == k0 && sj != i);
        if sj < i {
            assert(s[sj].key() != s[i].key());
        } else {
            assert(s[i].key() != s[sj].key());
        }
    }
    assert forall|k: T::Key| k != k0 implies #[trigger] record_at(t, k) == record_at(s, k) by {
        if has_key(s, k) {
            let j = choose|j: int| 0 <= j < s.len() && #[trigger] s[j].key() == k;
            assert(j != i);
            let tj = if j < i {
                j
            } else {
                j - 1
            };
            assert(t[tj].key() == k);
            lemma_found_record(s, j);
            lemma_found_record(t, tj);
        } else {
            if has_key(t, k) {
                let j = choose|j: int| 0 <= j < t.len() && #[trigger] t[j].key() == k;
                let sj = if j < i {
                    j
                } else {
                    j + 1
                };
                assert(s[sj].key() == k);
                assert(false);
            }
        }
    }
}

impl Keyed for File {
    type Key = Pubkey;

    /// A file is addressed by its id.
    open spec fn key(self) -> Pubkey {
        self.id
    }
}

impl Keyed for Role {
    type Key = (Option<Pubkey>, Pubkey);

    /// A role is addressed by its grantee (or the wildcard) and its file.
    open spec fn key(self) -> (Option<Pubkey>, Pubkey) {
        (self.address, self.file_id)
    }
}

impl Keyed for Rule {
    type Key = (u8, u8, Seq<char>, Seq<char>, Pubkey);

    /// A rule is addressed by its namespace, its demanded level, its resource
    /// and action strings, and its file.
    open spec fn key(self) -> (u8, u8, Seq<char>, Seq<char>, Pubkey) {
        (self.namespace, self.permission_level, self.resource@, self.permission@, self.file_id)
    }
}

impl Keyed for (Pubkey, Seed) {
    type Key = Pubkey;

    /// A fee accumulator is addressed by its principal.
    open spec fn key(self) -> Pubkey {
        self.0
    }
}

/// The keyed store of policy records: files, roles, rules and fee
/// accumulators, each collection keyed uniquely.
pub struct PolicyStore {
    pub files: Vec<File>,
    pub roles: Vec<Role>,
    pub rules: Vec<Rule>,
    pub seeds: Vec<(Pubkey, Seed)>,
}

impl PolicyStore {
    /// Every collection keeps its keys unique, so each key addresses at most
    /// one record.
    pub open spec fn wf(self) -> bool {
        &&& unique_keys(self.files@)
        &&& unique_keys(self.roles@)
        &&& unique_keys(self.rules@)
        &&& unique_keys(self.seeds@)
    }

    /// An empty store.
    pub fn new() -> (s: PolicyStore)
        ensures
            s.wf(),
            s.files@ == Seq::<File>::empty(),
            s.roles@ == Seq::<Role>::empty(),
            s.rules@ == Seq::<Rule>::empty(),
            s.seeds@ == Seq::<(Pubkey, Seed)>::empty(),
    {
        PolicyStore { files: Vec::new(), roles: Vec::new(), rules: Vec::new(), seeds: Vec::new() }
    }

    /// Reads the role stored under (`address`, `file_id`).
    pub fn get_role(&self, address: &Option<Pubkey>, file_id: &Pubkey) -> (r: Option<Role>)
        requires
            self.wf(),
        ensures
            r == record_at(self.roles@, (*address, *file_id)),
    {
        let ghost k = (*address, *file_id);
        let n = self.roles.len();
        let mut i: usize = 0;
        while i < n
            invariant
                self.wf(),
                n == self.roles@.len(),
                0 <= i <= n,
                k == (*address, *file_id),
                forall|j: int| 0 <= j < i ==> #[trigger] self.roles@[j].key() != k,
            decreases n - i,
        {
            let ro = self.roles[i];
            let address_match = match (&ro.address, address) {
                (None, None) => true,
                (Some(a), Some(b)) => a == b,
                _ => false,
            };
            if address_match && ro.file_id == *file_id {
                proof {
                    lemma_found_record(self.roles@, i as int);
                }
                return Some(ro);
            }
            i = i + 1;
        }
        proof {
            if has_key(self.roles@, k) {
                let j = choose|j: int|
                    0 <= j < self.roles@.len() && #[trigger] self.roles@[j].key() == k;
                assert(false);
            }
        }
        None
    }

    /// Removes the role stored under (`address`, `file_id`), if any; every
    /// other record stays.
    pub fn remove_role(&mut self, address: &Option<Pubkey>, file_id: &Pubkey)
        requires
            old(self).wf(),
        ensures
            final(self).wf(),
            record_at(final(self).roles@, (*address, *file_id)) is None,
            forall|k: (Option<Pubkey>, Pubkey)| k != (*address, *file_id) ==> #[trigger] record_at(
                final(self).roles@,
                k,
            ) == record_at(old(self).roles@, k),
            final(self).files == old(self).files,
            final(self).rules == old(self).rules,
            final(self).seeds == old(self).seeds,
    {
        let ghost k = (*address, *file_id);
        let ghost s0 = self.roles@;
        let n = self.roles.len();
        let mut i: usize = 0;
        while i < n
            invariant
                self.wf(),
                self.roles@ == s0,
                s0 == old(self).roles@,
                self.files == old(self).files,
                self.rules == old(self).rules,
                self.seeds == old(self).seeds,
                n == self.roles@.len(),
                0 <= i <= n,
                k == (*address, *file_id),
                forall|j: int| 0 <= j < i ==> #[trigger] self.roles@[j].key() != k,
            decreases n - i,
        {
            let ro = self.roles[i];
            let address_match = match (&ro.address, address) {
                (None, None) => true,
                (Some(a), Some(b)) => a == b,
                _ => false,
            };
            if address_match && ro.file_id == *file_id {
                proof {
                    lemma_remove_erases(self.roles@, i as int);
                }
                self.roles.remove(i);
                return ;
            }
            i = i + 1;
        }
        proof {
            if has_key(self.roles@, k) {
                let j = choose|j: int|
                    0 <= j < self.roles@.len() && #[trigger] self.roles@[j].key() == k;
                assert(false);
            }
        }
    }

    /// Writes (or overwrites) `role` under its deterministic key. Reading the
    /// key back yields the record, field for field; every other record stays.
    pub fn put_role(&mut self, role: Role)
        requires
            old(self).wf(),
        ensures
            final(self).wf(),
            record_at(final(self).roles@, role.key()) == Some(role),
            forall|k: (Option<Pubkey>, Pubkey)| k != role.key() ==> #[trigger] record_at(
                final(self).roles@,
                k,
            ) == record_at(old(self).roles@, k),
            final(self).files == old(self).files,
            final(self).rules == old(self).rules,
            final(self).seeds == old(self).seeds,
    {
        self.remove_role(&role.address, &role.file_id);
        proof {
            lemma_push_stores(self.roles@, role);
        }
        self.roles.push(role);
    }

    /// Reads the file stored under `id`.
    pub fn get_file(&self, id: &Pubkey) -> (r: Option<File>)
        requires
            self.wf(),
        ensures
            r == record_at(self.files@, *id),
    {
        let ghost k = *id;
        let n = self.files.len();
        let mut i: usize = 0;
        while i < n
            invariant
                self.wf(),
                n == self.files@.len(),
                0 <= i <= n,
                k == *id,
                forall|j: int| 0 <= j < i ==> #[trigger] self.files@[j].key() != k,
            decreases n - i,
        {
            if self.files[i].id == *id {
                proof {
                    lemma_found_record(self.files@, i as int);
                }
                return Some(self.files[i].duplicate());
            }
            i = i + 1;
        }
        proof {
            if has_key(self.files@, k) {
                let j = choose|j: int|
                    0 <= j < self.files@.len() && #[trigger] self.files@[j].key() == k;
                assert(false);
            }
        }
        None
    }

    /// Removes the file stored under `id`, if any; every other record stays.
    pub fn remove_file(&mut self, id: &Pubkey)
        requires
            old(self).wf(),
        ensures
            final(self).wf(),
            record_at(final(self).files@, *id) is None,
            forall|k: Pubkey| k != *id ==> #[trigger] record_at(final(self).files@, k)
                == record_at(old(self).files@, k),
            final(self).roles == old(self).roles,
            final(self).rules == old(self).rules,
            final(self).seeds == old(self).seeds,
    {
        let ghost k = *id;
        let ghost s0 = self.files@;
        let n = self.files.len();
        let mut i: usize = 0;
        while i < n
            invariant
                self.wf(),
                self.files@ == s0,
                s0 == old(self).files@,
                self.roles == old(self).roles,
                self.rules == old(self).rules,
                self.seeds == old(self).seeds,
                n == self.files@.len(),
                0 <= i <= n,
                k == *id,
                forall|j: int| 0 <= j < i ==> #[trigger] self.files@[j].key() != k,
            decreases n - i,
        {
            if self.files[i].id == *id {
                proof {
                    lemma_remove_erases(self.files@, i as int);
                }
                self.files.remove(i);
                return ;
            }
            i = i + 1;
        }
        proof {
            if has_key(self.files@, k) {
                let j = choose|j: int|
                    0 <= j < self.files@.len() && #[trigger] self.files@[j].key() == k;
                assert(false);
            }
        }
    }

    /// Writes (or overwrites) `file` under its id. Reading the id back yields
    /// the record, field for field; every other record stays.
    pub fn put_file(&mut self, file: File)
        requires
            old(self).wf(),
        ensures
            final(self).wf(),
            record_at(final(self).files@, file.key()) == Some(file),
            forall|k: Pubkey| k != file.key() ==> #[trigger] record_at(final(self).files@, k)
                == record_at(old(self).files@, k),
            final(self).roles == old(self).roles,
            final(self).rules == old(self).rules,
            final(self).seeds == old(self).seeds,
    {
        self.remove_file(&file.id);
        proof {
            lemma_push_stores(self.files@, file);
        }
        self.files.push(file);
    }

    /// Reads the rule stored under the composite key
    /// (`namespace`, `permission_level`, `resource`, `permission`, `file_id`).
    pub fn get_rule(
        &self,
        namespace: u8,
        permission_level: u8,
        resource: &String,
        permission: &String,
        file_id: &Pubkey,
    ) -> (r: Option<Rule>)
        requires
            self.wf(),
        ensures
            r == record_at(
                self.rules@,
                (namespace, permission_level, resource@, permission@, *file_id),
            ),
    {
        let ghost k = (namespace, permission_level, resource@, permission@, *file_id);
        let n = self.rules.len();
        let mut i: usize = 0;
        while i < n
            invariant
                self.wf(),
                n == self.rules@.len(),
                0 <= i <= n,
                k == (namespace, permission_level, resource@, permission@, *file_id),
                forall|j: int| 0 <= j < i ==> #[trigger] self.rules@[j].key() != k,
            decreases n - i,
        {
            let ru = &self.rules[i];
            if ru.namespace == namespace && ru.permission_level == permission_level
                && ru.resource.eq(resource) && ru.permission.eq(permission) && ru.file_id
                == *file_id {
                proof {
                    lemma_found_record(self.rules@, i as int);
                }
                return Some(self.rules[i].duplicate());
            }
            i = i + 1;
        }
        proof {
            if has_key(self.rules@, k) {
                let j = choose|j: int|
                    0 <= j < self.rules@.len() && #[trigger] self.rules@[j].key() == k;
                assert(false);
            }
        }
        None
    }

    /// Removes the rule stored under the composite key, if any; every other
    /// record stays.
    pub fn remove_rule(
        &mut self,
        namespace: u8,
        permission_level: u8,
        resource: &String,
        permission: &String,
        file_id: &Pubkey,
    )
        requires
            old(self).wf(),
        ensures
            final(self).wf(),
            record_at(
                final(self).rules@,
                (namespace, permission_level, resource@, permission@, *file_id),
            ) is None,
            forall|k: (u8, u8, Seq<char>, Seq<char>, Pubkey)|
                k != (namespace, permission_level, resource@, permission@, *file_id)
                    ==> #[trigger] record_at(final(self).rules@, k) == record_at(
                    old(self).rules@,
                    k,
                ),
            final(self).files == old(self).files,
            final(self).roles == old(self).roles,
            final(self).seeds == old(self).seeds,
    {
        let ghost k = (namespace, permission_level, resource@, permission@, *file_id);
        let ghost s0 = self.rules@;
        let n = self.rules.len();
        let mut i: usize = 0;
        while i < n
            invariant
                self.wf(),
                self.rules@ == s0,
                s0 == old(self).rules@,
                self.files == old(self).files,
                self.roles == old(self).roles,
                self.seeds == old(self).seeds,
                n == self.rules@.len(),
                0 <= i <= n,
                k == (namespace, permission_level, resource@, permission@, *file_id),
                forall|j: int| 0 <= j < i ==> #[trigger] self.rules@[j].key() != k,
            decreases n - i,
        {
            let ru = &self.rules[i];
            if ru.namespace == namespace && ru.permission_level == permission_level
                && ru.resource.eq(resource) && ru.permission.eq(permission) && ru.file_id
                == *file_id {
                proof {
                    lemma_remove_erases(self.rules@, i as int);
                }
                self.rules.remove(i);
                return ;
            }
            i = i + 1;
        }
        proof {
            if has_key(self.rules@, k) {
                let j = choose|j: int|
                    0 <= j < self.rules@.len() && #[trigger] self.rules@[j].key() == k;
                assert(false);
            }
        }
    }

    /// Writes (or overwrites) `rule` under its composite key. Reading the key
    /// back yields the record, field for field; every other record stays.
    pub fn put_rule(&mut self, rule: Rule)
        requires
            old(self).wf(),
        ensures
            final(self).wf(),
            record_at(final(self).rules@, rule.key()) == Some(rule),
            forall|k: (u8, u8, Seq<char>, Seq<char>, Pubkey)| k != rule.key()
                ==> #[trigger] record_at(final(self).rules@, k) == record_at(old(self).rules@, k),
            final(self).files == old(self).files,
            final(self).roles == old(self).roles,
            final(self).seeds == old(self).seeds,
    {
        self.remove_rule(
            rule.namespace,
            rule.permission_level,
            &rule.resource,
            &rule.permission,
            &rule.file_id,
        );
        proof {
            lemma_push_stores(self.rules@, rule);
        }
        self.rules.push(rule);
    }

    /// Reads the fee accumulator of `principal`.
    pub fn get_seed(&self, principal: &Pubkey) -> (r: Option<Seed>)
        requires
            self.wf(),
        ensures
            r == match record_at(self.seeds@, *principal) {
                Some(entry) => Some(entry.1),
                None => None,
            },
    {
        let ghost k = *principal;
        let n = self.seeds.len();
        let mut i: usize = 0;
        while i < n
            invariant
                self.wf(),
                n == self.seeds@.len(),
                0 <= i <= n,
                k == *principal,
                forall|j: int| 0 <= j < i ==> #[trigger] self.seeds@[j].key() != k,
            decreases n - i,
        {
            let entry = self.seeds[i];
            if entry.0 == *principal {
                proof {
                    lemma_found_record(self.seeds@, i as int);
                }
                return Some(entry.1);
            }
            i = i + 1;
        }
        proof {
            if has_key(self.seeds@, k) {
                let j = choose|j: int|
                    0 <= j < self.seeds@.len() && #[trigger] self.seeds@[j].key() == k;
                assert(false);
            }
        }
        None
    }

    /// Removes the fee accumulator of `principal`, if any; every other record
    /// stays.
    pub fn remove_seed(&mut self, principal: &Pubkey)
        requires
            old(self).wf(),
        ensures
            final(self).wf(),
            record_at(final(self).seeds@, *principal) is None,
            forall|k: Pubkey| k != *principal ==> #[trigger] record_at(final(self).seeds@, k)
                == record_at(old(self).seeds@, k),
            final(self).files == old(self).files,
            final(self).roles == old(self).roles,
            final(self).rules == old(self).rules,
    {
        let ghost k = *principal;
        let ghost s0 = self.seeds@;
        let n = self.seeds.len();
        let mut i: usize = 0;
        while i < n
            invariant
                self.wf(),
                self.seeds@ == s0,
                s0 == old(self).seeds@,
                self.files == old(self).files,
                self.roles == old(self).roles,
                self.rules == old(self).rules,
                n == self.seeds@.len(),
                0 <= i <= n,
                k == *principal,
                forall|j: int| 0 <= j < i ==> #[trigger] self.seeds@[j].key() != k,
            decreases n - i,
        {
            if self.seeds[i].0 == *principal {
                proof {
                    lemma_remove_erases(self.seeds@, i as int);
                }
                self.seeds.remove(i);
                return ;
            }
            i = i + 1;
        }
        proof {
            if has_key(self.seeds@, k) {
                let j = choose|j: int|
                    0 <= j < self.seeds@.len() && #[trigger] self.seeds@[j].key() == k;
                assert(false);
            }
        }
    }

    /// Writes (or overwrites) the fee accumulator of `principal`. Reading the
    /// principal back yields the accumulator; every other record stays.
    pub fn put_seed(&mut self, principal: Pubkey, seed: Seed)
        requires
            old(self).wf(),
        ensures
            final(self).wf(),
            record_at(final(self).seeds@, principal) == Some((principal, seed)),
            forall|k: Pubkey| k != principal ==> #[trigger] record_at(final(self).seeds@, k)
                == record_at(old(self).seeds@, k),
            final(self).files == old(self).files,
            final(self).roles == old(self).roles,
            final(self).rules == old(self).rules,
    {
        self.remove_seed(&principal);
        proof {
            lemma_push_stores(self.seeds@, (principal, seed));
        }
        self.seeds.push((principal, seed));
    }
}

} // verus!
