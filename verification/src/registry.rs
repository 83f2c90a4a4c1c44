//! The registry of users: one record per slug, at the address derived from the slug.
use crate::errors::M2Errors;
use crate::identity::{derived_address, spec_user_seeds, user_address, Key};
use crate::instructions::{init_user, IniUser};
use crate::records::M2User;
use vstd::prelude::*;
use vstd::utf8::encode_utf8;

verus! {

/// Whether a user is registered, given the records so far and the address derived from
/// the slug: refused with `NoDerivedAddress` where none could be derived, with
/// `DuplicateUser` where a record already lives at the address; else accepted at that
/// address.
pub open spec fn registration_outcome(
    users: Map<Key, M2User>,
    derived: Option<(Key, u8)>,
) -> Result<Key, M2Errors> {
    match derived {
        None => Err(M2Errors::NoDerivedAddress),
        Some((address, _)) => if users.dom().contains(address) {
            Err(M2Errors::DuplicateUser)
        } else {
            Ok(address)
        },
    }
}

/// Whether every record lives at the address that its own slug derives under
/// `program_id`. A registry filled by `register` alone, under one program, is so keyed.
pub open spec fn keyed_by_slug(users: Map<Key, M2User>, program_id: Key) -> bool {
    forall|address: Key| #[trigger]
        users.dom().contains(address) ==> (derived_address(
            spec_user_seeds(encode_utf8(users[address].slug@)),
            program_id,
        ) matches Some((home, _)) && home == address)
}

/// One registered user with the address its record lives at.
struct UserEntry {
    address: Key,
    record: M2User,
}

/// The user records, each at its own address. Records are added and never removed.
pub struct UserRegistry {
    entries: Vec<UserEntry>,
}

impl UserRegistry {
    /// No two records live at the same address.
    #[verifier::type_invariant]
    spec fn distinct(&self) -> bool {
        forall|i: int, j: int|
            0 <= i < j < self.entries@.len() ==> self.entries@[i].address
                != self.entries@[j].address
    }

    /// Whether a record lives at `address`.
    spec fn occupied(&self, address: Key) -> bool {
        exists|i: int| 0 <= i < self.entries@.len() && self.entries@[i].address == address
    }

    /// Where in the list the record at `address` stands, if one lives there.
    spec fn position(&self, address: Key) -> int {
        choose|i: int| 0 <= i < self.entries@.len() && self.entries@[i].address == address
    }

    /// The records by address.
    pub closed spec fn view(&self) -> Map<Key, M2User> {
        Map::new(|k: Key| self.occupied(k), |k: Key| self.entries@[self.position(k)].record)
    }

    /// An empty registry.
    pub fn new() -> (registry: UserRegistry)
        ensures
            registry@ == Map::<Key, M2User>::empty(),
    {
        let registry = UserRegistry { entries: Vec::new() };
        assert(registry@ =~= Map::<Key, M2User>::empty());
        registry
    }

    fn find(&self, address: &Key) -> (r: Option<usize>)
        ensures
            r matches Some(i) ==> i < self.entries@.len() && self.entries@[i as int].address
                == *address,
            r is None ==> !self.occupied(*address),
    {
        let mut i: usize = 0;
        while i < self.entries.len()
            invariant
                i <= self.entries@.len(),
                forall|j: int| 0 <= j < i ==> self.entries@[j].address != *address,
            decreases self.entries@.len() - i,
        {
            if self.entries[i].address == *address {
                return Some(i);
            }
            i += 1;
        }
        None
    }

    /// Registers `sender` under `slug`, given the address derived from the slug. On success
    /// the new record lives at that address, with a counter of zero, and the address is
    /// returned.
    pub fn register_at(
        &mut self,
        sender: Key,
        name: String,
        slug: String,
        derived: Option<(Key, u8)>,
    ) -> (r: Result<Key, M2Errors>)
        ensures
            r == registration_outcome(old(self)@, derived),
            r matches Ok(address) ==> final(self)@ == old(self)@.insert(
                address,
                (M2User { slug, name, promise_count: 0, user_pk: sender }),
            ),
            r is Err ==> final(self)@ == old(self)@,
    {
        proof {
            use_type_invariant(&*self);
        }
        let address = match derived {
            None => {
                return Err(M2Errors::NoDerivedAddress);
            },
            Some((address, _)) => address,
        };
        if self.find(&address).is_some() {
            return Err(M2Errors::DuplicateUser);
        }
        let blank = M2User {
            slug: String::new(),
            name: String::new(),
            promise_count: 0,
            user_pk: sender,
        };
        let mut ctx = IniUser { user: blank, sender };
        let _ = init_user(&mut ctx, name, slug);
        let ghost before = *self;
        let mut entries: Vec<UserEntry> = Vec::new();
        core::mem::swap(&mut entries, &mut self.entries);
        entries.push(UserEntry { address, record: ctx.user });
        self.entries = entries;
        proof {
            let record = M2User { slug, name, promise_count: 0, user_pk: sender };
            let last = before.entries@.len() as int;
            assert(self.entries@[last].address == address);
            assert(self.occupied(address));
            assert forall|k: Key| self.occupied(k) <==> (k == address || before.occupied(k)) by {
                if before.occupied(k) {
                    let i = before.position(k);
                    assert(self.entries@[i].address == k);
                }
            }
            assert forall|k: Key| self.occupied(k) implies #[trigger] self@[k] == before@.insert(
                address,
                record,
            )[k] by {
                let i = self.position(k);
                if k == address {
                    assert(i == last);
                } else {
                    assert(before.occupied(k));
                    let j = before.position(k);
                    assert(self.entries@[j].address == k);
                    assert(i == j);
                }
            }
            assert(self@ =~= before@.insert(address, record));
        }
        Ok(address)
    }

    /// Registers `sender` under `slug`: derives the record's address from the slug and
    /// creates the record there. A registry keyed by slug stays so.
    pub fn register(&mut self, sender: Key, name: String, slug: String, program_id: &Key) -> (r:
        Result<Key, M2Errors>)
        ensures
            r == registration_outcome(
                old(self)@,
                derived_address(spec_user_seeds(encode_utf8(slug@)), *program_id),
            ),
            r matches Ok(address) ==> final(self)@ == old(self)@.insert(
                address,
                (M2User { slug, name, promise_count: 0, user_pk: sender }),
            ),
            r is Err ==> final(self)@ == old(self)@,
            keyed_by_slug(old(self)@, *program_id) ==> keyed_by_slug(final(self)@, *program_id),
    {
        let derived = user_address(slug.as_str(), program_id);
        self.register_at(sender, name, slug, derived)
    }

    /// Returns the record that lives at `address`, if there is one.
    pub fn get(&self, address: &Key) -> (r: Option<&M2User>)
        ensures
            r is Some <==> self@.dom().contains(*address),
            r matches Some(record) ==> *record == self@[*address],
    {
        proof {
            use_type_invariant(self);
        }
        match self.find(address) {
            Some(i) => {
                assert(self.occupied(*address));
                Some(&self.entries[i].record)
            },
            None => None,
        }
    }
}

} // verus!
