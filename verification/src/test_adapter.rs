//! The scenario state that the resolver consults: which real object each
//! script-local handle stands for, which packages are staged, and the store
//! of the backend that executes the scenario.

use crate::base_types::ObjectID;
use crate::storage::ObjectStore;
use vstd::prelude::*;

verus! {

/// A script-local handle for an object.
#[derive(Clone, Copy, Debug, PartialEq, Eq, Hash)]
pub enum FakeID {
    /// A fixed address, known outside the script.
    Known(ObjectID),
    /// The object that a command of the script created, by the two numbers
    /// under which the script refers to it.
    Enumerated(u64, u64),
}

impl FakeID {
    /// Whether `self` and `other` are the same handle.
    pub fn same(&self, other: &FakeID) -> (same: bool)
        ensures
            same == (*self == *other),
    {
        match (self, other) {
            (FakeID::Known(a), FakeID::Known(b)) => a.same(b),
            (FakeID::Enumerated(a1, a2), FakeID::Enumerated(b1, b2)) => *a1 == *b1 && *a2 == *b2,
            _ => false,
        }
    }
}

/// A package that a script has declared and not yet published.
#[derive(Clone, Debug, PartialEq, Eq)]
pub struct StagedPackage {
    /// The content digest of the package.
    pub digest: Vec<u8>,
}

/// Whether `table` binds each handle at most once, and each real identity
/// at most once.
pub open spec fn one_to_one(table: Seq<(ObjectID, FakeID)>) -> bool {
    forall|j: int, k: int|
        0 <= j < k < table.len() ==> table[j].0 != table[k].0 && table[j].1 != table[k].1
}

/// Whether `table` has at most one entry for each name.
pub open spec fn distinct_names(table: Seq<(String, StagedPackage)>) -> bool {
    forall|j: int, k: int| 0 <= j < k < table.len() ==> table[j].0@ != table[k].0@
}

/// The real identity bound to `fake_id` in `table`. In a table that is one
/// to one, it is that of the one entry for the handle.
pub open spec fn real_id_in(table: Seq<(ObjectID, FakeID)>, fake_id: FakeID) -> Option<ObjectID>
    decreases table.len(),
{
    if table.len() == 0 {
        None
    } else if table[0].1 == fake_id {
        Some(table[0].0)
    } else {
        real_id_in(table.drop_first(), fake_id)
    }
}

/// The package staged under `name` in `table`. In a table of distinct
/// names, it is that of the one entry for the name.
pub open spec fn staged_in(table: Seq<(String, StagedPackage)>, name: Seq<char>) -> Option<
    StagedPackage,
>
    decreases table.len(),
{
    if table.len() == 0 {
        None
    } else if table[0].0@ == name {
        Some(table[0].1)
    } else {
        staged_in(table.drop_first(), name)
    }
}

/// A handle has no real identity in `table` exactly if no entry is for it.
pub proof fn lemma_unbound(table: Seq<(ObjectID, FakeID)>, fake_id: FakeID)
    ensures
        real_id_in(table, fake_id) is None <==> forall|k: int|
            0 <= k < table.len() ==> (#[trigger] table[k]).1 != fake_id,
    decreases table.len(),
{
    if table.len() > 0 {
        let rest = table.drop_first();
        lemma_unbound(rest, fake_id);
        assert(forall|k: int| 0 <= k < rest.len() ==> rest[k] == table[k + 1]);
        if real_id_in(table, fake_id) is None {
            assert forall|k: int| 0 <= k < table.len() implies (#[trigger] table[k]).1
                != fake_id by {
                if k > 0 {
                    assert(rest[k - 1] == table[k]);
                }
            }
        }
    }
}

/// No package is staged under a name in `table` exactly if no entry is for
/// the name.
pub proof fn lemma_unstaged(table: Seq<(String, StagedPackage)>, name: Seq<char>)
    ensures
        staged_in(table, name) is None <==> forall|k: int|
            0 <= k < table.len() ==> (#[trigger] table[k]).0@ != name,
    decreases table.len(),
{
    if table.len() > 0 {
        let rest = table.drop_first();
        lemma_unstaged(rest, name);
        assert(forall|k: int| 0 <= k < rest.len() ==> rest[k] == table[k + 1]);
        if staged_in(table, name) is None {
            assert forall|k: int| 0 <= k < table.len() implies (#[trigger] table[k]).0@
                != name by {
                if k > 0 {
                    assert(rest[k - 1] == table[k]);
                }
            }
        }
    }
}

/// What a handle is bound to once an entry is added at the end of `table`:
/// what it was bound to before or, where it was unbound and the entry is for
/// it, the identity of the entry.
pub proof fn lemma_real_id_after_push(
    table: Seq<(ObjectID, FakeID)>,
    entry: (ObjectID, FakeID),
    fake_id: FakeID,
)
    ensures
        real_id_in(table.push(entry), fake_id) == (match real_id_in(table, fake_id) {
            Some(id) => Some(id),
            None => if entry.1 == fake_id {
                Some(entry.0)
            } else {
                None
            },
        }),
    decreases table.len(),
{
    let longer = table.push(entry);
    if table.len() == 0 {
        assert(longer[0] == entry);
        assert(longer.drop_first() =~= Seq::<(ObjectID, FakeID)>::empty());
        assert(real_id_in(longer.drop_first(), fake_id) is None);
        assert(real_id_in(table, fake_id) is None);
    } else {
        assert(longer[0] == table[0]);
        assert(longer.drop_first() =~= table.drop_first().push(entry));
        lemma_real_id_after_push(table.drop_first(), entry, fake_id);
        assert(real_id_in(longer, fake_id) == (if table[0].1 == fake_id {
            Some(table[0].0)
        } else {
            real_id_in(longer.drop_first(), fake_id)
        }));
    }
}

/// What is staged under a name once an entry is added at the end of
/// `table`: what was staged before or, where nothing was and the entry is
/// for the name, the package of the entry.
pub proof fn lemma_staged_after_push(
    table: Seq<(String, StagedPackage)>,
    entry: (String, StagedPackage),
    name: Seq<char>,
)
    ensures
        staged_in(table.push(entry), name) == (match staged_in(table, name) {
            Some(package) => Some(package),
            None => if entry.0@ == name {
                Some(entry.1)
            } else {
                None
            },
        }),
    decreases table.len(),
{
    let longer = table.push(entry);
    if table.len() == 0 {
        assert(longer[0] == entry);
        assert(longer.drop_first() =~= Seq::<(String, StagedPackage)>::empty());
        assert(staged_in(longer.drop_first(), name) is None);
        assert(staged_in(table, name) is None);
    } else {
        assert(longer[0] == table[0]);
        assert(longer.drop_first() =~= table.drop_first().push(entry));
        lemma_staged_after_push(table.drop_first(), entry, name);
        assert(staged_in(longer, name) == (if table[0].0@ == name {
            Some(table[0].1)
        } else {
            staged_in(longer.drop_first(), name)
        }));
    }
}

/// What is staged under a name once the entry at `at` is taken out of a
/// table of distinct names: nothing under the name of that entry, and under
/// any other name what was staged before.
pub proof fn lemma_staged_after_remove(
    table: Seq<(String, StagedPackage)>,
    at: int,
    name: Seq<char>,
)
    requires
        0 <= at < table.len(),
        distinct_names(table),
    ensures
        distinct_names(table.remove(at)),
        staged_in(table.remove(at), name) == (if name == table[at].0@ {
            None
        } else {
            staged_in(table, name)
        }),
        name == table[at].0@ ==> staged_in(table, name) == Some(table[at].1),
    decreases table.len(),
{
    let shorter = table.remove(at);
    let rest = table.drop_first();
    assert(forall|k: int| 0 <= k < rest.len() ==> rest[k] == table[k + 1]);
    assert(distinct_names(rest));
    assert(distinct_names(shorter));
    if at == 0 {
        assert(shorter =~= rest);
        if name == table[0].0@ {
            lemma_unstaged(rest, name);
        }
    } else {
        assert(shorter.drop_first() =~= rest.remove(at - 1));
        assert(shorter[0] == table[0]);
        lemma_staged_after_remove(rest, at - 1, name);
    }
}

/// The state of one scenario.
///
/// Its handle table is one to one, and no two of its staged packages have
/// the same name.
pub struct SuiTestAdapter<S> {
    executor: S,
    object_enumeration: Vec<(ObjectID, FakeID)>,
    staged_modules: Vec<(String, StagedPackage)>,
}

impl<S> SuiTestAdapter<S> {
    #[verifier::type_invariant]
    spec fn well_formed(&self) -> bool {
        one_to_one(self.object_enumeration@) && distinct_names(self.staged_modules@)
    }
}

impl<S: ObjectStore> SuiTestAdapter<S> {
    /// The backend's object store.
    pub closed spec fn store(&self) -> S {
        self.executor
    }

    /// The handle table: each real identity with the handle that stands for it.
    pub closed spec fn object_enumeration(&self) -> Seq<(ObjectID, FakeID)> {
        self.object_enumeration@
    }

    /// The staged packages, each with the name it was staged under.
    pub closed spec fn staged_modules(&self) -> Seq<(String, StagedPackage)> {
        self.staged_modules@
    }

    /// The real identity that `fake_id` stands for, if the handle is bound.
    pub open spec fn real_id(&self, fake_id: FakeID) -> Option<ObjectID> {
        real_id_in(self.object_enumeration(), fake_id)
    }

    /// The package staged under `name`, if there is one.
    pub open spec fn staged(&self, name: Seq<char>) -> Option<StagedPackage> {
        staged_in(self.staged_modules(), name)
    }

    /// A scenario over `executor` with no handle bound and no package staged.
    pub fn new(executor: S) -> (adapter: Self)
        ensures
            adapter.store() == executor,
            adapter.object_enumeration() == Seq::<(ObjectID, FakeID)>::empty(),
            adapter.staged_modules() == Seq::<(String, StagedPackage)>::empty(),
    {
        SuiTestAdapter {
            executor,
            object_enumeration: Vec::new(),
            staged_modules: Vec::new(),
        }
    }

    pub fn executor(&self) -> (store: &S)
        ensures
            *store == self.store(),
    {
        &self.executor
    }

    /// Binds the handle `fake_id` to the real identity `id`, where neither
    /// is bound yet. Where one of them is, nothing changes and the result is
    /// `false`.
    pub fn bind_object(&mut self, id: ObjectID, fake_id: FakeID) -> (bound: bool)
        ensures
            one_to_one(old(self).object_enumeration()),
            bound == (forall|k: int|
                0 <= k < old(self).object_enumeration().len() ==> (#[trigger] old(
                    self,
                ).object_enumeration()[k]).0 != id && old(self).object_enumeration()[k].1
                    != fake_id),
            final(self).object_enumeration() == (if bound {
                old(self).object_enumeration().push((id, fake_id))
            } else {
                old(self).object_enumeration()
            }),
            bound ==> final(self).real_id(fake_id) == Some(id),
            forall|other: FakeID|
                other != fake_id ==> #[trigger] final(self).real_id(other) == old(self).real_id(
                    other,
                ),
            final(self).staged_modules() == old(self).staged_modules(),
            final(self).store() == old(self).store(),
    {
        proof {
            use_type_invariant(&*self);
        }
        let mut k: usize = 0;
        while k < self.object_enumeration.len()
            invariant
                0 <= k <= self.object_enumeration@.len(),
                *self == *old(self),
                one_to_one(self.object_enumeration@),
                forall|j: int|
                    0 <= j < k ==> (#[trigger] self.object_enumeration@[j]).0 != id
                        && self.object_enumeration@[j].1 != fake_id,
            decreases self.object_enumeration@.len() - k,
        {
            let entry = &self.object_enumeration[k];
            if entry.0.same(&id) || entry.1.same(&fake_id) {
                return false;
            }
            k = k + 1;
        }
        proof {
            let table = self.object_enumeration@;
            lemma_unbound(table, fake_id);
            lemma_real_id_after_push(table, (id, fake_id), fake_id);
            assert forall|other: FakeID| other != fake_id implies real_id_in(
                table.push((id, fake_id)),
                other,
            ) == real_id_in(table, other) by {
                lemma_real_id_after_push(table, (id, fake_id), other);
            }
        }
        let mut table: Vec<(ObjectID, FakeID)> = Vec::new();
        std::mem::swap(&mut self.object_enumeration, &mut table);
        table.push((id, fake_id));
        std::mem::swap(&mut self.object_enumeration, &mut table);
        true
    }

    /// Stages `package` under `name`, where nothing is staged under the name
    /// yet. Where something is, nothing changes and the result is `false`.
    pub fn stage_package(&mut self, name: String, package: StagedPackage) -> (staged: bool)
        ensures
            distinct_names(old(self).staged_modules()),
            staged == (old(self).staged(name@) is None),
            final(self).staged_modules() == (if staged {
                old(self).staged_modules().push((name, package))
            } else {
                old(self).staged_modules()
            }),
            staged ==> final(self).staged(name@) == Some(package),
            forall|other: Seq<char>|
                other != name@ ==> #[trigger] final(self).staged(other) == old(self).staged(other),
            final(self).object_enumeration() == old(self).object_enumeration(),
            final(self).store() == old(self).store(),
    {
        proof {
            use_type_invariant(&*self);
        }
        if self.staged_package(&name).is_some() {
            return false;
        }
        proof {
            let table = self.staged_modules@;
            lemma_unstaged(table, name@);
            lemma_staged_after_push(table, (name, package), name@);
            assert forall|other: Seq<char>| other != name@ implies staged_in(
                table.push((name, package)),
                other,
            ) == staged_in(table, other) by {
                lemma_staged_after_push(table, (name, package), other);
            }
        }
        let mut table: Vec<(String, StagedPackage)> = Vec::new();
        std::mem::swap(&mut self.staged_modules, &mut table);
        table.push((name, package));
        std::mem::swap(&mut self.staged_modules, &mut table);
        true
    }

    /// Takes the package staged under `name` out of the scenario, and hands
    /// it back. Where nothing is staged under the name, nothing changes.
    pub fn unstage_package(&mut self, name: &String) -> (package: Option<StagedPackage>)
        ensures
            package == old(self).staged(name@),
            final(self).staged(name@) is None,
            forall|other: Seq<char>|
                other != name@ ==> #[trigger] final(self).staged(other) == old(self).staged(other),
            package is None ==> final(self).staged_modules() == old(self).staged_modules(),
            final(self).object_enumeration() == old(self).object_enumeration(),
            final(self).store() == old(self).store(),
    {
        proof {
            use_type_invariant(&*self);
        }
        let ghost table = self.staged_modules@;
        let mut k: usize = 0;
        while k < self.staged_modules.len()
            invariant
                0 <= k <= self.staged_modules@.len(),
                *self == *old(self),
                self.staged_modules@ == table,
                distinct_names(table),
                one_to_one(self.object_enumeration@),
                forall|j: int| 0 <= j < k ==> (#[trigger] table[j]).0@ != name@,
            decreases self.staged_modules@.len() - k,
        {
            if self.staged_modules[k].0 == *name {
                proof {
                    lemma_staged_after_remove(table, k as int, name@);
                    assert forall|other: Seq<char>| other != name@ implies staged_in(
                        table.remove(k as int),
                        other,
                    ) == staged_in(table, other) by {
                        lemma_staged_after_remove(table, k as int, other);
                    }
                }
                let mut taken: Vec<(String, StagedPackage)> = Vec::new();
                std::mem::swap(&mut self.staged_modules, &mut taken);
                let entry = taken.remove(k);
                std::mem::swap(&mut self.staged_modules, &mut taken);
                return Some(entry.1);
            }
            k = k + 1;
        }
        proof {
            lemma_unstaged(table, name@);
        }
        None
    }

    pub fn fake_to_real_object_id(&self, fake_id: FakeID) -> (id: Option<ObjectID>)
        ensures
            id == self.real_id(fake_id),
            one_to_one(self.object_enumeration()),
    {
        proof {
            use_type_invariant(self);
        }
        let mut k: usize = 0;
        assert(self.object_enumeration@.skip(0) == self.object_enumeration@);
        while k < self.object_enumeration.len()
            invariant
                0 <= k <= self.object_enumeration@.len(),
                one_to_one(self.object_enumeration@),
                self.real_id(fake_id) == real_id_in(self.object_enumeration@.skip(k as int), fake_id),
            decreases self.object_enumeration@.len() - k,
        {
            let entry = &self.object_enumeration[k];
            proof {
                let rest = self.object_enumeration@.skip(k as int);
                assert(rest[0] == *entry);
                assert(rest.drop_first() == self.object_enumeration@.skip(k + 1));
            }
            if entry.1.same(&fake_id) {
                return Some(entry.0);
            }
            k = k + 1;
        }
        None
    }

    /// The package staged under `name`.
    pub fn staged_package(&self, name: &String) -> (package: Option<&StagedPackage>)
        ensures
            package matches Some(p) ==> self.staged(name@) == Some(*p),
            package is None ==> self.staged(name@) is None,
            distinct_names(self.staged_modules()),
    {
        proof {
            use_type_invariant(self);
        }
        let mut k: usize = 0;
        assert(self.staged_modules@.skip(0) == self.staged_modules@);
        while k < self.staged_modules.len()
            invariant
                0 <= k <= self.staged_modules@.len(),
                distinct_names(self.staged_modules@),
                self.staged(name@) == staged_in(self.staged_modules@.skip(k as int), name@),
            decreases self.staged_modules@.len() - k,
        {
            let entry = &self.staged_modules[k];
            proof {
                let rest = self.staged_modules@.skip(k as int);
                assert(rest[0] == *entry);
                assert(rest.drop_first() == self.staged_modules@.skip(k + 1));
            }
            if entry.0 == *name {
                return Some(&entry.1);
            }
            k = k + 1;
        }
        None
    }
}

} // verus!
