//! Access to stored objects.

use crate::base_types::{ObjectID, SequenceNumber};
use crate::object::Object;
use vstd::prelude::*;

verus! {

/// A store could not answer.
#[derive(Clone, Debug, PartialEq, Eq)]
pub struct StorageError {
    pub message: String,
}

/// Read access to the objects of an execution backend.
///
/// A store may fail to answer. When it answers, it answers with what it
/// holds.
pub trait ObjectStore {
    /// The latest version of the object `id` that the store holds, if any.
    spec fn latest(&self, id: ObjectID) -> Option<Object>;

    /// The object `id` at exactly `version`, if the store holds it.
    spec fn at_version(&self, id: ObjectID, version: SequenceNumber) -> Option<Object>;

    /// Whether the store answers every request.
    spec fn always_answers(&self) -> bool;

    fn get_object(&self, object_id: &ObjectID) -> (found: Result<Option<Object>, StorageError>)
        ensures
            found matches Ok(object) ==> object == self.latest(*object_id),
            self.always_answers() ==> found is Ok,
    ;

    fn get_object_by_key(&self, object_id: &ObjectID, version: SequenceNumber) -> (found: Result<
        Option<Object>,
        StorageError,
    >)
        ensures
            found matches Ok(object) ==> object == self.at_version(*object_id, version),
            self.always_answers() ==> found is Ok,
    ;
}

/// The latest version of `id` among `objects`: the one with the highest
/// version, the later entry where two have the same.
pub open spec fn latest_in(objects: Seq<Object>, id: ObjectID) -> Option<Object>
    decreases objects.len(),
{
    if objects.len() == 0 {
        None
    } else {
        let earlier = latest_in(objects.drop_last(), id);
        let object = objects.last();
        if object.id == id && (earlier matches Some(e) ==> e.version.0 <= object.version.0) {
            Some(object)
        } else {
            earlier
        }
    }
}

/// The entry for `id` at `version` among `objects`: the last one, where
/// there are several.
pub open spec fn version_in(objects: Seq<Object>, id: ObjectID, version: SequenceNumber) -> Option<
    Object,
>
    decreases objects.len(),
{
    if objects.len() == 0 {
        None
    } else {
        let object = objects.last();
        if object.id == id && object.version == version {
            Some(object)
        } else {
            version_in(objects.drop_last(), id, version)
        }
    }
}

/// A store that keeps every version it was given in memory, and always
/// answers.
#[derive(Clone, Debug)]
pub struct InMemoryStore {
    pub objects: Vec<Object>,
}

impl InMemoryStore {
    pub fn new() -> (store: InMemoryStore)
        ensures
            store.objects@ == Seq::<Object>::empty(),
    {
        InMemoryStore { objects: Vec::new() }
    }

    /// Records one version of an object.
    pub fn insert(&mut self, object: Object)
        ensures
            final(self).objects@ == old(self).objects@.push(object),
    {
        self.objects.push(object);
    }
}

impl ObjectStore for InMemoryStore {
    open spec fn latest(&self, id: ObjectID) -> Option<Object> {
        latest_in(self.objects@, id)
    }

    open spec fn at_version(&self, id: ObjectID, version: SequenceNumber) -> Option<Object> {
        version_in(self.objects@, id, version)
    }

    open spec fn always_answers(&self) -> bool {
        true
    }

    fn get_object(&self, object_id: &ObjectID) -> (found: Result<Option<Object>, StorageError>)
        ensures
            found == Ok::<Option<Object>, StorageError>(self.latest(*object_id)),
    {
        let mut best: Option<Object> = None;
        let mut k: usize = 0;
        while k < self.objects.len()
            invariant
                0 <= k <= self.objects@.len(),
                best == latest_in(self.objects@.take(k as int), *object_id),
            decreases self.objects@.len() - k,
        {
            let object = self.objects[k];
            proof {
                let upto = self.objects@.take(k + 1);
                assert(upto.drop_last() == self.objects@.take(k as int));
                assert(upto.last() == object);
            }
            if object.id.same(object_id) {
                let newer = match best {
                    Some(e) => e.version.0 <= object.version.0,
                    None => true,
                };
                if newer {
                    best = Some(object);
                }
            }
            k = k + 1;
        }
        assert(self.objects@.take(k as int) == self.objects@);
        Ok(best)
    }

    fn get_object_by_key(&self, object_id: &ObjectID, version: SequenceNumber) -> (found: Result<
        Option<Object>,
        StorageError,
    >)
        ensures
            found == Ok::<Option<Object>, StorageError>(self.at_version(*object_id, version)),
    {
        let mut k: usize = self.objects.len();
        assert(self.objects@.take(k as int) == self.objects@);
        while k > 0
            invariant
                0 <= k <= self.objects@.len(),
                version_in(self.objects@, *object_id, version) == version_in(
                    self.objects@.take(k as int),
                    *object_id,
                    version,
                ),
            decreases k,
        {
            let object = self.objects[k - 1];
            proof {
                let upto = self.objects@.take(k as int);
                assert(upto.drop_last() == self.objects@.take(k - 1));
                assert(upto.last() == object);
            }
            if object.id.same(object_id) && object.version.0 == version.0 {
                return Ok(Some(object));
            }
            k = k - 1;
        }
        Ok(None)
    }
}

} // verus!
