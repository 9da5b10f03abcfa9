use vstd::prelude::*;
use std::marker::PhantomData;
use crate::codec::Codec;
use crate::collection_tx::CollectionTx;
use crate::database::Database;
use crate::err::Error;

verus! {

/// A named collection of a shared store whose keys are `K` and values are
/// `V`. It holds only its name: a transaction on it borrows the store
/// exclusively, so at most one transaction is open on a store at a time.
#[derive(Debug)]
#[verifier::reject_recursive_types(K)]
#[verifier::reject_recursive_types(V)]
pub struct Collection<K, V> {
    pub(crate) name: String,
    _phantom: PhantomData<(K, V)>,
}

impl<K: Codec, V: Codec> Collection<K, V> {
    /// The name of this collection.
    pub closed spec fn name(&self) -> Seq<char> {
        self.name@
    }

    pub(crate) fn new(name: String) -> (r: Collection<K, V>)
        ensures
            r.name() == name@,
    {
        Collection { name, _phantom: PhantomData }
    }

    /// Starts a transaction on this collection of `db`, the store that handed
    /// it out. It holds `db` exclusively until it is committed, rolled back
    /// or dropped; it sees the committed rows, and what it settles is what
    /// `db` holds committed afterwards.
    pub fn begin<'a>(&self, db: &'a mut Database) -> (r: Result<CollectionTx<'a, K, V>, Error>)
        ensures
            r is Ok ==> r->Ok_0.name() == self.name() && r->Ok_0.rows() == old(db).committed()
                && r->Ok_0.base() == old(db).committed() && final(db).committed()
                == r->Ok_0.settled(),
            r is Err ==> r->Err_0 is SqliteError && final(db).committed() == old(db).committed(),
    {
        match db.begin_transaction() {
            Ok(t) => Ok(CollectionTx::new(t, self.name.clone())),
            Err(e) => Err(Error::SqliteError(e)),
        }
    }
}

} // verus!
