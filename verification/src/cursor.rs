//! The typed cursor: one result set of the store, pulled document by
//! document and decoded on the way.

use vstd::prelude::*;
use std::marker::PhantomData;
use crate::error::RepositoryError;
use crate::model::Model;
use crate::repository::{document_record, GenericRepository, RepositoryTrait};

verus! {

/// What one pull makes of what the store's cursor gave: whether the typed
/// cursor is live afterwards, and what it yields. A cursor that has ended
/// yields nothing more; the end of the store's cursor ends it cleanly; a
/// failure of the store or of the decoding ends it with that failure; a
/// decoded record leaves it live.
pub open spec fn step<T: Model>(
    live: bool,
    polled: Option<Result<bson::Document, mongodb::error::Error>>,
) -> (bool, Option<Result<T, RepositoryError>>) {
    if !live {
        (false, None)
    } else {
        match polled {
            None => (false, None),
            Some(Err(e)) => (false, Some(Err(RepositoryError::Store(e)))),
            Some(Ok(document)) => match document_record::<T>(document) {
                Ok(item) => (true, Some(Ok(item))),
                Err(e) => (false, Some(Err(e))),
            },
        }
    }
}

/// Whether a new cursor is still live after the first `n` of the polls.
pub open spec fn live_after<T: Model>(
    polls: Seq<Option<Result<bson::Document, mongodb::error::Error>>>,
    n: nat,
) -> bool
    decreases n,
{
    if n == 0 {
        true
    } else {
        step::<T>(live_after::<T>(polls, (n - 1) as nat), polls[n - 1]).0
    }
}

/// What a new cursor yields at its pull number `n`, counted from 0.
pub open spec fn pulled<T: Model>(
    polls: Seq<Option<Result<bson::Document, mongodb::error::Error>>>,
    n: nat,
) -> Option<Result<T, RepositoryError>> {
    step::<T>(live_after::<T>(polls, n), polls[n as int]).1
}

pub struct TypeCursor<T, C> {
    /// The store's own cursor, which only this cursor advances.
    pub cursor: C,
    live: bool,
    phantom: PhantomData<T>,
}

impl<T: Model, C> TypeCursor<T, C> {
    /// Whether the cursor may still be pulled.
    pub closed spec fn live(&self) -> bool {
        self.live
    }

    /// The store's own cursor.
    pub closed spec fn raw(&self) -> C {
        self.cursor
    }

    pub fn new(cursor: C) -> (typed: Self)
        ensures
            typed.raw() == cursor,
            typed.live(),
    {
        TypeCursor { cursor, live: true, phantom: PhantomData }
    }

    pub fn is_live(&self) -> (live: bool)
        ensures
            live == self.live(),
    {
        self.live
    }

    /// One pull: takes what the store's cursor gave and says what the typed
    /// cursor yields.
    pub fn pull(
        &mut self,
        polled: Option<Result<bson::Document, mongodb::error::Error>>,
    ) -> (item: Option<Result<T, RepositoryError>>)
        ensures
            (final(self).live(), item) == step::<T>(old(self).live(), polled),
            final(self).raw() == old(self).raw(),
    {
        if !self.live {
            return None;
        }
        match polled {
            None => {
                self.live = false;
                None
            },
            Some(Err(e)) => {
                self.live = false;
                Some(Err(RepositoryError::Store(e)))
            },
            Some(Ok(document)) => match GenericRepository::<T>::get_instance_from_document(
                document,
            ) {
                Ok(item) => Some(Ok(item)),
                Err(e) => {
                    self.live = false;
                    Some(Err(e))
                },
            },
        }
    }
}

/// A cursor that has ended stays ended.
pub proof fn lemma_ended_stays_ended<T: Model>(
    polls: Seq<Option<Result<bson::Document, mongodb::error::Error>>>,
    k: nat,
    n: nat,
)
    requires
        k <= n,
        !live_after::<T>(polls, k),
    ensures
        !live_after::<T>(polls, n),
    decreases n,
{
    if k < n {
        lemma_ended_stays_ended::<T>(polls, k, (n - 1) as nat);
    }
}

/// While every document decodes, the cursor stays live.
pub proof fn lemma_live_while_decoding<T: Model>(
    polls: Seq<Option<Result<bson::Document, mongodb::error::Error>>>,
    n: nat,
)
    requires
        n <= polls.len(),
        forall|i: int|
            0 <= i < n ==> (#[trigger] polls[i] matches Some(Ok(document)) && document_record::<T>(
                document,
            ) is Ok),
    ensures
        live_after::<T>(polls, n),
    decreases n,
{
    if n > 0 {
        lemma_live_while_decoding::<T>(polls, (n - 1) as nat);
    }
}

/// Draining is clean: over a result set whose documents all decode, a new
/// cursor yields each document's record, in the store's order, and then the
/// end without an error; after that it is live no more.
pub proof fn lemma_drain_is_clean<T: Model>(
    documents: Seq<bson::Document>,
    polls: Seq<Option<Result<bson::Document, mongodb::error::Error>>>,
)
    requires
        polls.len() == documents.len() + 1,
        forall|i: int| 0 <= i < documents.len() ==> #[trigger] polls[i] == Some(Ok::<bson::Document, mongodb::error::Error>(documents[i])),
        forall|i: int| 0 <= i < documents.len() ==> document_record::<T>(#[trigger] documents[i]) is Ok,
        polls[documents.len() as int] is None,
    ensures
        forall|i: nat|
            i < documents.len() ==> #[trigger] pulled::<T>(polls, i) == Some(
                Ok::<T, RepositoryError>(document_record::<T>(documents[i as int])->Ok_0),
            ),
        pulled::<T>(polls, documents.len()) is None,
        !live_after::<T>(polls, documents.len() + 1),
{
    assert forall|i: int| 0 <= i < documents.len() implies (#[trigger] polls[i] matches Some(
        Ok(document),
    ) && document_record::<T>(document) is Ok) by {
        assert(polls[i] == Some(Ok::<bson::Document, mongodb::error::Error>(documents[i])));
        assert(document_record::<T>(documents[i]) is Ok);
    }
    assert forall|i: nat| i < documents.len() implies #[trigger] pulled::<T>(polls, i) == Some(
        Ok::<T, RepositoryError>(document_record::<T>(documents[i as int])->Ok_0),
    ) by {
        lemma_live_while_decoding::<T>(polls, i);
        assert(polls[i as int] == Some(Ok::<bson::Document, mongodb::error::Error>(documents[i as int])));
        assert(document_record::<T>(documents[i as int]) is Ok);
    }
    lemma_live_while_decoding::<T>(polls, documents.len());
}

/// A decoding failure is terminal: where the documents before place `k`
/// decode and the one at `k` does not, a new cursor yields the records of
/// those before it, in the store's order, then the decoding failure, and
/// nothing after it, whatever the store's cursor would still give.
pub proof fn lemma_decode_failure_is_terminal<T: Model>(
    polls: Seq<Option<Result<bson::Document, mongodb::error::Error>>>,
    k: nat,
)
    requires
        k < polls.len(),
        forall|i: int|
            0 <= i < k ==> (#[trigger] polls[i] matches Some(Ok(document)) && document_record::<T>(
                document,
            ) is Ok),
        polls[k as int] matches Some(Ok(document)) && document_record::<T>(document) is Err,
    ensures
        forall|i: nat|
            i < k ==> #[trigger] pulled::<T>(polls, i) == Some(
                Ok::<T, RepositoryError>(document_record::<T>(polls[i as int]->0->Ok_0)->Ok_0),
            ),
        pulled::<T>(polls, k) == Some(
            Err::<T, RepositoryError>(document_record::<T>(polls[k as int]->0->Ok_0)->Err_0),
        ),
        pulled::<T>(polls, k) matches Some(Err(e)) && e is Decode,
        forall|j: nat| k < j < polls.len() ==> #[trigger] pulled::<T>(polls, j) is None,
{
    assert forall|i: nat| i < k implies #[trigger] pulled::<T>(polls, i) == Some(
        Ok::<T, RepositoryError>(document_record::<T>(polls[i as int]->0->Ok_0)->Ok_0),
    ) by {
        lemma_live_while_decoding::<T>(polls, i);
        assert(polls[i as int] matches Some(Ok(document)) && document_record::<T>(document) is Ok);
    }
    lemma_live_while_decoding::<T>(polls, k);
    assert(!live_after::<T>(polls, k + 1));
    assert forall|j: nat| k < j < polls.len() implies #[trigger] pulled::<T>(polls, j) is None by {
        lemma_ended_stays_ended::<T>(polls, k + 1, j);
    }
}

} // verus!
