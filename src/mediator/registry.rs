//! The dispatch registry: one handler per command type and one per query
//! type, found by the key of the request's type.

use vstd::prelude::*;

use crate::handler::{CommandHandler, QueryHandler};
use crate::mediator::erase::{ErasedCommand, ErasedQuery};
use crate::mediator::errors::{fails_with, ErrorModel, MediatorError};
use crate::mediator::table::Table;
use crate::message::{Command, ErasedModel, Message, Query};

verus! {

/// Routes each request to the handler registered for its type. Registering
/// takes `&mut self` and dispatching `&self`, so a program that dispatches
/// from many tasks shares the registry behind a read-write lock: dispatches
/// hold the read side together and leave the registry as they found it.
pub struct Mediator {
    command_handlers: Table<ErasedCommand>,
    query_handlers: Table<ErasedQuery>,
}

/// The erased form of `m`, as the registry hands it to a handler.
pub open spec fn erased_model<M: Message>(m: M) -> ErasedModel {
    ErasedModel { type_key: M::spec_type_key(), fields: m.spec_fields() }
}

/// `after` is `before` with `handler` bound to the command type `C`.
pub open spec fn command_registered<C: Command, U: CommandHandler<C>>(
    before: Mediator,
    after: Mediator,
    handler: U,
) -> bool {
    &&& after.wf()
    &&& after.commands() == before.commands().insert(
        C::spec_type_key(),
        after.commands()[C::spec_type_key()],
    )
    &&& after.commands()[C::spec_type_key()].wraps::<C, U>(handler)
    &&& after.queries() == before.queries()
}

/// `after` is `before` with `handler` bound to the query type `Q`, with
/// results of type `R`.
pub open spec fn query_registered<Q: Query, R: Message, U: QueryHandler<Q, R>>(
    before: Mediator,
    after: Mediator,
    handler: U,
) -> bool {
    &&& after.wf()
    &&& after.queries() == before.queries().insert(
        Q::spec_type_key(),
        after.queries()[Q::spec_type_key()],
    )
    &&& after.queries()[Q::spec_type_key()].wraps::<Q, R, U>(handler)
    &&& after.commands() == before.commands()
}

impl Mediator {
    /// The registered command handlers, by command type key.
    pub closed spec fn commands(&self) -> Map<Seq<char>, ErasedCommand> {
        self.command_handlers@
    }

    /// The registered query handlers, by query type key.
    pub closed spec fn queries(&self) -> Map<Seq<char>, ErasedQuery> {
        self.query_handlers@
    }

    /// Each handler is stored under the key of the type it was registered for.
    pub closed spec fn wf(&self) -> bool {
        &&& self.command_handlers.wf()
        &&& self.query_handlers.wf()
        &&& forall|k: Seq<char>| #[trigger]
            self.commands().contains_key(k) ==> self.commands()[k].request_key() == k
        &&& forall|k: Seq<char>| #[trigger]
            self.queries().contains_key(k) ==> self.queries()[k].request_key() == k
    }

    /// An empty registry.
    pub fn new() -> (m: Self)
        ensures
            m.wf(),
            m.commands() == Map::<Seq<char>, ErasedCommand>::empty(),
            m.queries() == Map::<Seq<char>, ErasedQuery>::empty(),
    {
        Mediator { command_handlers: Table::new(), query_handlers: Table::new() }
    }

    /// Binds `handler` to the command type `C`, replacing the handler that
    /// was bound to it.
    pub fn register_command<
        C: Command + Send + Sync + 'static,
        U: CommandHandler<C> + Send + Sync + 'static,
    >(
        &mut self,
        handler: U,
    )
        requires
            old(self).wf(),
        ensures
            command_registered::<C, U>(*old(self), *final(self), handler),
    {
        let entry = ErasedCommand::new::<C, U>(handler);
        self.command_handlers.insert(C::type_key(), entry);
        assert forall|k: Seq<char>| #[trigger] self.commands().contains_key(k) implies self.commands()[k].request_key() == k by {
            if k != C::spec_type_key() {
                assert(old(self).commands().contains_key(k));
            }
        }
        assert forall|k: Seq<char>| #[trigger] self.queries().contains_key(k) implies self.queries()[k].request_key() == k by {
            assert(old(self).queries().contains_key(k));
        }
    }

    /// Binds `handler` to the query type `Q`, with results of type `R`,
    /// replacing the handler that was bound to `Q`.
    pub fn register_query<
        Q: Query + Send + Sync + 'static,
        R: Message + Send + Sync + 'static,
        U: QueryHandler<Q, R> + Send + Sync + 'static,
    >(
        &mut self,
        handler: U,
    )
        requires
            old(self).wf(),
        ensures
            query_registered::<Q, R, U>(*old(self), *final(self), handler),
    {
        let entry = ErasedQuery::new::<Q, R, U>(handler);
        self.query_handlers.insert(Q::type_key(), entry);
        assert forall|k: Seq<char>| #[trigger] self.queries().contains_key(k) implies self.queries()[k].request_key() == k by {
            if k != Q::spec_type_key() {
                assert(old(self).queries().contains_key(k));
            }
        }
        assert forall|k: Seq<char>| #[trigger] self.commands().contains_key(k) implies self.commands()[k].request_key() == k by {
            assert(old(self).commands().contains_key(k));
        }
    }

    /// Has the handler registered for `C` carry out `command`.
    pub fn send<C: Command>(&self, command: C) -> (r: Result<(), MediatorError>)
        requires
            self.wf(),
        ensures
            !self.commands().contains_key(C::spec_type_key()) ==> fails_with(
                r,
                ErrorModel::HandlerNotFound(C::spec_type_key()),
            ),
            self.commands().contains_key(C::spec_type_key()) ==> {
                let entry = self.commands()[C::spec_type_key()];
                &&& r is Ok <==> entry.accepts(command.spec_fields())
                &&& r is Ok ==> entry.performs(erased_model(command))
                &&& r is Err ==> fails_with(
                    r,
                    ErrorModel::RequestTypeMismatch(C::spec_type_key()),
                )
            },
    {
        let key = C::type_key();
        match self.command_handlers.get(&key) {
            None => Err(MediatorError::HandlerNotFound(key)),
            Some(entry) => entry.execute(command.erase()),
        }
    }

    /// Has the handler registered for `Q` answer `query`, and reads the
    /// answer back as an `R`.
    pub fn query<Q: Query, R: Message>(&self, query: Q) -> (r: Result<R, MediatorError>)
        requires
            self.wf(),
        ensures
            !self.queries().contains_key(Q::spec_type_key()) ==> fails_with(
                r,
                ErrorModel::HandlerNotFound(Q::spec_type_key()),
            ),
            self.queries().contains_key(Q::spec_type_key()) ==> {
                let entry = self.queries()[Q::spec_type_key()];
                let request = erased_model(query);
                &&& !entry.accepts(query.spec_fields()) <==> fails_with(
                    r,
                    ErrorModel::RequestTypeMismatch(Q::spec_type_key()),
                )
                &&& entry.accepts(query.spec_fields()) && entry.result_key()
                    != R::spec_type_key() ==> fails_with(
                    r,
                    ErrorModel::ResultTypeMismatch(Q::spec_type_key()),
                )
                &&& r matches Ok(v) ==> exists|out: ErasedModel| #[trigger]
                    entry.answers(request, out) && out.type_key == R::spec_type_key()
                        && out.fields == v.spec_fields()
                &&& fails_with(r, ErrorModel::ResultTypeMismatch(Q::spec_type_key()))
                    ==> entry.accepts(query.spec_fields()) && exists|out: ErasedModel| #[trigger]
                    entry.answers(request, out) && !(out.type_key == R::spec_type_key()
                        && R::spec_readable(out.fields))
                &&& entry.accepts(query.spec_fields()) && entry.result_key() == R::spec_type_key()
                    && (forall|out: ErasedModel| #[trigger]
                    entry.answers(request, out) ==> R::spec_readable(out.fields)) ==> r is Ok
                &&& r is Ok || fails_with(r, ErrorModel::RequestTypeMismatch(Q::spec_type_key()))
                    || fails_with(r, ErrorModel::ResultTypeMismatch(Q::spec_type_key()))
            },
    {
        let ghost request = erased_model(query);
        let key = Q::type_key();
        match self.query_handlers.get(&key) {
            None => Err(MediatorError::HandlerNotFound(key)),
            Some(entry) => match entry.execute(query.erase()) {
                Err(e) => Err(e),
                Ok(out) => {
                    let ghost produced = out@;
                    assert(entry.answers(request, produced));
                    match R::restore(out) {
                        Some(v) => {
                            assert(produced.fields == v.spec_fields());
                            Ok(v)
                        },
                        None => {
                            assert(!(produced.type_key == R::spec_type_key() && R::spec_readable(produced.fields)));
                            Err(MediatorError::ResultTypeMismatch(key))
                        },
                    }
                },
            },
        }
    }
}

} // verus!
