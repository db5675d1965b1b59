//! Handlers behind a uniform interface: each wrapper is built from a handler
//! and its concrete request and result types, and restores the erased request
//! to that type before it calls the handler.

use std::marker::PhantomData;

use vstd::prelude::*;

use crate::handler::{CommandHandler, QueryHandler};
use crate::mediator::errors::{ErrorModel, MediatorError};
use crate::message::{Command, Erased, ErasedModel, Message, Query, ValueModel};

verus! {

/// A command handler whose command type is hidden.
trait CommandInvoker: Send + Sync {
    spec fn request_key(&self) -> Seq<char>;

    spec fn accepts(&self, fields: Seq<ValueModel>) -> bool;

    spec fn performs(&self, request: ErasedModel) -> bool;

    fn invoke(&self, request: Erased) -> (r: Result<(), MediatorError>)
        ensures
            r is Ok <==> request@.type_key == self.request_key() && self.accepts(request@.fields),
            r is Ok ==> self.performs(request@),
            r is Err ==> r->Err_0@ == ErrorModel::RequestTypeMismatch(self.request_key()),
    ;
}

/// A query handler whose query and result types are hidden.
trait QueryInvoker: Send + Sync {
    spec fn request_key(&self) -> Seq<char>;

    spec fn result_key(&self) -> Seq<char>;

    spec fn accepts(&self, fields: Seq<ValueModel>) -> bool;

    spec fn answers(&self, request: ErasedModel, result: ErasedModel) -> bool;

    fn invoke(&self, request: Erased) -> (r: Result<Erased, MediatorError>)
        ensures
            r is Ok <==> request@.type_key == self.request_key() && self.accepts(request@.fields),
            r matches Ok(out) ==> self.answers(request@, out@) && out@.type_key
                == self.result_key(),
            r is Err ==> r->Err_0@ == ErrorModel::RequestTypeMismatch(self.request_key()),
    ;
}

struct CommandAdapter<C, U> {
    handler: U,
    command: PhantomData<C>,
}

impl<C: Command + Send + Sync, U: CommandHandler<C> + Send + Sync> CommandInvoker for CommandAdapter<
    C,
    U,
> {
    closed spec fn request_key(&self) -> Seq<char> {
        C::spec_type_key()
    }

    closed spec fn accepts(&self, fields: Seq<ValueModel>) -> bool {
        C::spec_readable(fields)
    }

    closed spec fn performs(&self, request: ErasedModel) -> bool {
        performed_by::<C, U>(self.handler, request)
    }

    fn invoke(&self, request: Erased) -> (r: Result<(), MediatorError>) {
        let ghost model = request@;
        match C::restore(request) {
            Some(command) => {
                let ghost c = command;
                self.handler.execute(command);
                assert(self.handler.performs(c) && c.spec_fields() == model.fields);
                Ok(())
            },
            None => Err(MediatorError::RequestTypeMismatch(C::type_key())),
        }
    }
}

struct QueryAdapter<Q, R, U> {
    handler: U,
    types: PhantomData<(Q, R)>,
}

impl<
    Q: Query + Send + Sync,
    R: Message + Send + Sync,
    U: QueryHandler<Q, R> + Send + Sync,
> QueryInvoker for QueryAdapter<Q, R, U> {
    closed spec fn request_key(&self) -> Seq<char> {
        Q::spec_type_key()
    }

    closed spec fn result_key(&self) -> Seq<char> {
        R::spec_type_key()
    }

    closed spec fn accepts(&self, fields: Seq<ValueModel>) -> bool {
        Q::spec_readable(fields)
    }

    closed spec fn answers(&self, request: ErasedModel, result: ErasedModel) -> bool {
        answered_by::<Q, R, U>(self.handler, request, result)
    }

    fn invoke(&self, request: Erased) -> (r: Result<Erased, MediatorError>) {
        let ghost model = request@;
        match Q::restore(request) {
            Some(query) => {
                let ghost q = query;
                let result = self.handler.execute(query);
                let ghost res = result;
                let out = result.erase();
                assert(q.spec_fields() == model.fields && self.handler.answers(q, res)
                    && out@.fields == res.spec_fields());
                Ok(out)
            },
            None => Err(MediatorError::RequestTypeMismatch(Q::type_key())),
        }
    }
}

/// `handler` has carried out a command whose fields are those of `request`.
pub open spec fn performed_by<C: Command, U: CommandHandler<C>>(
    handler: U,
    request: ErasedModel,
) -> bool {
    exists|c: C| c.spec_fields() == request.fields && #[trigger] handler.performs(c)
}

/// `result` is the erased form of an answer `handler` may give to a query
/// whose fields are those of `request`.
pub open spec fn answered_by<Q: Query, R: Message, U: QueryHandler<Q, R>>(
    handler: U,
    request: ErasedModel,
    result: ErasedModel,
) -> bool {
    exists|q: Q, r: R|
        q.spec_fields() == request.fields && #[trigger] handler.answers(q, r) && result
            == (ErasedModel { type_key: R::spec_type_key(), fields: r.spec_fields() })
}

/// A command handler stored with the knowledge of its command type.
pub struct ErasedCommand {
    invoker: Box<dyn CommandInvoker>,
}

impl ErasedCommand {
    /// The key of the command type the handler was registered for.
    pub closed spec fn request_key(&self) -> Seq<char> {
        self.invoker.request_key()
    }

    /// Whether the command type reads back `fields`.
    pub closed spec fn accepts(&self, fields: Seq<ValueModel>) -> bool {
        self.invoker.accepts(fields)
    }

    /// Whether the handler has carried out the command `request` holds.
    pub closed spec fn performs(&self, request: ErasedModel) -> bool {
        self.invoker.performs(request)
    }

    /// `self` wraps `handler`, a handler of commands of type `C`.
    pub open spec fn wraps<C: Command, U: CommandHandler<C>>(&self, handler: U) -> bool {
        &&& self.request_key() == C::spec_type_key()
        &&& forall|f: Seq<ValueModel>| #[trigger] self.accepts(f) == C::spec_readable(f)
        &&& forall|e: ErasedModel| #[trigger]
            self.performs(e) == performed_by::<C, U>(handler, e)
    }

    pub fn new<C: Command + Send + Sync + 'static, U: CommandHandler<C> + Send + Sync + 'static>(
        handler: U,
    ) -> (r: Self)
        ensures
            r.wraps::<C, U>(handler),
    {
        let adapter = CommandAdapter::<C, U> { handler, command: PhantomData };
        let r = ErasedCommand { invoker: Box::new(adapter) };
        r
    }

    /// Restores `command` to the handler's command type and carries it out.
    pub fn execute(&self, command: Erased) -> (r: Result<(), MediatorError>)
        ensures
            r is Ok <==> command@.type_key == self.request_key() && self.accepts(command@.fields),
            r is Ok ==> self.performs(command@),
            r is Err ==> r->Err_0@ == ErrorModel::RequestTypeMismatch(self.request_key()),
    {
        self.invoker.invoke(command)
    }
}

/// A query handler stored with the knowledge of its query and result types.
pub struct ErasedQuery {
    invoker: Box<dyn QueryInvoker>,
}

impl ErasedQuery {
    /// The key of the query type the handler was registered for.
    pub closed spec fn request_key(&self) -> Seq<char> {
        self.invoker.request_key()
    }

    /// The key of the handler's result type.
    pub closed spec fn result_key(&self) -> Seq<char> {
        self.invoker.result_key()
    }

    /// Whether the query type reads back `fields`.
    pub closed spec fn accepts(&self, fields: Seq<ValueModel>) -> bool {
        self.invoker.accepts(fields)
    }

    /// Whether `result` is the erased form of an answer the handler may give
    /// to the query `request` holds.
    pub closed spec fn answers(&self, request: ErasedModel, result: ErasedModel) -> bool {
        self.invoker.answers(request, result)
    }

    /// `self` wraps `handler`, a handler of queries of type `Q` with results
    /// of type `R`.
    pub open spec fn wraps<Q: Query, R: Message, U: QueryHandler<Q, R>>(
        &self,
        handler: U,
    ) -> bool {
        &&& self.request_key() == Q::spec_type_key()
        &&& self.result_key() == R::spec_type_key()
        &&& forall|f: Seq<ValueModel>| #[trigger] self.accepts(f) == Q::spec_readable(f)
        &&& forall|e: ErasedModel, o: ErasedModel| #[trigger]
            self.answers(e, o) == answered_by::<Q, R, U>(handler, e, o)
    }

    pub fn new<
        Q: Query + Send + Sync + 'static,
        R: Message + Send + Sync + 'static,
        U: QueryHandler<Q, R> + Send + Sync + 'static,
    >(
        handler: U,
    ) -> (r: Self)
        ensures
            r.wraps::<Q, R, U>(handler),
    {
        let adapter = QueryAdapter::<Q, R, U> { handler, types: PhantomData };
        let r = ErasedQuery { invoker: Box::new(adapter) };
        r
    }

    /// Restores `query` to the handler's query type, answers it, and erases
    /// the answer.
    pub fn execute(&self, query: Erased) -> (r: Result<Erased, MediatorError>)
        ensures
            r is Ok <==> query@.type_key == self.request_key() && self.accepts(query@.fields),
            r matches Ok(out) ==> self.answers(query@, out@) && out@.type_key
                == self.result_key(),
            r is Err ==> r->Err_0@ == ErrorModel::RequestTypeMismatch(self.request_key()),
    {
        self.invoker.invoke(query)
    }
}

} // verus!
