//! What holds of the registry across registrations and dispatches.

use vstd::prelude::*;

use crate::handler::{CommandHandler, QueryHandler};
use crate::mediator::erase::{answered_by, performed_by};
use crate::mediator::registry::{command_registered, erased_model, query_registered, Mediator};
use crate::message::{Command, ErasedModel, Message, Query};

verus! {

/// Once `handler` is registered for the command type `C`, every command of
/// that type is read back by the stored wrapper (so `send` succeeds), and
/// whatever the wrapper has carried out, `handler` has carried out.
pub proof fn lemma_send_reaches_registered<C: Command, U: CommandHandler<C>>(
    before: Mediator,
    after: Mediator,
    handler: U,
    command: C,
)
    requires
        command_registered::<C, U>(before, after, handler),
    ensures
        after.commands().contains_key(C::spec_type_key()),
        after.commands()[C::spec_type_key()].accepts(command.spec_fields()),
        after.commands()[C::spec_type_key()].performs(erased_model(command)) ==> performed_by::<
            C,
            U,
        >(handler, erased_model(command)),
{
    command.lemma_fields_readable();
}

/// Once `handler` is registered for the query type `Q` with results of type
/// `R`, a query of that type asked for an `R` is read back by the stored
/// wrapper and every answer it can give reads back as an `R` (so `query`
/// succeeds), and each such answer is the erased form of an answer of
/// `handler` to a query with the same fields.
pub proof fn lemma_query_answered_by_registered<Q: Query, R: Message, U: QueryHandler<Q, R>>(
    before: Mediator,
    after: Mediator,
    handler: U,
    query: Q,
)
    requires
        query_registered::<Q, R, U>(before, after, handler),
    ensures
        after.queries().contains_key(Q::spec_type_key()),
        after.queries()[Q::spec_type_key()].accepts(query.spec_fields()),
        after.queries()[Q::spec_type_key()].result_key() == R::spec_type_key(),
        forall|out: ErasedModel| #[trigger]
            after.queries()[Q::spec_type_key()].answers(erased_model(query), out) ==> {
                &&& R::spec_readable(out.fields)
                &&& answered_by::<Q, R, U>(handler, erased_model(query), out)
            },
{
    query.lemma_fields_readable();
    let entry = after.queries()[Q::spec_type_key()];
    assert forall|out: ErasedModel| #[trigger]
        entry.answers(erased_model(query), out) implies R::spec_readable(out.fields) && answered_by::<Q, R, U>(handler, erased_model(query), out) by {
        let (q, r) = choose|q: Q, r: R|
            q.spec_fields() == erased_model(query).fields && #[trigger] handler.answers(q, r)
                && out == (ErasedModel { type_key: R::spec_type_key(), fields: r.spec_fields() });
        r.lemma_fields_readable();
    }
}

/// Asking for a result type other than the one the handler was registered
/// with can only fail: the stored wrapper reads the query back, and its
/// result type is not the one asked for (so `query` returns
/// `ResultTypeMismatch`).
pub proof fn lemma_query_wrong_result_type<
    Q: Query,
    R: Message,
    R2: Message,
    U: QueryHandler<Q, R>,
>(before: Mediator, after: Mediator, handler: U, query: Q)
    requires
        query_registered::<Q, R, U>(before, after, handler),
        R2::spec_type_key() != R::spec_type_key(),
    ensures
        after.queries()[Q::spec_type_key()].accepts(query.spec_fields()),
        after.queries()[Q::spec_type_key()].result_key() != R2::spec_type_key(),
{
    query.lemma_fields_readable();
}

/// Registering a second command handler for the same type leaves the
/// registry as if only the second had been registered: later commands of
/// that type reach only the second handler.
pub proof fn lemma_last_command_registration_wins<
    C: Command,
    A: CommandHandler<C>,
    B: CommandHandler<C>,
>(m0: Mediator, m1: Mediator, m2: Mediator, first: A, second: B)
    requires
        command_registered::<C, A>(m0, m1, first),
        command_registered::<C, B>(m1, m2, second),
    ensures
        command_registered::<C, B>(m0, m2, second),
{
    assert(m2.commands() =~= m0.commands().insert(
        C::spec_type_key(),
        m2.commands()[C::spec_type_key()],
    ));
}

/// Registering a second query handler for the same query type leaves the
/// registry as if only the second had been registered.
pub proof fn lemma_last_query_registration_wins<
    Q: Query,
    R1: Message,
    R2: Message,
    A: QueryHandler<Q, R1>,
    B: QueryHandler<Q, R2>,
>(m0: Mediator, m1: Mediator, m2: Mediator, first: A, second: B)
    requires
        query_registered::<Q, R1, A>(m0, m1, first),
        query_registered::<Q, R2, B>(m1, m2, second),
    ensures
        query_registered::<Q, R2, B>(m0, m2, second),
{
    assert(m2.queries() =~= m0.queries().insert(
        Q::spec_type_key(),
        m2.queries()[Q::spec_type_key()],
    ));
}

/// Registering a handler for one command type leaves the handlers of every
/// other request type where they were: dispatches of distinct types do not
/// interfere.
pub proof fn lemma_command_registration_isolated<C: Command, U: CommandHandler<C>>(
    before: Mediator,
    after: Mediator,
    handler: U,
    key: Seq<char>,
)
    requires
        command_registered::<C, U>(before, after, handler),
        key != C::spec_type_key(),
    ensures
        after.commands().contains_key(key) == before.commands().contains_key(key),
        before.commands().contains_key(key) ==> after.commands()[key] == before.commands()[key],
        after.queries() == before.queries(),
{
}

/// Registering a handler for one query type leaves the handlers of every
/// other request type where they were.
pub proof fn lemma_query_registration_isolated<Q: Query, R: Message, U: QueryHandler<Q, R>>(
    before: Mediator,
    after: Mediator,
    handler: U,
    key: Seq<char>,
)
    requires
        query_registered::<Q, R, U>(before, after, handler),
        key != Q::spec_type_key(),
    ensures
        after.queries().contains_key(key) == before.queries().contains_key(key),
        before.queries().contains_key(key) ==> after.queries()[key] == before.queries()[key],
        after.commands() == before.commands(),
{
}

} // verus!
