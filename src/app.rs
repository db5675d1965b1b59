//! The composition point: the settings and the registry the process runs with.

use vstd::prelude::*;

use crate::configs::Config;
use crate::hello::{GetHelloResult, GetHelloUseCase, HelloQuery, HelloRepository};
use crate::mediator::erase::ErasedCommand;
use crate::mediator::registry::Mediator;
use crate::message::Message;

verus! {

/// The application and its settings.
pub struct App {
    pub cfg: Config,
}

impl App {
    pub fn new(cfg: Config) -> (r: App)
        ensures
            r.cfg == cfg,
    {
        App { cfg }
    }

    /// A registry that answers greeting queries and holds no command handler.
    pub fn setup_mediator(&self) -> (m: Mediator)
        ensures
            m.wf(),
            m.commands() == Map::<Seq<char>, ErasedCommand>::empty(),
            m.queries().dom() == set![HelloQuery::spec_type_key()],
            exists|h: GetHelloUseCase| #[trigger]
                m.queries()[HelloQuery::spec_type_key()].wraps::<HelloQuery, GetHelloResult, GetHelloUseCase>(h),
    {
        let mut mediator = Mediator::new();
        let handler = GetHelloUseCase::new(HelloRepository);
        let ghost h = handler;
        mediator.register_query::<HelloQuery, GetHelloResult, GetHelloUseCase>(handler);
        assert(mediator.queries().dom() =~= set![HelloQuery::spec_type_key()]);
        assert(mediator.queries()[HelloQuery::spec_type_key()].wraps::<HelloQuery, GetHelloResult, GetHelloUseCase>(h));
        mediator
    }
}

} // verus!
