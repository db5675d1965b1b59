//! The greeting use cases: the requests, their results and their handlers.

use vstd::prelude::*;
use vstd::string::*;

use crate::handler::QueryHandler;
use crate::message::{single_text, Command, Erased, Message, Query, ValueModel};

verus! {

/// Asks for a greeting.
#[derive(Clone, Debug, PartialEq, Eq)]
pub struct HelloQuery {
    pub name: String,
}

/// Asks for a farewell.
#[derive(Clone, Debug, PartialEq, Eq)]
pub struct ByQuery {
    pub name: String,
}

/// Asks for someone to be greeted.
#[derive(Clone, Debug, PartialEq, Eq)]
pub struct HelloCommand {
    pub name: String,
}

/// The answer to a [`HelloQuery`].
#[derive(Clone, Debug, PartialEq, Eq)]
pub struct GetHelloResult {
    pub name: String,
}

impl Message for HelloQuery {
    open spec fn spec_type_key() -> Seq<char> {
        "HelloQuery"@
    }

    open spec fn spec_fields(&self) -> Seq<ValueModel> {
        seq![ValueModel::Text(self.name@)]
    }

    open spec fn spec_readable(fields: Seq<ValueModel>) -> bool {
        single_text(fields)
    }

    proof fn lemma_fields_readable(&self) {
    }

    fn type_key() -> (r: String) {
        "HelloQuery".to_owned()
    }

    fn erase(self) -> (r: Erased) {
        Erased::with_text(Self::type_key(), self.name)
    }

    fn restore(erased: Erased) -> (r: Option<Self>) {
        match erased.into_text(&Self::type_key()) {
            Some(name) => Some(HelloQuery { name }),
            None => None,
        }
    }
}

impl Query for HelloQuery {}

impl Message for ByQuery {
    open spec fn spec_type_key() -> Seq<char> {
        "ByQuery"@
    }

    open spec fn spec_fields(&self) -> Seq<ValueModel> {
        seq![ValueModel::Text(self.name@)]
    }

    open spec fn spec_readable(fields: Seq<ValueModel>) -> bool {
        single_text(fields)
    }

    proof fn lemma_fields_readable(&self) {
    }

    fn type_key() -> (r: String) {
        "ByQuery".to_owned()
    }

    fn erase(self) -> (r: Erased) {
        Erased::with_text(Self::type_key(), self.name)
    }

    fn restore(erased: Erased) -> (r: Option<Self>) {
        match erased.into_text(&Self::type_key()) {
            Some(name) => Some(ByQuery { name }),
            None => None,
        }
    }
}

impl Query for ByQuery {}

impl Message for HelloCommand {
    open spec fn spec_type_key() -> Seq<char> {
        "HelloCommand"@
    }

    open spec fn spec_fields(&self) -> Seq<ValueModel> {
        seq![ValueModel::Text(self.name@)]
    }

    open spec fn spec_readable(fields: Seq<ValueModel>) -> bool {
        single_text(fields)
    }

    proof fn lemma_fields_readable(&self) {
    }

    fn type_key() -> (r: String) {
        "HelloCommand".to_owned()
    }

    fn erase(self) -> (r: Erased) {
        Erased::with_text(Self::type_key(), self.name)
    }

    fn restore(erased: Erased) -> (r: Option<Self>) {
        match erased.into_text(&Self::type_key()) {
            Some(name) => Some(HelloCommand { name }),
            None => None,
        }
    }
}

impl Command for HelloCommand {}

impl Message for GetHelloResult {
    open spec fn spec_type_key() -> Seq<char> {
        "GetHelloResult"@
    }

    open spec fn spec_fields(&self) -> Seq<ValueModel> {
        seq![ValueModel::Text(self.name@)]
    }

    open spec fn spec_readable(fields: Seq<ValueModel>) -> bool {
        single_text(fields)
    }

    proof fn lemma_fields_readable(&self) {
    }

    fn type_key() -> (r: String) {
        "GetHelloResult".to_owned()
    }

    fn erase(self) -> (r: Erased) {
        Erased::with_text(Self::type_key(), self.name)
    }

    fn restore(erased: Erased) -> (r: Option<Self>) {
        match erased.into_text(&Self::type_key()) {
            Some(name) => Some(GetHelloResult { name }),
            None => None,
        }
    }
}

/// Greets the person a [`HelloCommand`] names: the greeting is a line the
/// program writes out, and this is that line.
pub struct CreateHelloHandler;

impl CreateHelloHandler {
    pub fn greeting(&self, command: &HelloCommand) -> (r: String)
        ensures
            r@ == "Hello from HelloHandler: "@ + command.name@,
    {
        let mut line = "Hello from HelloHandler: ".to_owned();
        line.append(command.name.as_str());
        line
    }
}

/// Greets the person a [`HelloCommand`] names, as a use case: this is the
/// line the program writes out.
pub struct CreateHelloUseCase;

impl CreateHelloUseCase {
    pub fn greeting(&self, command: &HelloCommand) -> (r: String)
        ensures
            r@ == "Hello from HelloUseCase: "@ + command.name@,
    {
        let mut line = "Hello from HelloUseCase: ".to_owned();
        line.append(command.name.as_str());
        line
    }
}

/// The text every record of the repository holds.
pub open spec fn stored_text() -> Seq<char> {
    "hello world"@
}

/// Where greetings are kept.
pub struct HelloRepository;

impl HelloRepository {
    /// The greeting stored under an id; every id holds the same one.
    pub fn get_by_id(&self, _id: i32) -> (r: String)
        ensures
            r@ == stored_text(),
    {
        "hello world".to_owned()
    }
}

/// Answers a [`HelloQuery`] with the greeting the repository holds.
pub struct GetHelloHandler {
    hello_repo: HelloRepository,
}

impl GetHelloHandler {
    pub fn new(hello_repo: HelloRepository) -> (r: Self)
        ensures
            forall|q: HelloQuery, res: GetHelloResult| #[trigger]
                r.answers(q, res) <==> res.name@ == stored_text(),
    {
        GetHelloHandler { hello_repo }
    }
}

impl QueryHandler<HelloQuery, GetHelloResult> for GetHelloHandler {
    open spec fn answers(&self, query: HelloQuery, result: GetHelloResult) -> bool {
        result.name@ == stored_text()
    }

    fn execute(&self, query: HelloQuery) -> (r: GetHelloResult) {
        let name = self.hello_repo.get_by_id(13);
        GetHelloResult { name }
    }
}

/// Answers a [`HelloQuery`] with the greeting the repository holds.
pub struct GetHelloUseCase {
    hello_repo: HelloRepository,
}

impl GetHelloUseCase {
    pub fn new(hello_repo: HelloRepository) -> (r: Self)
        ensures
            forall|q: HelloQuery, res: GetHelloResult| #[trigger]
                r.answers(q, res) <==> res.name@ == stored_text(),
    {
        GetHelloUseCase { hello_repo }
    }
}

impl QueryHandler<HelloQuery, GetHelloResult> for GetHelloUseCase {
    open spec fn answers(&self, query: HelloQuery, result: GetHelloResult) -> bool {
        result.name@ == stored_text()
    }

    fn execute(&self, query: HelloQuery) -> (r: GetHelloResult) {
        let name = self.hello_repo.get_by_id(13);
        GetHelloResult { name }
    }
}

} // verus!
