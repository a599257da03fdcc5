//! A client for a remote language-model service: it lists models, asks for
//! single completions and holds conversations. The client describes each
//! request and interprets each reply; a transport that the caller supplies
//! carries them.

pub mod chat;
pub mod config;
pub mod endpoint;
pub mod error;
pub mod json;
pub mod text;
pub mod transport;
pub mod types;
pub mod wire;

pub use chat::{Chat, ChatResponse, ChatResponseChoice, ChatStop, Message};
pub use config::Config;
pub use error::Error;

use vstd::prelude::*;
use endpoint::{completions_url, model_url, models_url, Connection};
use json::{json_text, write_value, Json};
use transport::{
    exchange, exchanged, get_request, post_request, results_in, Outcome, Request,
};
use types::{
    completion_reply, model_reply, models_reply, Completion, CompletionParams, Model, Models,
};

verus! {

/// The client: a connection to the service that carries the credential.
pub struct OpenAi {
    connection: Connection,
}

impl OpenAi {
    /// The connection that every request of the client uses.
    pub closed spec fn connection(&self) -> Connection {
        self.connection
    }

    /// Makes a client from a configuration. The configuration must hold an
    /// API key, which becomes the bearer token of every request; without
    /// one there is no client, and nothing has been sent.
    pub fn new(config: &Config) -> (r: Result<Self, Error>)
        ensures
            config.api_key is None ==> r matches Err(Error::ApiKeyRequired),
            config.api_key matches Some(key) ==> (r matches Ok(client) && {
                &&& client.connection().endpoint() == config.api_endpoint@
                &&& client.connection().version() == config.api_version
                &&& client.connection().authorization() == "Bearer "@ + key@
            }),
    {
        match config.api_key {
            Some(key) => {
                let mut header = "Bearer ".to_owned();
                header.append(key);
                Ok(
                    OpenAi {
                        connection: Connection::new(
                            config.api_endpoint,
                            config.api_version,
                            header.as_str(),
                        ),
                    },
                )
            },
            None => Err(Error::ApiKeyRequired),
        }
    }

    /// Starts a conversation with `model`: it has no message yet, sets no
    /// parameter of generation and uses the connection of the client.
    pub fn start_chat(&self, model: &str) -> (chat: Chat)
        ensures
            chat.model@ == model@,
            chat.connection == self.connection(),
            chat.history() == Seq::<chat::MessageView>::empty(),
            chat.messages@.len() == 0,
            chat.plain(),
    {
        Chat::new(model, &self.connection)
    }

    /// The request that reads the list of models.
    pub fn list_models_request(&self) -> (request: Request)
        ensures
            request@ == get_request(
                models_url(self.connection().endpoint(), self.connection().version()),
                self.connection().authorization(),
            ),
    {
        self.connection.models()
    }

    /// The request that reads the model `model`.
    pub fn get_model_request(&self, model: &str) -> (request: Request)
        ensures
            request@ == get_request(
                model_url(self.connection().endpoint(), self.connection().version(), model@),
                self.connection().authorization(),
            ),
    {
        self.connection.model(model)
    }

    /// The request that asks for a completion: its body is the JSON text of
    /// the object that holds the parameters that are set.
    pub fn create_completion_request(&self, params: &CompletionParams) -> (request: Request)
        ensures
            request@ == post_request(
                completions_url(self.connection().endpoint(), self.connection().version()),
                self.connection().authorization(),
                json_text(Json::Object(params.payload())),
            ),
    {
        let document = params.to_json();
        self.connection.completions(write_value(&document))
    }

    /// Reads the list of models through `transport`.
    pub fn list_models<F: FnOnce(Request) -> Outcome>(&self, transport: F) -> (r: Result<
        Models,
        Error,
    >)
        requires
            forall|request: Request| transport.requires((request,)),
        ensures
            exists|outcome: Outcome|
                exchanged(
                    transport,
                    get_request(
                        models_url(self.connection().endpoint(), self.connection().version()),
                        self.connection().authorization(),
                    ),
                    outcome,
                ) && results_in(r, models_reply(outcome)),
    {
        let outcome = exchange(self.list_models_request(), transport);
        Models::from_reply(outcome)
    }

    /// Reads the model `model` through `transport`.
    pub fn get_model<F: FnOnce(Request) -> Outcome>(&self, model: &str, transport: F) -> (r:
        Result<Model, Error>)
        requires
            forall|request: Request| transport.requires((request,)),
        ensures
            exists|outcome: Outcome|
                exchanged(
                    transport,
                    get_request(
                        model_url(
                            self.connection().endpoint(),
                            self.connection().version(),
                            model@,
                        ),
                        self.connection().authorization(),
                    ),
                    outcome,
                ) && results_in(r, model_reply(outcome)),
    {
        let outcome = exchange(self.get_model_request(model), transport);
        Model::from_reply(outcome)
    }

    /// Asks for one completion through `transport` and hands the answer on
    /// as it came. Nothing is kept and nothing is tried twice.
    pub fn create_completion<F: FnOnce(Request) -> Outcome>(
        &self,
        params: CompletionParams,
        transport: F,
    ) -> (r: Result<Completion, Error>)
        requires
            forall|request: Request| transport.requires((request,)),
        ensures
            exists|outcome: Outcome|
                exchanged(
                    transport,
                    post_request(
                        completions_url(
                            self.connection().endpoint(),
                            self.connection().version(),
                        ),
                        self.connection().authorization(),
                        json_text(Json::Object(params.payload())),
                    ),
                    outcome,
                ) && results_in(r, completion_reply(outcome)),
    {
        let outcome = exchange(self.create_completion_request(&params), transport);
        Completion::from_reply(outcome)
    }
}

} // verus!
