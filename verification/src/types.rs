//! The values that the completion and model endpoints take and return.

use vstd::prelude::*;
use crate::json::{
    empty_object, json_of, member, new_object, number_of, number_value, object_insert, object_of,
    object_value, text_value, value_as_array, value_as_str, value_get, values_of, Json,
};
use crate::error::Error;
use crate::text::name_mark;
use crate::transport::{decoded_reply, read_reply, results_in, views_as, Outcome};
use crate::wire::{
    get_items, get_text, get_u32, get_u64, get_usize, integer_member, items_member,
    json_one_or_many, one_or_many_json, optional_bool, optional_integer, optional_number,
    lemma_with_member, optional_string, put_bool, put_number, put_text, put_u32, put_value,
    read_texts,
    text_member, texts, texts_value, with_member, OneOrMany,
};

verus! {

/// The list of models as a mathematical value.
pub struct ModelsView {
    pub data: Seq<ModelView>,
}

#[derive(Debug, Clone)]
pub struct Models {
    pub data: Vec<Model>,
}

/// A model as a mathematical value.
pub struct ModelView {
    pub id: Seq<char>,
    pub object: Seq<char>,
    pub owned_by: Seq<char>,
}

#[derive(Debug, Clone)]
pub struct Model {
    pub id: String,
    pub object: String,
    pub owned_by: String,
}

impl View for Model {
    type V = ModelView;

    open spec fn view(&self) -> ModelView {
        ModelView { id: self.id@, object: self.object@, owned_by: self.owned_by@ }
    }
}

impl View for Models {
    type V = ModelsView;

    open spec fn view(&self) -> ModelsView {
        ModelsView { data: self.data@.map_values(|m: Model| m@) }
    }
}

impl Model {
    /// The model that a document describes: an object whose members `id`,
    /// `object` and `owned_by` are strings.
    pub open spec fn decode(j: Json) -> Option<ModelView> {
        match (text_member(j, "id"@), text_member(j, "object"@), text_member(j, "owned_by"@)) {
            (Some(id), Some(object), Some(owned_by)) => Some(ModelView { id, object, owned_by }),
            _ => None,
        }
    }

    pub fn from_json(v: &serde_json::Value) -> (r: Option<Model>)
        ensures
            views_as(r, Model::decode(json_of(*v))),
    {
        let id = match get_text(v, "id") {
            Some(s) => s,
            None => {
                return None;
            },
        };
        let object = match get_text(v, "object") {
            Some(s) => s,
            None => {
                return None;
            },
        };
        let owned_by = match get_text(v, "owned_by") {
            Some(s) => s,
            None => {
                return None;
            },
        };
        Some(Model { id, object, owned_by })
    }
}

impl Models {
    /// The models that the items of an array describe, in order: `None`
    /// unless every item describes one.
    pub open spec fn decode_items(items: Seq<Json>) -> Option<Seq<ModelView>> {
        if forall|i: int| 0 <= i < items.len() ==> (#[trigger] Model::decode(items[i])) is Some {
            Some(items.map_values(|j: Json| Model::decode(j)->Some_0))
        } else {
            None
        }
    }

    /// The list that a document describes: an object whose member `data` is
    /// an array of models.
    pub open spec fn decode(j: Json) -> Option<ModelsView> {
        match items_member(j, "data"@) {
            Some(items) => match Models::decode_items(items) {
                Some(data) => Some(ModelsView { data }),
                None => None,
            },
            None => None,
        }
    }

    pub fn from_json(v: &serde_json::Value) -> (r: Option<Models>)
        ensures
            views_as(r, Models::decode(json_of(*v))),
    {
        let items = match get_items(v, "data") {
            Some(items) => items,
            None => {
                return None;
            },
        };
        let mut data: Vec<Model> = Vec::new();
        let mut i: usize = 0;
        while i < items.len()
            invariant
                i <= items.len(),
                data@.len() == i,
                items_member(json_of(*v), "data"@) == Some(values_of(items@)),
                forall|k: int|
                    0 <= k < i ==> Model::decode(json_of(#[trigger] items@[k])) == Some(data@[k]@),
            decreases items.len() - i,
        {
            match Model::from_json(&items[i]) {
                Some(model) => {
                    data.push(model);
                },
                None => {
                    assert(Model::decode(values_of(items@)[i as int]) is None);
                    return None;
                },
            }
            i += 1;
        }
        let models = Models { data };
        proof {
            let docs = values_of(items@);
            assert forall|k: int| 0 <= k < docs.len() implies (#[trigger] Model::decode(
                docs[k],
            )) is Some by {
                assert(Model::decode(json_of(items@[k])) == Some(data@[k]@));
            }
            assert(docs.map_values(|j: Json| Model::decode(j)->Some_0) =~= models@.data);
        }
        Some(models)
    }
}

/// The list of models that the outcome of a request brings, or the failure
/// that it stands for.
pub open spec fn models_reply(outcome: Outcome) -> Result<ModelsView, Error> {
    decoded_reply(outcome, |j: Json| Models::decode(j))
}

/// The model that the outcome of a request brings, or the failure that it
/// stands for.
pub open spec fn model_reply(outcome: Outcome) -> Result<ModelView, Error> {
    decoded_reply(outcome, |j: Json| Model::decode(j))
}

impl Models {
    /// Reads the list of models from what the transport reported.
    pub fn from_reply(outcome: Outcome) -> (r: Result<Models, Error>)
        ensures
            results_in(r, models_reply(outcome)),
    {
        let document = match read_reply(outcome) {
            Ok(v) => v,
            Err(e) => {
                return Err(e);
            },
        };
        match Models::from_json(&document) {
            Some(models) => Ok(models),
            None => Err(Error::UnexpectedResponseShape),
        }
    }
}

impl Model {
    /// Reads a model from what the transport reported.
    pub fn from_reply(outcome: Outcome) -> (r: Result<Model, Error>)
        ensures
            results_in(r, model_reply(outcome)),
    {
        let document = match read_reply(outcome) {
            Ok(v) => v,
            Err(e) => {
                return Err(e);
            },
        };
        match Model::from_json(&document) {
            Some(model) => Ok(model),
            None => Err(Error::UnexpectedResponseShape),
        }
    }
}

/// The token counts of one exchange.
#[derive(Debug, Clone, Copy)]
pub struct Usage {
    pub prompt_tokens: u32,
    pub completion_tokens: u32,
    pub total_tokens: u32,
}

impl View for Usage {
    type V = Usage;

    open spec fn view(&self) -> Usage {
        *self
    }
}

impl Usage {
    /// The counts that a document describes: an object whose members
    /// `prompt_tokens`, `completion_tokens` and `total_tokens` are integers
    /// of 32 bits, none negative. The total is taken as it is given.
    pub open spec fn decode(j: Json) -> Option<Usage> {
        match (
            integer_member(j, "prompt_tokens"@, 0, u32::MAX as int),
            integer_member(j, "completion_tokens"@, 0, u32::MAX as int),
            integer_member(j, "total_tokens"@, 0, u32::MAX as int),
        ) {
            (Some(prompt), Some(completion), Some(total)) => Some(
                Usage {
                    prompt_tokens: prompt as u32,
                    completion_tokens: completion as u32,
                    total_tokens: total as u32,
                },
            ),
            _ => None,
        }
    }

    pub fn from_json(v: &serde_json::Value) -> (r: Option<Usage>)
        ensures
            r == Usage::decode(json_of(*v)),
    {
        let prompt_tokens = match get_u32(v, "prompt_tokens") {
            Some(n) => n,
            None => {
                return None;
            },
        };
        let completion_tokens = match get_u32(v, "completion_tokens") {
            Some(n) => n,
            None => {
                return None;
            },
        };
        let total_tokens = match get_u32(v, "total_tokens") {
            Some(n) => n,
            None => {
                return None;
            },
        };
        Some(Usage { prompt_tokens, completion_tokens, total_tokens })
    }
}

/// A prompt, or a stop condition of a completion: one text or a list of
/// texts.
#[derive(Debug, Clone)]
pub enum CompletionParamsPrompt {
    String(String),
    Array(Vec<String>),
}

impl View for CompletionParamsPrompt {
    type V = OneOrMany;

    open spec fn view(&self) -> OneOrMany {
        match self {
            CompletionParamsPrompt::String(s) => OneOrMany::One(s@),
            CompletionParamsPrompt::Array(items) => OneOrMany::Many(texts(items@)),
        }
    }
}

impl CompletionParamsPrompt {
    /// Writes the value as a document: a bare string for one text, an array
    /// of strings for a list.
    pub fn to_json(&self) -> (v: serde_json::Value)
        ensures
            json_of(v) == one_or_many_json(self@),
    {
        match self {
            CompletionParamsPrompt::String(s) => text_value(s.as_str()),
            CompletionParamsPrompt::Array(items) => texts_value(items),
        }
    }

    /// Reads the value back from a document.
    pub fn from_json(v: &serde_json::Value) -> (r: Option<CompletionParamsPrompt>)
        ensures
            views_as(r, json_one_or_many(json_of(*v))),
    {
        match value_as_str(v) {
            Some(s) => Some(CompletionParamsPrompt::String(s.to_owned())),
            None => match value_as_array(v) {
                Some(items) => match read_texts(items) {
                    Some(list) => Some(CompletionParamsPrompt::Array(list)),
                    None => None,
                },
                None => None,
            },
        }
    }
}

/// The document of an optional prompt or stop condition.
pub open spec fn optional_prompt(p: Option<CompletionParamsPrompt>) -> Option<Json> {
    match p {
        Some(x) => Some(one_or_many_json(x@)),
        None => None,
    }
}

/// The object that maps each token of a list of biases to its bias; where a
/// token occurs twice, its last bias stands.
pub open spec fn bias_object(entries: Seq<(String, serde_json::Number)>) -> Map<Seq<char>, Json>
    decreases entries.len(),
{
    if entries.len() == 0 {
        empty_object()
    } else {
        bias_object(entries.drop_last()).insert(entries.last().0@, number_of(entries.last().1))
    }
}

/// The document of an optional list of biases.
pub open spec fn optional_bias(b: Option<Vec<(String, serde_json::Number)>>) -> Option<Json> {
    match b {
        Some(entries) => Some(Json::Object(bias_object(entries@))),
        None => None,
    }
}

fn bias_value(entries: &Vec<(String, serde_json::Number)>) -> (v: serde_json::Value)
    ensures
        json_of(v) == Json::Object(bias_object(entries@)),
{
    let mut m = new_object();
    let mut i: usize = 0;
    while i < entries.len()
        invariant
            i <= entries.len(),
            object_of(m) == bias_object(entries@.take(i as int)),
        decreases entries.len() - i,
    {
        object_insert(&mut m, entries[i].0.as_str(), number_value(&entries[i].1));
        proof {
            assert(entries@.take(i + 1).drop_last() =~= entries@.take(i as int));
        }
        i += 1;
    }
    proof {
        assert(entries@.take(entries@.len() as int) =~= entries@);
    }
    object_value(m)
}

/// What a completion request asks for. Only the model is required; every
/// other parameter is sent if and only if it is set.
#[derive(Debug, Clone)]
pub struct CompletionParams {
    pub model: String,
    pub prompt: Option<CompletionParamsPrompt>,
    pub suffix: Option<String>,
    pub max_tokens: Option<u32>,
    pub temperature: Option<serde_json::Number>,
    pub top_p: Option<serde_json::Number>,
    pub n: Option<u32>,
    pub stream: Option<bool>,
    pub logprobs: Option<u32>,
    pub echo: Option<bool>,
    pub stop: Option<CompletionParamsPrompt>,
    pub presence_penalty: Option<serde_json::Number>,
    pub frequency_penalty: Option<serde_json::Number>,
    pub best_of: Option<u32>,
    pub logit_bias: Option<Vec<(String, serde_json::Number)>>,
    pub user: Option<String>,
}

impl CompletionParams {
    /// Whether nothing but the model and the prompt is set.
    pub open spec fn only_prompt(&self) -> bool {
        &&& self.suffix is None
        &&& self.max_tokens is None
        &&& self.temperature is None
        &&& self.top_p is None
        &&& self.n is None
        &&& self.stream is None
        &&& self.logprobs is None
        &&& self.echo is None
        &&& self.stop is None
        &&& self.presence_penalty is None
        &&& self.frequency_penalty is None
        &&& self.best_of is None
        &&& self.logit_bias is None
        &&& self.user is None
    }

    /// The parameters that ask `model` to complete the one text `prompt`.
    pub fn with_prompt(model: &str, prompt: &str) -> (params: Self)
        ensures
            params.model@ == model@,
            params.prompt matches Some(p) && p@ == OneOrMany::One(prompt@),
            params.only_prompt(),
    {
        CompletionParams {
            model: model.to_owned(),
            prompt: Some(CompletionParamsPrompt::String(prompt.to_owned())),
            suffix: None,
            max_tokens: None,
            temperature: None,
            top_p: None,
            n: None,
            stream: None,
            logprobs: None,
            echo: None,
            stop: None,
            presence_penalty: None,
            frequency_penalty: None,
            best_of: None,
            logit_bias: None,
            user: None,
        }
    }

    /// The members of the request object: `model` always, and each other
    /// parameter under its own name if and only if it is set.
    pub open spec fn payload(&self) -> Map<Seq<char>, Json> {
        let m = empty_object().insert("model"@, Json::Text(self.model@));
        let m = with_member(m, "prompt"@, optional_prompt(self.prompt));
        let m = with_member(m, "suffix"@, optional_string(self.suffix));
        let m = with_member(m, "max_tokens"@, optional_integer(self.max_tokens));
        let m = with_member(m, "temperature"@, optional_number(self.temperature));
        let m = with_member(m, "top_p"@, optional_number(self.top_p));
        let m = with_member(m, "n"@, optional_integer(self.n));
        let m = with_member(m, "stream"@, optional_bool(self.stream));
        let m = with_member(m, "logprobs"@, optional_integer(self.logprobs));
        let m = with_member(m, "echo"@, optional_bool(self.echo));
        let m = with_member(m, "stop"@, optional_prompt(self.stop));
        let m = with_member(m, "presence_penalty"@, optional_number(self.presence_penalty));
        let m = with_member(m, "frequency_penalty"@, optional_number(self.frequency_penalty));
        let m = with_member(m, "best_of"@, optional_integer(self.best_of));
        let m = with_member(m, "logit_bias"@, optional_bias(self.logit_bias));
        with_member(m, "user"@, optional_string(self.user))
    }

    /// Builds the request object.
    pub fn to_json(&self) -> (v: serde_json::Value)
        ensures
            json_of(v) == Json::Object(self.payload()),
    {
        let mut m = new_object();
        object_insert(&mut m, "model", text_value(self.model.as_str()));
        put_value(
            &mut m,
            "prompt",
            match &self.prompt {
                Some(p) => Some(p.to_json()),
                None => None,
            },
        );
        put_text(&mut m, "suffix", &self.suffix);
        put_u32(&mut m, "max_tokens", self.max_tokens);
        put_number(&mut m, "temperature", &self.temperature);
        put_number(&mut m, "top_p", &self.top_p);
        put_u32(&mut m, "n", self.n);
        put_bool(&mut m, "stream", self.stream);
        put_u32(&mut m, "logprobs", self.logprobs);
        put_bool(&mut m, "echo", self.echo);
        put_value(
            &mut m,
            "stop",
            match &self.stop {
                Some(p) => Some(p.to_json()),
                None => None,
            },
        );
        put_number(&mut m, "presence_penalty", &self.presence_penalty);
        put_number(&mut m, "frequency_penalty", &self.frequency_penalty);
        put_u32(&mut m, "best_of", self.best_of);
        put_value(
            &mut m,
            "logit_bias",
            match &self.logit_bias {
                Some(entries) => Some(bias_value(entries)),
                None => None,
            },
        );
        put_text(&mut m, "user", &self.user);
        object_value(m)
    }
}

/// The names under which a completion request can hold a member.
pub open spec fn completion_member_names() -> Set<Seq<char>> {
    set![
        "model"@,
        "prompt"@,
        "suffix"@,
        "max_tokens"@,
        "temperature"@,
        "top_p"@,
        "n"@,
        "stream"@,
        "logprobs"@,
        "echo"@,
        "stop"@,
        "presence_penalty"@,
        "frequency_penalty"@,
        "best_of"@,
        "logit_bias"@,
        "user"@,
    ]
}

/// The request object of a completion holds the model, holds each other
/// parameter under its own name if and only if the parameter is set, with
/// the value that was set, and holds nothing else; so a parameter that is
/// not set is no member at all.
pub proof fn lemma_completion_payload_members(params: CompletionParams)
    ensures
        params.payload().dom().subset_of(completion_member_names()),
        member(Json::Object(params.payload()), "model"@) == Some(Json::Text(params.model@)),
        member(Json::Object(params.payload()), "prompt"@) == optional_prompt(params.prompt),
        member(Json::Object(params.payload()), "suffix"@) == optional_string(params.suffix),
        member(Json::Object(params.payload()), "max_tokens"@) == optional_integer(
            params.max_tokens,
        ),
        member(Json::Object(params.payload()), "temperature"@) == optional_number(
            params.temperature,
        ),
        member(Json::Object(params.payload()), "top_p"@) == optional_number(params.top_p),
        member(Json::Object(params.payload()), "n"@) == optional_integer(params.n),
        member(Json::Object(params.payload()), "stream"@) == optional_bool(params.stream),
        member(Json::Object(params.payload()), "logprobs"@) == optional_integer(params.logprobs),
        member(Json::Object(params.payload()), "echo"@) == optional_bool(params.echo),
        member(Json::Object(params.payload()), "stop"@) == optional_prompt(params.stop),
        member(Json::Object(params.payload()), "presence_penalty"@) == optional_number(
            params.presence_penalty,
        ),
        member(Json::Object(params.payload()), "frequency_penalty"@) == optional_number(
            params.frequency_penalty,
        ),
        member(Json::Object(params.payload()), "best_of"@) == optional_integer(params.best_of),
        member(Json::Object(params.payload()), "logit_bias"@) == optional_bias(params.logit_bias),
        member(Json::Object(params.payload()), "user"@) == optional_string(params.user),
{
    assert(name_mark("model"@) == (5nat, 'm', 'o')) by {
        reveal_strlit("model");
    }
    assert(name_mark("prompt"@) == (6nat, 'p', 'r')) by {
        reveal_strlit("prompt");
    }
    assert(name_mark("suffix"@) == (6nat, 's', 'u')) by {
        reveal_strlit("suffix");
    }
    assert(name_mark("max_tokens"@) == (10nat, 'm', 'a')) by {
        reveal_strlit("max_tokens");
    }
    assert(name_mark("temperature"@) == (11nat, 't', 'e')) by {
        reveal_strlit("temperature");
    }
    assert(name_mark("top_p"@) == (5nat, 't', 'o')) by {
        reveal_strlit("top_p");
    }
    assert(name_mark("n"@).0 == 1) by {
        reveal_strlit("n");
    }
    assert(name_mark("stream"@) == (6nat, 's', 't')) by {
        reveal_strlit("stream");
    }
    assert(name_mark("logprobs"@) == (8nat, 'l', 'o')) by {
        reveal_strlit("logprobs");
    }
    assert(name_mark("echo"@) == (4nat, 'e', 'c')) by {
        reveal_strlit("echo");
    }
    assert(name_mark("stop"@) == (4nat, 's', 't')) by {
        reveal_strlit("stop");
    }
    assert(name_mark("presence_penalty"@) == (16nat, 'p', 'r')) by {
        reveal_strlit("presence_penalty");
    }
    assert(name_mark("frequency_penalty"@) == (17nat, 'f', 'r')) by {
        reveal_strlit("frequency_penalty");
    }
    assert(name_mark("best_of"@) == (7nat, 'b', 'e')) by {
        reveal_strlit("best_of");
    }
    assert(name_mark("logit_bias"@) == (10nat, 'l', 'o')) by {
        reveal_strlit("logit_bias");
    }
    assert(name_mark("user"@) == (4nat, 'u', 's')) by {
        reveal_strlit("user");
    }
    let m = empty_object().insert("model"@, Json::Text(params.model@));
    lemma_with_member(m, "prompt"@, optional_prompt(params.prompt));
    let m = with_member(m, "prompt"@, optional_prompt(params.prompt));
    lemma_with_member(m, "suffix"@, optional_string(params.suffix));
    let m = with_member(m, "suffix"@, optional_string(params.suffix));
    lemma_with_member(m, "max_tokens"@, optional_integer(params.max_tokens));
    let m = with_member(m, "max_tokens"@, optional_integer(params.max_tokens));
    lemma_with_member(m, "temperature"@, optional_number(params.temperature));
    let m = with_member(m, "temperature"@, optional_number(params.temperature));
    lemma_with_member(m, "top_p"@, optional_number(params.top_p));
    let m = with_member(m, "top_p"@, optional_number(params.top_p));
    lemma_with_member(m, "n"@, optional_integer(params.n));
    let m = with_member(m, "n"@, optional_integer(params.n));
    lemma_with_member(m, "stream"@, optional_bool(params.stream));
    let m = with_member(m, "stream"@, optional_bool(params.stream));
    lemma_with_member(m, "logprobs"@, optional_integer(params.logprobs));
    let m = with_member(m, "logprobs"@, optional_integer(params.logprobs));
    lemma_with_member(m, "echo"@, optional_bool(params.echo));
    let m = with_member(m, "echo"@, optional_bool(params.echo));
    lemma_with_member(m, "stop"@, optional_prompt(params.stop));
    let m = with_member(m, "stop"@, optional_prompt(params.stop));
    lemma_with_member(m, "presence_penalty"@, optional_number(params.presence_penalty));
    let m = with_member(m, "presence_penalty"@, optional_number(params.presence_penalty));
    lemma_with_member(m, "frequency_penalty"@, optional_number(params.frequency_penalty));
    let m = with_member(m, "frequency_penalty"@, optional_number(params.frequency_penalty));
    lemma_with_member(m, "best_of"@, optional_integer(params.best_of));
    let m = with_member(m, "best_of"@, optional_integer(params.best_of));
    lemma_with_member(m, "logit_bias"@, optional_bias(params.logit_bias));
    let m = with_member(m, "logit_bias"@, optional_bias(params.logit_bias));
    lemma_with_member(m, "user"@, optional_string(params.user));
    let m = with_member(m, "user"@, optional_string(params.user));
    assert(m == params.payload());
}

impl Default for CompletionParams {
    fn default() -> (params: Self)
        ensures
            params.model@ == Seq::<char>::empty(),
            params.prompt is None,
            params.only_prompt(),
    {
        CompletionParams {
            model: String::new(),
            prompt: None,
            suffix: None,
            max_tokens: None,
            temperature: None,
            top_p: None,
            n: None,
            stream: None,
            logprobs: None,
            echo: None,
            stop: None,
            presence_penalty: None,
            frequency_penalty: None,
            best_of: None,
            logit_bias: None,
            user: None,
        }
    }
}

/// One candidate of a completion as a mathematical value.
pub struct CompletionChoiceView {
    pub text: Seq<char>,
    pub index: usize,
    pub finish_reason: Seq<char>,
}

#[derive(Debug, Clone)]
pub struct CompletionChoice {
    pub text: String,
    pub index: usize,
    pub finish_reason: String,
}

impl View for CompletionChoice {
    type V = CompletionChoiceView;

    open spec fn view(&self) -> CompletionChoiceView {
        CompletionChoiceView {
            text: self.text@,
            index: self.index,
            finish_reason: self.finish_reason@,
        }
    }
}

impl CompletionChoice {
    /// The candidate that a document describes: an object whose members
    /// `text` and `finish_reason` are strings and whose member `index` is an
    /// integer that fits in a `usize` and is not negative.
    pub open spec fn decode(j: Json) -> Option<CompletionChoiceView> {
        match (
            text_member(j, "text"@),
            integer_member(j, "index"@, 0, usize::MAX as int),
            text_member(j, "finish_reason"@),
        ) {
            (Some(text), Some(index), Some(finish_reason)) => Some(
                CompletionChoiceView { text, index: index as usize, finish_reason },
            ),
            _ => None,
        }
    }

    pub fn from_json(v: &serde_json::Value) -> (r: Option<CompletionChoice>)
        ensures
            views_as(r, CompletionChoice::decode(json_of(*v))),
    {
        let text = match get_text(v, "text") {
            Some(s) => s,
            None => {
                return None;
            },
        };
        let index = match get_usize(v, "index") {
            Some(n) => n,
            None => {
                return None;
            },
        };
        let finish_reason = match get_text(v, "finish_reason") {
            Some(s) => s,
            None => {
                return None;
            },
        };
        Some(CompletionChoice { text, index, finish_reason })
    }
}

/// The answer to a completion request as a mathematical value.
pub struct CompletionView {
    pub id: Seq<char>,
    pub object: Seq<char>,
    pub created: u64,
    pub model: Seq<char>,
    pub choices: Seq<CompletionChoiceView>,
    pub usage: Usage,
}

#[derive(Debug, Clone)]
pub struct Completion {
    pub id: String,
    pub object: String,
    pub created: u64,
    pub model: String,
    pub choices: Vec<CompletionChoice>,
    pub usage: Usage,
}

impl View for Completion {
    type V = CompletionView;

    open spec fn view(&self) -> CompletionView {
        CompletionView {
            id: self.id@,
            object: self.object@,
            created: self.created,
            model: self.model@,
            choices: self.choices@.map_values(|c: CompletionChoice| c@),
            usage: self.usage,
        }
    }
}

impl Completion {
    /// The candidates that the items of an array describe, in order: `None`
    /// unless every item describes one.
    pub open spec fn decode_choices(items: Seq<Json>) -> Option<Seq<CompletionChoiceView>> {
        if forall|i: int|
            0 <= i < items.len() ==> (#[trigger] CompletionChoice::decode(items[i])) is Some {
            Some(items.map_values(|j: Json| CompletionChoice::decode(j)->Some_0))
        } else {
            None
        }
    }

    /// The usage that a document holds under `usage`.
    pub open spec fn decode_usage(j: Json) -> Option<Usage> {
        match member(j, "usage"@) {
            Some(u) => Usage::decode(u),
            None => None,
        }
    }

    /// The choices that a document holds under `choices`.
    pub open spec fn decode_choices_member(j: Json) -> Option<Seq<CompletionChoiceView>> {
        match items_member(j, "choices"@) {
            Some(items) => Completion::decode_choices(items),
            None => None,
        }
    }

    /// The answer that a document describes: an object with the strings
    /// `id`, `object` and `model`, the time `created` as an integer of 64
    /// bits that is not negative, the array `choices` of candidates and the
    /// object `usage`. Other members are passed over.
    pub open spec fn decode(j: Json) -> Option<CompletionView> {
        match (
            text_member(j, "id"@),
            text_member(j, "object"@),
            integer_member(j, "created"@, 0, u64::MAX as int),
            text_member(j, "model"@),
            Completion::decode_choices_member(j),
            Completion::decode_usage(j),
        ) {
            (
                Some(id),
                Some(object),
                Some(created),
                Some(model),
                Some(choices),
                Some(usage),
            ) => Some(
                CompletionView { id, object, created: created as u64, model, choices, usage },
            ),
            _ => None,
        }
    }

    fn choices_from_json(v: &serde_json::Value) -> (r: Option<Vec<CompletionChoice>>)
        ensures
            match r {
                Some(choices) => Completion::decode_choices_member(json_of(*v)) == Some(
                    choices@.map_values(|c: CompletionChoice| c@),
                ),
                None => Completion::decode_choices_member(json_of(*v)) is None,
            },
    {
        let items = match get_items(v, "choices") {
            Some(items) => items,
            None => {
                return None;
            },
        };
        let mut choices: Vec<CompletionChoice> = Vec::new();
        let mut i: usize = 0;
        while i < items.len()
            invariant
                i <= items.len(),
                choices@.len() == i,
                items_member(json_of(*v), "choices"@) == Some(values_of(items@)),
                forall|k: int|
                    0 <= k < i ==> CompletionChoice::decode(json_of(#[trigger] items@[k])) == Some(
                        choices@[k]@,
                    ),
            decreases items.len() - i,
        {
            match CompletionChoice::from_json(&items[i]) {
                Some(choice) => {
                    choices.push(choice);
                },
                None => {
                    assert(CompletionChoice::decode(values_of(items@)[i as int]) is None);
                    return None;
                },
            }
            i += 1;
        }
        proof {
            let docs = values_of(items@);
            assert forall|k: int| 0 <= k < docs.len() implies (#[trigger] CompletionChoice::decode(
                docs[k],
            )) is Some by {
                assert(CompletionChoice::decode(json_of(items@[k])) == Some(choices@[k]@));
            }
            assert(docs.map_values(|j: Json| CompletionChoice::decode(j)->Some_0)
                =~= choices@.map_values(|c: CompletionChoice| c@));
        }
        Some(choices)
    }

    pub fn from_json(v: &serde_json::Value) -> (r: Option<Completion>)
        ensures
            views_as(r, Completion::decode(json_of(*v))),
    {
        let id = match get_text(v, "id") {
            Some(s) => s,
            None => {
                return None;
            },
        };
        let object = match get_text(v, "object") {
            Some(s) => s,
            None => {
                return None;
            },
        };
        let created = match get_u64(v, "created") {
            Some(n) => n,
            None => {
                return None;
            },
        };
        let model = match get_text(v, "model") {
            Some(s) => s,
            None => {
                return None;
            },
        };
        let choices = match Completion::choices_from_json(v) {
            Some(c) => c,
            None => {
                return None;
            },
        };
        let usage = match value_get(v, "usage") {
            Some(u) => match Usage::from_json(u) {
                Some(usage) => usage,
                None => {
                    return None;
                },
            },
            None => {
                return None;
            },
        };
        Some(Completion { id, object, created, model, choices, usage })
    }
}

/// The completion that the outcome of a request brings, or the failure
/// that it stands for.
pub open spec fn completion_reply(outcome: Outcome) -> Result<CompletionView, Error> {
    decoded_reply(outcome, |j: Json| Completion::decode(j))
}

impl Completion {
    /// Reads a completion from what the transport reported. The answer is
    /// handed on as it came.
    pub fn from_reply(outcome: Outcome) -> (r: Result<Completion, Error>)
        ensures
            results_in(r, completion_reply(outcome)),
    {
        let document = match read_reply(outcome) {
            Ok(v) => v,
            Err(e) => {
                return Err(e);
            },
        };
        match Completion::from_json(&document) {
            Some(completion) => Ok(completion),
            None => Err(Error::UnexpectedResponseShape),
        }
    }
}

} // verus!
