use rust_openai_lib::chat::{assign_roles, Role};
use rust_openai_lib::transport::{Method, Outcome, Request, Response};
use rust_openai_lib::{Chat, ChatResponse, ChatResponseChoice, ChatStop, Config, Error, Message, OpenAi};
use rust_openai_lib::types::Usage;

fn client() -> OpenAi {
    let config = Config { api_key: Some("sk-test"), ..Default::default() };
    match OpenAi::new(&config) {
        Ok(client) => client,
        Err(e) => panic!("no client: {}", e.description()),
    }
}

fn fresh() -> Chat {
    client().start_chat("gpt-3.5-turbo")
}

fn roles(chat: &Chat) -> Vec<String> {
    chat.messages.iter().map(|m| m.role.clone()).collect()
}

fn contents(chat: &Chat) -> Vec<String> {
    chat.messages.iter().map(|m| m.content.clone()).collect()
}

fn envelope(choices: &str) -> String {
    format!(
        "{{\"id\":\"chatcmpl-1\",\"object\":\"chat.completion\",\"created\":1677652288,\"choices\":[{}],\"usage\":{{\"prompt_tokens\":9,\"completion_tokens\":12,\"total_tokens\":21}}}}",
        choices
    )
}

fn choice(index: u32, role: &str, content: &str) -> String {
    format!(
        "{{\"index\":{},\"message\":{{\"role\":\"{}\",\"content\":\"{}\"}},\"finish_reason\":\"stop\"}}",
        index, role, content
    )
}

fn ok(body: String) -> Outcome {
    Ok(Response { status: 200, body })
}

#[test]
fn message_new_keeps_role_and_content() {
    let m = Message::new("system", "you are a raccoon");
    assert_eq!(m.role, "system");
    assert_eq!(m.content, "you are a raccoon");
}

#[test]
fn start_chat_is_empty_and_plain() {
    let chat = fresh();
    assert_eq!(chat.model, "gpt-3.5-turbo");
    assert!(chat.messages.is_empty());
    assert!(chat.temperature.is_none());
    assert!(chat.top_p.is_none());
    assert!(chat.n.is_none());
    assert!(chat.stream.is_none());
    assert!(chat.stop.is_none());
    assert!(chat.max_tokens.is_none());
    assert!(chat.presence_penalty.is_none());
    assert!(chat.frequency_penalty.is_none());
    assert!(chat.user.is_none());
}

#[test]
fn bootstrap_on_empty_starts_with_system_then_alternates() {
    let mut chat = fresh();
    chat.instructions(&["a", "b", "c", "d", "e"]);
    assert_eq!(roles(&chat), vec!["system", "user", "assistant", "user", "assistant"]);
    assert_eq!(contents(&chat), vec!["a", "b", "c", "d", "e"]);
}

#[test]
fn bootstrap_in_several_calls_keeps_alternating() {
    let mut chat = fresh();
    chat.instructions(&["a"]);
    chat.instructions(&["b", "c"]);
    chat.instructions(&[]);
    chat.instructions(&["d"]);
    assert_eq!(roles(&chat), vec!["system", "user", "assistant", "user"]);
    assert_eq!(contents(&chat), vec!["a", "b", "c", "d"]);
}

#[test]
fn bootstrap_on_one_message_continues_with_user() {
    let mut chat = fresh();
    chat.messages.push(Message::new("system", "s"));
    chat.instructions(&["x", "y", "z"]);
    assert_eq!(roles(&chat), vec!["system", "user", "assistant", "user"]);
}

#[test]
fn bootstrap_on_two_messages_continues_with_assistant() {
    let mut chat = fresh();
    chat.messages.push(Message::new("system", "s"));
    chat.messages.push(Message::new("user", "u"));
    chat.instructions(&["x", "y"]);
    assert_eq!(roles(&chat), vec!["system", "user", "assistant", "user"]);
    assert_eq!(contents(&chat), vec!["s", "u", "x", "y"]);
}

#[test]
fn bootstrap_goes_by_length_not_by_the_roles_present() {
    let mut chat = fresh();
    chat.messages.push(Message::new("user", "first"));
    chat.messages.push(Message::new("user", "second"));
    chat.messages.push(Message::new("user", "third"));
    chat.instructions(&["x", "y"]);
    assert_eq!(roles(&chat), vec!["user", "user", "user", "user", "assistant"]);
}

#[test]
fn bootstrap_of_nothing_changes_nothing() {
    let mut chat = fresh();
    chat.instructions(&[]);
    assert_eq!(chat.messages.len(), 0);
    chat.instructions(&["a", "b"]);
    chat.instructions(&[]);
    assert_eq!(chat.messages.len(), 2);
    assert_eq!(roles(&chat), vec!["system", "user"]);
}

#[test]
fn bootstrap_twice_gives_two_segments() {
    let mut chat = fresh();
    chat.instructions(&["same"]);
    chat.instructions(&["same"]);
    assert_eq!(roles(&chat), vec!["system", "user"]);
    assert_eq!(contents(&chat), vec!["same", "same"]);
}

#[test]
fn bootstrap_keeps_empty_and_spaced_texts_whole() {
    let mut chat = fresh();
    chat.instructions(&["", "  two words  "]);
    assert_eq!(contents(&chat), vec!["", "  two words  "]);
}

#[test]
fn assigned_roles_follow_the_position() {
    assert_eq!(assign_roles(0, 0), Vec::<Role>::new());
    assert_eq!(assign_roles(0, 4), vec![Role::System, Role::User, Role::Assistant, Role::User]);
    assert_eq!(assign_roles(1, 3), vec![Role::User, Role::Assistant, Role::User]);
    assert_eq!(assign_roles(2, 2), vec![Role::Assistant, Role::User]);
    assert_eq!(assign_roles(7, 1), vec![Role::User]);
    assert_eq!(assign_roles(usize::MAX, 2), vec![Role::User, Role::Assistant]);
    assert_eq!(assign_roles(usize::MAX - 1, 3), vec![Role::Assistant, Role::User, Role::Assistant]);
    assert_eq!(Role::next(0), Role::System);
    assert_eq!(Role::next(1), Role::User);
    assert_eq!(Role::next(2), Role::Assistant);
    assert_eq!(Role::System.as_str(), "system");
    assert_eq!(Role::User.as_str(), "user");
    assert_eq!(Role::Assistant.as_str(), "assistant");
}

#[test]
fn scenario_be_terse_then_hi() {
    let mut chat = fresh();
    chat.instructions(&["be terse"]);
    assert_eq!(roles(&chat), vec!["system"]);
    assert_eq!(contents(&chat), vec!["be terse"]);
    let reply = chat.send("hi", |_request: Request| ok(envelope(&choice(0, "assistant", " hello "))));
    assert_eq!(reply.ok(), Some("hello".to_string()));
    assert_eq!(roles(&chat), vec!["system", "user", "assistant"]);
    assert_eq!(contents(&chat), vec!["be terse", "hi", " hello "]);
}

#[test]
fn successful_send_grows_history_by_two() {
    let mut chat = fresh();
    chat.instructions(&["s", "u", "a"]);
    let before = chat.messages.len();
    let reply = chat.send("next", |_request: Request| {
        ok(envelope(&choice(0, "assistant", "\\n\\t answer with  inner space \\r\\n")))
    });
    assert_eq!(reply.ok(), Some("answer with  inner space".to_string()));
    assert_eq!(chat.messages.len(), before + 2);
    assert_eq!(chat.messages[before].role, "user");
    assert_eq!(chat.messages[before].content, "next");
    assert_eq!(chat.messages[before + 1].role, "assistant");
    assert_eq!(chat.messages[before + 1].content, "\n\t answer with  inner space \r\n");
}

#[test]
fn send_trusts_the_role_that_came() {
    let mut chat = fresh();
    let reply = chat.send("q", |_request: Request| ok(envelope(&choice(0, "narrator", "voice"))));
    assert_eq!(reply.ok(), Some("voice".to_string()));
    assert_eq!(roles(&chat), vec!["user", "narrator"]);
}

#[test]
fn send_takes_the_first_of_several_choices() {
    let mut chat = fresh();
    chat.n = Some(2);
    let body = envelope(&format!("{},{}", choice(0, "assistant", "one"), choice(1, "assistant", "two")));
    let reply = chat.send("q", move |_request: Request| ok(body));
    assert_eq!(reply.ok(), Some("one".to_string()));
    assert_eq!(contents(&chat), vec!["q", "one"]);
}

#[test]
fn send_forwards_the_empty_message() {
    let mut chat = fresh();
    let mut seen: Option<String> = None;
    let reply = chat.send("", |request: Request| {
        seen = request.body.clone();
        ok(envelope(&choice(0, "assistant", "   ")))
    });
    assert_eq!(reply.ok(), Some(String::new()));
    assert_eq!(contents(&chat), vec!["", "   "]);
    let body: serde_json::Value = serde_json::from_str(&seen.unwrap()).unwrap();
    assert_eq!(body["messages"][0]["content"], "");
    assert_eq!(body["messages"][0]["role"], "user");
}

#[test]
fn failed_transport_leaves_the_user_message() {
    let mut chat = fresh();
    chat.instructions(&["be terse"]);
    let reply = chat.send("hi", |_request: Request| Err("connection refused".to_string()));
    match reply {
        Err(Error::ReqwestError(detail)) => assert_eq!(detail, "connection refused"),
        other => panic!("unexpected: {:?}", other),
    }
    assert_eq!(chat.messages.len(), 2);
    assert_eq!(roles(&chat), vec!["system", "user"]);
    assert_eq!(contents(&chat), vec!["be terse", "hi"]);
}

#[test]
fn empty_choice_list_is_its_own_failure() {
    let mut chat = fresh();
    let reply = chat.send("hi", |_request: Request| ok(envelope("")));
    assert!(matches!(reply, Err(Error::EmptyChoiceSet)));
    assert_eq!(contents(&chat), vec!["hi"]);
}

#[test]
fn body_that_is_no_json_is_a_shape_failure() {
    let mut chat = fresh();
    let reply = chat.send("hi", |_request: Request| ok("<html>".to_string()));
    assert!(matches!(reply, Err(Error::UnexpectedResponseShape)));
    assert_eq!(contents(&chat), vec!["hi"]);
}

#[test]
fn body_without_the_envelope_members_is_a_shape_failure() {
    let bodies = [
        "{}",
        "[]",
        "null",
        "{\"choices\":[]}",
        "{\"id\":\"x\",\"object\":\"o\",\"created\":1,\"choices\":{},\"usage\":{\"prompt_tokens\":1,\"completion_tokens\":1,\"total_tokens\":2}}",
        "{\"id\":\"x\",\"object\":\"o\",\"created\":1.5,\"choices\":[],\"usage\":{\"prompt_tokens\":1,\"completion_tokens\":1,\"total_tokens\":2}}",
        "{\"id\":\"x\",\"object\":\"o\",\"created\":1,\"choices\":[],\"usage\":{\"prompt_tokens\":-1,\"completion_tokens\":1,\"total_tokens\":2}}",
        "{\"id\":\"x\",\"object\":\"o\",\"created\":1,\"choices\":[],\"usage\":{\"prompt_tokens\":4294967296,\"completion_tokens\":1,\"total_tokens\":2}}",
        "{\"id\":\"x\",\"object\":\"o\",\"created\":1,\"choices\":[{\"index\":0,\"message\":{\"role\":\"assistant\"},\"finish_reason\":\"stop\"}],\"usage\":{\"prompt_tokens\":1,\"completion_tokens\":1,\"total_tokens\":2}}",
        "{\"id\":\"x\",\"object\":\"o\",\"created\":1,\"choices\":[{\"index\":0,\"message\":{\"role\":\"assistant\",\"content\":\"c\"},\"finish_reason\":null}],\"usage\":{\"prompt_tokens\":1,\"completion_tokens\":1,\"total_tokens\":2}}",
    ];
    for body in bodies {
        let mut chat = fresh();
        let reply = chat.send("hi", |_request: Request| ok(body.to_string()));
        assert!(matches!(reply, Err(Error::UnexpectedResponseShape)), "{}", body);
        assert_eq!(contents(&chat), vec!["hi"]);
    }
}

#[test]
fn a_bad_second_choice_spoils_the_envelope() {
    let mut chat = fresh();
    let body = envelope(&format!("{},{}", choice(0, "assistant", "one"), "{\"index\":1}"));
    let reply = chat.send("q", move |_request: Request| ok(body));
    assert!(matches!(reply, Err(Error::UnexpectedResponseShape)));
    assert_eq!(contents(&chat), vec!["q"]);
}

#[test]
fn unknown_members_are_passed_over() {
    let mut chat = fresh();
    let body = "{\"id\":\"x\",\"object\":\"o\",\"created\":-5,\"model\":\"m\",\"choices\":[{\"index\":0,\"message\":{\"role\":\"assistant\",\"content\":\"c\",\"name\":null},\"finish_reason\":\"stop\",\"logprobs\":null}],\"usage\":{\"prompt_tokens\":1,\"completion_tokens\":1,\"total_tokens\":7},\"system_fingerprint\":\"f\"}";
    let reply = chat.send("q", |_request: Request| ok(body.to_string()));
    assert_eq!(reply.ok(), Some("c".to_string()));
}

#[test]
fn failure_status_is_reported_and_leaves_the_user_message() {
    let mut chat = fresh();
    let reply = chat.send("hi", |_request: Request| {
        Ok(Response { status: 500, body: envelope(&choice(0, "assistant", "ignored")) })
    });
    assert!(matches!(reply, Err(Error::InternalServerError)));
    assert_eq!(contents(&chat), vec!["hi"]);
}

#[test]
fn send_after_a_failure_still_carries_the_dangling_turn() {
    let mut chat = fresh();
    let _ = chat.send("first", |_request: Request| Err("down".to_string()));
    let mut seen: Option<String> = None;
    let reply = chat.send("second", |request: Request| {
        seen = request.body.clone();
        ok(envelope(&choice(0, "assistant", "there")))
    });
    assert_eq!(reply.ok(), Some("there".to_string()));
    assert_eq!(roles(&chat), vec!["user", "user", "assistant"]);
    assert_eq!(contents(&chat), vec!["first", "second", "there"]);
    let body: serde_json::Value = serde_json::from_str(&seen.unwrap()).unwrap();
    assert_eq!(body["messages"].as_array().unwrap().len(), 2);
}

#[test]
fn begin_and_finish_make_one_turn() {
    let mut chat = fresh();
    chat.instructions(&["be terse"]);
    let request = chat.begin_send("hi");
    assert_eq!(chat.messages.len(), 2);
    assert_eq!(request.method, Method::Post);
    assert_eq!(request.url, "https://api.openai.com/v1/chat/completions");
    let headers: Vec<(String, String)> =
        request.headers.iter().map(|h| (h.name.clone(), h.value.clone())).collect();
    assert_eq!(
        headers,
        vec![
            ("Authorization".to_string(), "Bearer sk-test".to_string()),
            ("Content-Type".to_string(), "application/json".to_string()),
        ]
    );
    let body: serde_json::Value = serde_json::from_str(request.body.as_ref().unwrap()).unwrap();
    assert_eq!(body["model"], "gpt-3.5-turbo");
    assert_eq!(body["messages"][0]["role"], "system");
    assert_eq!(body["messages"][0]["content"], "be terse");
    assert_eq!(body["messages"][1]["role"], "user");
    assert_eq!(body["messages"][1]["content"], "hi");
    assert_eq!(body["messages"].as_array().unwrap().len(), 2);
    let reply = chat.finish_send(ok(envelope(&choice(0, "assistant", " hello "))));
    assert_eq!(reply.ok(), Some("hello".to_string()));
    assert_eq!(chat.messages.len(), 3);
}

#[test]
fn receive_folds_a_parsed_answer() {
    let mut chat = fresh();
    chat.instructions(&["be terse"]);
    let response = ChatResponse {
        id: "chatcmpl-1".to_string(),
        object: "chat.completion".to_string(),
        created: 1,
        choices: vec![ChatResponseChoice {
            index: 0,
            message: Message::new("assistant", "\u{a0}\u{3000} wide \u{2003}"),
            finish_reason: "stop".to_string(),
        }],
        usage: Usage { prompt_tokens: 1, completion_tokens: 2, total_tokens: 3 },
    };
    let reply = chat.receive(response);
    assert_eq!(reply.ok(), Some("wide".to_string()));
    assert_eq!(chat.messages.len(), 2);
    assert_eq!(chat.messages[1].content, "\u{a0}\u{3000} wide \u{2003}");
    let empty = ChatResponse {
        id: String::new(),
        object: String::new(),
        created: 0,
        choices: Vec::new(),
        usage: Usage { prompt_tokens: 0, completion_tokens: 0, total_tokens: 0 },
    };
    assert!(matches!(chat.receive(empty), Err(Error::EmptyChoiceSet)));
    assert_eq!(chat.messages.len(), 2);
}

#[test]
fn chat_response_is_read_from_json() {
    let text = envelope(&format!("{},{}", choice(0, "assistant", "one"), choice(7, "assistant", "two")));
    let value: serde_json::Value = serde_json::from_str(&text).unwrap();
    let response = ChatResponse::from_json(&value).unwrap();
    assert_eq!(response.id, "chatcmpl-1");
    assert_eq!(response.object, "chat.completion");
    assert_eq!(response.created, 1677652288);
    assert_eq!(response.choices.len(), 2);
    assert_eq!(response.choices[1].index, 7);
    assert_eq!(response.choices[1].message.content, "two");
    assert_eq!(response.choices[1].finish_reason, "stop");
    assert_eq!(response.usage.prompt_tokens, 9);
    assert_eq!(response.usage.completion_tokens, 12);
    assert_eq!(response.usage.total_tokens, 21);
}

#[test]
fn stop_is_a_bare_string_or_a_list() {
    let one = ChatStop::String("END".to_string());
    assert_eq!(one.to_json(), serde_json::Value::from("END"));
    assert_eq!(one.to_json().to_string(), "\"END\"");
    let many = ChatStop::Array(vec!["b".to_string(), "a".to_string(), "b".to_string()]);
    assert_eq!(many.to_json().to_string(), "[\"b\",\"a\",\"b\"]");
    let none = ChatStop::Array(Vec::new());
    assert_eq!(none.to_json().to_string(), "[]");
    let single = ChatStop::Array(vec!["x".to_string()]);
    assert_eq!(single.to_json().to_string(), "[\"x\"]");
}

#[test]
fn stop_round_trips() {
    let cases = vec![
        ChatStop::String("END".to_string()),
        ChatStop::String(String::new()),
        ChatStop::Array(Vec::new()),
        ChatStop::Array(vec!["x".to_string()]),
        ChatStop::Array(vec!["b".to_string(), "a \"quoted\"\n".to_string(), "b".to_string()]),
    ];
    for stop in cases {
        let text = stop.to_json().to_string();
        let value: serde_json::Value = serde_json::from_str(&text).unwrap();
        match (ChatStop::from_json(&value), &stop) {
            (Some(ChatStop::String(a)), ChatStop::String(b)) => assert_eq!(&a, b),
            (Some(ChatStop::Array(a)), ChatStop::Array(b)) => assert_eq!(&a, b),
            (other, _) => panic!("{:?} came back as {:?}", stop, other),
        }
    }
}

#[test]
fn stop_is_not_read_from_other_documents() {
    for text in ["1", "null", "true", "{}", "[1]", "[\"a\", null]", "[[\"a\"]]"] {
        let value: serde_json::Value = serde_json::from_str(text).unwrap();
        assert!(ChatStop::from_json(&value).is_none(), "{}", text);
    }
}

#[test]
fn unset_parameters_are_absent_from_the_payload() {
    let mut chat = fresh();
    chat.instructions(&["s"]);
    let value = chat.to_json();
    let object = value.as_object().unwrap();
    let keys: Vec<&str> = object.keys().map(|k| k.as_str()).collect();
    assert_eq!(keys, vec!["messages", "model"]);
    let text = chat.begin_send("hi").body.unwrap();
    assert!(!text.contains("null"));
    assert!(!text.contains("temperature"));
    assert!(!text.contains("stop"));
}

#[test]
fn set_parameters_go_under_their_wire_names() {
    let mut chat = fresh();
    chat.temperature = serde_json::Number::from_f64(0.5);
    chat.top_p = serde_json::Number::from_f64(0.25);
    chat.n = Some(3);
    chat.stream = Some(false);
    chat.stop = Some(ChatStop::Array(vec!["a".to_string(), "b".to_string()]));
    chat.max_tokens = Some(64);
    chat.presence_penalty = serde_json::Number::from_f64(-1.5);
    chat.frequency_penalty = serde_json::Number::from_f64(2.0);
    chat.user = Some("caller-7".to_string());
    let value = chat.to_json();
    let object = value.as_object().unwrap();
    let mut keys: Vec<&str> = object.keys().map(|k| k.as_str()).collect();
    keys.sort();
    assert_eq!(
        keys,
        vec![
            "frequency_penalty",
            "max_tokens",
            "messages",
            "model",
            "n",
            "presence_penalty",
            "stop",
            "stream",
            "temperature",
            "top_p",
            "user",
        ]
    );
    assert_eq!(value["temperature"].as_f64(), Some(0.5));
    assert_eq!(value["top_p"].as_f64(), Some(0.25));
    assert_eq!(value["n"], 3);
    assert_eq!(value["stream"], false);
    assert_eq!(value["stop"][0], "a");
    assert_eq!(value["stop"][1], "b");
    assert_eq!(value["max_tokens"], 64);
    assert_eq!(value["presence_penalty"].as_f64(), Some(-1.5));
    assert_eq!(value["frequency_penalty"].as_f64(), Some(2.0));
    assert_eq!(value["user"], "caller-7");
    assert_eq!(value["model"], "gpt-3.5-turbo");
    assert_eq!(value["messages"].as_array().unwrap().len(), 0);
}

#[test]
fn each_parameter_alone_adds_exactly_its_key() {
    let expect = |chat: &Chat, key: &str| {
        let value = chat.to_json();
        let mut keys: Vec<String> = value.as_object().unwrap().keys().cloned().collect();
        keys.sort();
        let mut wanted = vec!["messages".to_string(), "model".to_string(), key.to_string()];
        wanted.sort();
        assert_eq!(keys, wanted);
    };
    let mut chat = fresh();
    chat.temperature = serde_json::Number::from_f64(1.0);
    expect(&chat, "temperature");
    let mut chat = fresh();
    chat.top_p = serde_json::Number::from_f64(1.0);
    expect(&chat, "top_p");
    let mut chat = fresh();
    chat.n = Some(0);
    expect(&chat, "n");
    let mut chat = fresh();
    chat.stream = Some(true);
    expect(&chat, "stream");
    let mut chat = fresh();
    chat.stop = Some(ChatStop::String("x".to_string()));
    expect(&chat, "stop");
    assert_eq!(chat.to_json()["stop"], "x");
    let mut chat = fresh();
    chat.max_tokens = Some(u32::MAX);
    expect(&chat, "max_tokens");
    assert_eq!(chat.to_json()["max_tokens"], 4294967295u32);
    let mut chat = fresh();
    chat.presence_penalty = serde_json::Number::from_f64(0.0);
    expect(&chat, "presence_penalty");
    let mut chat = fresh();
    chat.frequency_penalty = serde_json::Number::from_f64(0.0);
    expect(&chat, "frequency_penalty");
    let mut chat = fresh();
    chat.user = Some(String::new());
    expect(&chat, "user");
}

#[test]
fn message_goes_to_json_and_back() {
    let m = Message::new("user", "a \"b\" \\ c");
    let value = m.to_json();
    assert_eq!(value.to_string(), "{\"content\":\"a \\\"b\\\" \\\\ c\",\"role\":\"user\"}");
    let back = Message::from_json(&value).unwrap();
    assert_eq!(back.role, "user");
    assert_eq!(back.content, "a \"b\" \\ c");
    let partial: serde_json::Value = serde_json::from_str("{\"role\":\"user\"}").unwrap();
    assert!(Message::from_json(&partial).is_none());
    let wrong: serde_json::Value = serde_json::from_str("{\"role\":\"user\",\"content\":1}").unwrap();
    assert!(Message::from_json(&wrong).is_none());
}

#[test]
fn default_chat_is_empty() {
    let chat = Chat::default();
    assert_eq!(chat.model, "");
    assert!(chat.messages.is_empty());
    assert_eq!(chat.to_json().to_string(), "{\"messages\":[],\"model\":\"\"}");
    let mut chat = chat;
    let request = chat.begin_send("x");
    assert_eq!(request.url, "/v0/chat/completions");
}

#[test]
fn messages_are_reached_through_the_chat() {
    let mut chat = fresh();
    chat.push(Message::new("system", "you are a raccoon"));
    assert_eq!(chat.len(), 1);
    assert_eq!(chat[0].role, "system");
    chat.instructions(&["hello"]);
    assert_eq!(chat.len(), 2);
    assert_eq!(chat.last().unwrap().role, "user");
    chat.clear();
    chat.instructions(&["again"]);
    assert_eq!(chat[0].role, "system");
}

#[test]
fn clone_of_a_chat_is_independent() {
    let mut chat = fresh();
    chat.instructions(&["a"]);
    let mut copy = chat.clone();
    copy.instructions(&["b"]);
    assert_eq!(chat.messages.len(), 1);
    assert_eq!(copy.messages.len(), 2);
    let request = copy.begin_send("c");
    assert_eq!(request.url, "https://api.openai.com/v1/chat/completions");
    assert_eq!(request.headers[0].value, "Bearer sk-test");
}
