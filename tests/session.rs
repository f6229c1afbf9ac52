use ai_chat::config::{Config, ModelType};
use ai_chat::ddg::{DDGChat, DDGChatModel, DDGResponse, Error, MessageRole};
use ai_chat::wire::JsonMember;

fn open_chat(model: DDGChatModel) -> DDGChat {
    match DDGChat::new(model, Some("tok-1".to_string())) {
        Ok(chat) => chat,
        Err(_) => panic!("a session with a token must open"),
    }
}

#[test]
fn handshake_without_token_fails() {
    assert!(matches!(DDGChat::new(DDGChatModel::GPT4oMini, None), Err(Error::NoVqdReceived)));
}

#[test]
fn handshake_token_is_kept() {
    let chat = open_chat(DDGChatModel::Mixtral8x7B);
    assert_eq!(chat.vqd(), "tok-1");
    assert!(chat.messages().is_empty());
    assert_eq!(chat.model().identifier(), "mistralai/Mixtral-8x7B-Instruct-v0.1");
}

#[test]
fn exchanges_alternate_in_history() {
    let mut chat = open_chat(DDGChatModel::GPT4oMini);
    for n in 1..=3usize {
        chat.send_message(&format!("question {n}"));
        let mut resp = DDGResponse::new();
        let frag = format!("data: {{\"action\":\"success\",\"message\":\"answer {n}\"}}\n");
        assert!(resp.next(&mut chat, Some(frag)).is_ok());
        assert!(matches!(resp.next(&mut chat, Some("data: [DONE]\n".to_string())), Ok(None)));
        assert_eq!(chat.messages().len(), 2 * n);
    }
    for (i, m) in chat.messages().iter().enumerate() {
        let k = i / 2 + 1;
        if i % 2 == 0 {
            assert_eq!(m.role, MessageRole::User);
            assert_eq!(m.content, format!("question {k}"));
        } else {
            assert_eq!(m.role, MessageRole::Assistant);
            assert_eq!(m.content, format!("answer {k}"));
        }
    }
}

#[test]
fn token_follows_response_headers() {
    let mut chat = open_chat(DDGChatModel::GPT4oMini);
    chat.update_vqd(Some("tok-2".to_string()));
    assert_eq!(chat.vqd(), "tok-2");
    chat.update_vqd(None);
    assert_eq!(chat.vqd(), "tok-2");
    chat.update_vqd(Some("tok-3".to_string()));
    chat.update_vqd(None);
    assert_eq!(chat.vqd(), "tok-3");
}

#[test]
fn request_body_holds_model_and_history() {
    let mut chat = open_chat(DDGChatModel::GPT4oMini);
    let body = chat.send_message("hi");
    assert_eq!(body, r#"{"model":"gpt-4o-mini","messages":[{"role":"user","content":"hi"}]}"#);
    let mut resp = DDGResponse::new();
    resp.next(&mut chat, Some("{\"action\":\"success\",\"message\":\"yo\"}\n".to_string())).ok();
    resp.next(&mut chat, Some("[DONE]\n".to_string())).ok();
    let body = chat.send_message("say \"x\"");
    assert_eq!(
        body,
        r#"{"model":"gpt-4o-mini","messages":[{"role":"user","content":"hi"},{"role":"assistant","content":"yo"},{"role":"user","content":"say \"x\""}]}"#
    );
    assert_eq!(chat.request_body(), body);
}

#[test]
fn model_identifiers() {
    assert_eq!(DDGChatModel::GPT4oMini.identifier(), "gpt-4o-mini");
    assert_eq!(DDGChatModel::Llama370B.identifier(), "meta-llama/Meta-Llama-3.1-70B-Instruct-Turbo");
    assert_eq!(DDGChatModel::Mixtral8x7B.identifier(), "mistralai/Mixtral-8x7B-Instruct-v0.1");
    assert_eq!(DDGChatModel::Other("o3-mini".to_string()).identifier(), "o3-mini");
    assert_eq!(MessageRole::User.wire_name(), "user");
    assert_eq!(MessageRole::Assistant.wire_name(), "assistant");
}

#[test]
fn other_model_is_sent_by_its_identifier() {
    let mut chat = open_chat(DDGChatModel::Other("o3-mini".to_string()));
    let body = chat.send_message("a");
    assert_eq!(body, r#"{"model":"o3-mini","messages":[{"role":"user","content":"a"}]}"#);
}

#[test]
fn members_decide_the_message() {
    let m = |k: &str, v: Option<&str>| JsonMember { key: k.to_string(), text: v.map(|s| s.to_string()) };
    assert_eq!(ai_chat::ddg::message_from_members(None), Err(()));
    assert_eq!(
        ai_chat::ddg::message_from_members(Some(vec![m("action", Some("success")), m("message", Some("hey"))])),
        Ok(Some("hey".to_string()))
    );
    assert_eq!(ai_chat::ddg::message_from_members(Some(vec![m("action", Some("success"))])), Ok(None));
    assert_eq!(ai_chat::ddg::message_from_members(Some(vec![m("action", Some("error"))])), Err(()));
    assert_eq!(ai_chat::ddg::message_from_members(Some(vec![m("action", None)])), Err(()));
    assert_eq!(ai_chat::ddg::message_from_members(Some(vec![m("message", Some("x"))])), Err(()));
    assert_eq!(
        ai_chat::ddg::message_from_members(Some(vec![m("action", Some("success")), m("message", None)])),
        Err(())
    );
}

#[test]
fn parse_message_data_reads_records() {
    assert_eq!(ai_chat::ddg::parse_message_data(r#"{"message":"m","action":"success"}"#), Ok(Some("m".to_string())));
    assert_eq!(ai_chat::ddg::parse_message_data(r#"{"action":"success"}"#), Ok(None));
    assert_eq!(ai_chat::ddg::parse_message_data(r#"{"action":"fail"}"#), Err(()));
    assert_eq!(ai_chat::ddg::parse_message_data("nope"), Err(()));
}

#[test]
fn config_defaults() {
    let c = Config::default();
    assert_eq!(c.model, ModelType::Duckduckgo);
    assert!(c.ddg_chat_model.is_none());
    assert!(matches!(c.chat_model(), DDGChatModel::GPT4oMini));
    let c = Config { model: ModelType::default(), ddg_chat_model: Some(DDGChatModel::Llama370B) };
    assert!(matches!(c.chat_model(), DDGChatModel::Llama370B));
}
