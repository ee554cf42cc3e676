use chat_session::conversation::Conversation;
use chat_session::exchange::{
    accept_response, build_request, ChatError, ChatResponse, CREDENTIAL_VAR, ENDPOINT, MODEL,
};
use chat_session::session::{is_exit_command, Action, Config, Session};
use chat_session::turn::{Role, Turn};

fn response(choices: &[&str]) -> ChatResponse {
    ChatResponse { choices: choices.iter().map(|c| c.to_string()).collect() }
}

fn session() -> Session {
    Session::start(Some("sk-test".to_string())).expect("a credential was given")
}

fn turns(c: &Conversation) -> Vec<(Role, String)> {
    (0..c.len()).map(|i| (c.get(i).role(), c.get(i).content().to_string())).collect()
}

fn send(action: Action) -> (Vec<(Role, String)>, String, String) {
    match action {
        Action::Send { request, authorization } => {
            let msgs = request
                .messages
                .iter()
                .map(|t| (t.role(), t.content().to_string()))
                .collect();
            (msgs, request.model, authorization)
        }
        Action::Exit => panic!("expected a request"),
    }
}

#[test]
fn exit_word_in_any_case() {
    assert!(is_exit_command("exit"));
    assert!(is_exit_command("EXIT"));
    assert!(is_exit_command("Exit"));
    assert!(is_exit_command("eXiT"));
    assert!(!is_exit_command("exits"));
    assert!(!is_exit_command("exi"));
    assert!(!is_exit_command(""));
    assert!(!is_exit_command("quit"));
    assert!(!is_exit_command("éxit"));
}

#[test]
fn exit_line_sends_nothing_and_keeps_history() {
    let mut s = session();
    let (_, _, _) = send(s.on_line("hello\n"));
    s.on_response(response(&["hi"])).unwrap();
    for line in ["exit\n", "EXIT", "  Exit  \n"] {
        assert!(matches!(s.on_line(line), Action::Exit));
        assert_eq!(s.conversation().len(), 2);
    }
}

#[test]
fn line_is_trimmed_before_it_is_recorded() {
    let mut s = session();
    let (msgs, _, _) = send(s.on_line("  hello there \r\n"));
    assert_eq!(msgs, vec![(Role::User, "hello there".to_string())]);
}

#[test]
fn each_exchange_adds_two_turns() {
    let mut s = session();
    for (k, q) in ["one", "two", "three"].iter().enumerate() {
        send(s.on_line(q));
        assert_eq!(s.conversation().len(), 2 * k + 1);
        let reply = format!("answer {}", k);
        s.on_response(response(&[reply.as_str()])).unwrap();
        assert_eq!(s.conversation().len(), 2 * k + 2);
    }
    let all = turns(s.conversation());
    assert_eq!(all[0], (Role::User, "one".to_string()));
    assert_eq!(all[1], (Role::Assistant, "answer 0".to_string()));
    assert_eq!(all[4], (Role::User, "three".to_string()));
    assert_eq!(all[5], (Role::Assistant, "answer 2".to_string()));
}

#[test]
fn last_choice_is_the_reply() {
    let mut s = session();
    send(s.on_line("pick"));
    let r = s.on_response(response(&["a", "b"])).unwrap();
    assert_eq!(r, "b");
    let all = turns(s.conversation());
    assert_eq!(all.len(), 2);
    assert_eq!(all[1], (Role::Assistant, "b".to_string()));
}

#[test]
fn empty_choices_fail_without_a_turn() {
    let mut s = session();
    send(s.on_line("anyone?"));
    let r = s.on_response(response(&[]));
    assert!(matches!(r, Err(ChatError::EmptyResponse)));
    assert_eq!(s.conversation().len(), 1);
    assert_eq!(r.unwrap_err().message(), "No response from AI");
}

#[test]
fn every_request_carries_the_whole_history() {
    let mut s = session();
    send(s.on_line("first"));
    s.on_response(response(&["reply one"])).unwrap();
    send(s.on_line("second"));
    s.on_response(response(&["x", "reply two"])).unwrap();
    let (msgs, model, authorization) = send(s.on_line("third"));
    assert_eq!(
        msgs,
        vec![
            (Role::User, "first".to_string()),
            (Role::Assistant, "reply one".to_string()),
            (Role::User, "second".to_string()),
            (Role::Assistant, "reply two".to_string()),
            (Role::User, "third".to_string()),
        ]
    );
    assert_eq!(model, "gpt-3.5-turbo");
    assert_eq!(authorization, "Bearer sk-test");
}

#[test]
fn missing_credential_stops_start() {
    assert!(matches!(Session::start(None), Err(ChatError::Credential)));
    assert!(matches!(Config::from_credential(None), Err(ChatError::Credential)));
    assert_eq!(ChatError::Credential.message(), "OPENAI_API_KEY not set");
}

#[test]
fn credential_builds_bearer_header() {
    let c = Config::from_credential(Some("abc123".to_string())).unwrap();
    assert_eq!(c.api_key(), "abc123");
    assert_eq!(c.authorization(), "Bearer abc123");
    let s = session();
    assert_eq!(s.config().api_key(), "sk-test");
    assert_eq!(s.conversation().len(), 0);
}

#[test]
fn request_from_conversation() {
    let mut c = Conversation::new();
    c.append(Turn::new(Role::User, "hi".to_string()));
    c.append(Turn::new(Role::Assistant, "hello".to_string()));
    let r = build_request(&c);
    assert_eq!(r.model, MODEL);
    assert_eq!(r.messages.len(), 2);
    assert_eq!(r.messages[0].role().name(), "user");
    assert_eq!(r.messages[1].role().name(), "assistant");
    assert_eq!(r.messages[1].content(), "hello");
    assert_eq!(c.snapshot().len(), 2);
}

#[test]
fn accept_response_on_a_conversation() {
    let mut c = Conversation::new();
    c.append(Turn::new(Role::User, "q".to_string()));
    assert_eq!(accept_response(&mut c, response(&["only"])).unwrap(), "only");
    assert_eq!(c.len(), 2);
    assert!(accept_response(&mut c, response(&[])).is_err());
    assert_eq!(c.len(), 2);
}

#[test]
fn error_messages_and_constants() {
    assert_eq!(ChatError::Transport("down".to_string()).message(), "down");
    assert_eq!(ChatError::Decode("bad json".to_string()).message(), "bad json");
    assert_eq!(ENDPOINT, "https://api.openai.com/v1/chat/completions");
    assert_eq!(CREDENTIAL_VAR, "OPENAI_API_KEY");
    let t = Turn::new(Role::User, "x".to_string());
    let d = t.duplicate();
    assert_eq!(d.role(), Role::User);
    assert_eq!(d.content(), "x");
}
