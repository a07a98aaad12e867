use echo_router::command::{after_reply, dispatch, AfterReply, Listener, Reply};

#[test]
fn ping_draws_exactly_one_pong() {
    let replies = dispatch("!ping");
    assert_eq!(replies.len(), 1);
    assert_eq!(replies[0], Reply::Pong);
    assert_eq!(replies[0].text(), "Pong!");
}

#[test]
fn random_text_draws_no_reply() {
    assert!(dispatch("random text").is_empty());
}

#[test]
fn check_draws_exactly_one_hello() {
    let replies = dispatch("!check");
    assert_eq!(replies, vec![Reply::Hello]);
    assert_eq!(replies[0].text(), "Hello!");
}

#[test]
fn triggers_match_only_exactly() {
    for content in ["", "!ping ", " !ping", "!PING", "!pin", "!pingg", "ping", "!check!", "!Check", "!ping!check"] {
        assert!(dispatch(content).is_empty(), "{:?}", content);
        assert_eq!(Listener::Ping.on_message(content), None);
        assert_eq!(Listener::Check.on_message(content), None);
    }
}

#[test]
fn listeners_decide_independently() {
    assert_eq!(Listener::Ping.on_message("!ping"), Some(Reply::Pong));
    assert_eq!(Listener::Check.on_message("!ping"), None);
    assert_eq!(Listener::Ping.on_message("!check"), None);
    assert_eq!(Listener::Check.on_message("!check"), Some(Reply::Hello));
}

#[test]
fn trigger_texts() {
    assert_eq!(Listener::Ping.trigger_text(), "!ping");
    assert_eq!(Listener::Check.trigger_text(), "!check");
    assert_eq!(Reply::Pong.text(), "Pong!");
    assert_eq!(Reply::Hello.text(), "Hello!");
}

#[test]
fn no_message_draws_more_than_one_reply() {
    for content in ["!ping", "!check", "random text", "", "Pong!", "Hello!"] {
        assert!(dispatch(content).len() <= 1);
    }
}

#[test]
fn a_failed_send_is_logged_and_the_dispatcher_goes_on() {
    assert_eq!(after_reply(true), AfterReply::Continue);
    assert_eq!(after_reply(false), AfterReply::LogAndContinue);
}
