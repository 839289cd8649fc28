use captainfact::request::{authorization, get_comments, get_debates, get_statements, websocket_url};

#[test]
fn join_requests() {
    assert_eq!(get_debates("J4nB"), r#"["1","1","video_debate:J4nB","phx_join",{}]"#);
    assert_eq!(get_statements("J4nB"), r#"["2","2","statements:video:J4nB","phx_join",{}]"#);
    assert_eq!(get_comments("J4nB"), r#"["3","3","comments:video:J4nB","phx_join",{}]"#);
}

#[test]
fn session_strings() {
    assert_eq!(
        websocket_url("abc"),
        "wss://api.captainfact.io/socket/websocket?token=abc&vsn=2.0.0"
    );
    assert_eq!(authorization("abc"), "Bearer abc");
}

#[test]
fn conflict_target() {
    assert_eq!(captainfact::model::on_constraint("video_pkey"), "on constraint video_pkey");
}

#[test]
fn each_video_has_its_own_requests() {
    assert_ne!(get_debates("a"), get_debates("b"));
    assert_ne!(get_statements("ab"), get_statements("a"));
    assert_ne!(get_comments(""), get_comments("x"));
    assert_ne!(get_debates("a"), get_statements("a"));
}
