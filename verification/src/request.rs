//! The requests sent to the CaptainFact API.
use vstd::prelude::*;

verus! {

/// The Phoenix message that joins the channel `topic`, with `msg_ref` as its
/// join reference and its reference.
pub open spec fn join_message(msg_ref: Seq<char>, topic: Seq<char>) -> Seq<char> {
    "[\""@ + msg_ref + "\",\""@ + msg_ref + "\",\""@ + topic + "\",\"phx_join\",{}]"@
}

fn join(msg_ref: &str, topic: String) -> (r: String)
    ensures
        r@ == join_message(msg_ref@, topic@),
{
    String::from_str("[\"")
        .concat(msg_ref)
        .concat("\",\"")
        .concat(msg_ref)
        .concat("\",\"")
        .concat(topic.as_str())
        .concat("\",\"phx_join\",{}]")
}

/// The message that joins the debate channel of the video `id`.
pub fn get_debates(id: &str) -> (r: String)
    ensures
        r@ == join_message("1"@, "video_debate:"@ + id@),
{
    join("1", String::from_str("video_debate:").concat(id))
}

/// The message that joins the statements channel of the video `id`.
pub fn get_statements(id: &str) -> (r: String)
    ensures
        r@ == join_message("2"@, "statements:video:"@ + id@),
{
    join("2", String::from_str("statements:video:").concat(id))
}

/// The message that joins the comments channel of the video `id`.
pub fn get_comments(id: &str) -> (r: String)
    ensures
        r@ == join_message("3"@, "comments:video:"@ + id@),
{
    join("3", String::from_str("comments:video:").concat(id))
}

/// The address of the CaptainFact websocket for the session `token`.
pub fn websocket_url(token: &str) -> (r: String)
    ensures
        r@ == "wss://api.captainfact.io/socket/websocket?token="@ + token@ + "&vsn=2.0.0"@,
{
    String::from_str("wss://api.captainfact.io/socket/websocket?token=").concat(token).concat(
        "&vsn=2.0.0",
    )
}

/// The `authorization` header of the requests made with the session `token`.
pub fn authorization(token: &str) -> (r: String)
    ensures
        r@ == "Bearer "@ + token@,
{
    String::from_str("Bearer ").concat(token)
}

proof fn lemma_middle_determined(p: Seq<char>, t1: Seq<char>, t2: Seq<char>, q: Seq<char>)
    requires
        p + t1 + q == p + t2 + q,
    ensures
        t1 == t2,
{
    assert((p + t1 + q).len() == p.len() + t1.len() + q.len());
    assert((p + t2 + q).len() == p.len() + t2.len() + q.len());
    assert(t1 =~= (p + t1 + q).subrange(p.len() as int, (p.len() + t1.len()) as int));
    assert(t2 =~= (p + t2 + q).subrange(p.len() as int, (p.len() + t2.len()) as int));
}

/// Each channel is joined with its own message: two join messages with the
/// same reference are equal only for the same topic.
pub proof fn law_join_message_identifies_topic(msg_ref: Seq<char>, t1: Seq<char>, t2: Seq<char>)
    requires
        join_message(msg_ref, t1) == join_message(msg_ref, t2),
    ensures
        t1 == t2,
{
    let p = "[\""@ + msg_ref + "\",\""@ + msg_ref + "\",\""@;
    let q = "\",\"phx_join\",{}]"@;
    assert(join_message(msg_ref, t1) =~= p + t1 + q);
    assert(join_message(msg_ref, t2) =~= p + t2 + q);
    lemma_middle_determined(p, t1, t2, q);
}

/// The requests for two videos are equal only for the same video.
pub proof fn law_requests_identify_video(id1: Seq<char>, id2: Seq<char>)
    ensures
        join_message("1"@, "video_debate:"@ + id1) == join_message("1"@, "video_debate:"@ + id2)
            ==> id1 == id2,
        join_message("2"@, "statements:video:"@ + id1) == join_message(
            "2"@,
            "statements:video:"@ + id2,
        ) ==> id1 == id2,
        join_message("3"@, "comments:video:"@ + id1) == join_message(
            "3"@,
            "comments:video:"@ + id2,
        ) ==> id1 == id2,
{
    let e = Seq::<char>::empty();
    if join_message("1"@, "video_debate:"@ + id1) == join_message("1"@, "video_debate:"@ + id2) {
        law_join_message_identifies_topic("1"@, "video_debate:"@ + id1, "video_debate:"@ + id2);
        assert("video_debate:"@ + id1 =~= "video_debate:"@ + id1 + e);
        assert("video_debate:"@ + id2 =~= "video_debate:"@ + id2 + e);
        lemma_middle_determined("video_debate:"@, id1, id2, e);
    }
    if join_message("2"@, "statements:video:"@ + id1) == join_message(
        "2"@,
        "statements:video:"@ + id2,
    ) {
        law_join_message_identifies_topic("2"@, "statements:video:"@ + id1, "statements:video:"@ + id2);
        assert("statements:video:"@ + id1 =~= "statements:video:"@ + id1 + e);
        assert("statements:video:"@ + id2 =~= "statements:video:"@ + id2 + e);
        lemma_middle_determined("statements:video:"@, id1, id2, e);
    }
    if join_message("3"@, "comments:video:"@ + id1) == join_message("3"@, "comments:video:"@ + id2) {
        law_join_message_identifies_topic("3"@, "comments:video:"@ + id1, "comments:video:"@ + id2);
        assert("comments:video:"@ + id1 =~= "comments:video:"@ + id1 + e);
        assert("comments:video:"@ + id2 =~= "comments:video:"@ + id2 + e);
        lemma_middle_determined("comments:video:"@, id1, id2, e);
    }
}

} // verus!
