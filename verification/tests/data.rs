use captainfact::data::{
    Comment, Comments, Content, Count, Data, Debate, DebateVideo, Debates, Entries, PresenteState,
    Response, Source, Speaker, Statement, User, Video, Videos,
};
use captainfact::errors::Error;
use captainfact::time::Timestamp;

fn speaker(id: i32, name: &str) -> Speaker {
    Speaker {
        country: Some("FR".to_string()),
        full_name: name.to_string(),
        id,
        picture: None,
        slug: Some(name.to_lowercase()),
        title: None,
        wikidata_item_id: Some("Q42".to_string()),
    }
}

fn video(posted_at: &str) -> DebateVideo {
    DebateVideo {
        hash_id: "J4nB".to_string(),
        id: 7,
        is_partner: true,
        is_subscribed: false,
        language: Some("fr".to_string()),
        posted_at: posted_at.to_string(),
        provider: "youtube".to_string(),
        provider_id: Some("abc".to_string()),
        speakers: vec![speaker(3, "Ada"), speaker(1, "Bob")],
        thumbnail: "thumb.jpg".to_string(),
        title: "A debate".to_string(),
        url: "https://youtu.be/abc".to_string(),
        youtube_id: Some("abc".to_string()),
        youtube_offset: 12,
    }
}

fn statement(id: i32) -> Statement {
    Statement { id, speaker_id: Some(3), video_id: 0, text: format!("statement {id}"), time: id * 10 }
}

fn user(registered_at: &str) -> User {
    User {
        achievements: vec![1, 4],
        id: 99,
        mini_picture_url: "mini.png".to_string(),
        name: Some("Alice".to_string()),
        picture_url: "pic.png".to_string(),
        registered_at: registered_at.to_string(),
        reputation: 120,
        speaker_id: None,
        username: "alice".to_string(),
    }
}

fn comment(id: i32, inserted_at: &str) -> Comment {
    Comment {
        approve: Some(true),
        id,
        inserted_at: inserted_at.to_string(),
        is_reported: false,
        reply_to_id: Some(2),
        score: Some(5),
        source: Some(Source {
            language: None,
            site_name: Some("Site".to_string()),
            title: None,
            url: "https://example.org".to_string(),
        }),
        statement_id: 4,
        text: Some("agreed".to_string()),
        user: Some(user("2018-07-14T09:30:15.000000")),
    }
}

fn reply(content: Content) -> Debate {
    Debate::Response(Response { response: content, status: "ok".to_string() })
}

#[test]
fn hash_ids_in_order() {
    let data = Data {
        data: Videos {
            videos: Entries {
                total_pages: 9,
                page_number: 1,
                entries: vec![
                    Video { hash_id: "a".to_string() },
                    Video { hash_id: "b".to_string() },
                ],
            },
        },
    };
    let ids = data.hash_id();
    assert_eq!(ids, vec![&"a".to_string(), &"b".to_string()]);
    assert_eq!(data.total_page(), 9);
}

#[test]
fn first_reply_of_each_kind() {
    let debates = Debates(vec![
        Debate::String(None),
        Debate::PresenteState(PresenteState { viewers: Count { count: 3 }, users: Count { count: 1 } }),
        reply(Content::Statements(vec![statement(1)])),
        reply(Content::Video(video("2019-03-01T12:00:00Z"))),
        reply(Content::Statements(vec![statement(2), statement(3)])),
        reply(Content::Comments(Comments { comments: vec![comment(5, "x")] })),
    ]);
    assert_eq!(debates.video().unwrap().id, 7);
    let statements = debates.statements().unwrap();
    assert_eq!(statements.len(), 1);
    assert_eq!(statements[0].id, 1);
    assert_eq!(debates.comments().unwrap()[0].id, 5);
}

#[test]
fn nothing_when_no_reply_holds_it() {
    let debates = Debates(vec![Debate::String(Some("hello".to_string()))]);
    assert!(debates.video().is_none());
    assert!(debates.statements().is_none());
    assert!(debates.comments().is_none());
    assert!(Debates(vec![]).video().is_none());
}

#[test]
fn video_record() {
    let e = video("2019-03-01T12:00:00Z").try_into().unwrap();
    assert_eq!(e.video_id, 7);
    assert_eq!(e.hash_id, "J4nB");
    assert_eq!(e.posted_at, Timestamp { secs: 1551441600, nanos: 0, offset: 0 });
    assert_eq!(e.speaker_ids, vec![3, 1]);
    assert!(e.is_partner);
    assert_eq!(e.thumbnail, "thumb.jpg");
    assert_eq!(e.title, "A debate");
    assert_eq!(e.youtube_id.as_deref(), Some("abc"));
    assert_eq!(e.language.as_deref(), Some("fr"));
    assert_eq!(e.url, "https://youtu.be/abc");
    assert_eq!(e.youtube_offset, 12);
    assert_eq!(e.provider, "youtube");
    assert_eq!(e.provider_id.as_deref(), Some("abc"));
}

#[test]
fn video_record_keeps_the_offset() {
    let e = video("2020-01-02T03:04:05+02:00").try_into().unwrap();
    assert_eq!(e.posted_at, Timestamp { secs: 1577927045, nanos: 0, offset: 7200 });
}

#[test]
fn video_record_refused_on_a_bad_date() {
    assert!(matches!(video("yesterday").try_into(), Err(Error::Date(_))));
}

#[test]
fn video_entity_with_given_date() {
    let t = Timestamp { secs: 5, nanos: 6, offset: 7 };
    let e = video("not read").into_entity(t);
    assert_eq!(e.posted_at, t);
    assert_eq!(e.speaker_ids, vec![3, 1]);
}

#[test]
fn speaker_record() {
    let e = speaker(3, "Ada").try_into().unwrap();
    assert_eq!(e.speaker_id, 3);
    assert_eq!(e.full_name, "Ada");
    assert_eq!(e.slug.as_deref(), Some("ada"));
    assert_eq!(e.country.as_deref(), Some("FR"));
    assert_eq!(e.picture, None);
    assert_eq!(e.title, None);
    assert_eq!(e.wikidata_item_id.as_deref(), Some("Q42"));
}

#[test]
fn statement_record() {
    let mut st = statement(4);
    st.video_id = 7;
    let e = st.try_into().unwrap();
    assert_eq!(e.statement_id, 4);
    assert_eq!(e.speaker_id, Some(3));
    assert_eq!(e.video_id, 7);
    assert_eq!(e.text, "statement 4");
    assert_eq!(e.time, 40);
}

#[test]
fn source_record() {
    let source = Source {
        language: Some("en".to_string()),
        site_name: None,
        title: Some("T".to_string()),
        url: "https://example.org".to_string(),
    };
    let e = source.try_into().unwrap();
    assert_eq!(e.url, "https://example.org");
    assert_eq!(e.language.as_deref(), Some("en"));
    assert_eq!(e.site_name, None);
    assert_eq!(e.title.as_deref(), Some("T"));
}

#[test]
fn comment_record() {
    let e = comment(12, "2019-03-01T12:00:00.123456").try_into().unwrap();
    assert_eq!(e.comment_id, 12);
    assert_eq!(e.inserted_at, Timestamp { secs: 1551441600, nanos: 123456000, offset: 0 });
    assert_eq!(e.approve, Some(true));
    assert!(!e.is_reported);
    assert_eq!(e.reply_to_id, Some(2));
    assert_eq!(e.score, Some(5));
    assert_eq!(e.source_url.as_deref(), Some("https://example.org"));
    assert_eq!(e.statement_id, 4);
    assert_eq!(e.text.as_deref(), Some("agreed"));
    assert_eq!(e.user_id, Some(99));
}

#[test]
fn comment_record_without_source_or_user() {
    let mut c = comment(1, "2019-03-01T12:00:00.000000");
    c.source = None;
    c.user = None;
    let e = c.try_into().unwrap();
    assert_eq!(e.source_url, None);
    assert_eq!(e.user_id, None);
}

#[test]
fn comment_record_refused_on_a_bad_date() {
    // The date must carry six digits of fractional seconds and no offset.
    assert!(matches!(comment(1, "2019-03-01T12:00:00Z").try_into(), Err(Error::Date(_))));
    assert!(matches!(comment(1, "").try_into(), Err(Error::Date(_))));
}

#[test]
fn user_record() {
    let e = user("2018-07-14T09:30:15.500000").try_into().unwrap();
    assert_eq!(e.user_id, 99);
    assert_eq!(e.achievements, vec![1, 4]);
    assert_eq!(e.mini_picture_url, "mini.png");
    assert_eq!(e.name.as_deref(), Some("Alice"));
    assert_eq!(e.picture_url, "pic.png");
    assert_eq!(e.registered_at, Timestamp { secs: 1531560615, nanos: 500000000, offset: 0 });
    assert_eq!(e.reputation, 120);
    assert_eq!(e.speaker_id, None);
    assert_eq!(e.username, "alice");
}

#[test]
fn user_record_refused_on_a_bad_date() {
    assert!(matches!(user("14/07/2018").try_into(), Err(Error::Date(_))));
}
