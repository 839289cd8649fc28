use captainfact::data::{Comment, Comments, Content, Debate, Debates, Response, Statement};
use captainfact::errors::{login_outcome, Error};
use captainfact::scrape::{
    comments_to_save, next_page, page_limit, statements_to_save, ReadBudget,
};
use captainfact::sorting::sort_by_id;

fn comment(id: i32, text: &str) -> Comment {
    Comment {
        approve: None,
        id,
        inserted_at: "2019-03-01T12:00:00.000000".to_string(),
        is_reported: false,
        reply_to_id: None,
        score: None,
        source: None,
        statement_id: 1,
        text: Some(text.to_string()),
        user: None,
    }
}

fn statement(id: i32) -> Statement {
    Statement { id, speaker_id: None, video_id: 0, text: String::new(), time: 0 }
}

fn reply(content: Content) -> Debate {
    Debate::Response(Response { response: content, status: "ok".to_string() })
}

fn ids_and_texts(comments: &[Comment]) -> Vec<(i32, String)> {
    comments.iter().map(|c| (c.id, c.text.clone().unwrap())).collect()
}

#[test]
fn sort_is_by_id_and_stable() {
    let mut comments = vec![
        comment(5, "a"),
        comment(2, "b"),
        comment(5, "c"),
        comment(-1, "d"),
        comment(2, "e"),
    ];
    sort_by_id(&mut comments);
    assert_eq!(
        ids_and_texts(&comments),
        vec![
            (-1, "d".to_string()),
            (2, "b".to_string()),
            (2, "e".to_string()),
            (5, "a".to_string()),
            (5, "c".to_string()),
        ]
    );
}

#[test]
fn sort_of_nothing() {
    let mut comments: Vec<Comment> = vec![];
    sort_by_id(&mut comments);
    assert!(comments.is_empty());
}

#[test]
fn comments_of_the_first_reply_sorted() {
    let debates = Debates(vec![
        Debate::String(None),
        reply(Content::Comments(Comments { comments: vec![comment(3, "x"), comment(1, "y")] })),
        reply(Content::Comments(Comments { comments: vec![comment(0, "z")] })),
    ]);
    let comments = comments_to_save(debates);
    assert_eq!(ids_and_texts(&comments), vec![(1, "y".to_string()), (3, "x".to_string())]);
}

#[test]
fn no_comments_without_a_reply() {
    assert!(comments_to_save(Debates(vec![Debate::String(None)])).is_empty());
}

#[test]
fn statements_stamped_with_the_video() {
    let debates = Debates(vec![
        reply(Content::Statements(vec![statement(4), statement(2)])),
        reply(Content::Statements(vec![statement(9)])),
    ]);
    let statements = statements_to_save(debates, 77);
    let ids: Vec<(i32, i32)> = statements.iter().map(|s| (s.id, s.video_id)).collect();
    assert_eq!(ids, vec![(4, 77), (2, 77)]);
}

#[test]
fn no_statements_without_a_reply() {
    assert!(statements_to_save(Debates(vec![]), 1).is_empty());
}

#[test]
fn eleven_reads_then_give_up() {
    let mut budget = ReadBudget::new();
    for _ in 0..11 {
        assert!(budget.check().is_ok());
        budget.unreadable();
    }
    assert!(matches!(budget.check(), Err(Error::WebsocketTryOut)));
}

#[test]
fn paging() {
    assert_eq!(page_limit(Some(3), 10), 3);
    assert_eq!(page_limit(None, 10), 10);
    assert_eq!(next_page(1, 3), Some(2));
    assert_eq!(next_page(2, 3), Some(3));
    assert_eq!(next_page(3, 3), None);
    assert_eq!(next_page(u32::MAX, u32::MAX), None);
}

#[test]
fn pages_one_to_limit() {
    let limit = page_limit(None, 4);
    let mut page = 1;
    let mut seen = vec![page];
    while let Some(next) = next_page(page, limit) {
        page = next;
        seen.push(page);
    }
    assert_eq!(seen, vec![1, 2, 3, 4]);
}

#[test]
fn login_succeeds_with_a_token() {
    assert_eq!(
        login_outcome(200, Some("tok".to_string()), "{}".to_string()).unwrap(),
        "tok"
    );
    assert_eq!(login_outcome(299, Some("t".to_string()), String::new()).unwrap(), "t");
}

#[test]
fn login_refused() {
    match login_outcome(401, Some("tok".to_string()), "denied".to_string()) {
        Err(Error::Auth(401, body)) => assert_eq!(body, "denied"),
        other => panic!("unexpected {other:?}"),
    }
    match login_outcome(200, None, "{\"error\":1}".to_string()) {
        Err(Error::Auth(200, body)) => assert_eq!(body, "{\"error\":1}"),
        other => panic!("unexpected {other:?}"),
    }
    assert!(login_outcome(300, Some("t".to_string()), String::new()).is_err());
    assert!(login_outcome(199, Some("t".to_string()), String::new()).is_err());
}

#[test]
fn sorted_comments_left_as_they_are() {
    let mut comments = vec![comment(1, "a"), comment(1, "b"), comment(4, "c")];
    sort_by_id(&mut comments);
    assert_eq!(
        ids_and_texts(&comments),
        vec![(1, "a".to_string()), (1, "b".to_string()), (4, "c".to_string())]
    );
}

#[test]
fn sorting_twice_is_sorting_once() {
    let mut once = vec![comment(9, "a"), comment(3, "b"), comment(9, "c"), comment(3, "d")];
    sort_by_id(&mut once);
    let mut twice = once.clone();
    sort_by_id(&mut twice);
    assert_eq!(ids_and_texts(&once), ids_and_texts(&twice));
}
