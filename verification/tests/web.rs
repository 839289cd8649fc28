use captainfact::model::{comment, speaker, statement};
use captainfact::web::{count_sql, error_page, paginate_sql, Error, Listing, Pagination};

#[test]
fn status_of_errors() {
    assert_eq!(Error::NotFound.status(), 404);
    assert_eq!(Error::Elephantry("down".to_string()).status(), 500);
    assert_eq!(Error::Template("bad".to_string()).status(), 500);
}

#[test]
fn error_pages() {
    assert_eq!(error_page(404), "errors/404.html");
    assert_eq!(error_page(500), "errors/500.html");
    assert_eq!(error_page(0), "errors/0.html");
    assert_eq!(error_page(65535), "errors/65535.html");
}

#[test]
fn pagination() {
    assert_eq!(
        paginate_sql("select 1", &Pagination { page: 1, limit: 20 }),
        "select 1 offset 0 fetch first 20 rows only"
    );
    assert_eq!(
        paginate_sql("select 1", &Pagination { page: 3, limit: 15 }),
        "select 1 offset 30 fetch first 15 rows only"
    );
    assert_eq!(count_sql("select 1"), "with query as (select 1) select count(1) from query");
}

#[test]
fn listings() {
    assert_eq!(Listing::Videos.sql(), "select * from view.video");
    assert_eq!(Listing::Speakers.sql(), "select * from view.speaker");
    assert_eq!(Listing::Videos.search_sql(), "select * from view.video where title ~* $*");
    assert_eq!(Listing::Speakers.search_sql(), "select * from view.speaker where title ~* $*");
    assert_eq!(Listing::Videos.base_url(), "/videos");
    assert_eq!(Listing::Speakers.base_url(), "/speakers");
    assert_eq!(Listing::Videos.search_url("macron"), "/search/videos?q=macron");
    assert_eq!(Listing::Speakers.search_url("x y"), "/search/speakers?q=x y");
}

#[test]
fn structures() {
    assert_eq!(comment::Structure::relation(), "public.comment");
    assert_eq!(comment::Structure::primary_key(), &["id"]);
    assert_eq!(comment::Structure::columns().len(), 10);
    assert_eq!(comment::Structure::columns()[6], "source_url");
    assert_eq!(speaker::Structure::relation(), "public.speaker");
    assert_eq!(speaker::Structure::primary_key(), &["speaker_id"]);
    assert_eq!(
        speaker::Structure::columns(),
        &["speaker_id", "full_name", "slug", "country", "picture", "title", "wikidata_item_id"]
    );
    assert_eq!(statement::Structure::relation(), "public.statement");
    assert_eq!(statement::Structure::primary_key(), &["statement_id"]);
    assert_eq!(
        statement::Structure::columns(),
        &["statement_id", "video_id", "speaker_id", "text", "time"]
    );
    let _ = comment::Model::new();
    let _ = speaker::Model::new();
    let _ = statement::Model::new();
}
