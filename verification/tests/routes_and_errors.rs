use blog_api::date::Date;
use blog_api::db::{Database, PostRow, SeriesRow, TagRow};
use blog_api::error::ApiError;
use blog_api::response::Body;
use blog_api::routes;

fn empty_db() -> Database {
    Database {
        posts: Vec::new(),
        series: Vec::new(),
        services: Vec::new(),
        post_tags: Vec::new(),
        series_tags: Vec::new(),
        service_tags: Vec::new(),
    }
}

fn post_row(id: i32, series_id: i32, slug: &str) -> PostRow {
    PostRow {
        id,
        series_id,
        views: 10 * id,
        title: format!("post {}", id),
        short_description: format!("short {}", id),
        slug: slug.to_string(),
        created: Date {
            year: 2024,
            month: 1,
            day: id as u8,
        },
        content: format!("content {}", id),
    }
}

#[test]
fn not_found_maps_to_404_with_fixed_message() {
    let r = ApiError::NotFound.error_response();
    assert_eq!(r.status, 404);
    match r.body {
        Body::Message(m) => assert_eq!(m, "<h1>404: Not Found</h1>".to_string()),
        _ => panic!("expected a message body"),
    }
}

#[test]
fn query_failure_maps_to_bare_500() {
    let r = ApiError::PgError("syntax error at or near".to_string()).error_response();
    assert_eq!(r.status, 500);
    assert!(matches!(r.body, Body::Empty));
}

#[test]
fn pool_failure_maps_to_500_with_description() {
    let r = ApiError::PoolError("timed out waiting for connection".to_string()).error_response();
    assert_eq!(r.status, 500);
    match r.body {
        Body::Message(m) => assert_eq!(m, "timed out waiting for connection".to_string()),
        _ => panic!("expected the failure description"),
    }
}

#[test]
fn get_series_by_unknown_slug_is_404_with_fixed_body() {
    let db = empty_db();
    let r = routes::get_series_by_slug(Ok(&db), "my-series".to_string());
    assert_eq!(r.status, 404);
    match r.body {
        Body::Message(m) => assert_eq!(m, "<h1>404: Not Found</h1>".to_string()),
        _ => panic!("a missing series must carry the fixed not-found message"),
    }
}

#[test]
fn get_all_posts_two_rows_in_id_order_with_tags() {
    let mut db = empty_db();
    db.posts.push(post_row(1, 1, "one"));
    db.posts.push(post_row(2, 1, "two"));
    db.post_tags.push(TagRow {
        owner_id: 1,
        name: "rust".to_string(),
        color: "orange".to_string(),
    });
    let r = routes::get_all_posts(Ok(&db));
    assert_eq!(r.status, 200);
    match r.body {
        Body::PostPreviews(ps) => {
            assert_eq!(ps.len(), 2);
            assert_eq!(ps[0].id, 1);
            assert_eq!(ps[0].tags.len(), 1);
            assert_eq!(ps[0].tags[0].name, "rust".to_string());
            assert_eq!(ps[0].tags[0].color, "orange".to_string());
            assert_eq!(ps[1].id, 2);
            assert_eq!(ps[1].tags.len(), 0);
        }
        _ => panic!("expected a list of post previews"),
    }
}

#[test]
fn pool_acquisition_failure_short_circuits_to_500() {
    let r = routes::get_all_posts(Err("pool exhausted".to_string()));
    assert_eq!(r.status, 500);
    match r.body {
        Body::Message(m) => assert_eq!(m, "pool exhausted".to_string()),
        _ => panic!("expected the pool failure description"),
    }
}

#[test]
fn every_route_reports_pool_failure() {
    let msg = "no connection available".to_string();
    let r1 = routes::get_all_series(Err(msg.clone()));
    let r2 = routes::get_series_by_slug(Err(msg.clone()), "s".to_string());
    let r3 = routes::get_post_by_slug(&"p".to_string(), Err(msg.clone()));
    let r4 = routes::get_all_services(Err(msg.clone()));
    for r in [r1, r2, r3, r4] {
        assert_eq!(r.status, 500);
        match r.body {
            Body::Message(m) => assert_eq!(m, msg),
            _ => panic!("expected the pool failure description"),
        }
    }
}

#[test]
fn get_post_by_slug_route_returns_entity_or_404() {
    let mut db = empty_db();
    db.posts.push(post_row(5, 2, "hello"));
    let ok = routes::get_post_by_slug(&"hello".to_string(), Ok(&db));
    assert_eq!(ok.status, 200);
    match ok.body {
        Body::PostItem(p) => {
            assert_eq!(p.id, 5);
            assert_eq!(p.content, "content 5".to_string());
            assert_eq!(p.tags.len(), 0);
        }
        _ => panic!("expected the post"),
    }
    let missing = routes::get_post_by_slug(&"absent".to_string(), Ok(&db));
    assert_eq!(missing.status, 404);
    assert!(matches!(missing.body, Body::Message(_)));
}

#[test]
fn get_all_series_route_lists_previews() {
    let mut db = empty_db();
    db.series.push(SeriesRow {
        id: 1,
        views: 3,
        title: "t".to_string(),
        long_description: "long".to_string(),
        short_description: "short".to_string(),
        slug: "s".to_string(),
        created: Date {
            year: 2023,
            month: 6,
            day: 1,
        },
        updated: Date {
            year: 2024,
            month: 2,
            day: 2,
        },
    });
    let r = routes::get_all_series(Ok(&db));
    assert_eq!(r.status, 200);
    match r.body {
        Body::SeriesPreviews(ps) => {
            assert_eq!(ps.len(), 1);
            assert_eq!(ps[0].id, 1);
            assert_eq!(ps[0].short_description, "short".to_string());
            assert_eq!(ps[0].tags.len(), 0);
        }
        _ => panic!("expected a list of series previews"),
    }
}

#[test]
fn get_all_services_route_lists_services_on_empty_db() {
    let db = empty_db();
    let r = routes::get_all_services(Ok(&db));
    assert_eq!(r.status, 200);
    match r.body {
        Body::Services(ss) => assert_eq!(ss.len(), 0),
        _ => panic!("expected a list of services"),
    }
}
