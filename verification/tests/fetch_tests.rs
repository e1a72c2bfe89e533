//! Tests of the metadata stage: the rating filter and the page
//! combination.

use booru_fetch::args::DownloadCommand;
use booru_fetch::fetch::{fetch_posts, filter_page, FetchError};
use booru_fetch::post::Post;

fn bv(s: &str) -> Vec<u8> {
    s.as_bytes().to_vec()
}

fn command() -> DownloadCommand {
    DownloadCommand {
        tags: vec![bv("blue_sky")],
        save_location: bv("root"),
        exclude_general: false,
        exclude_sensitive: false,
        exclude_questionable: false,
        exclude_explicit: false,
    }
}

fn post(id: i32, rating: u8) -> Post {
    Post {
        id,
        score: 0,
        rating,
        file_ext: bv("jpg"),
        file_url: Some(bv("u.jpg")),
        large_file_url: None,
    }
}

#[test]
fn filter_drops_exactly_the_excluded_ratings() {
    let mut cmd = command();
    cmd.exclude_sensitive = true;
    cmd.exclude_explicit = true;
    let pages = vec![
        vec![post(1, b'g'), post(2, b's'), post(3, b'q')],
        vec![post(4, b'e'), post(5, b'g')],
    ];
    let out = fetch_posts(&pages, &cmd).unwrap();
    let ids: Vec<i32> = out.iter().map(|p| p.id).collect();
    assert_eq!(ids, vec![1, 3, 5]);
}

#[test]
fn filter_page_keeps_order_and_non_excluded() {
    let mut cmd = command();
    cmd.exclude_general = true;
    let page = vec![post(1, b'g'), post(2, b'q'), post(3, b'g'), post(4, b'e')];
    let out = filter_page(&page, &cmd);
    let ids: Vec<i32> = out.iter().map(|p| p.id).collect();
    assert_eq!(ids, vec![2, 4]);
}

#[test]
fn unknown_rating_is_never_excluded() {
    let mut cmd = command();
    cmd.exclude_general = true;
    cmd.exclude_sensitive = true;
    cmd.exclude_questionable = true;
    cmd.exclude_explicit = true;
    let pages = vec![vec![post(1, b'x')]];
    let out = fetch_posts(&pages, &cmd).unwrap();
    assert_eq!(out.len(), 1);
    assert_eq!(out[0].id, 1);
}

#[test]
fn everything_filtered_away_is_no_posts() {
    let mut cmd = command();
    cmd.exclude_general = true;
    let pages = vec![vec![post(1, b'g')], vec![post(2, b'g')]];
    assert_eq!(fetch_posts(&pages, &cmd).unwrap_err(), FetchError::NoPosts);
}

#[test]
fn no_pages_at_all_is_no_posts() {
    let pages: Vec<Vec<Post>> = Vec::new();
    assert_eq!(fetch_posts(&pages, &command()).unwrap_err(), FetchError::NoPosts);
}
