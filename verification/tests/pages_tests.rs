//! Tests of the page counter against real scraped documents.

use booru_fetch::pages::{get_total_pages, PageError};

fn paginated_document(labels: &[&str]) -> String {
    let mut body = String::from("<html><body><div id=\"posts\"><article>post</article></div>");
    body.push_str("<div class=\"paginator\">");
    for label in labels {
        body.push_str(&format!(
            "<a class=\"paginator-page desktop-only\">{label}</a>"
        ));
    }
    body.push_str("</div></body></html>");
    body
}

#[test]
fn no_posts_marker_is_terminal() {
    let html = "<html><body><div id=\"posts\"><div><p>No posts found.</p></div></div>\
                </body></html>";
    assert_eq!(get_total_pages(html), Err(PageError::NoResults));
}

#[test]
fn no_posts_marker_wins_over_pagination() {
    let mut html = String::from(
        "<html><body><div id=\"posts\"><div><p>No posts found.</p></div></div>",
    );
    html.push_str("<a class=\"paginator-page desktop-only\">7</a></body></html>");
    assert_eq!(get_total_pages(&html), Err(PageError::NoResults));
}

#[test]
fn last_pagination_label_is_the_count() {
    let html = paginated_document(&["1", "2", "3", "4", "5", "6", "7"]);
    assert_eq!(get_total_pages(&html), Ok(7));
}

#[test]
fn no_pagination_controls_means_one_page() {
    let html = "<html><body><div id=\"posts\"><article>post</article></div></body></html>";
    assert_eq!(get_total_pages(html), Ok(1));
}

#[test]
fn non_numeric_label_is_an_error() {
    let html = paginated_document(&["1", "2", "next"]);
    assert_eq!(get_total_pages(&html), Err(PageError::BadPageLabel));
}

#[test]
fn label_too_large_for_a_count_is_an_error() {
    // One more digit than the largest value a count can hold.
    let html = paginated_document(&["1", "184467440737095516160"]);
    assert_eq!(get_total_pages(&html), Err(PageError::BadPageLabel));
}

#[test]
fn empty_label_is_an_error() {
    let html = paginated_document(&["1", ""]);
    assert_eq!(get_total_pages(&html), Err(PageError::BadPageLabel));
}

#[test]
fn large_count_parses() {
    let html = paginated_document(&["1", "2", "1234"]);
    assert_eq!(get_total_pages(&html), Ok(1234));
}
