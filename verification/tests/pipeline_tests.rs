//! Tests of the orchestrator: URL construction, the end-to-end run,
//! and the failure path.

use booru_fetch::args::{Credentials, DownloadCommand};
use booru_fetch::pages::PageError;
use booru_fetch::pipeline::{start, step, AbortReason, PipelineAction, PipelineEvent, PipelineState};
use booru_fetch::post::Post;
use booru_fetch::url::{listing_url, page_url};

fn bv(s: &str) -> Vec<u8> {
    s.as_bytes().to_vec()
}

fn command(tags: &[&str]) -> DownloadCommand {
    DownloadCommand {
        tags: tags.iter().map(|t| bv(t)).collect(),
        save_location: bv("root"),
        exclude_general: false,
        exclude_sensitive: false,
        exclude_questionable: false,
        exclude_explicit: false,
    }
}

fn post(id: i32, rating: u8, score: i32) -> Post {
    Post {
        id,
        score,
        rating,
        file_ext: bv("png"),
        file_url: Some(bv(&format!("https://cdn.example/{id}.png"))),
        large_file_url: None,
    }
}

#[test]
fn listing_url_carries_tags_and_limit() {
    let url = listing_url(&bv("blue_sky"), &None);
    assert_eq!(
        url,
        bv("https://danbooru.donmai.us/posts?tags=blue_sky&limit=200")
    );
}

#[test]
fn listing_url_appends_credentials() {
    let creds = Some(Credentials { login: bv("user"), api_key: bv("k3y") });
    let url = listing_url(&bv("blue_sky"), &creds);
    assert_eq!(
        url,
        bv("https://danbooru.donmai.us/posts?tags=blue_sky&limit=200&login=user&api_key=k3y")
    );
}

#[test]
fn page_url_carries_page_tags_limit_and_projection() {
    let url = page_url(&bv("blue%20sky+tag_1"), 3, &None);
    assert_eq!(
        url,
        bv("https://danbooru.donmai.us/posts.json?page=3&tags=blue%20sky+tag_1&limit=200\
            &only=rating,file_url,id,score,file_ext,large_file_url")
    );
}

#[test]
fn end_to_end_two_pages_with_exclusion() {
    let mut cmd = command(&["blue_sky"]);
    cmd.exclude_explicit = true;

    let (state, action) = start(&cmd, &None);
    assert!(matches!(state, PipelineState::Init));
    match action {
        PipelineAction::CountPages { url } => {
            assert_eq!(url, bv("https://danbooru.donmai.us/posts?tags=blue_sky&limit=200"));
        }
        _ => panic!("expected a page-count request"),
    }

    let (state, action) = step(
        state,
        PipelineEvent::PageCount { outcome: Ok(2) },
        &cmd,
    );
    assert!(matches!(state, PipelineState::PagesCounted { total_pages: 2 }));
    assert!(matches!(action, PipelineAction::FetchPages { total_pages: 2 }));

    let pages = vec![
        vec![post(1, b'g', 10), post(2, b'e', 5)],
        vec![post(3, b's', 1)],
    ];
    let (state, action) = step(state, PipelineEvent::PagesFetched { pages }, &cmd);
    assert!(matches!(action, PipelineAction::Evaluate));

    let (state, action) = step(state, PipelineEvent::Proceed, &cmd);
    let todo = match action {
        PipelineAction::Download { posts } => posts,
        _ => panic!("expected the downloads to start"),
    };
    // Post 2 is explicit and was dropped before any download planning.
    let ids: Vec<i32> = todo.iter().map(|p| p.id).collect();
    assert_eq!(ids, vec![1, 3]);
    let paths: Vec<Vec<u8>> = todo
        .iter()
        .map(|p| p.download_plan(&cmd).unwrap().path)
        .collect();
    assert_eq!(paths[0], bv("root/general/10_1.png"));
    assert_eq!(paths[1], bv("root/sensitive/1_3.png"));

    let (state, action) = step(state, PipelineEvent::DownloadsDone, &cmd);
    assert!(matches!(state, PipelineState::Done));
    assert!(matches!(action, PipelineAction::Finish));
}

#[test]
fn no_results_aborts_from_init_without_any_page_fetch() {
    let cmd = command(&["no_such_tag"]);
    let (state, _) = start(&cmd, &None);
    let (state, action) = step(
        state,
        PipelineEvent::PageCount { outcome: Err(PageError::NoResults) },
        &cmd,
    );
    assert!(matches!(
        state,
        PipelineState::Aborted { reason: AbortReason::NoResults }
    ));
    // The run fails outright; in particular no JSON page is requested.
    assert!(matches!(action, PipelineAction::Fail));
    assert!(!matches!(action, PipelineAction::FetchPages { .. }));
}

#[test]
fn empty_filtered_list_aborts_after_fetch() {
    let mut cmd = command(&["blue_sky"]);
    cmd.exclude_general = true;
    let (state, _) = start(&cmd, &None);
    let (state, _) = step(state, PipelineEvent::PageCount { outcome: Ok(1) }, &cmd);
    let pages = vec![vec![post(1, b'g', 10)]];
    let (state, _) = step(state, PipelineEvent::PagesFetched { pages }, &cmd);
    assert!(matches!(state, PipelineState::PostsFetched { .. }));
    let (state, action) = step(state, PipelineEvent::Proceed, &cmd);
    assert!(matches!(
        state,
        PipelineState::Aborted { reason: AbortReason::NothingToDownload }
    ));
    assert!(matches!(action, PipelineAction::Fail));
}

#[test]
fn transport_failure_aborts_from_init() {
    let cmd = command(&["blue_sky"]);
    let (state, _) = start(&cmd, &None);
    let (state, action) = step(
        state,
        PipelineEvent::PageCount { outcome: Err(PageError::Transport) },
        &cmd,
    );
    assert!(matches!(
        state,
        PipelineState::Aborted { reason: AbortReason::PageCountFailed }
    ));
    assert!(matches!(action, PipelineAction::Fail));
}

#[test]
fn mismatched_event_changes_nothing() {
    let cmd = command(&["blue_sky"]);
    let (state, _) = start(&cmd, &None);
    let (state, action) = step(state, PipelineEvent::DownloadsDone, &cmd);
    assert!(matches!(state, PipelineState::Init));
    assert!(matches!(action, PipelineAction::Idle));
}
