//! The pipeline orchestrator: a state machine sequencing page counting,
//! metadata fetching and downloading. The surrounding application
//! drives it by performing each emitted action (the network and
//! filesystem work) and feeding the result back as the next event.

use vstd::prelude::*;

use crate::args::{Credentials, DownloadCommand};
use crate::encode::{encode_tags, fragment_of, tags_model};
use crate::fetch::{fetch_posts, fetched_posts_spec};
use crate::pages::PageError;
use crate::post::{clone_post, Post, PostModel};
use crate::url::{listing_url, listing_url_spec};

verus! {

/// Why a run ends without downloading anything.
#[derive(Clone, Copy, Debug, PartialEq, Eq)]
pub enum AbortReason {
    /// The tag query has no result pages at all.
    NoResults,
    /// The listing page could not be fetched, or its pagination label
    /// could not be read.
    PageCountFailed,
    /// The combined, filtered post list is empty: nothing to download.
    NothingToDownload,
}

/// The stages of one run.
pub enum PipelineState {
    /// Nothing has happened yet.
    Init,
    /// The page count is known.
    PagesCounted { total_pages: u64 },
    /// The filtered post list is known; the state stays here while the
    /// downloads run.
    PostsFetched { posts: Vec<Post> },
    /// Every post was attempted.
    Done,
    /// The run ended early; the caller should signal failure.
    Aborted { reason: AbortReason },
}

/// What the application reports back to the orchestrator.
pub enum PipelineEvent {
    /// The outcome of scraping the listing page for the page count.
    PageCount { outcome: Result<u64, PageError> },
    /// Every page of the JSON endpoint was fetched and decoded; a page
    /// whose fetch or decode failed contributes an empty list.
    PagesFetched { pages: Vec<Vec<Post>> },
    /// The application asks how to go on with the fetched posts.
    Proceed,
    /// Every planned download was attempted.
    DownloadsDone,
}

/// What the orchestrator asks the application to do next.
pub enum PipelineAction {
    /// Fetch this URL as HTML and report a `PageCount` event.
    CountPages { url: Vec<u8> },
    /// Fetch pages 1 to `total_pages` of the JSON endpoint, in any
    /// order, and report a `PagesFetched` event.
    FetchPages { total_pages: u64 },
    /// Report a `Proceed` event.
    Evaluate,
    /// Download these posts, in any order, and report `DownloadsDone`.
    Download { posts: Vec<Post> },
    /// The run is complete.
    Finish,
    /// The run is aborted; signal failure to the caller.
    Fail,
    /// The event does not belong to the state; nothing to do.
    Idle,
}

/// Copies a post list; the copy has the same mathematical value.
pub fn clone_posts(posts: &Vec<Post>) -> (r: Vec<Post>)
    ensures
        r.deep_view() == posts.deep_view(),
{
    let mut r: Vec<Post> = Vec::new();
    let mut i: usize = 0;
    while i < posts.len()
        invariant
            i <= posts@.len(),
            posts@.len() == posts.deep_view().len(),
            r.deep_view() == posts.deep_view().take(i as int),
        decreases posts@.len() - i,
    {
        let ghost prev = r.deep_view();
        r.push(clone_post(&posts[i]));
        proof {
            assert(r.deep_view() =~= prev.push(posts@[i as int]@));
            assert(r.deep_view() =~= posts.deep_view().take(i + 1));
        }
        i = i + 1;
    }
    proof {
        assert(posts.deep_view().take(posts@.len() as int) =~= posts.deep_view());
    }
    r
}

/// Starts a run: the machine stands at `Init`, and the application is
/// asked to fetch the listing page of the configuration's encoded tag
/// query.
pub fn start(cmd: &DownloadCommand, creds: &Option<Credentials>) -> (r: (
    PipelineState,
    PipelineAction,
))
    ensures
        r.0 is Init,
        r.1 matches PipelineAction::CountPages { url } && url@ == listing_url_spec(
            fragment_of(tags_model(cmd.tags@)),
            *creds,
        ),
{
    let fragment = encode_tags(&cmd.tags);
    let url = listing_url(&fragment, creds);
    (PipelineState::Init, PipelineAction::CountPages { url })
}

/// One transition of the orchestrator. Exactly the transitions of the
/// pipeline exist:
///
/// * `Init`, page count `Ok(n)` — to `PagesCounted(n)`, fetching the
///   `n` pages;
/// * `Init`, page count failed — to `Aborted`, and in particular no
///   page of the JSON endpoint is ever requested;
/// * `PagesCounted`, pages fetched — to `PostsFetched` holding the
///   combined, filtered post list;
/// * `PostsFetched`, proceed — `Aborted` when the list is empty, else
///   the downloads start;
/// * `PostsFetched`, downloads done — to `Done`;
/// * any other pairing leaves the state as it is and asks nothing.
pub fn step(state: PipelineState, event: PipelineEvent, cmd: &DownloadCommand) -> (r: (
    PipelineState,
    PipelineAction,
))
    ensures
        state is Init ==> (event matches PipelineEvent::PageCount { outcome: Ok(n) } ==> ((
        r.0 matches PipelineState::PagesCounted { total_pages } && total_pages == n) && (
        r.1 matches PipelineAction::FetchPages { total_pages: m } && m == n))),
        state is Init ==> (event matches PipelineEvent::PageCount { outcome: Err(e) } ==> (
        r.0 matches PipelineState::Aborted { reason } && reason == (if e is NoResults {
            AbortReason::NoResults
        } else {
            AbortReason::PageCountFailed
        }) && r.1 is Fail)),
        state matches PipelineState::PagesCounted { .. } ==> (event
            matches PipelineEvent::PagesFetched { pages } ==> (
        r.0 matches PipelineState::PostsFetched { posts } && posts.deep_view()
            == fetched_posts_spec(pages.deep_view(), *cmd) && r.1 is Evaluate)),
        state matches PipelineState::PostsFetched { posts } ==> (event is Proceed ==> ((
        posts.deep_view().len() == 0 ==> (r.0 matches PipelineState::Aborted { reason } && reason
            == AbortReason::NothingToDownload && r.1 is Fail)) && (posts.deep_view().len() > 0
            ==> ((r.0 matches PipelineState::PostsFetched { posts: kept } && kept.deep_view()
            == posts.deep_view()) && (r.1 matches PipelineAction::Download { posts: todo }
            && todo.deep_view() == posts.deep_view()))))),
        (state matches PipelineState::PostsFetched { .. } && event is DownloadsDone) ==> (
        r.0 is Done && r.1 is Finish),
        !(state is Init && event matches PipelineEvent::PageCount { .. }) && !(
        state matches PipelineState::PagesCounted { .. } && event
            matches PipelineEvent::PagesFetched { .. }) && !(
        state matches PipelineState::PostsFetched { .. } && (event is Proceed
            || event is DownloadsDone)) ==> (r.0 == state && r.1 is Idle),
{
    match (state, event) {
        (PipelineState::Init, PipelineEvent::PageCount { outcome }) => match outcome {
            Ok(n) => (
                PipelineState::PagesCounted { total_pages: n },
                PipelineAction::FetchPages { total_pages: n },
            ),
            Err(e) => {
                let reason = match e {
                    PageError::NoResults => AbortReason::NoResults,
                    _ => AbortReason::PageCountFailed,
                };
                (PipelineState::Aborted { reason }, PipelineAction::Fail)
            },
        },
        (PipelineState::PagesCounted { total_pages }, PipelineEvent::PagesFetched { pages }) => {
            match fetch_posts(&pages, cmd) {
                Ok(posts) => (PipelineState::PostsFetched { posts }, PipelineAction::Evaluate),
                Err(_) => {
                    proof {
                        assert(fetched_posts_spec(pages.deep_view(), *cmd) =~= Seq::<
                            PostModel,
                        >::empty());
                    }
                    (
                        PipelineState::PostsFetched { posts: Vec::new() },
                        PipelineAction::Evaluate,
                    )
                },
            }
        },
        (PipelineState::PostsFetched { posts }, PipelineEvent::Proceed) => {
            if posts.len() == 0 {
                proof {
                    assert(posts.deep_view().len() == posts@.len());
                }
                (
                    PipelineState::Aborted { reason: AbortReason::NothingToDownload },
                    PipelineAction::Fail,
                )
            } else {
                let todo = clone_posts(&posts);
                proof {
                    assert(posts.deep_view().len() == posts@.len());
                }
                (PipelineState::PostsFetched { posts }, PipelineAction::Download { posts: todo })
            }
        },
        (PipelineState::PostsFetched { posts }, PipelineEvent::DownloadsDone) => (
            PipelineState::Done,
            PipelineAction::Finish,
        ),
        (other_state, _) => (other_state, PipelineAction::Idle),
    }
}

} // verus!
