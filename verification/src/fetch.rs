//! Metadata combination: the rating filter over each decoded page of
//! post records, and the concatenation of every page's survivors into
//! the run's post list.

use vstd::multiset::Multiset;
use vstd::prelude::*;

use crate::args::DownloadCommand;
use crate::post::{clone_post, is_excluded, post_excluded, Post, PostModel};

verus! {

broadcast use
    vstd::seq_lib::group_filter_ensures,
    vstd::seq_lib::group_to_multiset_ensures,
    vstd::multiset::group_multiset_axioms,
    Seq::filter_distributes_over_add,
    Seq::lemma_flatten_push,
;

/// The posts a run keeps: those whose rating is not excluded.
pub open spec fn keeps(cmd: DownloadCommand) -> spec_fn(PostModel) -> bool {
    |m: PostModel| !is_excluded(m.rating, cmd)
}

/// The posts of one decoded page that survive the rating filter, in
/// page order.
pub open spec fn page_filter(page: Seq<PostModel>, cmd: DownloadCommand) -> Seq<PostModel> {
    page.filter(keeps(cmd))
}

/// All posts of all pages that survive the rating filter, in page
/// order, without deduplication.
pub open spec fn fetched_posts_spec(pages: Seq<Seq<PostModel>>, cmd: DownloadCommand) -> Seq<
    PostModel,
> {
    pages.flatten().filter(keeps(cmd))
}

/// Applies the rating filter to one decoded page of posts.
pub fn filter_page(page: &Vec<Post>, cmd: &DownloadCommand) -> (r: Vec<Post>)
    ensures
        r.deep_view() == page_filter(page.deep_view(), *cmd),
{
    let mut r: Vec<Post> = Vec::new();
    let mut i: usize = 0;
    proof {
        reveal(Seq::filter);
        assert(page.deep_view().take(0) =~= Seq::<PostModel>::empty());
    }
    while i < page.len()
        invariant
            i <= page@.len(),
            page@.len() == page.deep_view().len(),
            r.deep_view() == page_filter(page.deep_view().take(i as int), *cmd),
        decreases page@.len() - i,
    {
        let ghost prev = r.deep_view();
        let keep = !post_excluded(&page[i], cmd);
        if keep {
            r.push(clone_post(&page[i]));
        }
        proof {
            reveal(Seq::filter);
            let pd = page.deep_view();
            assert(pd.take(i + 1).drop_last() =~= pd.take(i as int));
            assert(pd.take(i + 1).last() == pd[i as int]);
            assert(pd[i as int] == page@[i as int]@);
            if keep {
                assert(r.deep_view() =~= prev.push(page@[i as int]@));
            }
            assert(r.deep_view() =~= page_filter(pd.take(i + 1), *cmd));
        }
        i = i + 1;
    }
    proof {
        assert(page.deep_view().take(page@.len() as int) =~= page.deep_view());
    }
    r
}

/// The one failure of the metadata stage: the combined, filtered list
/// is empty — there is nothing to download.
#[derive(Clone, Copy, Debug, PartialEq, Eq)]
pub enum FetchError {
    NoPosts,
}

/// Combines the decoded pages of a run: filters each page and strings
/// the survivors together in page order. Fails exactly when the
/// combined, filtered list is empty.
pub fn fetch_posts(pages: &Vec<Vec<Post>>, cmd: &DownloadCommand) -> (r: Result<
    Vec<Post>,
    FetchError,
>)
    ensures
        r matches Ok(posts) ==> posts.deep_view() == fetched_posts_spec(pages.deep_view(), *cmd)
            && posts.deep_view().len() > 0,
        r matches Err(e) ==> fetched_posts_spec(pages.deep_view(), *cmd).len() == 0 && e
            == FetchError::NoPosts,
{
    let mut out: Vec<Post> = Vec::new();
    let mut j: usize = 0;
    proof {
        reveal(Seq::filter);
        assert(pages.deep_view().take(0) =~= Seq::<Seq<PostModel>>::empty());
        assert(Seq::<Seq<PostModel>>::empty().flatten() =~= Seq::<PostModel>::empty());
    }
    while j < pages.len()
        invariant
            j <= pages@.len(),
            pages@.len() == pages.deep_view().len(),
            out.deep_view() == fetched_posts_spec(pages.deep_view().take(j as int), *cmd),
        decreases pages@.len() - j,
    {
        let ghost prev = out.deep_view();
        let mut filtered = filter_page(&pages[j], cmd);
        let ghost filtered_model = filtered.deep_view();
        out.append(&mut filtered);
        proof {
            let pgs = pages.deep_view();
            assert(pgs[j as int] == pages@[j as int].deep_view());
            assert(out.deep_view() =~= prev + filtered_model);
            assert(pgs.take(j + 1) =~= pgs.take(j as int).push(pgs[j as int]));
            assert(pgs.take(j + 1).flatten() == pgs.take(j as int).flatten() + pgs[j as int]);
            assert(out.deep_view() =~= fetched_posts_spec(pgs.take(j + 1), *cmd));
        }
        j = j + 1;
    }
    proof {
        assert(pages.deep_view().take(pages@.len() as int) =~= pages.deep_view());
    }
    if out.len() == 0 {
        proof {
            assert(out.deep_view().len() == out@.len());
        }
        Err(FetchError::NoPosts)
    } else {
        Ok(out)
    }
}

proof fn lemma_filter_count(s: Seq<PostModel>, cmd: DownloadCommand, m: PostModel)
    requires
        !is_excluded(m.rating, cmd),
    ensures
        s.filter(keeps(cmd)).to_multiset().count(m) == s.to_multiset().count(m),
    decreases s.len(),
{
    reveal(Seq::filter);
    if s.len() == 0 {
        assert(s.to_multiset() =~= Multiset::<PostModel>::empty());
    } else {
        let sub = s.drop_last();
        let last = s.last();
        lemma_filter_count(sub, cmd, m);
        assert(s =~= sub.push(last));
        assert(s.to_multiset() == sub.push(last).to_multiset());
        if keeps(cmd)(last) {
            assert(s.filter(keeps(cmd)) == sub.filter(keeps(cmd)).push(last));
        } else {
            assert(s.filter(keeps(cmd)) == sub.filter(keeps(cmd)));
            assert(last != m);
        }
    }
}

/// Filter law of the metadata stage: across all pages combined, the
/// output holds no post with an excluded rating, and holds every post
/// with a kept rating exactly as often as the pages do — nothing is
/// duplicated, nothing is dropped.
pub proof fn lemma_fetch_filter_exact(pages: Seq<Seq<PostModel>>, cmd: DownloadCommand)
    ensures
        forall|m: PostModel|
            is_excluded(m.rating, cmd) ==> !(#[trigger] fetched_posts_spec(pages, cmd).contains(
                m,
            )),
        forall|m: PostModel|
            !is_excluded(m.rating, cmd) ==> #[trigger] fetched_posts_spec(
                pages,
                cmd,
            ).to_multiset().count(m) == pages.flatten().to_multiset().count(m),
{
    let s = pages.flatten();
    let out = fetched_posts_spec(pages, cmd);
    assert forall|m: PostModel| is_excluded(m.rating, cmd) implies !(#[trigger] out.contains(
        m,
    )) by {
        if out.contains(m) {
            let i = choose|i: int| 0 <= i < out.len() && out[i] == m;
            assert(keeps(cmd)(out[i]));
        }
    }
    assert forall|m: PostModel| !is_excluded(m.rating, cmd) implies #[trigger] out.to_multiset().count(
        m,
    ) == s.to_multiset().count(m) by {
        lemma_filter_count(s, cmd, m);
    }
}

} // verus!
