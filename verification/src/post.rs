//! One post of the board: its metadata record, the choice of which of
//! its URLs to download, and the on-disk location the file goes to.

use vstd::prelude::*;

use crate::args::DownloadCommand;
use crate::text::{
    ascii_seq, bytes_eq, clone_bytes, contains_seq, contains_sub, i32_to_dec, int_dec, push_bytes,
    str_to_bytes,
};

verus! {

/// Rating code `g`: general.
pub const RATING_GENERAL: u8 = 103;

/// Rating code `s`: sensitive.
pub const RATING_SENSITIVE: u8 = 115;

/// Rating code `q`: questionable.
pub const RATING_QUESTIONABLE: u8 = 113;

/// Rating code `e`: explicit.
pub const RATING_EXPLICIT: u8 = 101;

/// One content item returned by the API. String-valued fields hold the
/// UTF-8 bytes of the wire value; `rating` holds the single-character
/// rating code.
#[derive(Clone, Debug, PartialEq, Eq)]
pub struct Post {
    pub id: i32,
    pub score: i32,
    pub rating: u8,
    pub file_ext: Vec<u8>,
    pub file_url: Option<Vec<u8>>,
    pub large_file_url: Option<Vec<u8>>,
}

/// The mathematical value of a post: the same record with every byte
/// string read as a sequence.
pub ghost struct PostModel {
    pub id: int,
    pub score: int,
    pub rating: u8,
    pub file_ext: Seq<u8>,
    pub file_url: Option<Seq<u8>>,
    pub large_file_url: Option<Seq<u8>>,
}

impl View for Post {
    type V = PostModel;

    open spec fn view(&self) -> PostModel {
        PostModel {
            id: self.id as int,
            score: self.score as int,
            rating: self.rating,
            file_ext: self.file_ext@,
            file_url: match self.file_url {
                Some(u) => Some(u@),
                None => None,
            },
            large_file_url: match self.large_file_url {
                Some(u) => Some(u@),
                None => None,
            },
        }
    }
}

impl DeepView for Post {
    type V = PostModel;

    open spec fn deep_view(&self) -> PostModel {
        self.view()
    }
}

/// Copies a post; the copy has the same mathematical value.
pub fn clone_post(p: &Post) -> (r: Post)
    ensures
        r@ == p@,
{
    let file_url = match &p.file_url {
        Some(u) => Some(clone_bytes(u)),
        None => None,
    };
    let large_file_url = match &p.large_file_url {
        Some(u) => Some(clone_bytes(u)),
        None => None,
    };
    Post {
        id: p.id,
        score: p.score,
        rating: p.rating,
        file_ext: clone_bytes(&p.file_ext),
        file_url,
        large_file_url,
    }
}

/// Whether a post's rating is switched off by the run configuration.
pub open spec fn is_excluded(rating: u8, cmd: DownloadCommand) -> bool {
    (rating == RATING_GENERAL && cmd.exclude_general) || (rating == RATING_SENSITIVE
        && cmd.exclude_sensitive) || (rating == RATING_QUESTIONABLE && cmd.exclude_questionable)
        || (rating == RATING_EXPLICIT && cmd.exclude_explicit)
}

/// Tests a post against the run's exclusion flags.
pub fn post_excluded(p: &Post, cmd: &DownloadCommand) -> (r: bool)
    ensures
        r == is_excluded(p.rating, *cmd),
{
    (p.rating == RATING_GENERAL && cmd.exclude_general) || (p.rating == RATING_SENSITIVE
        && cmd.exclude_sensitive) || (p.rating == RATING_QUESTIONABLE && cmd.exclude_questionable)
        || (p.rating == RATING_EXPLICIT && cmd.exclude_explicit)
}

/// The rating sub-directory a post is filed under; any code other than
/// the four known ones falls into `unknown`.
pub open spec fn folder_seq(rating: u8) -> Seq<u8> {
    if rating == RATING_GENERAL {
        ascii_seq("general"@)
    } else if rating == RATING_SENSITIVE {
        ascii_seq("sensitive"@)
    } else if rating == RATING_QUESTIONABLE {
        ascii_seq("questionable"@)
    } else if rating == RATING_EXPLICIT {
        ascii_seq("explicit"@)
    } else {
        ascii_seq("unknown"@)
    }
}

/// Maps a rating code to its sub-directory name.
pub fn rating_folder(rating: u8) -> (r: Vec<u8>)
    ensures
        r@ == folder_seq(rating),
{
    if rating == RATING_GENERAL {
        str_to_bytes("general")
    } else if rating == RATING_SENSITIVE {
        str_to_bytes("sensitive")
    } else if rating == RATING_QUESTIONABLE {
        str_to_bytes("questionable")
    } else if rating == RATING_EXPLICIT {
        str_to_bytes("explicit")
    } else {
        str_to_bytes("unknown")
    }
}

/// Whether a post is the pseudo-animated case: a generic `zip`
/// extension whose large-file URL names a `.webm` asset.
pub open spec fn is_zip_webm(p: Post) -> bool {
    p.file_ext@ == ascii_seq("zip"@) && match p.large_file_url {
        Some(l) => contains_sub(l@, ascii_seq(".webm"@)),
        None => false,
    }
}

/// The URL a post is downloaded from together with the on-disk
/// extension, or nothing when the post carries no URL at all.
///
/// The pseudo-animated case takes the large-file URL and the `webm`
/// extension; otherwise the plain file URL is preferred and the
/// large-file URL is the fallback, keeping the reported extension.
pub open spec fn resolved_media(p: Post) -> Option<(Seq<u8>, Seq<u8>)> {
    if is_zip_webm(p) {
        match p.large_file_url {
            Some(l) => Some((l@, ascii_seq("webm"@))),
            None => None,
        }
    } else {
        match p.file_url {
            Some(f) => Some((f@, p.file_ext@)),
            None => match p.large_file_url {
                Some(l) => Some((l@, p.file_ext@)),
                None => None,
            },
        }
    }
}

/// The one per-item failure of planning: the post has no URL field at
/// all.
#[derive(Clone, Copy, Debug, PartialEq, Eq)]
pub enum ItemError {
    NoUrl,
}

/// Resolves which URL a post is fetched from and which extension the
/// file gets. Fails exactly when both URL fields are absent.
pub fn resolve_media(p: &Post) -> (r: Result<(Vec<u8>, Vec<u8>), ItemError>)
    ensures
        (r matches Err(e)) <==> (p.file_url is None && p.large_file_url is None),
        r matches Ok(m) ==> resolved_media(*p) == Some((m.0@, m.1@)),
        r matches Err(e) ==> resolved_media(*p) is None && e == ItemError::NoUrl,
{
    let zip = str_to_bytes("zip");
    let webm_marker = str_to_bytes(".webm");
    let zip_webm = bytes_eq(&p.file_ext, &zip) && match &p.large_file_url {
        Some(l) => contains_seq(l, &webm_marker),
        None => false,
    };
    if zip_webm {
        match &p.large_file_url {
            Some(l) => Ok((clone_bytes(l), str_to_bytes("webm"))),
            None => Err(ItemError::NoUrl),
        }
    } else {
        match &p.file_url {
            Some(f) => Ok((clone_bytes(f), clone_bytes(&p.file_ext))),
            None => match &p.large_file_url {
                Some(l) => Ok((clone_bytes(l), clone_bytes(&p.file_ext))),
                None => Err(ItemError::NoUrl),
            },
        }
    }
}

/// The rating sub-directory of a post under the output root.
pub open spec fn dir_path(root: Seq<u8>, rating: u8) -> Seq<u8> {
    root + seq![47u8] + folder_seq(rating)
}

/// The destination of a post's file:
/// `{root}/{rating folder}/{score}_{id}.{extension}`.
pub open spec fn dest_path(root: Seq<u8>, p: Post, ext: Seq<u8>) -> Seq<u8> {
    dir_path(root, p.rating) + seq![47u8] + int_dec(p.score as int) + seq![95u8] + int_dec(
        p.id as int,
    ) + seq![46u8] + ext
}

/// Builds the rating sub-directory path of a post.
pub fn build_dir_path(root: &Vec<u8>, rating: u8) -> (r: Vec<u8>)
    ensures
        r@ == dir_path(root@, rating),
{
    let mut r = clone_bytes(root);
    r.push(47u8);
    let folder = rating_folder(rating);
    push_bytes(&mut r, &folder);
    r
}

/// Builds the full destination path of a post's file.
pub fn build_dest_path(root: &Vec<u8>, p: &Post, ext: &Vec<u8>) -> (r: Vec<u8>)
    ensures
        r@ == dest_path(root@, *p, ext@),
{
    let mut r = build_dir_path(root, p.rating);
    r.push(47u8);
    let score = i32_to_dec(p.score);
    push_bytes(&mut r, &score);
    r.push(95u8);
    let id = i32_to_dec(p.id);
    push_bytes(&mut r, &id);
    r.push(46u8);
    push_bytes(&mut r, ext);
    r
}

/// Everything decided about one post before any filesystem or network
/// work: where to fetch from, which directory must exist, where the
/// file goes, and whether the exclusion filter vetoes it.
#[derive(Debug)]
pub struct DownloadPlan {
    pub url: Vec<u8>,
    pub dir: Vec<u8>,
    pub path: Vec<u8>,
    pub excluded: bool,
}

/// What one download step does, once the planner knows whether the
/// destination file is already present.
#[derive(Clone, Copy, Debug, PartialEq, Eq)]
pub enum DownloadAction {
    /// The file is already on disk: succeed without any transfer.
    AlreadyPresent,
    /// The exclusion filter vetoes the post: succeed as a no-op.
    SkippedExcluded,
    /// Stream the plan's URL to the plan's path.
    Fetch,
}

impl Post {
    /// Resolves a post into a download plan. Fails exactly when the
    /// post has no URL field at all.
    pub fn download_plan(&self, cmd: &DownloadCommand) -> (r: Result<DownloadPlan, ItemError>)
        ensures
            (r matches Err(e)) <==> (self.file_url is None && self.large_file_url is None),
            r matches Ok(plan) ==> {
                &&& resolved_media(*self) matches Some(m) && plan.url@ == m.0 && plan.path@
                    == dest_path(cmd.save_location@, *self, m.1)
                &&& plan.dir@ == dir_path(cmd.save_location@, self.rating)
                &&& plan.excluded == is_excluded(self.rating, *cmd)
            },
            r matches Err(e) ==> e == ItemError::NoUrl,
    {
        match resolve_media(self) {
            Ok((url, ext)) => {
                let dir = build_dir_path(&cmd.save_location, self.rating);
                let path = build_dest_path(&cmd.save_location, self, &ext);
                let excluded = post_excluded(self, cmd);
                Ok(DownloadPlan { url, dir, path, excluded })
            },
            Err(e) => Err(e),
        }
    }
}

/// The action taken for a plan, given whether the destination file is
/// already present: presence wins, then the exclusion veto, and only
/// then is anything transferred.
pub open spec fn spec_download_action(plan: DownloadPlan, present: bool) -> DownloadAction {
    if present {
        DownloadAction::AlreadyPresent
    } else if plan.excluded {
        DownloadAction::SkippedExcluded
    } else {
        DownloadAction::Fetch
    }
}

/// Decides what to do for a planned post once the filesystem has said
/// whether the destination file exists.
pub fn download_action(plan: &DownloadPlan, present: bool) -> (r: DownloadAction)
    ensures
        r == spec_download_action(*plan, present),
{
    if present {
        DownloadAction::AlreadyPresent
    } else if plan.excluded {
        DownloadAction::SkippedExcluded
    } else {
        DownloadAction::Fetch
    }
}

/// Idempotence of the downloader: once a post's destination file is
/// present, a later run of the same plan performs no transfer at all —
/// it reports the post as already downloaded.
pub proof fn lemma_download_idempotent(plan: DownloadPlan)
    ensures
        spec_download_action(plan, true) == DownloadAction::AlreadyPresent,
        spec_download_action(plan, true) != DownloadAction::Fetch,
{
}

} // verus!
