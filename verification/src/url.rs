//! The two API URLs of a run: the HTML listing page the page count is
//! scraped from, and the JSON listing page of each page of post
//! records. Optional credentials are appended as query parameters.

use vstd::prelude::*;

use crate::args::Credentials;
use crate::text::{ascii_seq, dec_of, push_bytes, str_to_bytes, u64_to_dec};

verus! {

/// Fixed page size of every listing request.
pub const POSTS_PER_PAGE: u64 = 200;

/// The credential query parameters: empty without credentials, else
/// `&login={login}&api_key={api_key}`.
pub open spec fn creds_part(creds: Option<Credentials>) -> Seq<u8> {
    match creds {
        None => Seq::<u8>::empty(),
        Some(c) => ascii_seq("&login="@) + c.login@ + ascii_seq("&api_key="@) + c.api_key@,
    }
}

fn push_creds(r: &mut Vec<u8>, creds: &Option<Credentials>)
    ensures
        final(r)@ == old(r)@ + creds_part(*creds),
{
    match creds {
        None => {
            proof {
                assert(r@ =~= old(r)@ + creds_part(*creds));
            }
        },
        Some(c) => {
            let login_key = str_to_bytes("&login=");
            push_bytes(r, &login_key);
            push_bytes(r, &c.login);
            let api_key_key = str_to_bytes("&api_key=");
            push_bytes(r, &api_key_key);
            push_bytes(r, &c.api_key);
            proof {
                assert(r@ =~= old(r)@ + creds_part(*creds));
            }
        },
    }
}

/// The HTML listing URL of a tag fragment:
/// `https://danbooru.donmai.us/posts?tags={fragment}&limit={page size}`
/// plus the credential parameters.
pub open spec fn listing_url_spec(fragment: Seq<u8>, creds: Option<Credentials>) -> Seq<u8> {
    ascii_seq("https://danbooru.donmai.us/posts?tags="@) + fragment + ascii_seq("&limit="@)
        + dec_of(POSTS_PER_PAGE as nat) + creds_part(creds)
}

/// Builds the HTML listing URL the page count is scraped from.
pub fn listing_url(fragment: &Vec<u8>, creds: &Option<Credentials>) -> (r: Vec<u8>)
    ensures
        r@ == listing_url_spec(fragment@, *creds),
{
    let mut r = str_to_bytes("https://danbooru.donmai.us/posts?tags=");
    push_bytes(&mut r, fragment);
    let limit_key = str_to_bytes("&limit=");
    push_bytes(&mut r, &limit_key);
    let limit = u64_to_dec(POSTS_PER_PAGE);
    push_bytes(&mut r, &limit);
    push_creds(&mut r, creds);
    proof {
        assert(r@ =~= listing_url_spec(fragment@, *creds));
    }
    r
}

/// The JSON listing URL of one page:
/// `https://danbooru.donmai.us/posts.json?page={page}&tags={fragment}&limit={page size}`
/// with the field projection the decoder expects, plus the credential
/// parameters.
pub open spec fn page_url_spec(fragment: Seq<u8>, page: u64, creds: Option<Credentials>) -> Seq<
    u8,
> {
    ascii_seq("https://danbooru.donmai.us/posts.json?page="@) + dec_of(page as nat) + ascii_seq(
        "&tags="@,
    ) + fragment + ascii_seq("&limit="@) + dec_of(POSTS_PER_PAGE as nat) + ascii_seq(
        "&only=rating,file_url,id,score,file_ext,large_file_url"@,
    ) + creds_part(creds)
}

/// Builds the JSON listing URL of one page of post records.
pub fn page_url(fragment: &Vec<u8>, page: u64, creds: &Option<Credentials>) -> (r: Vec<u8>)
    ensures
        r@ == page_url_spec(fragment@, page, *creds),
{
    let mut r = str_to_bytes("https://danbooru.donmai.us/posts.json?page=");
    let page_digits = u64_to_dec(page);
    push_bytes(&mut r, &page_digits);
    let tags_key = str_to_bytes("&tags=");
    push_bytes(&mut r, &tags_key);
    push_bytes(&mut r, fragment);
    let limit_key = str_to_bytes("&limit=");
    push_bytes(&mut r, &limit_key);
    let limit = u64_to_dec(POSTS_PER_PAGE);
    push_bytes(&mut r, &limit);
    let only = str_to_bytes("&only=rating,file_url,id,score,file_ext,large_file_url");
    push_bytes(&mut r, &only);
    push_creds(&mut r, creds);
    proof {
        assert(r@ =~= page_url_spec(fragment@, page, *creds));
    }
    r
}

} // verus!
