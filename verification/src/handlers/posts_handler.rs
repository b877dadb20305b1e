//! The post endpoints.

pub use crate::handlers::reply::ErrorResponse;
use crate::handlers::reply::{
    bad_request, bad_request_text, success, success_text, Reply,
    STATUS_BAD_REQUEST, STATUS_CREATED, STATUS_INTERNAL_SERVER_ERROR,
};
use crate::middleware::mime_check::{check_file_size, size_within, MAX_FILE_BYTES};
use crate::models::posts::{Post, PostView};
use crate::models::response::{
    CreatePostRequest, FileResponse, PostResponse, SingePostResponse, StatusResponse,
    UpdatePostRequest,
};
use crate::trusted::codec::{base64_decode, base64_decoded, base64_encode, base64_encoded};
use vstd::prelude::*;

verus! {

/// The texts of uploaded files as plain values.
pub open spec fn texts_view(texts: Seq<String>) -> Seq<Seq<char>> {
    Seq::new(texts.len(), |i: int| texts[i]@)
}

/// File contents as plain values.
pub open spec fn files_view(files: Seq<Vec<u8>>) -> Seq<Seq<u8>> {
    Seq::new(files.len(), |i: int| files[i]@)
}

/// Whether every one of `texts` is base64.
pub open spec fn all_decodable(texts: Seq<Seq<char>>) -> bool {
    forall|i: int| 0 <= i < texts.len() ==> base64_decoded(#[trigger] texts[i]) is Some
}

/// The contents that `texts` decode to, where every one of them is base64.
pub open spec fn decoded_files(texts: Seq<Seq<char>>) -> Seq<Seq<u8>> {
    Seq::new(texts.len(), |i: int| base64_decoded(texts[i])->0)
}

/// Whether every one of `files` is within the file size limit.
pub open spec fn all_within_limit(files: Seq<Seq<u8>>) -> bool {
    forall|i: int| 0 <= i < files.len() ==> size_within(#[trigger] files[i], MAX_FILE_BYTES) is Some
}

/// The files that a request carries: none, the decoded contents when every
/// text is base64 and every file within the size limit, or an error.
pub open spec fn files_of(uploaded: Option<Seq<Seq<char>>>) -> Result<Option<Seq<Seq<u8>>>, ()> {
    match uploaded {
        None => Ok(None),
        Some(texts) => if all_decodable(texts) && all_within_limit(decoded_files(texts)) {
            Ok(Some(decoded_files(texts)))
        } else {
            Err(())
        },
    }
}

/// What the uploaded files of a request hold.
pub open spec fn uploaded_view(uploaded: Option<Vec<String>>) -> Option<Seq<Seq<char>>> {
    match uploaded {
        Some(texts) => Some(texts_view(texts@)),
        None => None,
    }
}

/// What a files result holds, the reply of a failure left aside.
pub open spec fn files_result_view(files: Result<Option<Vec<Vec<u8>>>, Reply<ErrorResponse>>)
    -> Result<Option<Seq<Seq<u8>>>, ()> {
    match files {
        Ok(Some(contents)) => Ok(Some(files_view(contents@))),
        Ok(None) => Ok(None),
        Err(_) => Err(()),
    }
}

/// Whether every one of `files` is within the file size limit.
pub fn files_within_limit(files: &Vec<Vec<u8>>) -> (within: bool)
    ensures
        within == all_within_limit(files_view(files@)),
{
    let mut i: usize = 0;
    while i < files.len()
        invariant
            i <= files@.len(),
            forall|k: int|
                0 <= k < i ==> size_within(#[trigger] files_view(files@)[k], MAX_FILE_BYTES)
                    is Some,
        decreases files@.len() - i,
    {
        if check_file_size(files[i].as_slice()).is_none() {
            assert(size_within(files_view(files@)[i as int], MAX_FILE_BYTES) is None);
            return false;
        }
        i += 1;
    }
    true
}

/// Decodes the uploaded files of a request, stopping at the first text
/// that is not base64.
fn decode_all(texts: &Vec<String>) -> (files: Option<Vec<Vec<u8>>>)
    ensures
        files is Some <==> all_decodable(texts_view(texts@)),
        files matches Some(contents) ==> files_view(contents@) == decoded_files(
            texts_view(texts@),
        ),
{
    let mut contents: Vec<Vec<u8>> = Vec::new();
    let mut i: usize = 0;
    while i < texts.len()
        invariant
            i <= texts@.len(),
            contents@.len() == i,
            forall|k: int| 0 <= k < i ==> base64_decoded(#[trigger] texts_view(texts@)[k]) is Some,
            forall|k: int|
                0 <= k < i ==> (#[trigger] contents@[k])@ == base64_decoded(texts@[k]@)->0,
        decreases texts@.len() - i,
    {
        match base64_decode(texts[i].as_str()) {
            Ok(bytes) => {
                contents.push(bytes);
            },
            Err(_) => {
                assert(base64_decoded(texts_view(texts@)[i as int]) is None);
                return None;
            },
        }
        i += 1;
    }
    proof {
        assert(files_view(contents@) =~= decoded_files(texts_view(texts@)));
    }
    Some(contents)
}

/// Decodes and checks the uploaded files of a request to create or update
/// a post.
pub fn decode_files(uploaded: &Option<Vec<String>>) -> (files: Result<
    Option<Vec<Vec<u8>>>,
    Reply<ErrorResponse>,
>)
    ensures
        files_result_view(files) == files_of(uploaded_view(*uploaded)),
        files matches Err(reply) ==> reply.status == STATUS_BAD_REQUEST && reply.body.message@
            == bad_request_text(),
{
    match uploaded {
        Some(texts) => match decode_all(texts) {
            Some(contents) => {
                if files_within_limit(&contents) {
                    Ok(Some(contents))
                } else {
                    Err(bad_request())
                }
            },
            None => Err(bad_request()),
        },
        None => Ok(None),
    }
}

/// The notification that goes out when a post has been created.
pub fn post_created_notice() -> (notice: String)
    ensures
        notice@ == "Post has been created"@,
{
    "Post has been created".to_owned()
}

/// The notification that goes out when a post has been updated.
pub fn post_updated_notice() -> (notice: String)
    ensures
        notice@ == "Post has been updated"@,
{
    "Post has been updated".to_owned()
}

/// The notification that goes out when a post has been deleted.
pub fn post_deleted_notice() -> (notice: String)
    ensures
        notice@ == "Post has been deleted"@,
{
    "Post has been deleted".to_owned()
}

/// One page of posts.
pub fn post_page(posts: Vec<Post>) -> (response: PostResponse)
    ensures
        response.status@ == success_text(),
        response.results == posts@.len(),
        response.posts == posts,
{
    let length = posts.len();
    PostResponse { status: success(), results: length, posts }
}

/// The response for a post that was looked up, if one was found.
pub fn found_post(post: Option<Post>) -> (response: Option<SingePostResponse>)
    ensures
        match post {
            Some(p) => response matches Some(r) && r.status@ == success_text() && r.data == p,
            None => response is None,
        },
{
    match post {
        Some(data) => Some(SingePostResponse { status: success(), data }),
        None => None,
    }
}

/// The reply to a request that created a post: the post as asked for under
/// the id that storage gave it, without timestamps, with status 201.
pub fn post_created(data: &CreatePostRequest, post_id: i64) -> (reply: Reply<SingePostResponse>)
    ensures
        reply.status == STATUS_CREATED,
        reply.body.status@ == success_text(),
        reply.body.data@ == (PostView {
            id: post_id,
            title: data.title@,
            content: data.content@,
            author_id: data.author_id,
            created_at: Seq::<char>::empty(),
            updated_at: Seq::<char>::empty(),
        }),
{
    let post = Post {
        id: post_id,
        title: data.title.clone(),
        content: data.content.clone(),
        author_id: data.author_id,
        created_at: String::new(),
        updated_at: String::new(),
    };
    Reply { status: STATUS_CREATED, body: SingePostResponse { status: success(), data: post } }
}

/// The reply to a request to create a post that storage turned down.
pub fn post_not_created() -> (reply: Reply<ErrorResponse>)
    ensures
        reply.status == STATUS_INTERNAL_SERVER_ERROR,
        reply.body.message@ == "Failed to create post"@,
{
    Reply {
        status: STATUS_INTERNAL_SERVER_ERROR,
        body: ErrorResponse::new("Failed to create post".to_owned()),
    }
}

/// The reply to a request to create a post, from what storage answered:
/// the created post under the id that storage gave it, or the failure
/// reply where storage gave none.
pub fn post_create_reply(data: &CreatePostRequest, inserted: Option<i64>) -> (reply: Result<
    Reply<SingePostResponse>,
    Reply<ErrorResponse>,
>)
    ensures
        match inserted {
            Some(post_id) => {
                &&& reply matches Ok(created)
                &&& created.status == STATUS_CREATED
                &&& created.body.status@ == success_text()
                &&& created.body.data@ == (PostView {
                    id: post_id,
                    title: data.title@,
                    content: data.content@,
                    author_id: data.author_id,
                    created_at: Seq::<char>::empty(),
                    updated_at: Seq::<char>::empty(),
                })
            },
            None => {
                &&& reply matches Err(failed)
                &&& failed.status == STATUS_INTERNAL_SERVER_ERROR
                &&& failed.body.message@ == "Failed to create post"@
            },
        },
{
    match inserted {
        Some(post_id) => Ok(post_created(data, post_id)),
        None => Err(post_not_created()),
    }
}

/// The reply to a request that updated a post: title and content as asked
/// for, stamped with the time of the update, with status 201. Neither the
/// id nor the author is reported.
pub fn post_updated(data: &UpdatePostRequest, updated_at: String) -> (reply: Reply<
    SingePostResponse,
>)
    ensures
        reply.status == STATUS_CREATED,
        reply.body.status@ == success_text(),
        reply.body.data@ == (PostView {
            id: 0,
            title: data.title@,
            content: data.content@,
            author_id: 0,
            created_at: Seq::<char>::empty(),
            updated_at: updated_at@,
        }),
{
    let post = Post {
        id: 0,
        title: data.title.clone(),
        content: data.content.clone(),
        author_id: 0,
        created_at: String::new(),
        updated_at,
    };
    Reply { status: STATUS_CREATED, body: SingePostResponse { status: success(), data: post } }
}

/// The reply to a request that deleted a post.
pub fn post_deleted() -> (reply: Reply<StatusResponse>)
    ensures
        reply.status == STATUS_CREATED,
        reply.body.status@ == success_text(),
{
    Reply { status: STATUS_CREATED, body: StatusResponse { status: success() } }
}

/// The files of a post for download, each as base64 text and in the order
/// given.
pub fn encode_files(files: &Vec<Vec<u8>>) -> (response: FileResponse)
    ensures
        response.status@ == "success"@,
        response.data@.len() == files@.len(),
        forall|i: int|
            0 <= i < files@.len() ==> (#[trigger] response.data@[i])@ == base64_encoded(
                files@[i]@,
            ),
{
    let mut data: Vec<String> = Vec::new();
    let mut i: usize = 0;
    while i < files.len()
        invariant
            i <= files@.len(),
            data@.len() == i,
            forall|k: int| 0 <= k < i ==> (#[trigger] data@[k])@ == base64_encoded(files@[k]@),
        decreases files@.len() - i,
    {
        data.push(base64_encode(files[i].as_slice()));
        i += 1;
    }
    FileResponse { status: "success".to_owned(), data }
}

} // verus!
