//! The author endpoints.

pub use crate::handlers::reply::ErrorResponse;
use crate::handlers::reply::{
    bad_request, bad_request_text, success, success_text, Reply, STATUS_ACCEPTED,
    STATUS_BAD_REQUEST, STATUS_CREATED,
};
use crate::middleware::mime_check::{
    check_image_format, check_image_size, image_format_of, size_within, MAX_IMAGE_BYTES,
};
use crate::models::authors::{bytes_view, Author, AuthorView};
use crate::models::response::{
    AuthorResponse, CreateAuthorRequest, SingeAuthorResponse, StatusResponse, UpdateAuthorRequest,
};
use crate::handlers::listing::text_view;
use crate::trusted::codec::{base64_decode, base64_decoded};
use vstd::prelude::*;

verus! {

/// A photo is accepted when it is a PNG or JPEG image within the image
/// size limit.
pub open spec fn photo_accepted(photo: Seq<u8>) -> bool {
    image_format_of(photo) is Some && size_within(photo, MAX_IMAGE_BYTES) is Some
}

/// The photo that a request carries: none, the decoded bytes of an
/// accepted photo, or an error for text that is not base64 or bytes that
/// are not accepted.
pub open spec fn photo_of(photo: Option<Seq<char>>) -> Result<Option<Seq<u8>>, ()> {
    match photo {
        None => Ok(None),
        Some(text) => match base64_decoded(text) {
            Some(bytes) => if photo_accepted(bytes) {
                Ok(Some(bytes))
            } else {
                Err(())
            },
            None => Err(()),
        },
    }
}

/// What a photo result holds, the reply of a failure left aside.
pub open spec fn photo_view(photo: Result<Option<Vec<u8>>, Reply<ErrorResponse>>) -> Result<
    Option<Seq<u8>>,
    (),
> {
    match photo {
        Ok(bytes) => Ok(bytes_view(bytes)),
        Err(_) => Err(()),
    }
}

/// Decides on a decoded photo: the bytes if decoding succeeded and the
/// photo is accepted, and the bad-request reply otherwise.
pub fn accept_photo(decoded: Result<Vec<u8>, base64::DecodeError>) -> (photo: Result<
    Vec<u8>,
    Reply<ErrorResponse>,
>)
    ensures
        match decoded {
            Ok(bytes) => if photo_accepted(bytes@) {
                photo == Ok::<Vec<u8>, Reply<ErrorResponse>>(bytes)
            } else {
                photo is Err
            },
            Err(_) => photo is Err,
        },
        photo matches Err(reply) ==> reply.status == STATUS_BAD_REQUEST && reply.body.message@
            == bad_request_text(),
{
    match decoded {
        Ok(bytes) => {
            if check_image_format(bytes.as_slice()).is_none() || check_image_size(
                bytes.as_slice(),
            ).is_none() {
                Err(bad_request())
            } else {
                Ok(bytes)
            }
        },
        Err(_) => Err(bad_request()),
    }
}

/// Decodes and checks the photo of a request to create or update an
/// author.
pub fn decode_photo(photo: &Option<String>) -> (decoded: Result<
    Option<Vec<u8>>,
    Reply<ErrorResponse>,
>)
    ensures
        photo_view(decoded) == photo_of(text_view(*photo)),
        decoded matches Err(reply) ==> reply.status == STATUS_BAD_REQUEST && reply.body.message@
            == bad_request_text(),
{
    match photo {
        Some(text) => match accept_photo(base64_decode(text.as_str())) {
            Ok(bytes) => Ok(Some(bytes)),
            Err(reply) => Err(reply),
        },
        None => Ok(None),
    }
}

/// The notification that goes out when an author has been created.
pub fn author_created_notice() -> (notice: String)
    ensures
        notice@ == "Author has been created"@,
{
    "Author has been created".to_owned()
}

/// The notification that goes out when an author has been updated.
pub fn author_updated_notice() -> (notice: String)
    ensures
        notice@ == "Author has been updated"@,
{
    "Author has been updated".to_owned()
}

/// The notification that goes out when an author has been deleted.
pub fn author_deleted_notice() -> (notice: String)
    ensures
        notice@ == "Author has been deleted"@,
{
    "Author has been deleted".to_owned()
}

/// One page of authors.
pub fn author_page(authors: Vec<Author>) -> (response: AuthorResponse)
    ensures
        response.status@ == success_text(),
        response.results == authors@.len(),
        response.authors == authors,
{
    let length = authors.len();
    AuthorResponse { status: success(), results: length, authors }
}

/// The response for an author that was looked up, if one was found.
pub fn found_author(author: Option<Author>) -> (response: Option<SingeAuthorResponse>)
    ensures
        match author {
            Some(a) => response matches Some(r) && r.status@ == success_text() && r.data == a,
            None => response is None,
        },
{
    match author {
        Some(data) => Some(SingeAuthorResponse { status: success(), data }),
        None => None,
    }
}

/// The reply to a request that created an author: the author as asked
/// for, without id or timestamps, with status 201.
pub fn author_created(data: &CreateAuthorRequest, photo: Option<Vec<u8>>) -> (reply: Reply<
    SingeAuthorResponse,
>)
    ensures
        reply.status == STATUS_CREATED,
        reply.body.status@ == success_text(),
        reply.body.data@ == (AuthorView {
            id: 0,
            name: data.name@,
            surname: data.surname@,
            photo: bytes_view(photo),
            created_at: Seq::<char>::empty(),
            updated_at: Seq::<char>::empty(),
        }),
{
    let author = Author {
        id: 0,
        name: data.name.clone(),
        surname: data.surname.clone(),
        photo,
        created_at: String::new(),
        updated_at: String::new(),
    };
    Reply { status: STATUS_CREATED, body: SingeAuthorResponse { status: success(), data: author } }
}

/// The reply to a request that updated an author: the author as asked
/// for, stamped with the time of the update, with status 202.
pub fn author_updated(
    data: &UpdateAuthorRequest,
    photo: Option<Vec<u8>>,
    updated_at: String,
) -> (reply: Reply<SingeAuthorResponse>)
    ensures
        reply.status == STATUS_ACCEPTED,
        reply.body.status@ == success_text(),
        reply.body.data@ == (AuthorView {
            id: 0,
            name: data.name@,
            surname: data.surname@,
            photo: bytes_view(photo),
            created_at: Seq::<char>::empty(),
            updated_at: updated_at@,
        }),
{
    let author = Author {
        id: 0,
        name: data.name.clone(),
        surname: data.surname.clone(),
        photo,
        created_at: String::new(),
        updated_at,
    };
    Reply { status: STATUS_ACCEPTED, body: SingeAuthorResponse { status: success(), data: author } }
}

/// The reply to a request that deleted an author.
pub fn author_deleted() -> (reply: Reply<StatusResponse>)
    ensures
        reply.status == STATUS_CREATED,
        reply.body.status@ == success_text(),
{
    Reply { status: STATUS_CREATED, body: StatusResponse { status: success() } }
}

} // verus!
