use blog_backend::handlers::author_handler::{
    accept_photo, author_created, author_created_notice, author_deleted, author_deleted_notice,
    author_page, author_updated, author_updated_notice, decode_photo, found_author,
};
use blog_backend::handlers::listing::{list_query, ITEMS_PER_PAGE};
use blog_backend::handlers::posts_handler::{
    decode_files, encode_files, files_within_limit, found_post, post_create_reply, post_created,
    post_created_notice, post_deleted, post_deleted_notice, post_not_created, post_page,
    post_updated, post_updated_notice,
};
use blog_backend::handlers::reply::{
    bad_request, notice_after_write, success, ErrorResponse, Reply,
};
use blog_backend::middleware::mime_check::{MAX_FILE_BYTES, MAX_IMAGE_BYTES};
use blog_backend::models::authors::Author;
use blog_backend::models::posts::Post;
use blog_backend::models::response::{
    CreateAuthorRequest, CreatePostRequest, PageQueryParam, UpdateAuthorRequest,
    UpdatePostRequest,
};

const PNG: [u8; 10] = [137, 80, 78, 71, 13, 10, 26, 10, 1, 2];
const PNG_BASE64: &str = "iVBORw0KGgoBAg==";

fn bad() -> Reply<ErrorResponse> {
    Reply { status: 400, body: ErrorResponse { message: "Bad Request".to_string() } }
}

fn author(id: i64) -> Author {
    Author {
        id,
        name: "Ada".to_string(),
        surname: "Lovelace".to_string(),
        photo: None,
        created_at: "2024-01-01 00:00:00".to_string(),
        updated_at: "2024-01-02 00:00:00".to_string(),
    }
}

fn post(id: i64) -> Post {
    Post {
        id,
        title: "Hello".to_string(),
        content: "World".to_string(),
        author_id: 7,
        created_at: String::new(),
        updated_at: String::new(),
    }
}

#[test]
fn error_response_keeps_its_message() {
    assert_eq!(ErrorResponse::new("Bad Request".to_string()).message, "Bad Request");
    assert_eq!(bad_request(), bad());
    assert_eq!(success(), "Success");
}

#[test]
fn absent_photo_is_accepted_as_none() {
    assert_eq!(decode_photo(&None), Ok(None));
}

#[test]
fn png_photo_is_decoded() {
    assert_eq!(decode_photo(&Some(PNG_BASE64.to_string())), Ok(Some(PNG.to_vec())));
}

#[test]
fn photo_that_is_not_base64_is_a_bad_request() {
    assert_eq!(decode_photo(&Some("not base64!".to_string())), Err(bad()));
    // without its padding the text is not canonical
    assert_eq!(decode_photo(&Some("iVBORw0KGgoBAg".to_string())), Err(bad()));
}

#[test]
fn photo_that_is_no_image_is_a_bad_request() {
    // "%PDF-1.7 ..." is a document, not an image
    assert_eq!(decode_photo(&Some("JVBERi0xLjcgLi4u".to_string())), Err(bad()));
    assert_eq!(decode_photo(&Some(String::new())), Err(bad()));
}

#[test]
fn photo_over_the_size_limit_is_a_bad_request() {
    let mut at_limit = PNG.to_vec();
    at_limit.resize(MAX_IMAGE_BYTES, 0);
    assert_eq!(accept_photo(Ok(at_limit.clone())), Ok(at_limit.clone()));
    let mut over = at_limit;
    over.push(0);
    assert_eq!(accept_photo(Ok(over)), Err(bad()));
}

#[test]
fn failed_decoding_is_a_bad_request() {
    assert_eq!(accept_photo(Err(base64::DecodeError::InvalidLength)), Err(bad()));
}

#[test]
fn absent_files_are_accepted_as_none() {
    assert_eq!(decode_files(&None), Ok(None));
    assert_eq!(decode_files(&Some(Vec::new())), Ok(Some(Vec::new())));
}

#[test]
fn files_are_decoded_in_order() {
    let uploaded = Some(vec!["aGVsbG8=".to_string(), "".to_string(), "AAEC/w==".to_string()]);
    assert_eq!(
        decode_files(&uploaded),
        Ok(Some(vec![b"hello".to_vec(), Vec::new(), vec![0, 1, 2, 255]]))
    );
}

#[test]
fn one_file_that_is_not_base64_fails_the_request() {
    let uploaded = Some(vec!["aGVsbG8=".to_string(), "%%%".to_string()]);
    assert_eq!(decode_files(&uploaded), Err(bad()));
}

#[test]
fn file_size_limit_applies_to_each_file() {
    let at_limit = vec![0u8; MAX_FILE_BYTES];
    let over = vec![0u8; MAX_FILE_BYTES + 1];
    assert!(files_within_limit(&vec![at_limit.clone(), Vec::new()]));
    assert!(!files_within_limit(&vec![at_limit, over]));
    assert!(files_within_limit(&Vec::new()));
}

#[test]
fn oversized_file_fails_the_request() {
    // 10 240 002 zero bytes, written as base64
    let text = "A".repeat((MAX_FILE_BYTES + 2) / 3 * 4);
    assert_eq!(decode_files(&Some(vec![text])), Err(bad()));
    let text = "A".repeat(MAX_FILE_BYTES / 3 * 4);
    assert_eq!(decode_files(&Some(vec![text])), Ok(Some(vec![vec![0u8; MAX_FILE_BYTES / 3 * 3]])));
}

#[test]
fn files_are_encoded_for_download() {
    let response = encode_files(&vec![b"hello".to_vec(), Vec::new(), vec![0, 1, 2, 255]]);
    assert_eq!(response.status, "success");
    assert_eq!(response.data, vec!["aGVsbG8=", "", "AAEC/w=="]);
}

#[test]
fn author_replies() {
    let create = CreateAuthorRequest {
        name: "Ada".to_string(),
        surname: "Lovelace".to_string(),
        photo: Some(PNG_BASE64.to_string()),
    };
    let reply = author_created(&create, Some(PNG.to_vec()));
    assert_eq!(reply.status, 201);
    assert_eq!(reply.body.status, "Success");
    assert_eq!(
        reply.body.data,
        Author {
            id: 0,
            name: "Ada".to_string(),
            surname: "Lovelace".to_string(),
            photo: Some(PNG.to_vec()),
            created_at: String::new(),
            updated_at: String::new(),
        }
    );

    let update =
        UpdateAuthorRequest { name: "A".to_string(), surname: "L".to_string(), photo: None };
    let reply = author_updated(&update, None, "2024-05-06 07:08:09".to_string());
    assert_eq!(reply.status, 202);
    assert_eq!(reply.body.status, "Success");
    assert_eq!(
        reply.body.data,
        Author {
            id: 0,
            name: "A".to_string(),
            surname: "L".to_string(),
            photo: None,
            created_at: String::new(),
            updated_at: "2024-05-06 07:08:09".to_string(),
        }
    );

    let reply = author_deleted();
    assert_eq!(reply.status, 201);
    assert_eq!(reply.body.status, "Success");
}

#[test]
fn author_lists_and_lookups() {
    let page = author_page(vec![author(1), author(2)]);
    assert_eq!(page.status, "Success");
    assert_eq!(page.results, 2);
    assert_eq!(page.authors, vec![author(1), author(2)]);
    assert_eq!(author_page(Vec::new()).results, 0);
    let found = found_author(Some(author(3))).unwrap();
    assert_eq!(found.status, "Success");
    assert_eq!(found.data, author(3));
    assert_eq!(found_author(None), None);
}

#[test]
fn post_replies() {
    let create = CreatePostRequest {
        title: "Hello".to_string(),
        content: "World".to_string(),
        author_id: 7,
        uploaded_files: None,
    };
    let reply = post_created(&create, 41);
    assert_eq!(reply.status, 201);
    assert_eq!(reply.body.status, "Success");
    assert_eq!(reply.body.data, post(41));

    let reply = post_not_created();
    assert_eq!(reply.status, 500);
    assert_eq!(reply.body.message, "Failed to create post");

    let update = UpdatePostRequest {
        title: "T".to_string(),
        content: "C".to_string(),
        uploaded_files: None,
    };
    let reply = post_updated(&update, "2024-05-06 07:08:09".to_string());
    assert_eq!(reply.status, 201);
    assert_eq!(
        reply.body.data,
        Post {
            id: 0,
            title: "T".to_string(),
            content: "C".to_string(),
            author_id: 0,
            created_at: String::new(),
            updated_at: "2024-05-06 07:08:09".to_string(),
        }
    );

    let reply = post_deleted();
    assert_eq!(reply.status, 201);
    assert_eq!(reply.body.status, "Success");
}

#[test]
fn post_lists_and_lookups() {
    let page = post_page(vec![post(1), post(2), post(3)]);
    assert_eq!(page.status, "Success");
    assert_eq!(page.results, 3);
    assert_eq!(page.posts, vec![post(1), post(2), post(3)]);
    let found = found_post(Some(post(3))).unwrap();
    assert_eq!(found.status, "Success");
    assert_eq!(found.data, post(3));
    assert_eq!(found_post(None), None);
}

#[test]
fn notices_read_as_the_clients_expect() {
    assert_eq!(author_created_notice(), "Author has been created");
    assert_eq!(author_updated_notice(), "Author has been updated");
    assert_eq!(author_deleted_notice(), "Author has been deleted");
    assert_eq!(post_created_notice(), "Post has been created");
    assert_eq!(post_updated_notice(), "Post has been updated");
    assert_eq!(post_deleted_notice(), "Post has been deleted");
}

#[test]
fn offset_counts_pages_from_one() {
    assert_eq!(ITEMS_PER_PAGE, 10);
    assert_eq!(PageQueryParam { page: None }.offset(), Some(0));
    assert_eq!(PageQueryParam { page: Some(1) }.offset(), Some(0));
    assert_eq!(PageQueryParam { page: Some(2) }.offset(), Some(10));
    assert_eq!(PageQueryParam { page: Some(3) }.offset(), Some(20));
}

#[test]
fn offset_is_absent_where_it_does_not_fit() {
    assert_eq!(PageQueryParam { page: Some(0) }.offset(), None);
    assert_eq!(PageQueryParam { page: Some(429496730) }.offset(), Some(4294967290));
    assert_eq!(PageQueryParam { page: Some(429496731) }.offset(), None);
    assert_eq!(PageQueryParam { page: Some(u32::MAX) }.offset(), None);
}

#[test]
fn list_query_without_a_search() {
    assert_eq!(
        list_query("SELECT * FROM posts", &None),
        "SELECT * FROM posts LIMIT (?) OFFSET (?)"
    );
}

#[test]
fn list_query_with_a_search() {
    assert_eq!(
        list_query("SELECT * FROM authors", &Some("A%".to_string())),
        "SELECT * FROM authors WHERE name LIKE 'A%' OR surname LIKE 'A%' LIMIT (?) OFFSET (?)"
    );
}

#[test]
fn records_are_cloned_field_by_field() {
    let mut with_photo = author(5);
    with_photo.photo = Some(PNG.to_vec());
    assert_eq!(with_photo.clone(), with_photo);
    assert_eq!(author(6).clone(), author(6));
    assert_eq!(post(7).clone(), post(7));
}

#[test]
fn notice_goes_out_only_after_a_committed_write() {
    assert_eq!(
        notice_after_write(true, "Post has been updated".to_string()),
        Some("Post has been updated".to_string())
    );
    assert_eq!(notice_after_write(false, "Post has been updated".to_string()), None);
    assert_eq!(notice_after_write(true, String::new()), Some(String::new()));
}

#[test]
fn reply_to_a_create_follows_what_storage_answered() {
    let create = CreatePostRequest {
        title: "Hello".to_string(),
        content: "World".to_string(),
        author_id: 7,
        uploaded_files: None,
    };
    let created = post_create_reply(&create, Some(41)).unwrap();
    assert_eq!(created.status, 201);
    assert_eq!(created.body.status, "Success");
    assert_eq!(created.body.data, post(41));
    let failed = post_create_reply(&create, None).unwrap_err();
    assert_eq!(failed.status, 500);
    assert_eq!(failed.body.message, "Failed to create post");
}
