//! Request and response bodies.

use crate::models::authors::Author;
use crate::models::posts::Post;
use vstd::prelude::*;

verus! {

/// A status with a message.
#[derive(Debug, PartialEq, Eq)]
pub struct GenericResponse {
    pub status: String,
    pub message: String,
}

/// One author.
#[derive(Debug, PartialEq, Eq)]
pub struct SingeAuthorResponse {
    pub status: String,
    pub data: Author,
}

/// One post.
#[derive(Debug, PartialEq, Eq)]
pub struct SingePostResponse {
    pub status: String,
    pub data: Post,
}

/// A page of authors; `results` is the number of authors on it.
#[derive(Debug, PartialEq, Eq)]
pub struct AuthorResponse {
    pub status: String,
    pub results: usize,
    pub authors: Vec<Author>,
}

/// A page of posts; `results` is the number of posts on it.
#[derive(Debug, PartialEq, Eq)]
pub struct PostResponse {
    pub status: String,
    pub results: usize,
    pub posts: Vec<Post>,
}

/// The body of a request to create an author. `photo` is base64 text.
#[derive(Debug, PartialEq, Eq)]
pub struct CreateAuthorRequest {
    pub name: String,
    pub surname: String,
    pub photo: Option<String>,
}

/// The body of a request to create a post. Each uploaded file is base64
/// text.
#[derive(Debug, PartialEq, Eq)]
pub struct CreatePostRequest {
    pub title: String,
    pub content: String,
    pub author_id: i64,
    pub uploaded_files: Option<Vec<String>>,
}

/// The credentials of a registration or a login.
#[derive(Debug, PartialEq, Eq)]
pub struct UserRequest {
    pub username: String,
    pub password: String,
}

/// The body of a request to update an author. `photo` is base64 text.
#[derive(Debug, PartialEq, Eq)]
pub struct UpdateAuthorRequest {
    pub name: String,
    pub surname: String,
    pub photo: Option<String>,
}

/// The body of a request to update a post. Each uploaded file is base64
/// text.
#[derive(Debug, PartialEq, Eq)]
pub struct UpdatePostRequest {
    pub title: String,
    pub content: String,
    pub uploaded_files: Option<Vec<String>>,
}

/// A bare status.
#[derive(Debug, PartialEq, Eq)]
pub struct StatusResponse {
    pub status: String,
}

/// The token handed out by a successful login.
#[derive(Debug, PartialEq, Eq)]
pub struct LoginResponse {
    pub token: String,
}

/// The page asked for, counted from one.
#[derive(Debug, PartialEq, Eq)]
pub struct PageQueryParam {
    pub page: Option<u32>,
}

/// The search pattern asked for.
#[derive(Debug, PartialEq, Eq)]
pub struct SearchQueryParam {
    pub search: Option<String>,
}

/// The files of a post, each as base64 text.
#[derive(Debug, PartialEq, Eq)]
pub struct FileResponse {
    pub status: String,
    pub data: Vec<String>,
}

} // verus!
