//! The author record.

use vstd::prelude::*;
use vstd::slice::slice_to_vec;

verus! {

/// An author as stored, with an optional photo.
#[derive(Debug, PartialEq, Eq)]
pub struct Author {
    pub id: i64,
    pub name: String,
    pub surname: String,
    pub photo: Option<Vec<u8>>,
    pub created_at: String,
    pub updated_at: String,
}

/// An author as plain values.
pub struct AuthorView {
    pub id: i64,
    pub name: Seq<char>,
    pub surname: Seq<char>,
    pub photo: Option<Seq<u8>>,
    pub created_at: Seq<char>,
    pub updated_at: Seq<char>,
}

/// What an optional byte buffer holds.
pub open spec fn bytes_view(bytes: Option<Vec<u8>>) -> Option<Seq<u8>> {
    match bytes {
        Some(b) => Some(b@),
        None => None,
    }
}

impl View for Author {
    type V = AuthorView;

    open spec fn view(&self) -> AuthorView {
        AuthorView {
            id: self.id,
            name: self.name@,
            surname: self.surname@,
            photo: bytes_view(self.photo),
            created_at: self.created_at@,
            updated_at: self.updated_at@,
        }
    }
}

impl Clone for Author {
    fn clone(&self) -> (copy: Self)
        ensures
            copy@ == self@,
    {
        let photo = match &self.photo {
            Some(bytes) => Some(slice_to_vec(bytes.as_slice())),
            None => None,
        };
        Author {
            id: self.id,
            name: self.name.clone(),
            surname: self.surname.clone(),
            photo,
            created_at: self.created_at.clone(),
            updated_at: self.updated_at.clone(),
        }
    }
}

} // verus!
