//! Paging and searching of the list endpoints.

use crate::models::response::PageQueryParam;
use vstd::prelude::*;
use vstd::string::StringExecFns;

verus! {

/// The number of records on a page.
pub const ITEMS_PER_PAGE: u32 = 10;

/// The page asked for; the first one when none is named.
pub open spec fn page_of(params: PageQueryParam) -> u32 {
    match params.page {
        Some(page) => page,
        None => 1,
    }
}

/// The number of records that precede the page asked for. Pages count from
/// one; there is no offset for page zero, nor for a page so far out that
/// the offset does not fit.
pub open spec fn offset_of(params: PageQueryParam) -> Option<u32> {
    let page = page_of(params);
    if page >= 1 && (page - 1) * ITEMS_PER_PAGE <= u32::MAX {
        Some(((page - 1) * ITEMS_PER_PAGE) as u32)
    } else {
        None
    }
}

/// The condition that narrows a list to the records whose name or surname
/// is like `search`.
pub open spec fn search_clause(search: Option<Seq<char>>) -> Seq<char> {
    match search {
        Some(pattern) => " WHERE name LIKE '"@ + pattern + "' OR surname LIKE '"@ + pattern + "'"@,
        None => Seq::<char>::empty(),
    }
}

/// The statement that lists one page of what `select` selects.
pub open spec fn list_statement(select: Seq<char>, search: Option<Seq<char>>) -> Seq<char> {
    select + search_clause(search) + " LIMIT (?) OFFSET (?)"@
}

/// What an optional text holds.
pub open spec fn text_view(text: Option<String>) -> Option<Seq<char>> {
    match text {
        Some(t) => Some(t@),
        None => None,
    }
}

impl PageQueryParam {
    /// The offset of the page asked for, where there is one.
    pub fn offset(&self) -> (offset: Option<u32>)
        ensures
            offset == offset_of(*self),
    {
        let page: u32 = match self.page {
            Some(page) => page,
            None => 1,
        };
        if page == 0 {
            None
        } else {
            (page - 1).checked_mul(ITEMS_PER_PAGE)
        }
    }
}

/// Builds the statement that lists one page of what `select` selects,
/// narrowed by the search pattern if there is one. The page size and the
/// offset are bound to its two placeholders.
pub fn list_query(select: &str, search: &Option<String>) -> (statement: String)
    ensures
        statement@ == list_statement(select@, text_view(*search)),
{
    let mut statement = String::from_str(select);
    match search {
        Some(pattern) => {
            statement.append(" WHERE name LIKE '");
            statement.append(pattern.as_str());
            statement.append("' OR surname LIKE '");
            statement.append(pattern.as_str());
            statement.append("'");
        },
        None => {},
    }
    statement.append(" LIMIT (?) OFFSET (?)");
    proof {
        assert(statement@ =~= list_statement(select@, text_view(*search)));
    }
    statement
}

} // verus!
