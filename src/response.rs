//! Successful HTTP responses: a body and its status code.
use vstd::prelude::*;

verus! {

/// A body with the status code it is sent with.
#[derive(Debug, Clone)]
pub struct Response<T> {
    pub data: T,
    pub status_code: u16,
}

impl<T> Response<T> {
    /// 200 OK.
    pub fn ok(data: T) -> (r: Response<T>)
        ensures
            r.data == data,
            r.status_code == 200,
    {
        Response { data, status_code: 200 }
    }

    /// 201 Created.
    pub fn created(data: T) -> (r: Response<T>)
        ensures
            r.data == data,
            r.status_code == 201,
    {
        Response { data, status_code: 201 }
    }

    /// 200 OK, after a deletion.
    pub fn deleted(data: T) -> (r: Response<T>)
        ensures
            r.data == data,
            r.status_code == 200,
    {
        Response { data, status_code: 200 }
    }

    /// A response with the given status code.
    pub fn with_status(data: T, status_code: u16) -> (r: Response<T>)
        ensures
            r.data == data,
            r.status_code == status_code,
    {
        Response { data, status_code }
    }
}

/// One page of records, with the total and the page number.
#[derive(Debug, Clone)]
pub struct PaginatedResponse<T> {
    pub data: Vec<T>,
    pub total: u64,
    pub page: u32,
}

} // verus!
