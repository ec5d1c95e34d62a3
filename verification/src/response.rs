//! The envelope every All Debrid reply comes in, and how it is read.
use vstd::prelude::*;

verus! {

/// An error reported by the service.
#[derive(Debug)]
pub struct Error {
    pub code: String,
    pub message: String,
}

/// What a request brought back: its data, or the service's error.
#[derive(Debug)]
pub enum Res<T> {
    Data(T),
    Error(Error),
}

/// The envelope of a reply: a status, and the data or the error.
#[derive(Debug)]
pub struct Response<T> {
    pub status: String,
    pub data: Option<T>,
    pub error: Option<Error>,
}

/// An envelope that lacks the part its status announces.
#[derive(Debug, PartialEq, Eq, Structural)]
pub enum ResponseFault {
    /// The status is `success` but there is no data.
    MissingData,
    /// The status is not `success` but there is no error.
    MissingError,
}

/// Whether a status announces data.
pub open spec fn is_success(status: Seq<char>) -> bool {
    status == "success"@
}

/// Exactly the status text `success` announces data.
pub proof fn success_is_the_word_success(status: Seq<char>)
    ensures
        is_success(status) <==> status == seq!['s', 'u', 'c', 'c', 'e', 's', 's'],
{
    reveal_strlit("success");
    assert("success"@ =~= seq!['s', 'u', 'c', 'c', 'e', 's', 's']);
}

/// Reads an envelope: a `success` status yields its data, any other
/// status the service's error; an envelope that lacks that part is a fault.
pub fn read_response<T>(response: Response<T>) -> (res: Result<Res<T>, ResponseFault>)
    ensures
        is_success(response.status@) ==> res == match response.data {
            Some(d) => Ok::<Res<T>, ResponseFault>(Res::Data(d)),
            None => Err(ResponseFault::MissingData),
        },
        !is_success(response.status@) ==> res == match response.error {
            Some(e) => Ok::<Res<T>, ResponseFault>(Res::Error(e)),
            None => Err(ResponseFault::MissingError),
        },
{
    let success = crate::text::same_text(response.status.as_str(), "success");
    if success {
        match response.data {
            Some(d) => Ok(Res::Data(d)),
            None => Err(ResponseFault::MissingData),
        }
    } else {
        match response.error {
            Some(e) => Ok(Res::Error(e)),
            None => Err(ResponseFault::MissingError),
        }
    }
}

} // verus!
