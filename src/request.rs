//! Requests prepared for the service, and what comes back.
use vstd::prelude::*;

verus! {

/// The HTTP verbs that the service's endpoints use.
#[derive(Clone, Copy, Debug, PartialEq, Eq, Structural)]
pub enum Method {
    Get,
    Post,
}

/// One header: its name and its value.
#[derive(Clone, Debug)]
pub struct Header {
    pub name: String,
    pub value: String,
}

impl View for Header {
    type V = (Seq<char>, Seq<char>);

    open spec fn view(&self) -> (Seq<char>, Seq<char>) {
        (self.name@, self.value@)
    }
}

/// A call to the service, ready for a transport to perform.
#[derive(Clone, Debug)]
pub struct Request {
    pub method: Method,
    pub url: String,
    pub headers: Vec<Header>,
    pub body: Option<String>,
}

/// The mathematical content of a [`Request`].
pub struct RequestView {
    pub method: Method,
    pub url: Seq<char>,
    pub headers: Seq<(Seq<char>, Seq<char>)>,
    pub body: Option<Seq<char>>,
}

pub open spec fn opt_view(o: Option<String>) -> Option<Seq<char>> {
    match o {
        Some(s) => Some(s@),
        None => None,
    }
}

impl View for Request {
    type V = RequestView;

    open spec fn view(&self) -> RequestView {
        RequestView {
            method: self.method,
            url: self.url@,
            headers: self.headers@.map_values(|h: Header| h@),
            body: opt_view(self.body),
        }
    }
}

/// Why a call failed.
#[derive(Clone, Copy, Debug, PartialEq, Eq, Structural)]
pub enum ClientError {
    /// The API key or the user ID cannot be sent as a header value.
    InvalidHeader,
    /// The request body could not be serialized.
    Serialization,
    /// The transport did not complete the call.
    Transport,
}

/// What the transport received: the status code and the body text.
#[derive(Clone, Debug)]
pub struct Response {
    pub status: u16,
    pub body: String,
}

/// The outcome of a call once the transport is done with it: the body
/// text of any response, whatever its status code, or a transport error
/// where no response came.
pub fn finish(received: Option<Response>) -> (r: Result<String, ClientError>)
    ensures
        received matches Some(resp) ==> (r matches Ok(t) && t@ == resp.body@),
        received is None ==> r == Err::<String, ClientError>(ClientError::Transport),
{
    match received {
        Some(resp) => Ok(resp.body),
        None => Err(ClientError::Transport),
    }
}

} // verus!
