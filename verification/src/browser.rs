use vstd::prelude::*;

verus! {

/// A request the browser may make.
#[derive(Debug, Clone, Copy, PartialEq, Eq, Structural)]
pub enum BrowserRequest {
    /// Asks which page to show.
    GetPage,
}

/// The request that a text message from the browser stands for; `None` for
/// an unrecognized request code, which ends the connection.
pub fn browser_request(text: &str) -> (request: Option<BrowserRequest>)
    ensures
        request is Some <==> text@ == "GET_PAGE"@,
        request matches Some(r) ==> r == BrowserRequest::GetPage,
{
    let received = String::from_str(text);
    if received == String::from_str("GET_PAGE") {
        Some(BrowserRequest::GetPage)
    } else {
        None
    }
}

} // verus!
