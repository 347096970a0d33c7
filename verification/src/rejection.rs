//! What the transport layer answers when a request is turned away.

use vstd::prelude::*;

verus! {

/// The status and the text of a refusal.
#[derive(Debug, Clone, PartialEq, Eq)]
pub struct Refusal {
    pub status: u16,
    pub message: String,
}

/// The answer to a request that was turned away. A request for nothing the
/// relay serves is answered 404; failing that, an upgrade that the admission
/// controller refused is answered 503, service unavailable; anything else is
/// answered 500.
pub fn handle_rejection(not_found: bool, too_many_clients: bool) -> (refusal: Refusal)
    ensures
        not_found ==> refusal.status == 404 && refusal.message@ == "Not Found"@,
        !not_found && too_many_clients ==> refusal.status == 503 && refusal.message@
            == "Too Many Clients"@,
        !not_found && !too_many_clients ==> refusal.status == 500 && refusal.message@
            == "Internal Server Error"@,
{
    if not_found {
        Refusal { status: 404, message: "Not Found".to_owned() }
    } else if too_many_clients {
        Refusal { status: 503, message: "Too Many Clients".to_owned() }
    } else {
        Refusal { status: 500, message: "Internal Server Error".to_owned() }
    }
}

} // verus!
