//! The application context built once at startup and handed by reference
//! into every handler: the email provider's key and addresses and the
//! allowed frontend origin. The surrounding program reads these from its
//! environment; the library only carries them.

use vstd::prelude::*;

verus! {

/// Configuration a handler needs. The database handle and the signing
/// secret live with the surrounding program.
pub struct AppState {
    pub resend_api_key: String,
    pub to_email: String,
    pub from_email: String,
    pub frontend_url: String,
}

impl AppState {
    pub fn new(
        resend_api_key: String,
        to_email: String,
        from_email: String,
        frontend_url: String,
    ) -> (s: AppState)
        ensures
            s.resend_api_key == resend_api_key,
            s.to_email == to_email,
            s.from_email == from_email,
            s.frontend_url == frontend_url,
    {
        AppState { resend_api_key, to_email, from_email, frontend_url }
    }
}

} // verus!
