//! What starting the server needs: the full configuration and the rate
//! limits of the endpoints.

pub mod settings;
pub mod rate_limit;
