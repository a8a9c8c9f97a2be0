//! The stored configuration: gateway connection values and the optional
//! list of user-configured hotkeys. Persistence is plain I/O and lives in
//! the outer layer; the library owns the shape of the value and its
//! documented defaults.

use vstd::prelude::*;

verus! {

/// The persisted configuration blob. Absent fields fall back to
/// [`Credentials::default`].
#[derive(Clone)]
pub struct Credentials {
    /// The gateway endpoint the UI connects to.
    pub gateway_url: String,
    /// The bearer token, empty when unset.
    pub token: String,
    /// The password, empty when unset.
    pub password: String,
    /// The agent identifier, empty when unset.
    pub agent_id: String,
    /// The session key.
    pub session_key: String,
    /// The three user-configured hotkey strings, or `None` to use the
    /// documented default triple.
    pub shortcuts: Option<Vec<String>>,
}

impl Default for Credentials {
    /// The documented defaults: a local gateway, the `main` session key,
    /// empty secrets and no custom hotkeys.
    fn default() -> (c: Credentials)
        ensures
            c.gateway_url@ == "ws://127.0.0.1:19819"@,
            c.token@ == Seq::<char>::empty(),
            c.password@ == Seq::<char>::empty(),
            c.agent_id@ == Seq::<char>::empty(),
            c.session_key@ == "main"@,
            c.shortcuts is None,
    {
        Credentials {
            gateway_url: "ws://127.0.0.1:19819".to_owned(),
            token: String::new(),
            password: String::new(),
            agent_id: String::new(),
            session_key: "main".to_owned(),
            shortcuts: None,
        }
    }
}

} // verus!
