//! Whether the machine is online, as the status bar shows it.

use vstd::prelude::*;

verus! {

/// The last known state of the connection.
pub struct Connection {
    pub connected: bool,
}

impl Default for Connection {
    fn default() -> (r: Self)
        ensures
            !r.connected,
    {
        Connection { connected: false }
    }
}

impl Connection {
    /// Takes in the latest probe result, when one came in.
    pub fn update_connected(&mut self, received: Option<bool>)
        ensures
            final(self).connected == match received {
                Some(v) => v,
                None => old(self).connected,
            },
    {
        if let Some(v) = received {
            self.connected = v;
        }
    }
}

} // verus!
