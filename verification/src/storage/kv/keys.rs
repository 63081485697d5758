//! The prefixes of the keys in the key-value store.

use vstd::prelude::*;

verus! {

/// Waiting network requests.
pub const NETWORK_QUEUE: &'static str = "net_queue_";

/// When a user was last seen online.
pub const LAST_ONLINE: &'static str = "last_online_";

/// Cached tokens.
pub const TOKEN_CACHE: &'static str = "token_cache_";

/// Counters.
pub const COUNTER: &'static str = "counter_";

/// The state of users.
pub const USER_STATUS: &'static str = "user_status_";

/// The state of sessions.
pub const SESSION_STATE: &'static str = "session_state_";

} // verus!
