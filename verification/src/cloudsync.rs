//! The cloud save synchronisation client.

use vstd::prelude::*;

verus! {

/// A client for cloud save synchronisation; it holds no state yet.
pub struct CloudSyncClient {}

} // verus!
