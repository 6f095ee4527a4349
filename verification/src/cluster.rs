//! Identity of the cluster a run talks to.

use vstd::prelude::*;

verus! {

/// Name and server version of the cluster, as reported once a connection
/// is established.  Carried as plain strings for display by the driver.
pub struct ClusterInfo {
    pub name: String,
    pub cassandra_version: String,
}

} // verus!
