//! Aggregation engine for a multi-cluster ingress landing page.
//!
//! The library scans route objects discovered on a local cluster and any
//! number of remote clusters, flattens their rule/path structure into flat
//! route records, applies annotation-based overrides, and assembles the
//! records into a hierarchical snapshot of groups, clusters and routes.
//! All network traffic stays outside the library: callers hand in the raw
//! listing and credential-fetch outcomes, and the library turns them into
//! a snapshot with a proved contract.

use vstd::prelude::*;

pub mod collector;
pub mod config;
pub mod credentials;
pub mod errors;
pub mod model;
pub mod scan;

verus! {

/// The scheme prefix every constructed route URL starts with.
pub open spec fn https_prefix() -> Seq<char> {
    "https://"@
}

} // verus!
