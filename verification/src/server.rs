//! The asset server's serving plan: everything the encrypted static-file
//! listener is configured with. The listener itself is outside collaborator
//! work; this module fixes, and its contracts pin, every choice the listener
//! must be given: bind address, worker count, index-file resolution,
//! directory listing, caching validators, and the isolation headers the
//! served suite page needs.

use vstd::prelude::*;
use vstd::string::StringExecFns;

use crate::protocol::bind_address;
use crate::protocol::spec_bind_address;

verus! {

/// One response header attached to every served response.
pub struct HeaderPair {
    pub name: String,
    pub value: String,
}

/// Everything the static-file listener is configured with.
pub struct AssetServerPlan {
    /// The file tree served, every file under it.
    pub root_path: String,
    /// `0.0.0.0:<port>`.
    pub bind_address: String,
    /// At least two, so concurrent requests from simultaneous browser
    /// sessions do not serialize behind a single in-flight request.
    pub workers: usize,
    /// Directory requests resolve to this file when present.
    pub index_file: String,
    /// ... and to a generated listing otherwise.
    pub show_files_listing: bool,
    pub use_etag: bool,
    pub use_last_modified: bool,
    pub redirect_to_slash_directory: bool,
    pub use_hidden_files: bool,
    /// Cross-origin isolation plus a permissive CORS header: the in-browser
    /// suite uses isolation-gated capabilities.
    pub headers: Vec<HeaderPair>,
}

/// The three headers attached to every response.
pub open spec fn spec_isolation_headers(headers: Seq<HeaderPair>) -> bool {
    &&& headers.len() == 3
    &&& headers[0].name@ == "Cross-Origin-Opener-Policy"@
    &&& headers[0].value@ == "same-origin"@
    &&& headers[1].name@ == "Cross-Origin-Embedder-Policy"@
    &&& headers[1].value@ == "require-corp"@
    &&& headers[2].name@ == "Access-Control-Allow-Origin"@
    &&& headers[2].value@ == "*"@
}

/// A plan is complete when every serving choice is the one the suite needs.
pub open spec fn spec_plan_complete(plan: AssetServerPlan, root_path: Seq<char>, port: nat) -> bool {
    &&& plan.root_path@ == root_path
    &&& plan.bind_address@ == spec_bind_address(port)
    &&& plan.workers >= 2
    &&& plan.index_file@ == "index.html"@
    &&& plan.show_files_listing
    &&& plan.use_etag
    &&& plan.use_last_modified
    &&& plan.redirect_to_slash_directory
    &&& plan.use_hidden_files
    &&& spec_isolation_headers(plan.headers@)
}

/// Build the serving plan for one run: the given file tree on the given
/// port, with index-file resolution, directory listing, both caching
/// validators, and the isolation headers.
pub fn asset_server_plan(root_path: String, port: u16) -> (plan: AssetServerPlan)
    ensures
        spec_plan_complete(plan, root_path@, port as nat),
        plan.workers == 2,
{
    let mut headers: Vec<HeaderPair> = Vec::new();
    headers.push(HeaderPair {
        name: String::from_str("Cross-Origin-Opener-Policy"),
        value: String::from_str("same-origin"),
    });
    headers.push(HeaderPair {
        name: String::from_str("Cross-Origin-Embedder-Policy"),
        value: String::from_str("require-corp"),
    });
    headers.push(HeaderPair {
        name: String::from_str("Access-Control-Allow-Origin"),
        value: String::from_str("*"),
    });
    AssetServerPlan {
        root_path,
        bind_address: bind_address(port),
        workers: 2,
        index_file: String::from_str("index.html"),
        show_files_listing: true,
        use_etag: true,
        use_last_modified: true,
        redirect_to_slash_directory: true,
        use_hidden_files: true,
        headers,
    }
}

} // verus!
