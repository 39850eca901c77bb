//! The request handler's routing decision.
//!
//! An inbound request's path selects exactly one report configuration; any
//! other path selects nothing, and the routing layer's default not-found
//! behavior applies. No request body or query parameters are consulted.

use vstd::prelude::*;
use vstd::string::StringExecFns;
use crate::configs::full_report_config;
use crate::configs::is_full_report;
use crate::configs::is_locate_binaries_report;
use crate::configs::locate_binaries_config;
use crate::report::ReportConfig;

verus! {

/// Map a request path to the configuration it selects: the root path
/// serves the full report and `/locate_binaries` the binary-location
/// report; every other path selects nothing.
pub fn config_for_path(path: &str) -> (c: Option<ReportConfig>)
    ensures
        c is Some <==> (path@ == "/"@ || path@ == "/locate_binaries"@),
        path@ == "/"@ ==> is_full_report(c->0),
        path@ == "/locate_binaries"@ ==> is_locate_binaries_report(c->0),
{
    proof {
        broadcast use vstd::string::group_string_axioms;

        reveal_strlit("/");
        reveal_strlit("/locate_binaries");
        assert("/"@.len() == 1);
        assert("/locate_binaries"@.len() == 16);
        assert("/"@ != "/locate_binaries"@);
    }
    let requested = String::from_str(path);
    if requested == String::from_str("/") {
        Some(full_report_config())
    } else if requested == String::from_str("/locate_binaries") {
        Some(locate_binaries_config())
    } else {
        None
    }
}

} // verus!
