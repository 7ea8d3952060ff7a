//! Per-request dispatch: decide whether a request is a scrape, run the
//! collector set, and build the response.
//!
//! The exporter serves exactly one route, `GET /metrics`. Every other method
//! or path gets status 200 with an empty body — deliberately not a 404; the
//! quirk is part of the exporter's observable behaviour and is kept as is.

use vstd::prelude::*;
use vstd::string::StringExecFns;

use crate::collect::Exporter;
use crate::collect::apply_all;
use crate::daemon::ScrapeData;
use crate::encoder::encode;
use crate::encoder::format_type;
use crate::encoder::registry_text;

verus! {

/// Where a request goes: the scrape pipeline, or the catch-all answer.
#[derive(Clone, Copy, Debug, PartialEq, Eq, Structural)]
pub enum Route {
    Metrics,
    Fallback,
}

/// The routing rule: only `GET /metrics` reaches the collectors.
pub open spec fn spec_route(method: Seq<char>, path: Seq<char>) -> Route {
    if method == "GET"@ && path == "/metrics"@ {
        Route::Metrics
    } else {
        Route::Fallback
    }
}

/// Decide where a request goes, from its method and path alone. Only when
/// this answers [`Route::Metrics`] may any RPC call be made on its behalf.
pub fn route(method: &str, path: &str) -> (r: Route)
    ensures
        r == spec_route(method@, path@),
{
    let m = method.to_owned();
    let p = path.to_owned();
    if m == "GET".to_owned() && p == "/metrics".to_owned() {
        Route::Metrics
    } else {
        Route::Fallback
    }
}

/// What the exporter answers: a status code, an optional content type, and
/// the body text.
pub struct HttpResponse {
    pub status: u16,
    pub content_type: Option<String>,
    pub body: String,
}

/// The answer for every request that is not `GET /metrics`: status 200 with
/// an empty body and no content type, and no collector has run.
pub fn fallback_response() -> (r: HttpResponse)
    ensures
        r.status == 200,
        r.content_type is None,
        r.body@ == Seq::<char>::empty(),
{
    HttpResponse { status: 200, content_type: None, body: String::new() }
}

/// One scrape: run every collector on what the RPC calls delivered, then
/// render the whole registry — freshly written values and stale ones alike.
/// The response is always status 200 with the exposition content type, and
/// its body is exactly the encoding of the updated registry.
pub fn metrics_response(ex: &mut Exporter, d: &ScrapeData) -> (r: HttpResponse)
    requires
        old(ex).wf(),
    ensures
        final(ex).wf(),
        final(ex).registry@ == apply_all(old(ex).registry@, *d),
        r.status == 200,
        r.content_type matches Some(ct) && ct@ == "text/plain; version=0.0.4"@,
        r.body@ == registry_text(final(ex).registry@),
{
    ex.collect(d);
    let body = encode(&ex.registry);
    HttpResponse { status: 200, content_type: Some(format_type().to_owned()), body }
}

} // verus!
