//! Building a report and the request that carries it.
pub mod arguments;
pub mod line_content;
pub mod line_protocol;
pub mod metrics;
pub mod query;

use crate::config::{AgentConfigFile, HeaderField};
use crate::metric_types::{
    ComponentListInfo, CpuListInfo, DiskInfo, MemoryInfo, NetworkInfo, ProcessInfo,
    ProcessListInfo, ServerMetrics, SystemInfo,
};
use crate::platforms::os::methods::arguments::RequestBodyOptions;
use crate::platforms::os::methods::query::{build_query_params, lists_map, query_map};
use crate::config::ParamField;
use vstd::prelude::*;
use vstd::string::*;

verus! {

/// The report has a record for each enabled category and none for the
/// others, and a record of the exporter's own process exactly when that is
/// enabled too.
pub open spec fn report_shape_matches(config: AgentConfigFile, m: ServerMetrics) -> bool {
    &&& (m.system is Some) == config.metrics.system.settings.enabled
    &&& (m.process_list is Some) == config.metrics.processes.settings.enabled
    &&& (m.process_list matches Some(p) ==> (p.exporter_metrics is Some)
        == config.metrics.processes.include_exporter_metrics)
    &&& (m.memory is Some) == config.metrics.memory.settings.enabled
    &&& (m.disk is Some) == config.metrics.disks.settings.enabled
    &&& (m.network is Some) == config.metrics.network.settings.enabled
    &&& (m.cpu is Some) == config.metrics.cpu.settings.enabled
    &&& (m.components is Some) == config.metrics.components.settings.enabled
}

/// The report that the configuration calls for, before anything is
/// collected: the shape of `report_shape_matches`, every record blank.
pub open spec fn is_initial_report(config: AgentConfigFile, m: ServerMetrics) -> bool {
    &&& report_shape_matches(config, m)
    &&& (m.system matches Some(s) ==> s.is_blank())
    &&& (m.process_list matches Some(p) ==> {
        &&& (p.exporter_metrics matches Some(e) ==> e.is_blank())
        &&& p.process_list@.len() == 0
    })
    &&& (m.memory matches Some(x) ==> x.is_blank())
    &&& (m.disk matches Some(d) ==> d.is_blank())
    &&& (m.network matches Some(n) ==> n.is_blank())
    &&& (m.cpu matches Some(c) ==> c.is_blank())
    &&& (m.components matches Some(c) ==> c.is_blank())
    &&& m.time == 0
}

/// Creates the report buffers that the configuration calls for.
pub fn create_metrics_struct_by_config(config: &AgentConfigFile) -> (m: ServerMetrics)
    ensures
        is_initial_report(*config, m),
{
    let system = if config.metrics.system.settings.enabled {
        Some(SystemInfo::default())
    } else {
        None
    };
    let process_list = if config.metrics.processes.settings.enabled {
        let exporter_metrics = if config.metrics.processes.include_exporter_metrics {
            Some(ProcessInfo::default())
        } else {
            None
        };
        Some(ProcessListInfo { exporter_metrics, process_list: Vec::new() })
    } else {
        None
    };
    let memory = if config.metrics.memory.settings.enabled {
        Some(MemoryInfo::default())
    } else {
        None
    };
    let disk = if config.metrics.disks.settings.enabled {
        Some(DiskInfo::default())
    } else {
        None
    };
    let network = if config.metrics.network.settings.enabled {
        Some(NetworkInfo::default())
    } else {
        None
    };
    let cpu = if config.metrics.cpu.settings.enabled {
        Some(CpuListInfo::default())
    } else {
        None
    };
    let components = if config.metrics.components.settings.enabled {
        Some(ComponentListInfo::default())
    } else {
        None
    };
    ServerMetrics { system, process_list, memory, disk, network, cpu, components, time: 0 }
}

/// What `url::Url::parse` makes of a text: `None` when the text is not a URL;
/// otherwise the host that `Url::host_str` returns (`None` for a URL without
/// one) and the name-value pairs that `Url::query_pairs` decodes from the
/// URL's query, in order.
pub uninterp spec fn url_parts(url: Seq<char>) -> Option<(Option<Seq<char>>, Seq<(Seq<char>, Seq<char>)>)>;

/// The parts of a parsed URL that the exporter reads.
#[derive(Debug)]
pub struct ParsedUrl {
    pub host: Option<String>,
    pub query_pairs: Vec<ParamField>,
}

/// The characters of each name and value.
pub open spec fn pairs_view(qs: Seq<ParamField>) -> Seq<(Seq<char>, Seq<char>)> {
    qs.map_values(|p: ParamField| (p.key@, p.value@))
}

pub open spec fn opt_string_view(o: Option<String>) -> Option<Seq<char>> {
    match o {
        Some(s) => Some(s@),
        None => None,
    }
}

pub open spec fn parsed_url_view(p: Option<ParsedUrl>) -> Option<(Option<Seq<char>>, Seq<(Seq<char>, Seq<char>)>)> {
    match p {
        None => None,
        Some(u) => Some((opt_string_view(u.host), pairs_view(u.query_pairs@))),
    }
}

/// The host part of a parse outcome, level by level.
pub open spec fn host_of_parts(p: Option<(Option<Seq<char>>, Seq<(Seq<char>, Seq<char>)>)>) -> Option<Option<Seq<char>>> {
    match p {
        None => None,
        Some(parts) => Some(parts.0),
    }
}

/// The characters of a parsed host, level by level.
pub open spec fn parsed_host_view(p: Option<Option<String>>) -> Option<Option<Seq<char>>> {
    match p {
        None => None,
        Some(None) => Some(None),
        Some(Some(h)) => Some(Some(h@)),
    }
}

/// Calls `url::Url::parse` on the text and, on the URL it returns,
/// `Url::host_str` and `Url::query_pairs`. The contract claims only that the
/// result is the named function `url_parts` of the text; what a given text
/// parses to is left to the `url` crate.
#[verifier::external_body]
fn parse_url(url: &str) -> (r: Option<ParsedUrl>)
    ensures
        parsed_url_view(r) == url_parts(url@),
{
    match url::Url::parse(url) {
        Ok(u) => Some(ParsedUrl {
            host: u.host_str().map(|h| h.to_string()),
            query_pairs: u.query_pairs().map(|(k, v)| ParamField { key: k.into_owned(), value: v.into_owned() }).collect(),
        }),
        Err(_) => None,
    }
}

/// The host a report is addressed to: the URL's host, `localhost` for a URL
/// without one, `incorrect_url` for a text that is no URL.
pub open spec fn host_or_fallback(p: Option<Option<Seq<char>>>) -> Seq<char> {
    match p {
        None => "incorrect_url"@,
        Some(None) => "localhost"@,
        Some(Some(h)) => h,
    }
}

/// Chooses the host name from the outcome of parsing the URL.
pub fn host_from_parsed(parsed: Option<Option<String>>) -> (r: String)
    ensures
        r@ == host_or_fallback(parsed_host_view(parsed)),
{
    match parsed {
        None => String::from_str("incorrect_url"),
        Some(None) => String::from_str("localhost"),
        Some(Some(h)) => h,
    }
}

/// The host of the target URL, with the fallbacks of `host_or_fallback`.
pub fn get_host(url: &str) -> (r: String)
    ensures
        r@ == host_or_fallback(host_of_parts(url_parts(url@))),
{
    let parsed = match parse_url(url) {
        Some(u) => Some(u.host),
        None => None,
    };
    host_from_parsed(parsed)
}

/// `http::header::HOST` as text. The `http` crate's source declares the
/// standard header `Host` with the name `b"host"`, and `as_str` returns it.
#[verifier::external_body]
fn host_header_name() -> (r: String)
    ensures
        r@ == "host"@,
{
    http::header::HOST.as_str().to_string()
}

/// `http::header::CONNECTION` as text. The `http` crate's source declares the
/// standard header `Connection` with the name `b"connection"`.
#[verifier::external_body]
fn connection_header_name() -> (r: String)
    ensures
        r@ == "connection"@,
{
    http::header::CONNECTION.as_str().to_string()
}

/// The push request, ready to be built by an HTTP client: the URL, the query
/// parameters, and the headers in the order in which they are set.
#[derive(Debug)]
pub struct RequestPlan {
    pub url: String,
    pub query: Vec<ParamField>,
    pub headers: Vec<HeaderField>,
}

/// The push request for the options, given the query pairs that the
/// configured URL carries itself: the configured URL; the query made of those
/// pairs followed by the configured parameters (one per key, the last value
/// winning, keys ascending); then the `host` header, `connection: close`, and
/// the configured headers in order.
pub open spec fn is_plan_with_url_query(
    options: RequestBodyOptions,
    own: Seq<(Seq<char>, Seq<char>)>,
    r: RequestPlan,
) -> bool {
    &&& r.url@ == options.url@
    &&& r.query@.len() >= own.len()
    &&& pairs_view(r.query@.take(own.len() as int)) == own
    &&& lists_map(r.query@.skip(own.len() as int), query_map(options.get_params@))
    &&& r.headers@.len() == options.headers@.len() + 2
    &&& r.headers@[0].key@ == "host"@
    &&& r.headers@[0].value@ == options.host@
    &&& r.headers@[1].key@ == "connection"@
    &&& r.headers@[1].value@ == "close"@
    &&& forall|i: int|
        0 <= i < options.headers@.len() ==> {
            &&& (#[trigger] r.headers@[i + 2]).key@ == options.headers@[i].key@
            &&& r.headers@[i + 2].value@ == options.headers@[i].value@
        }
}

/// The push request for the options, the URL's own query pairs being those
/// that `url_parts` gives.
pub open spec fn is_request_plan(options: RequestBodyOptions, r: RequestPlan) -> bool {
    is_plan_with_url_query(options, (url_parts(options.url@)->0).1, r)
}

/// Builds the push request from the options and the query pairs that the
/// configured URL carries itself.
pub fn plan_with_url_query(options: &RequestBodyOptions, own: Vec<ParamField>) -> (r: RequestPlan)
    ensures
        is_plan_with_url_query(*options, pairs_view(own@), r),
{
    let ghost own_view = own@;
    let mut params = build_query_params(&options.get_params);
    let ghost param_view = params@;
    let mut query = own;
    query.append(&mut params);
    proof {
        assert(query@.take(own_view.len() as int) =~= own_view);
        assert(query@.skip(own_view.len() as int) =~= param_view);
    }
    let mut headers: Vec<HeaderField> = Vec::new();
    headers.push(HeaderField { key: host_header_name(), value: options.host.clone() });
    headers.push(HeaderField { key: connection_header_name(), value: String::from_str("close") });
    let mut i: usize = 0;
    while i < options.headers.len()
        invariant
            0 <= i <= options.headers@.len(),
            headers@.len() == i + 2,
            headers@[0].key@ == "host"@,
            headers@[0].value@ == options.host@,
            headers@[1].key@ == "connection"@,
            headers@[1].value@ == "close"@,
            forall|j: int|
                0 <= j < i ==> {
                    &&& (#[trigger] headers@[j + 2]).key@ == options.headers@[j].key@
                    &&& headers@[j + 2].value@ == options.headers@[j].value@
                },
        decreases options.headers@.len() - i,
    {
        let h = &options.headers[i];
        headers.push(HeaderField { key: h.key.clone(), value: h.value.clone() });
        i = i + 1;
    }
    RequestPlan { url: options.url.clone(), query, headers }
}

/// Builds the push request; the configured URL must be a URL.
pub fn build_request_body(options: &RequestBodyOptions) -> (r: RequestPlan)
    requires
        url_parts(options.url@) is Some,
    ensures
        is_request_plan(*options, r),
{
    let own: Vec<ParamField> = match parse_url(options.url.as_str()) {
        Some(u) => u.query_pairs,
        None => {
            proof {
                assert(false);
            }
            Vec::new()
        },
    };
    plan_with_url_query(options, own)
}

/// Builds the push request when the configured URL is a URL, and gives
/// `None` when it is not.
pub fn try_build_request_body(options: &RequestBodyOptions) -> (r: Option<RequestPlan>)
    ensures
        r is Some <==> url_parts(options.url@) is Some,
        r matches Some(p) ==> is_request_plan(*options, p),
{
    if parse_url(options.url.as_str()).is_some() {
        Some(build_request_body(options))
    } else {
        None
    }
}

} // verus!
