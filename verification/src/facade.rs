//! The domain facades: each engine operation as a request builder (what to
//! write, after validation) and a response function (from the raw lines
//! read off the connection to typed records, or the error that stops the
//! call). The runtime performs the I/O between the two halves.

use vstd::prelude::*;
use crate::decode::decode_clients;
use crate::decode::decode_list_entries;
use crate::decode::decode_pairs;
use crate::decode::decode_points;
use crate::decode::decode_query_types;
use crate::decode::decode_status;
use crate::decode::decode_top_list;
use crate::decode::has_engine_error;
use crate::decode::lookup;
use crate::decode::spec_decode_entries;
use crate::decode::spec_decode_pairs;
use crate::decode::spec_decode_points;
use crate::decode::spec_decode_status;
use crate::decode::spec_engine_error;
use crate::decode::spec_lookup;
use crate::decode::spec_top_list;
use crate::error::Error;
use crate::protocol::format_command;
use crate::protocol::lemma_reply_ignores_beyond_sentinel;
use crate::protocol::spec_command_line;
use crate::protocol::spec_take_reply;
use crate::protocol::take_reply;
use crate::records::ClientCount;
use crate::records::DomainCount;
use crate::records::ListEntry;
use crate::records::QueryTypeCount;
use crate::records::StatusFlags;
use crate::records::Summary;
use crate::records::TimeSeriesPoint;
use crate::series::fill_window;
use crate::series::spec_count_at;

verus! {

/// The kinds of domain lists the engine keeps.
#[derive(Clone, Copy, Debug, PartialEq, Eq, Structural)]
pub enum ListKind {
    Allow,
    Deny,
    Wildcard,
}

/// The validated top-list size: the engine default when none was asked
/// for, a rejection when zero was asked for, the maximum when more than
/// the maximum was asked for, and the request itself otherwise.
pub open spec fn spec_clamp(requested: Option<u64>, default: u64, max: u64) -> Result<u64, Error> {
    match requested {
        Option::None => Ok(default),
        Option::Some(c) => if c == 0 {
            Err(Error::Validation)
        } else if c > max {
            Ok(max)
        } else {
            Ok(c)
        },
    }
}

/// Validates a caller-supplied record count before any engine traffic: a
/// count of zero is rejected, a missing count takes the configured
/// default, a count over the maximum is silently clamped to it.
pub fn clamp_count(requested: Option<u64>, default: u64, max: u64) -> (r: Result<u64, Error>)
    requires
        default <= max,
    ensures
        r == spec_clamp(requested, default, max),
{
    match requested {
        Option::None => Ok(default),
        Option::Some(c) => {
            if c == 0 {
                Err(Error::Validation)
            } else if c > max {
                Ok(max)
            } else {
                Ok(c)
            }
        },
    }
}

/// The body of a reply once the transport is done with it: the lines
/// before the sentinel, unless the stream ended without a sentinel (the
/// connection closed mid-reply) or the engine answered with its failure
/// indicator.
pub open spec fn spec_reply_body(lines: Seq<Seq<char>>) -> Result<Seq<Seq<char>>, Error> {
    match spec_take_reply(lines) {
        Option::None => Err(Error::Connection),
        Option::Some(body) => if spec_engine_error(body) {
            Err(Error::Engine)
        } else {
            Ok(body)
        },
    }
}

/// Extracts the decodable body from the raw lines of one reply.
pub fn reply_body(lines: &Vec<String>) -> (r: Result<Vec<String>, Error>)
    ensures
        (match r {
            Ok(b) => spec_reply_body(lines.deep_view()) == Ok::<Seq<Seq<char>>, Error>(
                b.deep_view(),
            ),
            Err(e) => spec_reply_body(lines.deep_view()) == Err::<Seq<Seq<char>>, Error>(e),
        }),
{
    match take_reply(lines) {
        Err(e) => Err(e),
        Ok(body) => {
            if has_engine_error(&body) {
                Err(Error::Engine)
            } else {
                Ok(body)
            }
        },
    }
}

/// The command that fetches the scalar counters of the summary.
pub fn stats_request() -> (r: String)
    ensures
        r@ == spec_command_line("stats"@, Option::None),
{
    format_command("stats", None)
}

/// The command that fetches the engine's status flags.
pub fn status_request() -> (r: String)
    ensures
        r@ == spec_command_line("status"@, Option::None),
{
    format_command("status", None)
}

/// The command that fetches the engine's full retained history window.
pub fn over_time_request() -> (r: String)
    ensures
        r@ == spec_command_line("over-time"@, Option::None),
{
    format_command("over-time", None)
}

/// The command that fetches the per-client breakdown.
pub fn clients_request() -> (r: String)
    ensures
        r@ == spec_command_line("clients"@, Option::None),
{
    format_command("clients", None)
}

/// The command that fetches the per-query-type breakdown.
pub fn query_types_request() -> (r: String)
    ensures
        r@ == spec_command_line("query-types"@, Option::None),
{
    format_command("query-types", None)
}

/// The command that fetches the contents of one list.
pub fn list_request(kind: ListKind) -> (r: String)
    ensures
        kind is Allow ==> r@ == spec_command_line("allow-list"@, Option::None),
        kind is Deny ==> r@ == spec_command_line("deny-list"@, Option::None),
        kind is Wildcard ==> r@ == spec_command_line("wild-list"@, Option::None),
{
    match kind {
        ListKind::Allow => format_command("allow-list", None),
        ListKind::Deny => format_command("deny-list", None),
        ListKind::Wildcard => format_command("wild-list", None),
    }
}

/// Validates the requested size and frames the top-list command: the
/// domains ranked by queries, or by blocked queries only. Returns the
/// command line together with the validated size the response must be
/// truncated to; rejects exactly a requested size of zero, before any
/// engine traffic.
pub fn top_domains_request(
    requested: Option<u64>,
    default: u64,
    max: u64,
    blocked_only: bool,
) -> (r: Result<(String, u64), Error>)
    requires
        default <= max,
    ensures
        r is Ok <==> spec_clamp(requested, default, max) is Ok,
        r matches Ok((cmd, n)) ==> spec_clamp(requested, default, max) == Ok::<u64, Error>(n)
            && cmd@ == spec_command_line(
            if blocked_only {
                "top-blocked"@
            } else {
                "top-domains"@
            },
            Option::Some(n),
        ),
        r matches Err(e) ==> e == Error::Validation,
{
    match clamp_count(requested, default, max) {
        Err(e) => Err(e),
        Ok(n) => {
            let cmd = if blocked_only {
                format_command("top-blocked", Some(n))
            } else {
                format_command("top-domains", Some(n))
            };
            Ok((cmd, n))
        },
    }
}

/// The decoded top list of one reply: the ranked records in original
/// order, truncated to `limit`, or the error that stops the call.
pub open spec fn spec_top_domains_response(lines: Seq<Seq<char>>, limit: int) -> Result<
    Seq<(Seq<char>, u64)>,
    Error,
> {
    match spec_reply_body(lines) {
        Err(e) => Err(e),
        Ok(body) => match spec_top_list(body, limit) {
            Option::None => Err(Error::Parse),
            Option::Some(v) => Ok(v),
        },
    }
}

/// Decodes a top-list reply: at most `limit` records, in the order the
/// engine ranked them, ties by first appearance.
pub fn top_domains_response(lines: &Vec<String>, limit: usize) -> (r: Result<
    Vec<DomainCount>,
    Error,
>)
    ensures
        (match r {
            Ok(v) => spec_top_domains_response(lines.deep_view(), limit as int) == Ok::<
                Seq<(Seq<char>, u64)>,
                Error,
            >(v.deep_view()),
            Err(e) => spec_top_domains_response(lines.deep_view(), limit as int) == Err::<
                Seq<(Seq<char>, u64)>,
                Error,
            >(e),
        }),
{
    match reply_body(lines) {
        Err(e) => Err(e),
        Ok(body) => decode_top_list(&body, limit),
    }
}

/// Law: a response never reflects data beyond the sentinel line. Whatever
/// lines follow a terminated reply, the decoded records are the same.
pub proof fn lemma_top_domains_response_ignores_beyond_sentinel(
    lines: Seq<Seq<char>>,
    junk: Seq<Seq<char>>,
    limit: int,
)
    requires
        spec_take_reply(lines) is Some,
    ensures
        spec_top_domains_response(lines + junk, limit) == spec_top_domains_response(lines, limit),
{
    lemma_reply_ignores_beyond_sentinel(lines, junk);
}

/// The decoded full-history time series of one reply, in the order the
/// engine sent it, or the error that stops the call.
pub open spec fn spec_over_time_response(lines: Seq<Seq<char>>) -> Result<Seq<(u64, u64)>, Error> {
    match spec_reply_body(lines) {
        Err(e) => Err(e),
        Ok(body) => match spec_decode_points(body) {
            Option::None => Err(Error::Parse),
            Option::Some(v) => Ok(v),
        },
    }
}

/// Decodes a time-series reply: the engine's full retained history window,
/// ascending as received, no client-side pagination.
pub fn over_time_response(lines: &Vec<String>) -> (r: Result<Vec<TimeSeriesPoint>, Error>)
    ensures
        (match r {
            Ok(v) => spec_over_time_response(lines.deep_view()) == Ok::<Seq<(u64, u64)>, Error>(
                v.deep_view(),
            ),
            Err(e) => spec_over_time_response(lines.deep_view()) == Err::<Seq<(u64, u64)>, Error>(
                e,
            ),
        }),
{
    match reply_body(lines) {
        Err(e) => Err(e),
        Ok(body) => decode_points(&body),
    }
}

/// The bucket sequence of a fixed window at a fixed step over the decoded
/// points: one bucket per step, each carrying the reply's count for its
/// timestamp and count zero where the reply is silent.
pub open spec fn spec_window(points: Seq<(u64, u64)>, start: u64, end: u64, step: u64) -> Seq<
    (u64, u64),
> {
    Seq::new(
        ((end - start) / (step as int) + 1) as nat,
        |k: int|
            (
                (start + k * step) as u64,
                spec_count_at(points, (start + k * step) as u64),
            ),
    )
}

/// Decodes a time-series reply onto the window `[start, end]` at the given
/// step: every bucket of the window is present, and a timestamp bucket
/// absent from the raw reply is synthesized with count zero — never
/// omitted, never left undefined.
pub fn over_time_window_response(lines: &Vec<String>, start: u64, end: u64, step: u64) -> (r:
    Result<Vec<TimeSeriesPoint>, Error>)
    requires
        step > 0,
        start <= end,
        (end - start) / (step as int) < usize::MAX,
    ensures
        (match r {
            Ok(v) => spec_over_time_response(lines.deep_view()) is Ok && v.deep_view()
                == spec_window(
                spec_over_time_response(lines.deep_view()).unwrap(),
                start,
                end,
                step,
            ),
            Err(e) => spec_over_time_response(lines.deep_view()) == Err::<Seq<(u64, u64)>, Error>(
                e,
            ),
        }),
{
    match over_time_response(lines) {
        Err(e) => Err(e),
        Ok(points) => {
            let filled = fill_window(&points, start, end, step);
            proof {
                assert(filled.deep_view() =~= spec_window(points.deep_view(), start, end, step));
            }
            Ok(filled)
        },
    }
}

/// The decoded `(name, count)` pairs of one breakdown reply, in order of
/// appearance, or the error that stops the call.
pub open spec fn spec_pairs_response(lines: Seq<Seq<char>>) -> Result<Seq<(Seq<char>, u64)>, Error> {
    match spec_reply_body(lines) {
        Err(e) => Err(e),
        Ok(body) => match spec_decode_pairs(body) {
            Option::None => Err(Error::Parse),
            Option::Some(v) => Ok(v),
        },
    }
}

/// Decodes a per-client breakdown reply, in reply order.
pub fn clients_response(lines: &Vec<String>) -> (r: Result<Vec<ClientCount>, Error>)
    ensures
        (match r {
            Ok(v) => spec_pairs_response(lines.deep_view()) == Ok::<Seq<(Seq<char>, u64)>, Error>(
                v.deep_view(),
            ),
            Err(e) => spec_pairs_response(lines.deep_view()) == Err::<Seq<(Seq<char>, u64)>, Error>(
                e,
            ),
        }),
{
    match reply_body(lines) {
        Err(e) => Err(e),
        Ok(body) => decode_clients(&body),
    }
}

/// Decodes a per-query-type breakdown reply, in reply order.
pub fn query_types_response(lines: &Vec<String>) -> (r: Result<Vec<QueryTypeCount>, Error>)
    ensures
        (match r {
            Ok(v) => spec_pairs_response(lines.deep_view()) == Ok::<Seq<(Seq<char>, u64)>, Error>(
                v.deep_view(),
            ),
            Err(e) => spec_pairs_response(lines.deep_view()) == Err::<Seq<(Seq<char>, u64)>, Error>(
                e,
            ),
        }),
{
    match reply_body(lines) {
        Err(e) => Err(e),
        Ok(body) => decode_query_types(&body),
    }
}

/// The decoded list entries of one reply, or the error that stops the
/// call; every non-blank body line is an entry, so only transport and
/// engine failures stop a list call.
pub open spec fn spec_list_response(lines: Seq<Seq<char>>) -> Result<Seq<(Seq<char>, bool)>, Error> {
    match spec_reply_body(lines) {
        Err(e) => Err(e),
        Ok(body) => Ok(spec_decode_entries(body)),
    }
}

/// Decodes a list-contents reply into its entries, in reply order.
pub fn list_response(lines: &Vec<String>) -> (r: Result<Vec<ListEntry>, Error>)
    ensures
        (match r {
            Ok(v) => spec_list_response(lines.deep_view()) == Ok::<Seq<(Seq<char>, bool)>, Error>(
                v.deep_view(),
            ),
            Err(e) => spec_list_response(lines.deep_view()) == Err::<Seq<(Seq<char>, bool)>, Error>(
                e,
            ),
        }),
{
    match reply_body(lines) {
        Err(e) => Err(e),
        Ok(body) => Ok(decode_list_entries(&body)),
    }
}

/// The decoded status flags of one reply, or the error that stops the
/// call.
pub open spec fn spec_status_response(lines: Seq<Seq<char>>) -> Result<StatusFlags, Error> {
    match spec_reply_body(lines) {
        Err(e) => Err(e),
        Ok(body) => match spec_decode_status(body) {
            Option::None => Err(Error::Parse),
            Option::Some(s) => Ok(s),
        },
    }
}

/// Decodes a status reply into the engine's enabled and blocking flags.
pub fn status_response(lines: &Vec<String>) -> (r: Result<StatusFlags, Error>)
    ensures
        r == spec_status_response(lines.deep_view()),
{
    match reply_body(lines) {
        Err(e) => Err(e),
        Ok(body) => decode_status(&body),
    }
}

/// The merged summary of one `stats` reply and one `status` reply: the
/// three counters joined with the enabled flag. If any sub-query fails,
/// the whole call fails with that sub-query's error — no partial summary
/// is ever produced; the stats reply is settled first, then its required
/// keys, then the status reply.
pub open spec fn spec_summary(stats_lines: Seq<Seq<char>>, status_lines: Seq<Seq<char>>) -> Result<
    Summary,
    Error,
> {
    match spec_reply_body(stats_lines) {
        Err(e) => Err(e),
        Ok(body) => match spec_decode_pairs(body) {
            Option::None => Err(Error::Parse),
            Option::Some(ps) => match (
                spec_lookup(ps, "queries"@),
                spec_lookup(ps, "blocked"@),
                spec_lookup(ps, "domains"@),
            ) {
                (Option::Some(q), Option::Some(b), Option::Some(d)) => match spec_status_response(
                    status_lines,
                ) {
                    Err(e) => Err(e),
                    Ok(st) => Ok(
                        Summary {
                            total_queries: q,
                            blocked_queries: b,
                            domains_on_blocklist: d,
                            enabled: st.enabled,
                        },
                    ),
                },
                _ => Err(Error::Parse),
            },
        },
    }
}

/// Merges the raw replies of the two summary sub-queries into the summary
/// record. Any sub-query failure fails the whole call.
pub fn summary_response(stats_lines: &Vec<String>, status_lines: &Vec<String>) -> (r: Result<
    Summary,
    Error,
>)
    ensures
        r == spec_summary(stats_lines.deep_view(), status_lines.deep_view()),
{
    match reply_body(stats_lines) {
        Err(e) => Err(e),
        Ok(body) => match decode_pairs(&body) {
            Err(e) => Err(e),
            Ok(ps) => {
                let q = lookup(&ps, "queries");
                let b = lookup(&ps, "blocked");
                let d = lookup(&ps, "domains");
                match (q, b, d) {
                    (Option::Some(qv), Option::Some(bv), Option::Some(dv)) => {
                        match status_response(status_lines) {
                            Err(e) => Err(e),
                            Ok(st) => Ok(
                                Summary {
                                    total_queries: qv,
                                    blocked_queries: bv,
                                    domains_on_blocklist: dv,
                                    enabled: st.enabled,
                                },
                            ),
                        }
                    },
                    _ => Err(Error::Parse),
                }
            },
        },
    }
}

} // verus!
