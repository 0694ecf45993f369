//! Per-family reply decoders: each consumes the body of one reply (the
//! lines before the sentinel) and produces typed records. Blank lines are
//! tolerated anywhere; unrecognized trailing fields on a line are ignored;
//! a line that violates the grammar of a required field is fatal.

use vstd::prelude::*;
use crate::error::Error;
use crate::records::ClientCount;
use crate::records::Counter;
use crate::records::DomainCount;
use crate::records::ListEntry;
use crate::records::QueryTypeCount;
use crate::records::StatusFlags;
use crate::records::TimeSeriesPoint;
use crate::text::fields_of;
use crate::text::is_u64_digits;
use crate::text::parse_u64;
use crate::text::split_fields;
use crate::text::str_eq;
use crate::text::str_to_nat;

verus! {

/// Grammar of one `name count` line: at least two fields, the second the
/// decimal notation of a value that fits in a `u64`.
pub open spec fn pair_line_ok(s: Seq<char>) -> bool {
    fields_of(s).len() >= 2 && is_u64_digits(fields_of(s)[1])
}

/// The record of one well-formed `name count` line.
pub open spec fn pair_of_line(s: Seq<char>) -> (Seq<char>, u64) {
    (fields_of(s)[0], str_to_nat(fields_of(s)[1]) as u64)
}

/// The `(name, count)` pairs of a reply body, in order of appearance;
/// nothing when some non-blank line violates the grammar.
pub open spec fn spec_decode_pairs(lines: Seq<Seq<char>>) -> Option<Seq<(Seq<char>, u64)>>
    decreases lines.len(),
{
    if lines.len() == 0 {
        Some(Seq::empty())
    } else {
        match spec_decode_pairs(lines.drop_last()) {
            Option::None => Option::None,
            Option::Some(acc) => {
                if fields_of(lines.last()).len() == 0 {
                    Option::Some(acc)
                } else if pair_line_ok(lines.last()) {
                    Option::Some(acc.push(pair_of_line(lines.last())))
                } else {
                    Option::None
                }
            },
        }
    }
}

/// Decodes a reply body of `name count` lines into pairs, in order of
/// appearance. Fails exactly when a non-blank line lacks a second field or
/// its second field is not a `u64` numeral.
pub fn decode_pairs(lines: &Vec<String>) -> (r: Result<Vec<(String, u64)>, Error>)
    ensures
        r is Ok <==> spec_decode_pairs(lines.deep_view()) is Some,
        r matches Ok(v) ==> Some(v.deep_view()) == spec_decode_pairs(lines.deep_view()),
        r matches Err(e) ==> e == Error::Parse,
{
    let n = lines.len();
    let mut out: Vec<(String, u64)> = Vec::new();
    let mut ok = true;
    let mut i: usize = 0;
    proof {
        assert(lines.deep_view().take(0) =~= Seq::<Seq<char>>::empty());
        assert(out.deep_view() =~= Seq::<(Seq<char>, u64)>::empty());
    }
    while i < n
        invariant
            n == lines.len(),
            0 <= i <= n,
            ok ==> spec_decode_pairs(lines.deep_view().take(i as int)) == Some(out.deep_view()),
            !ok ==> spec_decode_pairs(lines.deep_view().take(i as int)) is None,
        decreases n - i,
    {
        proof {
            assert(lines.deep_view().take(i + 1).drop_last() =~= lines.deep_view().take(
                i as int,
            ));
            assert(lines.deep_view().take(i + 1).last() == lines.deep_view()[i as int]);
        }
        if ok {
            let fs = split_fields(lines[i].as_str());
            if fs.len() == 0 {
                assert(fields_of(lines.deep_view()[i as int]).len() == 0);
            } else if fs.len() >= 2 {
                match parse_u64(fs[1].as_str()) {
                    Option::Some(v) => {
                        let ghost old_out = out.deep_view();
                        out.push((fs[0].clone(), v));
                        proof {
                            assert(fs.deep_view()[1] == fields_of(lines.deep_view()[i as int])[1]);
                            assert(out.deep_view() =~= old_out.push(
                                pair_of_line(lines.deep_view()[i as int]),
                            ));
                        }
                    },
                    Option::None => {
                        proof {
                            assert(fs.deep_view()[1] == fields_of(lines.deep_view()[i as int])[1]);
                            assert(!pair_line_ok(lines.deep_view()[i as int]));
                        }
                        ok = false;
                    },
                }
            } else {
                assert(!pair_line_ok(lines.deep_view()[i as int]));
                ok = false;
            }
        }
        i = i + 1;
    }
    proof {
        assert(lines.deep_view().take(n as int) =~= lines.deep_view());
    }
    if ok {
        Ok(out)
    } else {
        Err(Error::Parse)
    }
}

/// Copies decoded pairs into named-counter records.
fn pairs_to_counters(ps: &Vec<(String, u64)>) -> (r: Vec<Counter>)
    ensures
        r.deep_view() == ps.deep_view(),
{
    let n = ps.len();
    let mut out: Vec<Counter> = Vec::new();
    let mut i: usize = 0;
    while i < n
        invariant
            n == ps.len(),
            0 <= i <= n,
            out.len() == i,
            forall|k: int| 0 <= k < i ==> out.deep_view()[k] == ps.deep_view()[k],
        decreases n - i,
    {
        out.push(Counter { name: ps[i].0.clone(), value: ps[i].1 });
        i = i + 1;
    }
    proof {
        assert(out.deep_view() =~= ps.deep_view());
    }
    out
}

/// Decodes a scalar-counter reply (`key value` lines) into counters, in
/// order of appearance. Fails exactly when a non-blank line violates the
/// pair grammar.
pub fn decode_counters(lines: &Vec<String>) -> (r: Result<Vec<Counter>, Error>)
    ensures
        r is Ok <==> spec_decode_pairs(lines.deep_view()) is Some,
        r matches Ok(v) ==> Some(v.deep_view()) == spec_decode_pairs(lines.deep_view()),
        r matches Err(e) ==> e == Error::Parse,
{
    match decode_pairs(lines) {
        Ok(ps) => Ok(pairs_to_counters(&ps)),
        Err(e) => Err(e),
    }
}

/// The decoded top list: the pairs in original rank order, truncated to
/// `limit` records; ties keep their order of first appearance.
pub open spec fn spec_top_list(lines: Seq<Seq<char>>, limit: int) -> Option<
    Seq<(Seq<char>, u64)>,
> {
    match spec_decode_pairs(lines) {
        Option::None => Option::None,
        Option::Some(ps) => Option::Some(
            if limit < ps.len() {
                ps.take(limit)
            } else {
                ps
            },
        ),
    }
}

/// Law: a top list of limit `l` over a reply that decodes to `n` ranked
/// records holds exactly the lesser of `l` and `n` records, and the record
/// at every rank is the reply's record at that same rank — rank order is
/// preserved and ties keep their order of first appearance.
pub proof fn lemma_top_list_rank_order(lines: Seq<Seq<char>>, limit: int)
    requires
        spec_decode_pairs(lines) is Some,
        limit >= 0,
    ensures
        spec_top_list(lines, limit) is Some,
        spec_top_list(lines, limit).unwrap().len() == if limit
            < spec_decode_pairs(lines).unwrap().len() {
            limit as int
        } else {
            spec_decode_pairs(lines).unwrap().len() as int
        },
        forall|k: int|
            0 <= k < spec_top_list(lines, limit).unwrap().len() ==> spec_top_list(
                lines,
                limit,
            ).unwrap()[k] == spec_decode_pairs(lines).unwrap()[k],
{
}

/// Decodes a rank-ordered top list, truncated to at most `limit` records,
/// in the order the reply ranked them.
pub fn decode_top_list(lines: &Vec<String>, limit: usize) -> (r: Result<Vec<DomainCount>, Error>)
    ensures
        r is Ok <==> spec_top_list(lines.deep_view(), limit as int) is Some,
        r matches Ok(v) ==> Some(v.deep_view()) == spec_top_list(lines.deep_view(), limit as int),
        r matches Err(e) ==> e == Error::Parse,
{
    match decode_pairs(lines) {
        Err(e) => Err(e),
        Ok(mut ps) => {
            let ghost full = ps.deep_view();
            ps.truncate(limit);
            proof {
                if limit < full.len() {
                    assert(ps.deep_view() =~= full.take(limit as int));
                } else {
                    assert(ps.deep_view() =~= full);
                }
            }
            let n = ps.len();
            let mut out: Vec<DomainCount> = Vec::new();
            let mut i: usize = 0;
            while i < n
                invariant
                    n == ps.len(),
                    0 <= i <= n,
                    out.len() == i,
                    forall|k: int| 0 <= k < i ==> out.deep_view()[k] == ps.deep_view()[k],
                decreases n - i,
            {
                out.push(DomainCount { name: ps[i].0.clone(), count: ps[i].1 });
                i = i + 1;
            }
            proof {
                assert(out.deep_view() =~= ps.deep_view());
            }
            Ok(out)
        },
    }
}

/// Decodes a per-client breakdown reply, in order of appearance.
pub fn decode_clients(lines: &Vec<String>) -> (r: Result<Vec<ClientCount>, Error>)
    ensures
        r is Ok <==> spec_decode_pairs(lines.deep_view()) is Some,
        r matches Ok(v) ==> Some(v.deep_view()) == spec_decode_pairs(lines.deep_view()),
        r matches Err(e) ==> e == Error::Parse,
{
    match decode_pairs(lines) {
        Err(e) => Err(e),
        Ok(ps) => {
            let n = ps.len();
            let mut out: Vec<ClientCount> = Vec::new();
            let mut i: usize = 0;
            while i < n
                invariant
                    n == ps.len(),
                    0 <= i <= n,
                    out.len() == i,
                    forall|k: int| 0 <= k < i ==> out.deep_view()[k] == ps.deep_view()[k],
                decreases n - i,
            {
                out.push(ClientCount { name: ps[i].0.clone(), count: ps[i].1 });
                i = i + 1;
            }
            proof {
                assert(out.deep_view() =~= ps.deep_view());
            }
            Ok(out)
        },
    }
}

/// Decodes a per-query-type breakdown reply, in order of appearance.
pub fn decode_query_types(lines: &Vec<String>) -> (r: Result<Vec<QueryTypeCount>, Error>)
    ensures
        r is Ok <==> spec_decode_pairs(lines.deep_view()) is Some,
        r matches Ok(v) ==> Some(v.deep_view()) == spec_decode_pairs(lines.deep_view()),
        r matches Err(e) ==> e == Error::Parse,
{
    match decode_pairs(lines) {
        Err(e) => Err(e),
        Ok(ps) => {
            let n = ps.len();
            let mut out: Vec<QueryTypeCount> = Vec::new();
            let mut i: usize = 0;
            while i < n
                invariant
                    n == ps.len(),
                    0 <= i <= n,
                    out.len() == i,
                    forall|k: int| 0 <= k < i ==> out.deep_view()[k] == ps.deep_view()[k],
                decreases n - i,
            {
                out.push(QueryTypeCount { qtype: ps[i].0.clone(), count: ps[i].1 });
                i = i + 1;
            }
            proof {
                assert(out.deep_view() =~= ps.deep_view());
            }
            Ok(out)
        },
    }
}

/// Grammar of one time-series line: at least two fields, both `u64`
/// numerals (timestamp, then count).
pub open spec fn point_line_ok(s: Seq<char>) -> bool {
    fields_of(s).len() >= 2 && is_u64_digits(fields_of(s)[0]) && is_u64_digits(fields_of(s)[1])
}

/// The point of one well-formed time-series line.
pub open spec fn point_of_line(s: Seq<char>) -> (u64, u64) {
    (str_to_nat(fields_of(s)[0]) as u64, str_to_nat(fields_of(s)[1]) as u64)
}

/// The `(timestamp, count)` points of a reply body, in the order received;
/// nothing when some non-blank line violates the grammar.
pub open spec fn spec_decode_points(lines: Seq<Seq<char>>) -> Option<Seq<(u64, u64)>>
    decreases lines.len(),
{
    if lines.len() == 0 {
        Some(Seq::empty())
    } else {
        match spec_decode_points(lines.drop_last()) {
            Option::None => Option::None,
            Option::Some(acc) => {
                if fields_of(lines.last()).len() == 0 {
                    Option::Some(acc)
                } else if point_line_ok(lines.last()) {
                    Option::Some(acc.push(point_of_line(lines.last())))
                } else {
                    Option::None
                }
            },
        }
    }
}

/// Decodes a time-series reply of `timestamp count` lines, preserving the
/// order in which the engine sent the buckets. Fails exactly when a
/// non-blank line lacks two `u64` numerals.
pub fn decode_points(lines: &Vec<String>) -> (r: Result<Vec<TimeSeriesPoint>, Error>)
    ensures
        r is Ok <==> spec_decode_points(lines.deep_view()) is Some,
        r matches Ok(v) ==> Some(v.deep_view()) == spec_decode_points(lines.deep_view()),
        r matches Err(e) ==> e == Error::Parse,
{
    let n = lines.len();
    let mut out: Vec<TimeSeriesPoint> = Vec::new();
    let mut ok = true;
    let mut i: usize = 0;
    proof {
        assert(lines.deep_view().take(0) =~= Seq::<Seq<char>>::empty());
        assert(out.deep_view() =~= Seq::<(u64, u64)>::empty());
    }
    while i < n
        invariant
            n == lines.len(),
            0 <= i <= n,
            ok ==> spec_decode_points(lines.deep_view().take(i as int)) == Some(out.deep_view()),
            !ok ==> spec_decode_points(lines.deep_view().take(i as int)) is None,
        decreases n - i,
    {
        proof {
            assert(lines.deep_view().take(i + 1).drop_last() =~= lines.deep_view().take(
                i as int,
            ));
            assert(lines.deep_view().take(i + 1).last() == lines.deep_view()[i as int]);
        }
        if ok {
            let fs = split_fields(lines[i].as_str());
            if fs.len() == 0 {
                assert(fields_of(lines.deep_view()[i as int]).len() == 0);
            } else if fs.len() >= 2 {
                let t = parse_u64(fs[0].as_str());
                let c = parse_u64(fs[1].as_str());
                proof {
                    assert(fs.deep_view()[0] == fields_of(lines.deep_view()[i as int])[0]);
                    assert(fs.deep_view()[1] == fields_of(lines.deep_view()[i as int])[1]);
                }
                match (t, c) {
                    (Option::Some(tv), Option::Some(cv)) => {
                        let ghost old_out = out.deep_view();
                        out.push(TimeSeriesPoint { timestamp: tv, count: cv });
                        proof {
                            assert(out.deep_view() =~= old_out.push(
                                point_of_line(lines.deep_view()[i as int]),
                            ));
                        }
                    },
                    _ => {
                        assert(!point_line_ok(lines.deep_view()[i as int]));
                        ok = false;
                    },
                }
            } else {
                assert(!point_line_ok(lines.deep_view()[i as int]));
                ok = false;
            }
        }
        i = i + 1;
    }
    proof {
        assert(lines.deep_view().take(n as int) =~= lines.deep_view());
    }
    if ok {
        Ok(out)
    } else {
        Err(Error::Parse)
    }
}

/// The entry of one non-blank list line: the first field is the domain;
/// the entry is enabled unless a second field reads `0`.
pub open spec fn entry_of_line(s: Seq<char>) -> (Seq<char>, bool) {
    (fields_of(s)[0], !(fields_of(s).len() >= 2 && fields_of(s)[1] == "0"@))
}

/// The list entries of a reply body, in order; blank lines are skipped and
/// every non-blank line is a valid entry, so list decoding never fails.
pub open spec fn spec_decode_entries(lines: Seq<Seq<char>>) -> Seq<(Seq<char>, bool)>
    decreases lines.len(),
{
    if lines.len() == 0 {
        Seq::empty()
    } else {
        let rest = spec_decode_entries(lines.drop_last());
        if fields_of(lines.last()).len() == 0 {
            rest
        } else {
            rest.push(entry_of_line(lines.last()))
        }
    }
}

/// Decodes an allow/deny/wildcard list reply: one domain per line, with an
/// optional enabled flag (`0` disables) as the second field.
pub fn decode_list_entries(lines: &Vec<String>) -> (r: Vec<ListEntry>)
    ensures
        r.deep_view() == spec_decode_entries(lines.deep_view()),
{
    let n = lines.len();
    let mut out: Vec<ListEntry> = Vec::new();
    let mut i: usize = 0;
    proof {
        assert(lines.deep_view().take(0) =~= Seq::<Seq<char>>::empty());
        assert(out.deep_view() =~= Seq::<(Seq<char>, bool)>::empty());
    }
    while i < n
        invariant
            n == lines.len(),
            0 <= i <= n,
            out.deep_view() == spec_decode_entries(lines.deep_view().take(i as int)),
        decreases n - i,
    {
        proof {
            assert(lines.deep_view().take(i + 1).drop_last() =~= lines.deep_view().take(
                i as int,
            ));
            assert(lines.deep_view().take(i + 1).last() == lines.deep_view()[i as int]);
        }
        let fs = split_fields(lines[i].as_str());
        if fs.len() > 0 {
            let enabled = !(fs.len() >= 2 && str_eq(fs[1].as_str(), "0"));
            let ghost old_out = out.deep_view();
            out.push(ListEntry { domain: fs[0].clone(), enabled });
            proof {
                assert(fs.deep_view()[0] == fields_of(lines.deep_view()[i as int])[0]);
                if fs.len() >= 2 {
                    assert(fs.deep_view()[1] == fields_of(lines.deep_view()[i as int])[1]);
                }
                assert(out.deep_view() =~= old_out.push(
                    entry_of_line(lines.deep_view()[i as int]),
                ));
            }
        } else {
            assert(fields_of(lines.deep_view()[i as int]).len() == 0);
        }
        i = i + 1;
    }
    proof {
        assert(lines.deep_view().take(n as int) =~= lines.deep_view());
    }
    out
}

/// The value of the first pair with the given key, if any.
pub open spec fn spec_lookup(pairs: Seq<(Seq<char>, u64)>, key: Seq<char>) -> Option<u64>
    decreases pairs.len(),
{
    if pairs.len() == 0 {
        Option::None
    } else if pairs[0].0 == key {
        Option::Some(pairs[0].1)
    } else {
        spec_lookup(pairs.skip(1), key)
    }
}

proof fn lemma_lookup_at(pairs: Seq<(Seq<char>, u64)>, key: Seq<char>, i: int)
    requires
        0 <= i < pairs.len(),
        pairs[i].0 == key,
        forall|k: int| 0 <= k < i ==> pairs[k].0 != key,
    ensures
        spec_lookup(pairs, key) == Some(pairs[i].1),
    decreases i,
{
    if i > 0 {
        assert(pairs.skip(1)[i - 1] == pairs[i]);
        assert(forall|k: int| 0 <= k < i - 1 ==> pairs.skip(1)[k] == pairs[k + 1]);
        lemma_lookup_at(pairs.skip(1), key, i - 1);
    }
}

proof fn lemma_lookup_none(pairs: Seq<(Seq<char>, u64)>, key: Seq<char>)
    requires
        forall|k: int| 0 <= k < pairs.len() ==> pairs[k].0 != key,
    ensures
        spec_lookup(pairs, key) is None,
    decreases pairs.len(),
{
    if pairs.len() > 0 {
        assert(forall|k: int| 0 <= k < pairs.skip(1).len() ==> pairs.skip(1)[k] == pairs[k + 1]);
        lemma_lookup_none(pairs.skip(1), key);
    }
}

/// Finds the value of the first pair whose name equals `key`.
pub fn lookup(pairs: &Vec<(String, u64)>, key: &str) -> (r: Option<u64>)
    ensures
        r == spec_lookup(pairs.deep_view(), key@),
{
    let n = pairs.len();
    let mut i: usize = 0;
    while i < n
        invariant
            n == pairs.len(),
            0 <= i <= n,
            forall|k: int| 0 <= k < i ==> pairs.deep_view()[k].0 != key@,
        decreases n - i,
    {
        if str_eq(pairs[i].0.as_str(), key) {
            proof {
                lemma_lookup_at(pairs.deep_view(), key@, i as int);
            }
            return Some(pairs[i].1);
        }
        i = i + 1;
    }
    proof {
        lemma_lookup_none(pairs.deep_view(), key@);
    }
    None
}

/// The status decoded from a reply body: the pairs must decode, and both
/// the `enabled` and `blocking` keys must be present with value zero or
/// one.
pub open spec fn spec_decode_status(lines: Seq<Seq<char>>) -> Option<StatusFlags> {
    match spec_decode_pairs(lines) {
        Option::None => Option::None,
        Option::Some(ps) => match (spec_lookup(ps, "enabled"@), spec_lookup(ps, "blocking"@)) {
            (Option::Some(e), Option::Some(b)) => {
                if e <= 1 && b <= 1 {
                    Option::Some(StatusFlags { enabled: e == 1, blocking: b == 1 })
                } else {
                    Option::None
                }
            },
            _ => Option::None,
        },
    }
}

/// Decodes the engine's status reply into its two flags. Fails exactly
/// when the pair grammar is violated, a flag is missing, or a flag value
/// is neither zero nor one.
pub fn decode_status(lines: &Vec<String>) -> (r: Result<StatusFlags, Error>)
    ensures
        r is Ok <==> spec_decode_status(lines.deep_view()) is Some,
        r matches Ok(s) ==> Some(s) == spec_decode_status(lines.deep_view()),
        r matches Err(e) ==> e == Error::Parse,
{
    match decode_pairs(lines) {
        Err(e) => Err(e),
        Ok(ps) => {
            let e = lookup(&ps, "enabled");
            let b = lookup(&ps, "blocking");
            match (e, b) {
                (Option::Some(ev), Option::Some(bv)) => {
                    if ev <= 1 && bv <= 1 {
                        Ok(StatusFlags { enabled: ev == 1, blocking: bv == 1 })
                    } else {
                        Err(Error::Parse)
                    }
                },
                _ => Err(Error::Parse),
            }
        },
    }
}

/// A line that carries the engine's explicit failure indicator: its first
/// field reads `error`.
pub open spec fn is_error_line(s: Seq<char>) -> bool {
    fields_of(s).len() >= 1 && fields_of(s)[0] == "error"@
}

/// Some line of the body carries the engine's failure indicator.
pub open spec fn spec_engine_error(lines: Seq<Seq<char>>) -> bool {
    exists|i: int| 0 <= i < lines.len() && is_error_line(lines[i])
}

/// Scans a reply body for the engine's explicit failure indicator.
pub fn has_engine_error(lines: &Vec<String>) -> (r: bool)
    ensures
        r == spec_engine_error(lines.deep_view()),
{
    let n = lines.len();
    let mut i: usize = 0;
    while i < n
        invariant
            n == lines.len(),
            0 <= i <= n,
            forall|k: int| 0 <= k < i ==> !is_error_line(lines.deep_view()[k]),
        decreases n - i,
    {
        let fs = split_fields(lines[i].as_str());
        if fs.len() >= 1 && str_eq(fs[0].as_str(), "error") {
            proof {
                assert(fs.deep_view()[0] == fields_of(lines.deep_view()[i as int])[0]);
                assert(is_error_line(lines.deep_view()[i as int]));
            }
            return true;
        }
        proof {
            if fs.len() >= 1 {
                assert(fs.deep_view()[0] == fields_of(lines.deep_view()[i as int])[0]);
            }
            assert(!is_error_line(lines.deep_view()[i as int]));
        }
        i = i + 1;
    }
    false
}

} // verus!
