//! Normalization of pagination parameters into query-string values.
//!
//! Callers hand listing operations an optional set of named parameters.
//! Before those become a query string, `limit` is clamped to the inclusive
//! range `[1, max]` of the resource, `offset` is clamped to a minimum of
//! zero, members whose value is null are dropped, and every surviving value
//! is rendered as text: strings verbatim, everything else as canonical JSON.
use crate::json::{spec_json_text, to_json_text, JsonValue};
use crate::strutil::{i64_text, spec_int_text};
use vstd::prelude::*;
use vstd::string::StringExecFns;

verus! {

/// Largest accepted `limit` when listing applications.
pub const MAX_APPS_LIMIT: i64 = 1000;

/// Largest accepted `limit` when listing endpoints.
pub const MAX_ENDPOINTS_LIMIT: i64 = 1000;

/// Largest accepted `limit` when listing events.
pub const MAX_EVENTS_LIMIT: i64 = 50;

/// Largest accepted `limit` when listing deliveries.
pub const MAX_DELIVERIES_LIMIT: i64 = 1000;

/// A `limit` below 1 is raised to 1; then anything above `max` is lowered
/// to `max`.
pub open spec fn spec_clamp_limit(n: int, max: int) -> int {
    let raised = if n < 1 {
        1int
    } else {
        n
    };
    if raised > max {
        max
    } else {
        raised
    }
}

/// An `offset` below 0 is raised to 0.
pub open spec fn spec_clamp_offset(n: int) -> int {
    if n < 0 {
        0int
    } else {
        n
    }
}

/// What one parameter contributes to the query: nothing when the value is
/// null; the clamped decimal for an integer `limit` or `offset`; the string
/// itself for a string value; canonical JSON text for anything else.
pub open spec fn spec_param_value(key: Seq<char>, value: JsonValue, max: int) -> Option<Seq<char>> {
    match value {
        JsonValue::Null => None,
        JsonValue::Int(n) => if key == "limit"@ {
            Some(spec_int_text(spec_clamp_limit(n as int, max)))
        } else if key == "offset"@ {
            Some(spec_int_text(spec_clamp_offset(n as int)))
        } else {
            Some(spec_json_text(value))
        },
        JsonValue::Str(s) => Some(s@),
        _ => Some(spec_json_text(value)),
    }
}

/// The normalized query entries for a parameter list, in the order given,
/// with null-valued members dropped.
pub open spec fn spec_clamp_entries(params: Seq<(String, JsonValue)>, max: int) -> Seq<
    (Seq<char>, Seq<char>),
>
    decreases params.len(),
{
    if params.len() == 0 {
        Seq::<(Seq<char>, Seq<char>)>::empty()
    } else {
        let rest = spec_clamp_entries(params.drop_last(), max);
        match spec_param_value(params.last().0@, params.last().1, max) {
            None => rest,
            Some(text) => rest + seq![(params.last().0@, text)],
        }
    }
}

/// The views of rendered query entries, pairwise.
pub open spec fn spec_query_view(q: Seq<(String, String)>) -> Seq<(Seq<char>, Seq<char>)> {
    q.map_values(|p: (String, String)| (p.0@, p.1@))
}

/// For an integer `limit` and a page-size maximum of at least one: a value
/// below one normalizes to one, a value above the maximum to the maximum,
/// and a value already in range is unchanged.
pub proof fn lemma_limit_clamped(n: int, max: int)
    requires
        1 <= max,
    ensures
        n < 1 ==> spec_clamp_limit(n, max) == 1,
        n > max ==> spec_clamp_limit(n, max) == max,
        1 <= n <= max ==> spec_clamp_limit(n, max) == n,
{
}

/// For an integer `offset`: a value below zero normalizes to zero, any
/// other value is unchanged.
pub proof fn lemma_offset_clamped(n: int)
    ensures
        n < 0 ==> spec_clamp_offset(n) == 0,
        n >= 0 ==> spec_clamp_offset(n) == n,
{
}

/// An integer-valued `limit` member contributes the decimal text of its
/// clamped value to the query.
pub proof fn lemma_limit_entry(key: Seq<char>, n: i64, max: int)
    requires
        key == "limit"@,
    ensures
        spec_param_value(key, JsonValue::Int(n), max) == Some(
            spec_int_text(spec_clamp_limit(n as int, max)),
        ),
{
}

/// An integer-valued `offset` member contributes the decimal text of its
/// clamped value to the query.
pub proof fn lemma_offset_entry(key: Seq<char>, n: i64, max: int)
    requires
        key == "offset"@,
    ensures
        spec_param_value(key, JsonValue::Int(n), max) == Some(
            spec_int_text(spec_clamp_offset(n as int)),
        ),
{
    reveal_strlit("limit");
    reveal_strlit("offset");
    assert("limit"@.len() == 5);
    assert("offset"@.len() == 6);
}

/// A parameter set whose every member is null normalizes to no query
/// entries at all — so `clamp` answers "no parameters" for it.
pub proof fn lemma_all_null_no_params(params: Seq<(String, JsonValue)>, max: int)
    requires
        forall|i: int| 0 <= i < params.len() ==> params[i].1 is Null,
    ensures
        spec_clamp_entries(params, max).len() == 0,
    decreases params.len(),
{
    if params.len() > 0 {
        assert forall|i: int| 0 <= i < params.drop_last().len() implies params.drop_last()[i].1
            is Null by {
            assert(params.drop_last()[i] == params[i]);
        }
        lemma_all_null_no_params(params.drop_last(), max);
        assert(params.last().1 is Null);
    }
}

/// Normalizes caller parameters into query entries, or "no parameters".
///
/// Parameters are an ordered list of name/value pairs; callers supply
/// each name once. Absent input gives `None`; so does input whose every
/// member is dropped for being null. Otherwise the surviving members are
/// returned in order, with `limit` and `offset` clamped and every value
/// rendered as text.
pub fn clamp(params: Option<&Vec<(String, JsonValue)>>, max_limit: i64) -> (r: Option<
    Vec<(String, String)>,
>)
    ensures
        match params {
            None => r is None,
            Some(source) => {
                let mapped = spec_clamp_entries(source@, max_limit as int);
                if mapped.len() == 0 {
                    r is None
                } else {
                    r matches Some(q) && spec_query_view(q@) == mapped
                }
            },
        },
{
    let source = match params {
        None => {
            return None;
        },
        Some(source) => source,
    };
    let n = source.len();
    let mut out: Vec<(String, String)> = Vec::new();
    let mut i: usize = 0;
    proof {
        assert(source@.take(0) =~= Seq::<(String, JsonValue)>::empty());
        assert(spec_query_view(out@) =~= spec_clamp_entries(source@.take(0), max_limit as int));
    }
    while i < n
        invariant
            i <= n,
            n == source@.len(),
            spec_query_view(out@) == spec_clamp_entries(source@.take(i as int), max_limit as int),
        decreases n - i,
    {
        let key = &source[i].0;
        let value = &source[i].1;
        let rendered: Option<String> = match value {
            JsonValue::Null => None,
            JsonValue::Int(m) => {
                if crate::strutil::str_eq(key.as_str(), "limit") {
                    let raised: i64 = if *m < 1 {
                        1
                    } else {
                        *m
                    };
                    let clamped: i64 = if raised > max_limit {
                        max_limit
                    } else {
                        raised
                    };
                    Some(i64_text(clamped))
                } else if crate::strutil::str_eq(key.as_str(), "offset") {
                    let clamped: i64 = if *m < 0 {
                        0
                    } else {
                        *m
                    };
                    Some(i64_text(clamped))
                } else {
                    Some(to_json_text(value))
                }
            },
            JsonValue::Str(s) => Some(s.clone()),
            _ => Some(to_json_text(value)),
        };
        proof {
            assert(source@.take(i as int + 1).drop_last() =~= source@.take(i as int));
            assert(source@.take(i as int + 1).last() == source@[i as int]);
        }
        match rendered {
            None => {
                proof {
                    assert(spec_query_view(out@) =~= spec_clamp_entries(
                        source@.take(i as int + 1),
                        max_limit as int,
                    ));
                }
            },
            Some(text) => {
                let entry = (key.clone(), text);
                out.push(entry);
                proof {
                    assert(spec_query_view(out@) =~= spec_clamp_entries(
                        source@.take(i as int + 1),
                        max_limit as int,
                    ));
                }
            },
        }
        i += 1;
    }
    proof {
        assert(source@.take(n as int) =~= source@);
    }
    if out.len() == 0 {
        None
    } else {
        Some(out)
    }
}

} // verus!
