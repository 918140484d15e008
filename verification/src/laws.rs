//! Properties that hold of the builders for every configuration: the
//! whitespace-collapse fallback really collapses, percent-encoded values
//! carry no whitespace, and every chart URL starts with the rendering
//! endpoint.

use vstd::prelude::*;
use crate::client::{spec_chart_endpoint, spec_chart_url, spec_compact_chart, QuickchartClient};
use crate::jsonio::json_ok;
use crate::text::{
    hex_upper, is_url_safe, is_ws_char, lemma_spec_collapse_props, pct_all, pct_byte, pct_bytes,
    pct_char, space_collapsed,
};

verus! {

/// Law: on chart text that is not valid JSON, compaction collapses
/// whitespace. The result is no longer than the input, any whitespace
/// character left in it is a single plain space, and no two spaces stand
/// side by side (so no newlines, carriage returns or multi-space runs
/// survive).
pub proof fn lemma_compact_chart_collapses(s: Seq<char>)
    requires
        !json_ok(s),
    ensures
        spec_compact_chart(s).len() <= s.len(),
        space_collapsed(spec_compact_chart(s)),
{
    lemma_spec_collapse_props(s);
}

proof fn lemma_pct_byte_no_whitespace(b: u8)
    ensures
        forall|i: int| 0 <= i < pct_byte(b).len() ==> !is_ws_char(#[trigger] pct_byte(b)[i]),
{
    assert(b / 16 < 16) by (nonlinear_arith);
    assert(b % 16 < 16) by (nonlinear_arith);
    assert(!is_ws_char('%'));
    assert(!is_ws_char(hex_upper(b / 16)));
    assert(!is_ws_char(hex_upper(b % 16)));
}

proof fn lemma_pct_bytes_no_whitespace(bs: Seq<u8>)
    ensures
        forall|i: int| 0 <= i < pct_bytes(bs).len() ==> !is_ws_char(#[trigger] pct_bytes(bs)[i]),
    decreases bs.len(),
{
    if bs.len() > 0 {
        lemma_pct_bytes_no_whitespace(bs.drop_last());
        lemma_pct_byte_no_whitespace(bs.last());
        let r = pct_bytes(bs);
        let a = pct_bytes(bs.drop_last());
        let b = pct_byte(bs.last());
        assert forall|i: int| 0 <= i < r.len() implies !is_ws_char(r[i]) by {
            if i < a.len() {
                assert(r[i] == a[i]);
            } else {
                assert(r[i] == b[i - a.len()]);
            }
        }
    }
}

proof fn lemma_pct_char_no_whitespace(c: char)
    ensures
        forall|i: int| 0 <= i < pct_char(c).len() ==> !is_ws_char(#[trigger] pct_char(c)[i]),
{
    if is_url_safe(c) {
        assert(!is_ws_char(c));
    } else {
        lemma_pct_bytes_no_whitespace(vstd::utf8::encode_scalar(c as u32));
    }
}

/// Law: a percent-encoded query value carries no whitespace at all — every
/// space, tab, newline or carriage return of the original value appears only
/// as a `%XX` escape.
pub proof fn lemma_pct_all_no_whitespace(s: Seq<char>)
    ensures
        forall|i: int| 0 <= i < pct_all(s).len() ==> !is_ws_char(#[trigger] pct_all(s)[i]),
    decreases s.len(),
{
    if s.len() > 0 {
        lemma_pct_all_no_whitespace(s.drop_last());
        lemma_pct_char_no_whitespace(s.last());
        let r = pct_all(s);
        let a = pct_all(s.drop_last());
        let b = pct_char(s.last());
        assert forall|i: int| 0 <= i < r.len() implies !is_ws_char(r[i]) by {
            if i < a.len() {
                assert(r[i] == a[i]);
            } else {
                assert(r[i] == b[i - a.len()]);
            }
        }
    }
}

/// Law: for every configuration, the chart URL begins with the rendering
/// endpoint — `get_url` points at the service's fixed address whatever the
/// fields hold, an empty chart included.
pub proof fn lemma_chart_url_starts_with_endpoint(c: QuickchartClient)
    ensures
        spec_chart_url(c).len() >= spec_chart_endpoint().len(),
        spec_chart_url(c).take(spec_chart_endpoint().len() as int) == spec_chart_endpoint(),
{
    assert(spec_chart_url(c).take(spec_chart_endpoint().len() as int) =~= spec_chart_endpoint());
}

} // verus!
