//! The chart client: a record of chart text and optional rendering
//! parameters, the URL and request-body builders that serialize it, and the
//! functions that interpret the rendering service's responses.

use vstd::prelude::*;
use vstd::string::StringExecFns;
use crate::jsonio::{json_min, json_ok, json_str_field, json_string_field, minify_json};
use crate::text::{
    collapse_whitespace, dec_str, json_quote, lemma_spec_collapse_props, pct_all, pct_encode,
    space_collapsed, spec_collapse, spec_json_quote, spec_strip_quotes, strip_quotes, u64_to_dec,
};

verus! {

/// Errors of the client's fallible operations.
#[derive(Debug)]
pub enum QCError {
    /// Transport failure, or a response with a non-success HTTP status.
    HttpError(String),
    /// A response body that should have been JSON did not parse.
    JsonParseError(String),
    /// A URL could not be parsed.
    UrlParseError(String),
    /// A file could not be written.
    IoError(String),
    /// An expected response field is absent or not a string; carries the
    /// field's name.
    MissingField(String),
}

/// Configuration for one chart: the chart description text and the optional
/// rendering parameters. All optional fields default to unset, in which case
/// the rendering service applies its own defaults.
pub struct QuickchartClient {
    /// Chart description: strict JSON, or looser object-literal syntax.
    pub chart: String,
    /// Width in pixels.
    pub width: Option<usize>,
    /// Height in pixels.
    pub height: Option<usize>,
    /// Device pixel ratio, as the decimal text of the scale factor
    /// (for example `"2"` or `"1.5"`); see [`is_dec_numeral`].
    pub device_pixel_ratio: Option<String>,
    /// Background color, passed through verbatim.
    pub background_color: Option<String>,
    /// Rendering-engine version selector, passed through verbatim.
    pub version: Option<String>,
    /// Output format selector such as `"png"` or `"svg"`, passed through
    /// verbatim.
    pub format: Option<String>,
}

/// The rendering endpoint, a fixed constant.
pub open spec fn spec_chart_endpoint() -> Seq<char> {
    "https://quickchart.io/chart"@
}

/// The short-link endpoint, a fixed constant.
pub open spec fn spec_create_endpoint() -> Seq<char> {
    "https://quickchart.io/chart/create"@
}

/// The rendering endpoint's URL, before any query parameters.
pub fn chart_endpoint_url() -> (r: String)
    ensures
        r@ == spec_chart_endpoint(),
{
    String::from_str("https://quickchart.io/chart")
}

/// The short-link endpoint's URL.
pub fn create_endpoint_url() -> (r: String)
    ensures
        r@ == spec_create_endpoint(),
{
    String::from_str("https://quickchart.io/chart/create")
}

/// The compacted chart text: a valid JSON description is re-encoded in
/// minified form, anything else has its whitespace runs collapsed to single
/// spaces and its ends trimmed.
pub open spec fn spec_compact_chart(chart: Seq<char>) -> Seq<char> {
    if json_ok(chart) {
        json_min(chart)
    } else {
        spec_collapse(chart)
    }
}

/// The chart field's place in the request body: the parsed JSON value
/// (re-encoded minified) when the text is valid JSON, otherwise the whole
/// text wrapped as one JSON string.
pub open spec fn spec_chart_value(chart: Seq<char>) -> Seq<char> {
    if json_ok(chart) {
        json_min(chart)
    } else {
        spec_json_quote(chart)
    }
}

/// A query parameter: its prefix (`&` + key + `=`) followed by the
/// percent-encoded value when set, nothing when unset.
pub open spec fn opt_param(prefix: Seq<char>, val: Option<Seq<char>>) -> Seq<char> {
    match val {
        Some(v) => prefix + pct_all(v),
        None => Seq::empty(),
    }
}

/// A request-body member: its prefix (`,` + quoted key + `:`) followed by the
/// already-encoded JSON value when set, nothing when unset.
pub open spec fn opt_member(prefix: Seq<char>, val: Option<Seq<char>>) -> Seq<char> {
    match val {
        Some(v) => prefix + v,
        None => Seq::empty(),
    }
}

/// A decimal digit character.
pub open spec fn is_digit_char(c: char) -> bool {
    48 <= c as u32 && c as u32 <= 57
}

/// Text of an unsigned decimal numeral, optionally with a fractional part:
/// one or more digits, or digits around a single interior decimal point.
/// This is the shape a finite non-negative scale factor prints as, and it is
/// exactly what may stand in a JSON number position.
#[verifier::opaque]
pub open spec fn is_dec_numeral(s: Seq<char>) -> bool {
    ||| (s.len() > 0 && (forall|i: int| 0 <= i < s.len() ==> is_digit_char(#[trigger] s[i])))
    ||| (exists|k: int|
        1 <= k && k + 1 < s.len() && #[trigger] s[k] == '.' && (forall|i: int|
            0 <= i < s.len() && i != k ==> is_digit_char(#[trigger] s[i])))
}

pub open spec fn opt_dec(n: Option<usize>) -> Option<Seq<char>> {
    match n {
        Some(v) => Some(dec_str(v as nat)),
        None => None,
    }
}

pub open spec fn opt_chars(s: Option<String>) -> Option<Seq<char>> {
    match s {
        Some(v) => Some(v@),
        None => None,
    }
}

pub open spec fn opt_quoted(s: Option<String>) -> Option<Seq<char>> {
    match s {
        Some(v) => Some(spec_json_quote(v@)),
        None => None,
    }
}

/// The chart URL for configuration `c`: the rendering endpoint, the
/// compacted chart text under `c`, then one query parameter for each set
/// field, in the fixed order `w`, `h`, `devicePixelRatio`, `bkg`, `v`, `f`,
/// every value percent-encoded.
pub open spec fn spec_chart_url(c: QuickchartClient) -> Seq<char> {
    spec_chart_endpoint() + "?c="@ + pct_all(spec_compact_chart(c.chart@)) + opt_param(
        "&w="@,
        opt_dec(c.width),
    ) + opt_param("&h="@, opt_dec(c.height)) + opt_param(
        "&devicePixelRatio="@,
        opt_chars(c.device_pixel_ratio),
    ) + opt_param("&bkg="@, opt_chars(c.background_color)) + opt_param(
        "&v="@,
        opt_chars(c.version),
    ) + opt_param("&f="@, opt_chars(c.format))
}

/// The JSON request body for configuration `c`: an object whose first member
/// `chart` holds the parsed-or-string chart value, followed by one member for
/// each set field, in the fixed order `width`, `height`, `devicePixelRatio`,
/// `backgroundColor`, `version`, `format`. Width, height and the pixel ratio
/// are JSON numbers; the rest are JSON strings.
pub open spec fn spec_body(c: QuickchartClient) -> Seq<char> {
    "{\"chart\":"@ + spec_chart_value(c.chart@) + opt_member(",\"width\":"@, opt_dec(c.width))
        + opt_member(",\"height\":"@, opt_dec(c.height)) + opt_member(
        ",\"devicePixelRatio\":"@,
        opt_chars(c.device_pixel_ratio),
    ) + opt_member(",\"backgroundColor\":"@, opt_quoted(c.background_color)) + opt_member(
        ",\"version\":"@,
        opt_quoted(c.version),
    ) + opt_member(",\"format\":"@, opt_quoted(c.format)) + "}"@
}

/// Shrinks a chart description before it is embedded in a URL: a valid JSON
/// text is re-encoded minified; any other text has each whitespace run
/// collapsed to one space and leading and trailing whitespace trimmed.
/// Never fails: a parse failure takes the collapse path.
///
/// A valid JSON description stays valid JSON, carries no control character,
/// and comes out in its canonical minified form — the same form the input
/// minifies to, so the output stands for the same parsed value, and a second
/// compaction returns it unchanged. Any other description comes out
/// collapsed and no longer than it went in.
pub fn compact_chart(chart: &str) -> (r: String)
    ensures
        r@ == spec_compact_chart(chart@),
        json_ok(chart@) ==> json_ok(r@) && json_min(r@) == r@ && json_min(r@) == json_min(
            chart@,
        ) && (forall|i: int| 0 <= i < r@.len() ==> (#[trigger] r@[i]) as u32 >= 0x20),
        !json_ok(chart@) ==> space_collapsed(r@) && r@.len() <= chart@.len(),
{
    match minify_json(chart) {
        Some(m) => m,
        None => {
            let collapsed = collapse_whitespace(chart);
            proof {
                lemma_spec_collapse_props(chart@);
            }
            collapsed
        },
    }
}

/// The chart's place in a request body: the minified re-encoding when the
/// text is valid JSON, the text as one JSON string otherwise.
fn chart_value_text(chart: &str) -> (r: String)
    ensures
        r@ == spec_chart_value(chart@),
{
    match minify_json(chart) {
        Some(m) => m,
        None => json_quote(chart),
    }
}

impl QuickchartClient {
    /// A client with the chart text empty and every optional field unset.
    pub fn new() -> (r: Self)
        ensures
            r.chart@ == Seq::<char>::empty(),
            r.width is None,
            r.height is None,
            r.device_pixel_ratio is None,
            r.background_color is None,
            r.version is None,
            r.format is None,
    {
        QuickchartClient {
            chart: String::new(),
            width: None,
            height: None,
            device_pixel_ratio: None,
            background_color: None,
            version: None,
            format: None,
        }
    }

    /// Sets the chart description. Both valid JSON and looser
    /// object-literal notation are accepted; nothing is validated here.
    pub fn chart(self, chart: String) -> (r: Self)
        ensures
            r == (QuickchartClient { chart, ..self }),
    {
        QuickchartClient { chart, ..self }
    }

    /// Sets the width in pixels.
    pub fn width(self, width: usize) -> (r: Self)
        ensures
            r == (QuickchartClient { width: Some(width), ..self }),
    {
        QuickchartClient { width: Some(width), ..self }
    }

    /// Sets the height in pixels.
    pub fn height(self, height: usize) -> (r: Self)
        ensures
            r == (QuickchartClient { height: Some(height), ..self }),
    {
        QuickchartClient { height: Some(height), ..self }
    }

    /// Sets the device pixel ratio, given as the decimal text of the scale
    /// factor (for example `"2"` or `"1.5"`): the request body embeds it as
    /// a JSON number, so it must be a decimal numeral.
    pub fn device_pixel_ratio(self, dpr: String) -> (r: Self)
        requires
            is_dec_numeral(dpr@),
        ensures
            r == (QuickchartClient { device_pixel_ratio: Some(dpr), ..self }),
    {
        QuickchartClient { device_pixel_ratio: Some(dpr), ..self }
    }

    /// Sets the background color: a named color, `#rgb`/`#rrggbb` hex,
    /// `rgb(..)` or `hsl(..)`. Passed through verbatim, not validated.
    pub fn background_color(self, color: String) -> (r: Self)
        ensures
            r == (QuickchartClient { background_color: Some(color), ..self }),
    {
        QuickchartClient { background_color: Some(color), ..self }
    }

    /// Sets the rendering-engine version selector.
    pub fn version(self, version: String) -> (r: Self)
        ensures
            r == (QuickchartClient { version: Some(version), ..self }),
    {
        QuickchartClient { version: Some(version), ..self }
    }

    /// Sets the output format selector.
    pub fn format(self, format: String) -> (r: Self)
        ensures
            r == (QuickchartClient { format: Some(format), ..self }),
    {
        QuickchartClient { format: Some(format), ..self }
    }

    /// The chart URL for this configuration; see [`spec_chart_url`].
    /// Builds no connection and performs no I/O; it always succeeds.
    #[verifier::rlimit(100)]
    pub fn get_url(&self) -> (r: Result<String, QCError>)
        ensures
            r is Ok,
            r matches Ok(u) ==> u@ == spec_chart_url(*self),
    {
        let mut url = chart_endpoint_url();
        url.append("?c=");
        let compacted = compact_chart(self.chart.as_str());
        let c_enc = pct_encode(compacted.as_str());
        url.append(c_enc.as_str());
        let ghost u0 = spec_chart_endpoint() + "?c="@ + pct_all(spec_compact_chart(self.chart@));
        proof {
            assert(url@ =~= u0);
        }
        if let Some(w) = self.width {
            url.append("&w=");
            let d = u64_to_dec(w as u64);
            let e = pct_encode(d.as_str());
            url.append(e.as_str());
        }
        let ghost u1 = u0 + opt_param("&w="@, opt_dec(self.width));
        proof {
            assert(url@ =~= u1);
        }
        if let Some(h) = self.height {
            url.append("&h=");
            let d = u64_to_dec(h as u64);
            let e = pct_encode(d.as_str());
            url.append(e.as_str());
        }
        let ghost u2 = u1 + opt_param("&h="@, opt_dec(self.height));
        proof {
            assert(url@ =~= u2);
        }
        if let Some(dpr) = &self.device_pixel_ratio {
            url.append("&devicePixelRatio=");
            let e = pct_encode(dpr.as_str());
            url.append(e.as_str());
        }
        let ghost u3 = u2 + opt_param("&devicePixelRatio="@, opt_chars(self.device_pixel_ratio));
        proof {
            assert(url@ =~= u3);
        }
        if let Some(bkg) = &self.background_color {
            url.append("&bkg=");
            let e = pct_encode(bkg.as_str());
            url.append(e.as_str());
        }
        let ghost u4 = u3 + opt_param("&bkg="@, opt_chars(self.background_color));
        proof {
            assert(url@ =~= u4);
        }
        if let Some(v) = &self.version {
            url.append("&v=");
            let e = pct_encode(v.as_str());
            url.append(e.as_str());
        }
        let ghost u5 = u4 + opt_param("&v="@, opt_chars(self.version));
        proof {
            assert(url@ =~= u5);
        }
        if let Some(f) = &self.format {
            url.append("&f=");
            let e = pct_encode(f.as_str());
            url.append(e.as_str());
        }
        proof {
            assert(url@ =~= u5 + opt_param("&f="@, opt_chars(self.format)));
            assert(url@ =~= spec_chart_url(*self));
        }
        Ok(url)
    }

    /// The JSON request body for this configuration; see [`spec_body`].
    /// Never fails: a chart text that is not valid JSON is embedded as one
    /// JSON string. The device pixel ratio stands in a JSON number position,
    /// so it must hold a decimal numeral, as the setter requires.
    #[verifier::rlimit(100)]
    pub fn build_json_body(&self) -> (r: String)
        requires
            self.device_pixel_ratio matches Some(d) ==> is_dec_numeral(d@),
        ensures
            r@ == spec_body(*self),
    {
        let mut body = String::from_str("{\"chart\":");
        let chart_value = chart_value_text(self.chart.as_str());
        body.append(chart_value.as_str());
        let ghost b0 = "{\"chart\":"@ + spec_chart_value(self.chart@);
        proof {
            assert(body@ =~= b0);
        }
        if let Some(w) = self.width {
            body.append(",\"width\":");
            let d = u64_to_dec(w as u64);
            body.append(d.as_str());
        }
        let ghost b1 = b0 + opt_member(",\"width\":"@, opt_dec(self.width));
        proof {
            assert(body@ =~= b1);
        }
        if let Some(h) = self.height {
            body.append(",\"height\":");
            let d = u64_to_dec(h as u64);
            body.append(d.as_str());
        }
        let ghost b2 = b1 + opt_member(",\"height\":"@, opt_dec(self.height));
        proof {
            assert(body@ =~= b2);
        }
        if let Some(dpr) = &self.device_pixel_ratio {
            body.append(",\"devicePixelRatio\":");
            body.append(dpr.as_str());
        }
        let ghost b3 = b2 + opt_member(",\"devicePixelRatio\":"@, opt_chars(self.device_pixel_ratio));
        proof {
            assert(body@ =~= b3);
        }
        if let Some(bkg) = &self.background_color {
            body.append(",\"backgroundColor\":");
            let q = json_quote(bkg.as_str());
            body.append(q.as_str());
        }
        let ghost b4 = b3 + opt_member(",\"backgroundColor\":"@, opt_quoted(self.background_color));
        proof {
            assert(body@ =~= b4);
        }
        if let Some(v) = &self.version {
            body.append(",\"version\":");
            let q = json_quote(v.as_str());
            body.append(q.as_str());
        }
        let ghost b5 = b4 + opt_member(",\"version\":"@, opt_quoted(self.version));
        proof {
            assert(body@ =~= b5);
        }
        if let Some(f) = &self.format {
            body.append(",\"format\":");
            let q = json_quote(f.as_str());
            body.append(q.as_str());
        }
        let ghost b6 = b5 + opt_member(",\"format\":"@, opt_quoted(self.format));
        proof {
            assert(body@ =~= b6);
        }
        body.append("}");
        proof {
            assert(body@ =~= spec_body(*self));
        }
        body
    }
}

impl Default for QuickchartClient {
    /// Same as [`QuickchartClient::new`].
    fn default() -> (r: Self)
        ensures
            r.chart@ == Seq::<char>::empty(),
            r.width is None,
            r.height is None,
            r.device_pixel_ratio is None,
            r.background_color is None,
            r.version is None,
            r.format is None,
    {
        QuickchartClient::new()
    }
}

/// Interprets the short-link endpoint's response body: the body must be JSON
/// with a string member `url`, which is returned with one layer of leading
/// and trailing quote characters stripped (a compatibility shim for a quoting
/// artifact of the service). A body that is not JSON is a parse error; a
/// JSON body without a string `url` member is a missing-field error.
pub fn extract_short_url(response_text: &str) -> (r: Result<String, QCError>)
    ensures
        r is Ok <==> (json_ok(response_text@) && json_str_field(response_text@, "url"@) is Some),
        r matches Ok(u) ==> u@ == spec_strip_quotes(
            json_str_field(response_text@, "url"@).unwrap(),
        ),
        !json_ok(response_text@) ==> (r matches Err(e) && e is JsonParseError),
        json_ok(response_text@) && json_str_field(response_text@, "url"@) is None ==> (
        r matches Err(e) && e matches QCError::MissingField(f) && f@ == "url"@),
{
    match json_string_field(response_text, "url") {
        Err(msg) => Err(QCError::JsonParseError(msg)),
        Ok(None) => Err(QCError::MissingField(String::from_str("url"))),
        Ok(Some(u)) => Ok(strip_quotes(u.as_str())),
    }
}

/// Decides what a response of the rendering endpoint yields: a success
/// status (2xx) hands the payload bytes back untouched; any other status is
/// an HTTP error carrying the status, and no bytes at all.
pub fn render_response(status: u16, body: Vec<u8>) -> (r: Result<Vec<u8>, QCError>)
    ensures
        200 <= status < 300 ==> (r matches Ok(b) && b@ == body@),
        !(200 <= status < 300) ==> (r matches Err(e) && e matches QCError::HttpError(m) && m@
            == "HTTP status "@ + dec_str(status as nat)),
{
    if 200 <= status && status < 300 {
        Ok(body)
    } else {
        let mut m = String::from_str("HTTP status ");
        let d = u64_to_dec(status as u64);
        m.append(d.as_str());
        Err(QCError::HttpError(m))
    }
}

} // verus!
