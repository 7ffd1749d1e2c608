//! Upload options and the upload endpoint URL built from them.

use vstd::prelude::*;
use crate::error::UploadRequestURLBuildError;
use crate::web_url::{url_parse, Url};

verus! {

/// The host of the service in production.
pub const DEFAULT_HOST: &'static str = "uploads.im";

/// The options of an upload.
#[derive(Clone, Debug)]
pub struct UploadOptions {
    /// The domain that hosts the service.
    pub host: String,
    /// A width to which the uploaded image is to be resized.
    pub resize_width: Option<u64>,
    /// A width to which the thumbnail of the uploaded image is to be resized.
    pub thumbnail_width: Option<u32>,
    /// Whether the uploaded image is to be marked as adult content.
    pub family_unsafe: Option<bool>,
}

impl Default for UploadOptions {
    /// The production host, and no optional parameter.
    fn default() -> (r: UploadOptions)
        ensures
            r.host@ == DEFAULT_HOST@,
            r.resize_width is None,
            r.thumbnail_width is None,
            r.family_unsafe is None,
    {
        UploadOptions {
            host: DEFAULT_HOST.to_owned(),
            resize_width: None,
            thumbnail_width: None,
            family_unsafe: None,
        }
    }
}

pub open spec fn digit_char(d: nat) -> char {
    if d == 0 { '0' }
    else if d == 1 { '1' }
    else if d == 2 { '2' }
    else if d == 3 { '3' }
    else if d == 4 { '4' }
    else if d == 5 { '5' }
    else if d == 6 { '6' }
    else if d == 7 { '7' }
    else if d == 8 { '8' }
    else { '9' }
}

/// The decimal text of `n`, without sign or leading zeros.
pub open spec fn decimal(n: nat) -> Seq<char>
    decreases n,
{
    if n < 10 {
        seq![digit_char(n)]
    } else {
        decimal(n / 10) + seq![digit_char(n % 10)]
    }
}

/// The text of a flag: `true` or `false`.
pub open spec fn bool_text(b: bool) -> Seq<char> {
    if b { "true"@ } else { "false"@ }
}

/// The characters that form encoding leaves as they are.
pub open spec fn is_unreserved(c: char) -> bool {
    c == '*' || c == '-' || c == '.' || c == '_' || ('0' <= c && c <= '9') || ('A' <= c && c
        <= 'Z') || ('a' <= c && c <= 'z')
}

pub open spec fn all_unreserved(s: Seq<char>) -> bool {
    forall|i: int| 0 <= i < s.len() ==> is_unreserved(#[trigger] s[i])
}

/// The form encoding of a list of pairs whose characters are all left as
/// they are: a pair without a value is left out, the others are written
/// `key=value` and joined by `&`.
pub open spec fn form_query(pairs: Seq<(Seq<char>, Option<Seq<char>>)>) -> Seq<char>
    decreases pairs.len(),
{
    if pairs.len() == 0 {
        Seq::empty()
    } else {
        let rest = form_query(pairs.drop_last());
        match pairs.last().1 {
            None => rest,
            Some(v) => if rest.len() == 0 {
                pairs.last().0 + seq!['='] + v
            } else {
                rest + seq!['&'] + pairs.last().0 + seq!['='] + v
            },
        }
    }
}

pub open spec fn opt_view(v: Option<String>) -> Option<Seq<char>> {
    match v {
        Some(s) => Some(s@),
        None => None,
    }
}

pub open spec fn pairs_view(pairs: Seq<(String, Option<String>)>) -> Seq<(Seq<char>, Option<Seq<char>>)> {
    pairs.map_values(|p: (String, Option<String>)| (p.0@, opt_view(p.1)))
}

pub open spec fn pair_unreserved(p: (String, Option<String>)) -> bool {
    all_unreserved(p.0@) && (p.1 matches Some(v) ==> all_unreserved(v@))
}

/// Relies on `serde_urlencoded::to_string` on a sequence of pairs of a key
/// and an optional value: a pair whose value is `None` is skipped, each
/// other one is appended as `key=value` after a `&` where the output is not
/// empty, key and value form-encoded, which leaves the unreserved characters
/// as they are. Such a sequence never fails to serialize.
#[verifier::external_body]
fn encode_query(pairs: &Vec<(String, Option<String>)>) -> (r: Result<String, serde_urlencoded::ser::Error>)
    requires
        forall|i: int| 0 <= i < pairs.len() ==> pair_unreserved(#[trigger] pairs[i]),
    ensures
        r is Ok,
        r is Ok ==> r->Ok_0@ == form_query(pairs_view(pairs@)),
{
    serde_urlencoded::to_string(pairs)
}

/// Relies on `u64::to_string`: the decimal text of the number.
#[verifier::external_body]
fn decimal_text(n: u64) -> (r: String)
    ensures
        r@ == decimal(n as nat),
{
    n.to_string()
}

fn flag_string(b: bool) -> (r: String)
    ensures
        r@ == bool_text(b),
{
    if b {
        "true".to_owned()
    } else {
        "false".to_owned()
    }
}

/// The query parameters that the options stand for, in this order; those of
/// the options that are not set have no value.
pub open spec fn option_pairs(o: UploadOptions) -> Seq<(Seq<char>, Option<Seq<char>>)> {
    seq![
        ("resize_width"@, match o.resize_width { Some(w) => Some(decimal(w as nat)), None => None }),
        ("family_unsafe"@, match o.family_unsafe { Some(b) => Some(bool_text(b)), None => None }),
        ("thumb_width"@, match o.thumbnail_width { Some(w) => Some(decimal(w as nat)), None => None }),
    ]
}

/// The query string of the options' parameters.
pub open spec fn upload_query(o: UploadOptions) -> Seq<char> {
    form_query(option_pairs(o))
}

/// The text of the upload endpoint URL: `http://{host}/api?upload`, then
/// `&` and the query string where it is not empty.
pub open spec fn endpoint_text(o: UploadOptions) -> Seq<char> {
    "http://"@ + o.host@ + "/api?upload"@ + if upload_query(o).len() == 0 {
        Seq::empty()
    } else {
        seq!['&'] + upload_query(o)
    }
}

/// The parameter `key=value`, or nothing where there is no value.
pub open spec fn param(key: Seq<char>, value: Option<Seq<char>>) -> Seq<Seq<char>> {
    match value {
        Some(v) => seq![key + seq!['='] + v],
        None => Seq::empty(),
    }
}

/// One `key=value` parameter for each option that is set.
pub open spec fn present_params(o: UploadOptions) -> Seq<Seq<char>> {
    param(option_pairs(o)[0].0, option_pairs(o)[0].1) + param(option_pairs(o)[1].0, option_pairs(o)[1].1)
        + param(option_pairs(o)[2].0, option_pairs(o)[2].1)
}

/// The parameters joined by `&`.
pub open spec fn join_params(ps: Seq<Seq<char>>) -> Seq<char>
    decreases ps.len(),
{
    if ps.len() == 0 {
        Seq::empty()
    } else if ps.len() == 1 {
        ps[0]
    } else {
        join_params(ps.drop_last()) + seq!['&'] + ps.last()
    }
}

/// How many of the optional parameters are set.
pub open spec fn set_option_count(o: UploadOptions) -> nat {
    (if o.resize_width is Some { 1nat } else { 0nat }) + (if o.family_unsafe is Some {
        1nat
    } else {
        0nat
    }) + (if o.thumbnail_width is Some { 1nat } else { 0nat })
}

/// Without optional parameters the endpoint is `http://{host}/api?upload`,
/// with nothing after it.
pub proof fn lemma_endpoint_without_options(o: UploadOptions)
    requires
        o.resize_width is None,
        o.thumbnail_width is None,
        o.family_unsafe is None,
    ensures
        endpoint_text(o) == "http://"@ + o.host@ + "/api?upload"@,
{
    reveal_with_fuel(form_query, 4);
    assert(option_pairs(o).drop_last().drop_last().drop_last() =~= Seq::<(Seq<char>, Option<Seq<char>>)>::empty());
    assert(endpoint_text(o) =~= "http://"@ + o.host@ + "/api?upload"@);
}

/// The query holds one `key=value` parameter for each option that is set,
/// each once, joined by `&`, and none for an option that is not set.
pub proof fn lemma_query_holds_set_options(o: UploadOptions)
    ensures
        upload_query(o) == join_params(present_params(o)),
        present_params(o).len() == set_option_count(o),
        o.resize_width matches Some(w) ==> present_params(o).contains(
            "resize_width="@ + decimal(w as nat),
        ),
        o.family_unsafe matches Some(b) ==> present_params(o).contains(
            "family_unsafe="@ + bool_text(b),
        ),
        o.thumbnail_width matches Some(w) ==> present_params(o).contains(
            "thumb_width="@ + decimal(w as nat),
        ),
{
    let ps = option_pairs(o);
    let one = ps.drop_last().drop_last();
    let two = ps.drop_last();
    assert(one.drop_last() =~= Seq::<(Seq<char>, Option<Seq<char>>)>::empty());
    assert(form_query(one.drop_last()) == Seq::<char>::empty());
    assert(form_query(one) == join_params(param(ps[0].0, ps[0].1)));
    let q0 = param(ps[0].0, ps[0].1);
    let q1 = q0 + param(ps[1].0, ps[1].1);
    assert(form_query(two) == join_params(q1)) by {
        if ps[1].1 is Some {
            assert(q1.drop_last() =~= q0);
        } else {
            assert(q1 =~= q0);
        }
        lemma_nonempty_params(q0);
    }
    let q2 = q1 + param(ps[2].0, ps[2].1);
    assert(form_query(ps) == join_params(q2)) by {
        if ps[2].1 is Some {
            assert(q2.drop_last() =~= q1);
        } else {
            assert(q2 =~= q1);
        }
        lemma_nonempty_params(q1);
    }
    assert(present_params(o) == q2);
    reveal_strlit("resize_width");
    reveal_strlit("resize_width=");
    reveal_strlit("family_unsafe");
    reveal_strlit("family_unsafe=");
    reveal_strlit("thumb_width");
    reveal_strlit("thumb_width=");
    assert("resize_width"@ + seq!['='] =~= "resize_width="@);
    assert("family_unsafe"@ + seq!['='] =~= "family_unsafe="@);
    assert("thumb_width"@ + seq!['='] =~= "thumb_width="@);
    if o.resize_width is Some {
        assert(q2[0] == "resize_width="@ + decimal(o.resize_width.unwrap() as nat));
    }
    if o.family_unsafe is Some {
        assert(q2[q0.len() as int] == "family_unsafe="@ + bool_text(o.family_unsafe.unwrap()));
    }
    if o.thumbnail_width is Some {
        assert(q2[q1.len() as int] == "thumb_width="@ + decimal(o.thumbnail_width.unwrap() as nat));
    }
}

/// A list of parameters joins to an empty text only where it is empty.
proof fn lemma_nonempty_params(ps: Seq<Seq<char>>)
    requires
        forall|i: int| 0 <= i < ps.len() ==> (#[trigger] ps[i]).len() > 0,
    ensures
        (join_params(ps).len() == 0) == (ps.len() == 0),
    decreases ps.len(),
{
    if ps.len() > 1 {
        lemma_nonempty_params(ps.drop_last());
    }
}

proof fn lemma_decimal_unreserved(n: nat)
    ensures
        all_unreserved(decimal(n)),
        decimal(n).len() > 0,
    decreases n,
{
    if n >= 10 {
        lemma_decimal_unreserved(n / 10);
    }
}

fn optional_decimal(v: Option<u64>) -> (r: Option<String>)
    ensures
        opt_view(r) == (match v { Some(w) => Some(decimal(w as nat)), None => None::<Seq<char>> }),
        r matches Some(s) ==> all_unreserved(s@),
{
    match v {
        Some(w) => {
            proof {
                lemma_decimal_unreserved(w as nat);
            }
            Some(decimal_text(w))
        },
        None => None,
    }
}

/// Builds the upload endpoint URL for the options.
pub fn build_upload_url(options: &UploadOptions) -> (r: Result<Url, UploadRequestURLBuildError>)
    ensures
        match r {
            Ok(u) => url_parse(endpoint_text(*options)) == Some(u@),
            Err(UploadRequestURLBuildError::URLValidationFailed(_)) => url_parse(
                endpoint_text(*options),
            ) is None,
            Err(_) => false,
        },
{
    let resize = optional_decimal(options.resize_width);
    let thumb = optional_decimal(
        match options.thumbnail_width {
            Some(w) => Some(w as u64),
            None => None,
        },
    );
    let family = match options.family_unsafe {
        Some(b) => Some(flag_string(b)),
        None => None,
    };
    proof {
        reveal_strlit("resize_width");
        reveal_strlit("family_unsafe");
        reveal_strlit("thumb_width");
        reveal_strlit("true");
        reveal_strlit("false");
    }
    let pairs = vec![
        ("resize_width".to_owned(), resize),
        ("family_unsafe".to_owned(), family),
        ("thumb_width".to_owned(), thumb),
    ];
    assert(pairs_view(pairs@) =~= option_pairs(*options));
    let query = match encode_query(&pairs) {
        Ok(q) => q,
        Err(e) => return Err(UploadRequestURLBuildError::URLParamsBuildingFailed(e)),
    };
    let mut text = "http://".to_owned();
    text.append(options.host.as_str());
    text.append("/api?upload");
    if query.as_str().unicode_len() > 0 {
        text.append("&");
        text.append(query.as_str());
    }
    proof {
        reveal_strlit("&");
    }
    assert(text@ =~= endpoint_text(*options));
    match Url::parse(text.as_str()) {
        Ok(u) => Ok(u),
        Err(e) => Err(UploadRequestURLBuildError::URLValidationFailed(e)),
    }
}

} // verus!
