//! What each endpoint sends, and how an answer of the API is read.
//!
//! Every endpoint is a `GET` on `<base_url><path>` with a list of query
//! parameters, followed by the API key as the last parameter, and with the
//! `Accept` and `User-Agent` headers set. The caller sends the request that
//! these functions describe and hands the answer to [`classify_response`].

use vstd::prelude::*;

use crate::client::{user_agent, user_agent_spec, UniRateClient, ACCEPT_JSON};
use crate::error::UniRateError;
use crate::text::{ascii_upper, join_with, lemma_ascii_upper_letters, lemma_join_with_split, push_char, upper_char};

verus! {

broadcast use vstd::string::group_string_axioms;

/// Path of the current-rate endpoint.
pub const RATES_PATH: &'static str = "/api/rates";

/// Path of the conversion endpoint.
pub const CONVERT_PATH: &'static str = "/api/convert";

/// Path of the supported-currencies endpoint.
pub const CURRENCIES_PATH: &'static str = "/api/currencies";

/// Path of the historical-rate and historical-conversion endpoint.
pub const HISTORICAL_RATES_PATH: &'static str = "/api/historical/rates";

/// Path of the time-series endpoint.
pub const TIME_SERIES_PATH: &'static str = "/api/historical/timeseries";

/// Path of the historical-coverage endpoint.
pub const HISTORICAL_LIMITS_PATH: &'static str = "/api/historical/limits";

/// Path of the VAT endpoint.
pub const VAT_RATES_PATH: &'static str = "/api/vat/rates";

/// A `GET` request to the API, as the caller is to send it.
#[derive(Debug, Clone)]
pub struct ApiRequest {
    /// Full URL: the client's base URL followed by the endpoint path.
    pub url: String,
    /// Query parameters, in order; the API key is always the last one.
    pub query: Vec<(String, String)>,
    /// Header names (lower case) and values.
    pub headers: Vec<(String, String)>,
}

/// A list of string pairs, as pairs of character sequences.
pub open spec fn pairs_view(v: Seq<(String, String)>) -> Seq<(Seq<char>, Seq<char>)> {
    v.map_values(|p: (String, String)| (p.0@, p.1@))
}

/// The headers of every request: `Accept: application/json` and
/// `User-Agent: unirate-rust/<version>`.
pub open spec fn request_headers() -> Seq<(Seq<char>, Seq<char>)> {
    seq![("accept"@, ACCEPT_JSON@), ("user-agent"@, user_agent_spec())]
}

/// `req` is the request of `client` to `path` with the parameters `params`:
/// the URL joins the base URL and the path, the API key follows the
/// parameters, and the standard headers are set.
pub open spec fn is_request(
    req: ApiRequest,
    client: UniRateClient,
    path: Seq<char>,
    params: Seq<(Seq<char>, Seq<char>)>,
) -> bool {
    &&& req.url@ == client.spec_base_url() + path
    &&& pairs_view(req.query@) == params.push(("api_key"@, client.spec_api_key()))
    &&& pairs_view(req.headers@) == request_headers()
}

/// Every request carries exactly the endpoint's own parameters, in order,
/// followed by the API key as the last query parameter.
pub proof fn lemma_api_key_last(
    req: ApiRequest,
    client: UniRateClient,
    path: Seq<char>,
    params: Seq<(Seq<char>, Seq<char>)>,
)
    requires
        is_request(req, client, path, params),
    ensures
        pairs_view(req.query@).len() == params.len() + 1,
        pairs_view(req.query@).last() == ("api_key"@, client.spec_api_key()),
        pairs_view(req.query@).take(params.len() as int) == params,
{
    assert(params.push(("api_key"@, client.spec_api_key())).take(params.len() as int) =~= params);
}

/// Returns `s` with every ASCII lower-case letter upper-cased; currency and
/// country codes are sent this way.
pub fn upper(s: &str) -> (r: String)
    ensures
        r@ == ascii_upper(s@),
        r@.len() == s@.len(),
        forall|i: int| 0 <= i < r@.len() ==> !('a' <= #[trigger] r@[i] <= 'z'),
{
    proof {
        lemma_ascii_upper_letters(s@);
    }
    let mut out = String::new();
    for c in it: s.chars()
        invariant
            it.seq() == s@,
            out@ == ascii_upper(s@.take(it.index())),
    {
        let u = upper_char(c);
        proof {
            assert(s@.take(it.index() + 1) =~= s@.take(it.index()).push(c));
        }
        push_char(&mut out, u);
        proof {
            assert(ascii_upper(s@.take(it.index() + 1)) =~= out@);
        }
    }
    assert(s@.take(s@.len() as int) =~= s@);
    out
}

/// An empty parameter list.
fn no_params() -> (v: Vec<(String, String)>)
    ensures
        pairs_view(v@) == Seq::<(Seq<char>, Seq<char>)>::empty(),
{
    let v: Vec<(String, String)> = Vec::new();
    assert(pairs_view(v@) =~= Seq::empty());
    v
}

/// Appends the pair `(key, value)` to a parameter list.
fn push_param(params: &mut Vec<(String, String)>, key: &str, value: String)
    ensures
        pairs_view(final(params)@) == pairs_view(old(params)@).push((key@, value@)),
{
    params.push((String::from_str(key), value));
    assert(pairs_view(params@) =~= pairs_view(old(params)@).push((key@, value@)));
}

/// The codes of `list`, upper-cased and joined with `,` between neighbours.
pub open spec fn joined_codes(list: Seq<Seq<char>>) -> Seq<char> {
    join_with(list.map_values(|s: Seq<char>| ascii_upper(s)), ',')
}

/// Upper-cases each code of `list` and joins them with `,`.
pub fn join_codes(list: &[&str]) -> (r: String)
    ensures
        r@ == joined_codes(list@.map_values(|s: &str| s@)),
{
    let ghost codes = list@.map_values(|s: &str| s@);
    let mut out = String::new();
    let mut i: usize = 0;
    while i < list.len()
        invariant
            i <= list@.len(),
            codes == list@.map_values(|s: &str| s@),
            out@ == joined_codes(codes.take(i as int)),
        decreases list@.len() - i,
    {
        let code = upper(list[i]);
        proof {
            assert(codes.take(i + 1).drop_last() =~= codes.take(i as int));
            assert(codes.take(i + 1).map_values(|s: Seq<char>| ascii_upper(s)).drop_last()
                =~= codes.take(i as int).map_values(|s: Seq<char>| ascii_upper(s)));
        }
        if i > 0 {
            push_char(&mut out, ',');
        }
        out.append(code.as_str());
        i = i + 1;
    }
    assert(codes.take(list@.len() as int) =~= codes);
    out
}

impl UniRateClient {
    /// The request to `path` with the parameters `params`, the API key
    /// appended last.
    fn prepare(&self, path: &str, params: Vec<(String, String)>) -> (r: ApiRequest)
        ensures
            is_request(r, *self, path@, pairs_view(params@)),
    {
        let mut url = String::from_str(self.base_url());
        url.append(path);
        let mut query = params;
        push_param(&mut query, "api_key", String::from_str(self.api_key()));
        let mut headers = no_params();
        push_param(&mut headers, "accept", String::from_str(ACCEPT_JSON));
        push_param(&mut headers, "user-agent", user_agent());
        assert(pairs_view(headers@) =~= request_headers());
        ApiRequest { url, query, headers }
    }

    /// `GET /api/rates?from=<FROM>&to=<TO>`: the current rate between two
    /// currencies.
    pub fn rate_request(&self, from: &str, to: &str) -> (r: ApiRequest)
        ensures
            is_request(r, *self, RATES_PATH@, seq![("from"@, ascii_upper(from@)), ("to"@, ascii_upper(to@))]),
    {
        let mut params = no_params();
        push_param(&mut params, "from", upper(from));
        push_param(&mut params, "to", upper(to));
        assert(pairs_view(params@) =~= seq![("from"@, ascii_upper(from@)), ("to"@, ascii_upper(to@))]);
        self.prepare(RATES_PATH, params)
    }

    /// `GET /api/rates?from=<FROM>`: all current rates of a base currency.
    pub fn all_rates_request(&self, from: &str) -> (r: ApiRequest)
        ensures
            is_request(r, *self, RATES_PATH@, seq![("from"@, ascii_upper(from@))]),
    {
        let mut params = no_params();
        push_param(&mut params, "from", upper(from));
        assert(pairs_view(params@) =~= seq![("from"@, ascii_upper(from@))]);
        self.prepare(RATES_PATH, params)
    }

    /// `GET /api/convert?from=<FROM>&to=<TO>&amount=<amount>`: converts an
    /// amount at the current rate. `amount` is the decimal text of the amount.
    pub fn convert_request(&self, amount: &str, from: &str, to: &str) -> (r: ApiRequest)
        ensures
            is_request(
                r,
                *self,
                CONVERT_PATH@,
                seq![("from"@, ascii_upper(from@)), ("to"@, ascii_upper(to@)), ("amount"@, amount@)],
            ),
    {
        let mut params = no_params();
        push_param(&mut params, "from", upper(from));
        push_param(&mut params, "to", upper(to));
        push_param(&mut params, "amount", String::from_str(amount));
        assert(pairs_view(params@) =~= seq![("from"@, ascii_upper(from@)), ("to"@, ascii_upper(to@)), ("amount"@, amount@)]);
        self.prepare(CONVERT_PATH, params)
    }

    /// `GET /api/currencies`: the supported currency codes.
    pub fn supported_currencies_request(&self) -> (r: ApiRequest)
        ensures
            is_request(r, *self, CURRENCIES_PATH@, Seq::empty()),
    {
        let params = no_params();
        self.prepare(CURRENCIES_PATH, params)
    }

    /// `GET /api/historical/rates?date=<date>&amount=1&from=<FROM>&to=<TO>`:
    /// the rate between two currencies on a date (`YYYY-MM-DD`).
    pub fn historical_rate_request(&self, date: &str, from: &str, to: &str) -> (r: ApiRequest)
        ensures
            is_request(
                r,
                *self,
                HISTORICAL_RATES_PATH@,
                seq![("date"@, date@), ("amount"@, "1"@), ("from"@, ascii_upper(from@)), ("to"@, ascii_upper(to@))],
            ),
    {
        let mut params = no_params();
        push_param(&mut params, "date", String::from_str(date));
        push_param(&mut params, "amount", String::from_str("1"));
        push_param(&mut params, "from", upper(from));
        push_param(&mut params, "to", upper(to));
        assert(pairs_view(params@) =~= seq![("date"@, date@), ("amount"@, "1"@), ("from"@, ascii_upper(from@)), ("to"@, ascii_upper(to@))]);
        self.prepare(HISTORICAL_RATES_PATH, params)
    }

    /// `GET /api/historical/rates?date=<date>&amount=1&from=<FROM>`: all
    /// rates of a base currency on a date.
    pub fn historical_rates_request(&self, date: &str, from: &str) -> (r: ApiRequest)
        ensures
            is_request(
                r,
                *self,
                HISTORICAL_RATES_PATH@,
                seq![("date"@, date@), ("amount"@, "1"@), ("from"@, ascii_upper(from@))],
            ),
    {
        let mut params = no_params();
        push_param(&mut params, "date", String::from_str(date));
        push_param(&mut params, "amount", String::from_str("1"));
        push_param(&mut params, "from", upper(from));
        assert(pairs_view(params@) =~= seq![("date"@, date@), ("amount"@, "1"@), ("from"@, ascii_upper(from@))]);
        self.prepare(HISTORICAL_RATES_PATH, params)
    }

    /// `GET /api/historical/rates?date=<date>&amount=<amount>&from=<FROM>&to=<TO>`:
    /// converts an amount at the rate of a date. `amount` is the decimal text
    /// of the amount.
    pub fn convert_historical_request(&self, amount: &str, from: &str, to: &str, date: &str) -> (r: ApiRequest)
        ensures
            is_request(
                r,
                *self,
                HISTORICAL_RATES_PATH@,
                seq![("date"@, date@), ("amount"@, amount@), ("from"@, ascii_upper(from@)), ("to"@, ascii_upper(to@))],
            ),
    {
        let mut params = no_params();
        push_param(&mut params, "date", String::from_str(date));
        push_param(&mut params, "amount", String::from_str(amount));
        push_param(&mut params, "from", upper(from));
        push_param(&mut params, "to", upper(to));
        assert(pairs_view(params@) =~= seq![("date"@, date@), ("amount"@, amount@), ("from"@, ascii_upper(from@)), ("to"@, ascii_upper(to@))]);
        self.prepare(HISTORICAL_RATES_PATH, params)
    }

    /// `GET /api/historical/timeseries`: the rates of `base` on each day from
    /// `start_date` to `end_date`. The `currencies` parameter, the given
    /// codes upper-cased and joined with `,`, is sent only for a non-empty
    /// list. `amount` is the decimal text of the amount.
    pub fn time_series_request(
        &self,
        start_date: &str,
        end_date: &str,
        base: &str,
        currencies: Option<&[&str]>,
        amount: &str,
    ) -> (r: ApiRequest)
        ensures
            is_request(
                r,
                *self,
                TIME_SERIES_PATH@,
                time_series_params(
                    start_date@,
                    end_date@,
                    base@,
                    match currencies {
                        Some(list) => Some(list@.map_values(|s: &str| s@)),
                        None => None,
                    },
                    amount@,
                ),
            ),
    {
        let mut params = no_params();
        push_param(&mut params, "start_date", String::from_str(start_date));
        push_param(&mut params, "end_date", String::from_str(end_date));
        push_param(&mut params, "amount", String::from_str(amount));
        push_param(&mut params, "base", upper(base));
        let ghost fixed = pairs_view(params@);
        assert(fixed =~= seq![
            ("start_date"@, start_date@),
            ("end_date"@, end_date@),
            ("amount"@, amount@),
            ("base"@, ascii_upper(base@)),
        ]);
        match currencies {
            Some(list) => {
                if list.len() > 0 {
                    push_param(&mut params, "currencies", join_codes(list));
                }
            },
            None => {},
        }
        self.prepare(TIME_SERIES_PATH, params)
    }

    /// `GET /api/historical/limits`: the historical coverage per currency.
    pub fn historical_limits_request(&self) -> (r: ApiRequest)
        ensures
            is_request(r, *self, HISTORICAL_LIMITS_PATH@, Seq::empty()),
    {
        let params = no_params();
        self.prepare(HISTORICAL_LIMITS_PATH, params)
    }

    /// `GET /api/vat/rates`: the VAT rates of all countries.
    pub fn vat_rates_request(&self) -> (r: ApiRequest)
        ensures
            is_request(r, *self, VAT_RATES_PATH@, Seq::empty()),
    {
        let params = no_params();
        self.prepare(VAT_RATES_PATH, params)
    }

    /// `GET /api/vat/rates?country=<CC>`: the VAT rate of one country
    /// (ISO-3166 alpha-2 code).
    pub fn vat_rate_request(&self, country: &str) -> (r: ApiRequest)
        ensures
            is_request(r, *self, VAT_RATES_PATH@, seq![("country"@, ascii_upper(country@))]),
    {
        let mut params = no_params();
        push_param(&mut params, "country", upper(country));
        assert(pairs_view(params@) =~= seq![("country"@, ascii_upper(country@))]);
        self.prepare(VAT_RATES_PATH, params)
    }
}

/// Query parameters of a time-series request.
pub open spec fn time_series_params(
    start_date: Seq<char>,
    end_date: Seq<char>,
    base: Seq<char>,
    currencies: Option<Seq<Seq<char>>>,
    amount: Seq<char>,
) -> Seq<(Seq<char>, Seq<char>)> {
    let fixed = seq![
        ("start_date"@, start_date),
        ("end_date"@, end_date),
        ("amount"@, amount),
        ("base"@, ascii_upper(base)),
    ];
    match currencies {
        Some(list) => if list.len() > 0 {
            fixed.push(("currencies"@, joined_codes(list)))
        } else {
            fixed
        },
        None => fixed,
    }
}

/// A time series carries its four fixed parameters, then the `currencies`
/// filter exactly when a non-empty list is given, and that filter holds
/// every code, upper-cased, with one `,` between each two neighbours.
pub proof fn lemma_time_series_currencies(
    start_date: Seq<char>,
    end_date: Seq<char>,
    base: Seq<char>,
    currencies: Option<Seq<Seq<char>>>,
    amount: Seq<char>,
)
    ensures
        ({
            let p = time_series_params(start_date, end_date, base, currencies, amount);
            &&& p.len() >= 4
            &&& p[0] == ("start_date"@, start_date)
            &&& p[1] == ("end_date"@, end_date)
            &&& p[2] == ("amount"@, amount)
            &&& p[3] == ("base"@, ascii_upper(base))
            &&& (p.len() == 5 <==> (currencies matches Some(l) && l.len() > 0))
            &&& p.len() <= 5
            &&& (currencies matches Some(l) ==> (l.len() > 0 ==> p[4] == ("currencies"@, joined_codes(l))))
            &&& (currencies matches Some(l) ==> (l.len() >= 2 ==> joined_codes(l) == joined_codes(
                l.drop_last(),
            ).push(',') + ascii_upper(l.last())))
        }),
{
    if let Some(l) = currencies {
        if l.len() >= 2 {
            let ups = l.map_values(|s: Seq<char>| ascii_upper(s));
            lemma_join_with_split(ups, ',', l.len() - 1);
            assert(ups.take(l.len() - 1) =~= l.drop_last().map_values(|s: Seq<char>| ascii_upper(s)));
            assert(ups.skip(l.len() - 1) =~= seq![ascii_upper(l.last())]);
        }
    }
}

/// Whether an HTTP status code reports success (`2xx`).
pub open spec fn is_success(status: u16) -> bool {
    200 <= status <= 299
}

/// `e` is the error that an unsuccessful answer with `status` and `body` is
/// reported as: 400, 401, 404 and 429 have errors of their own, any other
/// status is an `Api` error with the status and the body as received.
pub open spec fn is_failure_for(status: u16, body: Seq<char>, e: UniRateError) -> bool {
    if status == 400 {
        e is InvalidDate
    } else if status == 401 {
        e is Authentication
    } else if status == 404 {
        e is InvalidCurrency
    } else if status == 429 {
        e is RateLimit
    } else {
        e matches UniRateError::Api { status: s, body: b } && s == status && b@ == body
    }
}

/// Each error names its status: `InvalidDate` is 400 and only 400,
/// `Authentication` 401, `InvalidCurrency` 404, `RateLimit` 429; no
/// transport or decoding error comes from a status; and every other status
/// is an `Api` error carrying that status and the body as received.
pub proof fn lemma_failure_kinds(status: u16, body: Seq<char>)
    ensures
        forall|e: UniRateError| #[trigger] is_failure_for(status, body, e) ==> {
            &&& (e is InvalidDate <==> status == 400)
            &&& (e is Authentication <==> status == 401)
            &&& (e is InvalidCurrency <==> status == 404)
            &&& (e is RateLimit <==> status == 429)
            &&& !(e is Http) && !(e is Json)
            &&& (status != 400 && status != 401 && status != 404 && status != 429 ==> (e matches UniRateError::Api {
                status: s,
                body: b,
            } && s == status && b@ == body))
        },
{
}

/// Reads the answer of the API: a successful answer (`2xx`) gives its body
/// back for decoding; every other answer is mapped to its error.
pub fn classify_response(status: u16, body: String) -> (r: Result<String, UniRateError>)
    ensures
        match r {
            Ok(b) => is_success(status) && b@ == body@,
            Err(e) => !is_success(status) && is_failure_for(status, body@, e),
        },
        r is Ok <==> 200 <= status <= 299,
        r matches Err(UniRateError::InvalidDate) <==> status == 400,
        r matches Err(UniRateError::Authentication) <==> status == 401,
        r matches Err(UniRateError::InvalidCurrency) <==> status == 404,
        r matches Err(UniRateError::RateLimit) <==> status == 429,
        r matches Err(UniRateError::Api { status: s, body: b }) ==> s == status && b@ == body@,
{
    proof {
        lemma_failure_kinds(status, body@);
    }
    if 200 <= status && status <= 299 {
        return Ok(body);
    }
    if status == 400 {
        Err(UniRateError::InvalidDate)
    } else if status == 401 {
        Err(UniRateError::Authentication)
    } else if status == 404 {
        Err(UniRateError::InvalidCurrency)
    } else if status == 429 {
        Err(UniRateError::RateLimit)
    } else {
        Err(UniRateError::Api { status, body })
    }
}

} // verus!
