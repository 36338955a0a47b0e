# unirate-api

Client for the UniRate API (currency exchange rates and VAT rates), written
in Verus.

- `src/` is the verified library: the client handle and its builder
  (`client.rs`), what each endpoint sends and how an answer's status is read
  (`endpoints.rs`), the error type and its messages (`error.rs`), the models
  of the historical-coverage endpoint (`models.rs`), and the string helpers
  that these rest on (`text.rs`). `http.rs` declares the HTTP client type of
  `reqwest` that the library carries.
- `app/` sends the requests with `reqwest`, decodes the JSON bodies with
  `serde`, and holds the models that carry `f64` rates; its `UniRateApi`
  trait gives the async endpoint methods on the client.
- `tests/` runs the library on concrete inputs.
