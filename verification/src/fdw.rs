//! The scan controller: one fetch-then-drain cycle per query scan. The
//! caller performs the one authenticated GET (with its bounded retries) and
//! hands the outcome in; the controller decides what it means, fills the
//! row buffer on success, drains it one row at a time, and releases it at
//! scan end. The controller is reusable across scans; a failed scan leaves
//! no buffer behind.

use vstd::prelude::*;

use crate::decode::{resp_to_rows, rows_model, spec_resp_to_rows};
use crate::error::{ErrView, FdwError};
use crate::options::{opt_lookup, OptionMap};
use crate::row::{Row, RowView};

verus! {

/// The secret bearer token authorizing outbound requests. It carries no
/// debug or serialized form; the unmasked value is read only by the one
/// call site that builds the authorization header.
pub struct Credential {
    key: String,
}

impl View for Credential {
    type V = Seq<char>;

    closed spec fn view(&self) -> Seq<char> {
        self.key@
    }
}

impl Credential {
    /// The secret itself, for the single call site that builds the
    /// authorization header.
    pub fn unmask(&self) -> (r: &String)
        ensures
            r@ == self@,
    {
        &self.key
    }
}

/// What the one GET of a scan came to, after the transport's bounded
/// retries: a final status with its body text, or a network-level failure
/// with its cause.
#[derive(Debug, Clone)]
pub enum FetchOutcome {
    Response(u16, String),
    Network(String),
}

/// Mathematical image of a [`FetchOutcome`].
pub enum OutcomeView {
    Response(u16, Seq<char>),
    Network(Seq<char>),
}

impl View for FetchOutcome {
    type V = OutcomeView;

    open spec fn view(&self) -> OutcomeView {
        match self {
            FetchOutcome::Response(status, body) => OutcomeView::Response(*status, body@),
            FetchOutcome::Network(cause) => OutcomeView::Network(cause@),
        }
    }
}

/// The scan's target URL for `path`: the fixed base endpoint joined with
/// the object-type path segment.
pub open spec fn scan_url_view(path: Seq<char>) -> Seq<char> {
    "https://api.stripe.com/v1/"@ + path
}

/// What starting a scan comes to, given the object-type selector (if any
/// was supplied) and the fetch outcome: the decoded rows, or the exact
/// fatal error. A missing selector fails before anything else; a network
/// failure or a non-2xx status fails whatever the body held; a 2xx body is
/// decoded for the selected object.
pub open spec fn spec_begin_scan(obj_opt: Option<Seq<char>>, outcome: OutcomeView) -> Result<
    Seq<RowView>,
    ErrView,
> {
    match obj_opt {
        None => Err(ErrView::MissingSelector),
        Some(obj) => match outcome {
            OutcomeView::Network(cause) => Err(ErrView::TransportFailure(cause)),
            OutcomeView::Response(status, body) => {
                if 200 <= status < 300 {
                    spec_resp_to_rows(obj, body)
                } else {
                    Err(ErrView::HttpStatusFailure(status))
                }
            },
        },
    }
}

/// The adapter: a credential fixed at construction, and at most one row
/// buffer, owned by the scan in progress.
pub struct StripeFdw {
    credential: Credential,
    scan_result: Option<Vec<Row>>,
}

impl StripeFdw {
    /// The credential the adapter was built with.
    pub closed spec fn cred_view(&self) -> Seq<char> {
        self.credential@
    }

    /// The rows still waiting to be handed out, when a buffer exists.
    pub closed spec fn buffer_view(&self) -> Option<Seq<RowView>> {
        match self.scan_result {
            Some(rows) => Some(rows_model(rows@)),
            None => None,
        }
    }

    /// Builds the adapter from the construction options. The `api_key`
    /// option must be present and non-empty; otherwise construction fails
    /// with the credential error before anything else happens. A fresh
    /// adapter holds no row buffer.
    pub fn new(options: &OptionMap) -> (r: Result<StripeFdw, FdwError>)
        ensures
            match r {
                Ok(fdw) => opt_lookup(options@, "api_key"@) matches Some(k) && k.len() > 0
                    && fdw.cred_view() == k && fdw.buffer_view() is None,
                Err(e) => e@ == ErrView::MissingCredential && (opt_lookup(options@, "api_key"@)
                    matches Some(k) ==> k.len() == 0),
            },
    {
        match options.get("api_key") {
            Some(k) => {
                if k.as_str().is_empty() {
                    Err(FdwError::MissingCredential)
                } else {
                    Ok(StripeFdw { credential: Credential { key: k.clone() }, scan_result: None })
                }
            },
            None => Err(FdwError::MissingCredential),
        }
    }

    /// The credential the adapter was built with, for the caller that
    /// builds the transport.
    pub fn credential(&self) -> (r: &Credential)
        ensures
            r@ == self.cred_view(),
    {
        &self.credential
    }

    /// The URL a scan of `path` fetches: the fixed base endpoint joined
    /// with the object-type path segment.
    pub fn build_url(&self, path: &str) -> (r: String)
        ensures
            r@ == scan_url_view(path@),
    {
        let mut url = String::from_str("https://api.stripe.com/v1/");
        url.append(path);
        url
    }

    /// Starts a scan: reads the object-type selector from the scan options
    /// (fatal when absent), judges the fetch outcome, and on a 2xx response
    /// decodes the body into this scan's fresh row buffer. On any failure
    /// the adapter holds no buffer, so no row of a failed scan is ever
    /// surfaced. The resulting state depends on the options and the outcome
    /// alone, never on an earlier scan.
    pub fn begin_scan(&mut self, options: &OptionMap, outcome: FetchOutcome) -> (r: Result<
        (),
        FdwError,
    >)
        ensures
            final(self).cred_view() == old(self).cred_view(),
            match r {
                Ok(()) => spec_begin_scan(opt_lookup(options@, "object"@), outcome@) matches Ok(
                    rows,
                ) && final(self).buffer_view() == Some(rows),
                Err(e) => spec_begin_scan(opt_lookup(options@, "object"@), outcome@) == Err::<
                    Seq<RowView>,
                    ErrView,
                >(e@) && final(self).buffer_view() is None,
            },
    {
        self.scan_result = None;
        let obj = match options.get("object") {
            Some(o) => o.clone(),
            None => { return Err(FdwError::MissingSelector) },
        };
        match outcome {
            FetchOutcome::Network(cause) => Err(FdwError::TransportFailure(cause)),
            FetchOutcome::Response(status, body) => {
                if 200 <= status && status < 300 {
                    match resp_to_rows(obj.as_str(), body.as_str()) {
                        Ok(rows) => {
                            self.scan_result = Some(rows);
                            Ok(())
                        },
                        Err(e) => Err(e),
                    }
                } else {
                    Err(FdwError::HttpStatusFailure(status))
                }
            },
        }
    }

    /// Hands out the next row. When the buffer is absent or empty this is
    /// the end-of-data signal: no row comes back and the state does not
    /// change observably. Otherwise exactly the front row is removed and
    /// returned, so draining never reorders or duplicates rows.
    pub fn iter_scan(&mut self) -> (r: Option<Row>)
        ensures
            final(self).cred_view() == old(self).cred_view(),
            match old(self).buffer_view() {
                None => r is None && final(self).buffer_view() is None,
                Some(b) => {
                    if b.len() == 0 {
                        r is None && final(self).buffer_view() == Some(b)
                    } else {
                        (r matches Some(row) && row@ == b[0]) && final(self).buffer_view() == Some(
                            b.drop_first(),
                        )
                    }
                },
            },
    {
        let nonempty = match &self.scan_result {
            Some(rows) => rows.len() > 0,
            None => false,
        };
        if nonempty {
            let mut rows = self.scan_result.take().unwrap();
            let row = rows.remove(0);
            proof {
                assert(rows_model(rows@) =~= rows_model(old(self).scan_result.unwrap()@)
                    .drop_first());
            }
            self.scan_result = Some(rows);
            Some(row)
        } else {
            None
        }
    }

    /// Ends the scan: discards any remaining buffer and returns the
    /// adapter to its idle state, ready for the next scan. Safe whether or
    /// not a buffer was ever created or already exhausted.
    pub fn end_scan(&mut self)
        ensures
            final(self).cred_view() == old(self).cred_view(),
            final(self).buffer_view() is None,
    {
        self.scan_result = None;
    }
}

} // verus!
