//! Fault aggregation: the cause chain, the committed user-facing response, and the
//! finalization of both into an outcome.
//!
//! A failure enters through [`convert_special_errors`], which recognizes a few low-level
//! failures. While the failure unwinds, each layer may add context with
//! [`ErrorBuilder::chain_internal_err_cause`] and propose a response with
//! [`ErrorBuilder::chain_user_facing_fallback`]; the first response proposed wins. The
//! request boundary calls [`ErrorBuilder::build`].
use vstd::prelude::*;
use vstd::string::*;

pub mod json;

use crate::response::{
    error_body, json_error_view, Response, ResponseView, STATUS_BAD_REQUEST, STATUS_INTERNAL_SERVER_ERROR,
    STATUS_OK,
};
use json::{
    BadRequest, CargoLegacy, Forbidden, InsecurelyGeneratedTokenRevoked, NotFound, ReadOnlyMode,
    ServerError, TooManyRequests, too_many_requests_detail, http_date_of, RETRY_AFTER,
    TOO_MANY_REQUESTS_PREFIX,
};

verus! {

/// The message suffix by which the database reports a write inside a read-only transaction.
pub const READ_ONLY_SUFFIX: &'static str = "read-only transaction";

/// The separator between two entries of a rendered cause chain.
pub const CAUSED_BY: &'static str = " caused by ";

/// A failure of the storage layer.
pub enum StorageError {
    /// The query matched no record. It renders as `NotFound`.
    NotFound,
    /// The database refused the statement; it renders as the driver's message.
    Database { message: String },
    /// Any other storage failure, with its rendered text.
    Other { text: String },
}

/// A failure as it enters the engine, before classification.
pub enum Failure {
    Storage(StorageError),
    NotFound,
    Forbidden,
    ReadOnlyMode,
    TooManyRequests(TooManyRequests),
    InsecurelyGeneratedTokenRevoked,
    /// GitHub's API answered "not found".
    GhNotFound,
    /// Any failure the engine does not look into, with its rendered text.
    Other { text: String },
}

/// The kinds of failure that [`ErrorBuilder::root_cause_is`] can test for.
#[derive(PartialEq, Eq, Clone, Copy, Debug, Structural)]
pub enum FailureKind {
    Storage,
    NotFound,
    Forbidden,
    ReadOnlyMode,
    TooManyRequests,
    InsecurelyGeneratedTokenRevoked,
    GhNotFound,
    Other,
}

pub open spec fn ends_with(s: Seq<char>, suffix: Seq<char>) -> bool {
    s.len() >= suffix.len() && s.subrange(s.len() - suffix.len(), s.len() as int) == suffix
}

/// Whether `s` ends with `suffix`.
pub fn str_ends_with(s: &str, suffix: &str) -> (r: bool)
    ensures
        r == ends_with(s@, suffix@),
{
    let n = s.unicode_len();
    let m = suffix.unicode_len();
    if m > n {
        return false;
    }
    let off = n - m;
    let mut i: usize = 0;
    while i < m
        invariant
            n == s@.len(),
            m == suffix@.len(),
            off == n - m,
            i <= m,
            forall|k: int| 0 <= k < i ==> s@[off + k] == suffix@[k],
        decreases m - i,
    {
        if s.get_char(off + i) != suffix.get_char(i) {
            assert(s@.subrange(off as int, n as int)[i as int] != suffix@[i as int]);
            return false;
        }
        i = i + 1;
    }
    assert(s@.subrange(off as int, n as int) =~= suffix@);
    true
}

impl StorageError {
    /// The storage layer's message reports a write in a read-only transaction.
    pub open spec fn is_read_only(&self) -> bool {
        self matches StorageError::Database { message } && ends_with(message@, READ_ONLY_SUFFIX@)
    }

    pub open spec fn text(&self) -> Seq<char> {
        match self {
            StorageError::NotFound => "NotFound"@,
            StorageError::Database { message } => message@,
            StorageError::Other { text } => text@,
        }
    }

    pub fn to_text(&self) -> (r: String)
        ensures
            r@ == self.text(),
    {
        match self {
            StorageError::NotFound => String::from_str("NotFound"),
            StorageError::Database { message } => message.clone(),
            StorageError::Other { text } => text.clone(),
        }
    }
}

impl Failure {
    pub open spec fn kind(&self) -> FailureKind {
        match self {
            Failure::Storage(_) => FailureKind::Storage,
            Failure::NotFound => FailureKind::NotFound,
            Failure::Forbidden => FailureKind::Forbidden,
            Failure::ReadOnlyMode => FailureKind::ReadOnlyMode,
            Failure::TooManyRequests(_) => FailureKind::TooManyRequests,
            Failure::InsecurelyGeneratedTokenRevoked => FailureKind::InsecurelyGeneratedTokenRevoked,
            Failure::GhNotFound => FailureKind::GhNotFound,
            Failure::Other { .. } => FailureKind::Other,
        }
    }

    /// The storage layer found no record.
    pub open spec fn is_record_absent(&self) -> bool {
        self matches Failure::Storage(StorageError::NotFound)
    }

    /// The text by which the failure appears in a cause chain.
    pub open spec fn text(&self) -> Seq<char> {
        match self {
            Failure::Storage(e) => e.text(),
            Failure::NotFound => "NotFound"@,
            Failure::Forbidden => "Forbidden"@,
            Failure::ReadOnlyMode => "Tried to write in read only mode"@,
            Failure::TooManyRequests(_) => "TooManyRequests"@,
            Failure::InsecurelyGeneratedTokenRevoked => "insecurely generated, revoked 2020-07"@,
            Failure::GhNotFound => "not found returned by GitHub API"@,
            Failure::Other { text } => text@,
        }
    }

    pub fn kind_of(&self) -> (r: FailureKind)
        ensures
            r == self.kind(),
    {
        match self {
            Failure::Storage(_) => FailureKind::Storage,
            Failure::NotFound => FailureKind::NotFound,
            Failure::Forbidden => FailureKind::Forbidden,
            Failure::ReadOnlyMode => FailureKind::ReadOnlyMode,
            Failure::TooManyRequests(_) => FailureKind::TooManyRequests,
            Failure::InsecurelyGeneratedTokenRevoked => FailureKind::InsecurelyGeneratedTokenRevoked,
            Failure::GhNotFound => FailureKind::GhNotFound,
            Failure::Other { .. } => FailureKind::Other,
        }
    }

    pub fn to_text(&self) -> (r: String)
        ensures
            r@ == self.text(),
    {
        match self {
            Failure::Storage(e) => e.to_text(),
            Failure::NotFound => String::from_str("NotFound"),
            Failure::Forbidden => String::from_str("Forbidden"),
            Failure::ReadOnlyMode => String::from_str("Tried to write in read only mode"),
            Failure::TooManyRequests(_) => String::from_str("TooManyRequests"),
            Failure::InsecurelyGeneratedTokenRevoked => String::from_str(
                "insecurely generated, revoked 2020-07",
            ),
            Failure::GhNotFound => String::from_str("not found returned by GitHub API"),
            Failure::Other { text } => text.clone(),
        }
    }
}

/// One entry of a cause chain.
pub enum ChainElement {
    /// Context that a layer recorded about what it was doing.
    Internal(String),
    /// A wrapped failure, most useful as the root cause (the first entry).
    Error(Failure),
}

/// A cause chain entry as a mathematical value.
pub ghost enum CauseView {
    Internal(Seq<char>),
    Opaque(Failure),
}

impl CauseView {
    pub open spec fn text(self) -> Seq<char> {
        match self {
            CauseView::Internal(s) => s,
            CauseView::Opaque(f) => f.text(),
        }
    }
}

impl View for ChainElement {
    type V = CauseView;

    open spec fn view(&self) -> CauseView {
        match self {
            ChainElement::Internal(s) => CauseView::Internal(s@),
            ChainElement::Error(f) => CauseView::Opaque(*f),
        }
    }
}

impl ChainElement {
    pub fn to_text(&self) -> (r: String)
        ensures
            r@ == self@.text(),
    {
        match self {
            ChainElement::Internal(s) => s.clone(),
            ChainElement::Error(f) => f.to_text(),
        }
    }
}

/// The chain rendered for a log: the newest entry first and the root cause last, joined
/// by `" caused by "`.
pub open spec fn render_chain(chain: Seq<CauseView>) -> Seq<char>
    decreases chain.len(),
{
    if chain.len() == 0 {
        Seq::empty()
    } else if chain.len() == 1 {
        chain[0].text()
    } else {
        render_chain(chain.drop_first()) + CAUSED_BY@ + chain[0].text()
    }
}

pub open spec fn chain_view(chain: Seq<ChainElement>) -> Seq<CauseView> {
    chain.map_values(|e: ChainElement| e@)
}

/// Renders `chain` by [`render_chain`].
fn render(chain: &Vec<ChainElement>) -> (r: String)
    ensures
        r@ == render_chain(chain_view(chain@)),
{
    let ghost v = chain_view(chain@);
    let n = chain.len();
    if n == 0 {
        return String::new();
    }
    let mut r = chain[n - 1].to_text();
    let mut i: usize = n - 1;
    assert(v.subrange(i as int, n as int) =~= seq![v[i as int]]);
    while i > 0
        invariant
            n == chain@.len(),
            v == chain_view(chain@),
            0 <= i < n,
            r@ == render_chain(v.subrange(i as int, n as int)),
        decreases i,
    {
        i = i - 1;
        let t = chain[i].to_text();
        r.append(CAUSED_BY);
        r.append(t.as_str());
        let ghost s = v.subrange(i as int, n as int);
        assert(s.drop_first() =~= v.subrange(i + 1, n as int));
        assert(s[0] == v[i as int]);
    }
    assert(v.subrange(0, n as int) =~= v);
    r
}

pub open spec fn response_opt_view(r: Option<Response>) -> Option<ResponseView> {
    match r {
        Some(resp) => Some(resp@),
        None => None,
    }
}

/// A fault as a mathematical value: its cause chain and the response committed so far.
pub ghost struct FaultView {
    pub chain: Seq<CauseView>,
    pub response: Option<ResponseView>,
}

/// The end of a fault, as a mathematical value.
pub ghost enum OutcomeView {
    /// A response for the client, and the text to log beside it, if any.
    Responded { response: ResponseView, cause: Option<Seq<char>> },
    /// No response was prepared; `text` is the rendered cause chain.
    Unhandled { text: Seq<char> },
}

impl FaultView {
    /// The fault after a layer recorded `text` as context.
    pub open spec fn with_context(self, text: Seq<char>) -> FaultView {
        FaultView { chain: self.chain.push(CauseView::Internal(text)), response: self.response }
    }

    /// The fault after a layer proposed `r`: it is committed only when nothing was before.
    pub open spec fn with_fallback(self, r: ResponseView) -> FaultView {
        if self.response is None {
            FaultView { chain: self.chain, response: Some(r) }
        } else {
            self
        }
    }

    /// The first entry of the chain is a failure of the given kind.
    pub open spec fn root_cause_is(self, kind: FailureKind) -> bool {
        self.chain.len() > 0 && (self.chain[0] matches CauseView::Opaque(f) && f.kind() == kind)
    }

    /// The text to log beside a committed response.
    pub open spec fn cause_text(self) -> Option<Seq<char>> {
        if self.chain.len() == 0 {
            None
        } else {
            Some(render_chain(self.chain))
        }
    }

    pub open spec fn finalize(self) -> OutcomeView {
        if let Some(r) = self.response {
            OutcomeView::Responded { response: r, cause: self.cause_text() }
        } else if self.chain.len() > 0 && (self.chain[0] matches CauseView::Opaque(f)
            && f.is_record_absent()) {
            OutcomeView::Responded { response: NotFound::response_view(), cause: None }
        } else {
            OutcomeView::Unhandled { text: render_chain(self.chain) }
        }
    }
}

/// What a raw failure becomes: a read-only violation commits the maintenance response at
/// once; anything else waits with no response.
pub open spec fn classify(f: Failure) -> FaultView {
    FaultView {
        chain: seq![CauseView::Opaque(f)],
        response: if f matches Failure::Storage(e) && e.is_read_only() {
            Some(ReadOnlyMode::response_view())
        } else {
            None
        },
    }
}

/// A builder that maintains a chain of internal errors and a user-facing response.
pub struct ErrorBuilder {
    /// The cause chain, intended for logging and not the user.
    /// The first element, if present, is the root cause.
    chain: Vec<ChainElement>,
    /// An error response prepared for the user.
    user_facing_response: Option<Response>,
}

impl View for ErrorBuilder {
    type V = FaultView;

    closed spec fn view(&self) -> FaultView {
        FaultView {
            chain: chain_view(self.chain@),
            response: response_opt_view(self.user_facing_response),
        }
    }
}

/// Internal error handed to the middleware when there is no user-facing response.
pub struct InternalAppError {
    text: String,
}

impl View for InternalAppError {
    type V = Seq<char>;

    closed spec fn view(&self) -> Seq<char> {
        self.text@
    }
}

impl InternalAppError {
    /// The rendered cause chain, for the log.
    pub fn message(&self) -> (r: String)
        ensures
            r@ == self@,
    {
        self.text.clone()
    }
}

/// A representation of the final error output of an endpoint.
pub enum BuiltResponse {
    /// A user-facing response with an optional cause for logging.
    Response { response: Response, cause: Option<String> },
    /// An error to propagate up the middleware stack when no user-facing response is
    /// available. The middleware logs it and answers with a generic internal error.
    Error(InternalAppError),
}

impl View for BuiltResponse {
    type V = OutcomeView;

    open spec fn view(&self) -> OutcomeView {
        match self {
            BuiltResponse::Response { response, cause } => OutcomeView::Responded {
                response: response@,
                cause: match cause {
                    Some(c) => Some(c@),
                    None => None,
                },
            },
            BuiltResponse::Error(e) => OutcomeView::Unhandled { text: e@ },
        }
    }
}

/// Wraps a raw failure into a builder, recognizing the failures that have a fixed
/// response: a write refused by a read-only database commits the maintenance response.
pub fn convert_special_errors(cause: Failure) -> (r: ErrorBuilder)
    ensures
        r@ == classify(cause),
{
    let read_only = match &cause {
        Failure::Storage(StorageError::Database { message }) => str_ends_with(
            message.as_str(),
            READ_ONLY_SUFFIX,
        ),
        _ => false,
    };
    let user_facing_response = if read_only {
        Some(ReadOnlyMode.response())
    } else {
        None
    };
    let r = ErrorBuilder { chain: vec![ChainElement::Error(cause)], user_facing_response };
    assert(r@.chain =~= classify(cause).chain);
    r
}

impl ErrorBuilder {
    /// A builder with an empty chain and `response` committed.
    fn user_facing(response: Response) -> (r: Self)
        ensures
            r@ == (FaultView { chain: Seq::empty(), response: Some(response@) }),
    {
        let r = ErrorBuilder { chain: Vec::new(), user_facing_response: Some(response) };
        assert(r@.chain =~= Seq::<CauseView>::empty());
        r
    }

    /// A builder whose chain is the single failure `cause` and whose response is `response`.
    fn root_cause(cause: Failure, response: Response) -> (r: Self)
        ensures
            r@ == (FaultView { chain: seq![CauseView::Opaque(cause)], response: Some(response@) }),
    {
        let r = ErrorBuilder {
            chain: vec![ChainElement::Error(cause)],
            user_facing_response: Some(response),
        };
        assert(r@.chain =~= seq![CauseView::Opaque(cause)]);
        r
    }

    /// Create a builder for an error with status 400 and the provided description as JSON.
    pub fn bad_request(user_message: &str) -> (r: Self)
        ensures
            r@ == (FaultView {
                chain: Seq::empty(),
                response: Some(json_error_view(user_message@, STATUS_BAD_REQUEST)),
            }),
    {
        Self::user_facing(UserFacing::bad_request(user_message))
    }

    /// Create a builder for an error with status 400 and the provided description as JSON.
    ///
    /// Care should be taken not to include sensitive information when generating
    /// custom user facing messages.
    pub fn custom_bad_request(user_message: String) -> (r: Self)
        ensures
            r@ == (FaultView {
                chain: Seq::empty(),
                response: Some(json_error_view(user_message@, STATUS_BAD_REQUEST)),
            }),
    {
        Self::user_facing(UserFacing::custom_bad_request(user_message))
    }

    /// Create a builder for an error with status 500 and the provided description as JSON.
    pub fn server_error(user_message: &str) -> (r: Self)
        ensures
            r@ == (FaultView {
                chain: Seq::empty(),
                response: Some(json_error_view(user_message@, STATUS_INTERNAL_SERVER_ERROR)),
            }),
    {
        Self::user_facing(UserFacing::server_error(user_message))
    }

    /// Create a builder with a root internal error and no initial user facing response.
    pub fn internal(info: &str) -> (r: Self)
        ensures
            r@ == (FaultView { chain: seq![CauseView::Internal(info@)], response: None }),
    {
        let r = ErrorBuilder {
            chain: vec![ChainElement::Internal(String::from_str(info))],
            user_facing_response: None,
        };
        assert(r@.chain =~= seq![CauseView::Internal(info@)]);
        r
    }

    /// Create a builder for an error with status 200 and the provided user message as JSON.
    ///
    /// Newer versions of cargo support other status codes so usage of these helpers
    /// should be removed over time.
    pub fn cargo_err_legacy(user_message: &str) -> (r: Self)
        ensures
            r@ == (FaultView {
                chain: Seq::empty(),
                response: Some(json_error_view(user_message@, STATUS_OK)),
            }),
    {
        Self::user_facing(UserFacing::cargo_err_legacy(user_message))
    }

    /// Create a builder for an error with status 200 and the provided user message as JSON.
    ///
    /// Care should be taken not to include sensitive information when generating
    /// custom user facing messages.
    pub fn custom_cargo_err_legacy(user_message: String) -> (r: Self)
        ensures
            r@ == (FaultView {
                chain: Seq::empty(),
                response: Some(json_error_view(user_message@, STATUS_OK)),
            }),
    {
        Self::user_facing(UserFacing::custom_cargo_err_legacy(user_message))
    }

    /// Test the kind of the root cause, if there is one.
    pub fn root_cause_is(&self, kind: FailureKind) -> (r: bool)
        ensures
            r == self@.root_cause_is(kind),
    {
        if self.chain.len() == 0 {
            return false;
        }
        match &self.chain[0] {
            ChainElement::Error(e) => e.kind_of() == kind,
            ChainElement::Internal(_) => false,
        }
    }

    /// The response committed so far, if any.
    pub fn into_response(self) -> (r: Option<Response>)
        ensures
            response_opt_view(r) == self@.response,
    {
        self.user_facing_response
    }

    /// Generate a summary of the cause chain, appropriate for logging.
    pub fn cause_chain(&self) -> (r: String)
        ensures
            r@ == render_chain(self@.chain),
    {
        render(&self.chain)
    }

    /// Capture an internal message for the cause chain that is logged.
    ///
    /// The cause chain produces a string like "... caused by ..." with the innermost
    /// error appearing last.
    pub fn chain_internal_err_cause(self, internal_message: &str) -> (r: Self)
        ensures
            r@ == self@.with_context(internal_message@),
    {
        let mut b = self;
        b.chain.push(ChainElement::Internal(String::from_str(internal_message)));
        assert(b@.chain =~= self@.chain.push(CauseView::Internal(internal_message@)));
        b
    }

    /// Capture a user facing error response.
    ///
    /// The fallback is only applied if a user response has not yet been set: an error
    /// prepared further down the call stack should not be overwritten by a more generic
    /// error higher up. The callback is only called in that case.
    pub fn chain_user_facing_fallback<F: FnOnce() -> Response>(self, callback: F) -> (r: Self)
        requires
            self@.response is None ==> callback.requires(()),
        ensures
            exists|proposed: Response|
                (self@.response is None ==> callback.ensures((), proposed)) && r@
                    == self@.with_fallback(proposed@),
    {
        let mut b = self;
        if b.user_facing_response.is_none() {
            let proposed = callback();
            b.user_facing_response = Some(proposed);
            assert(b@ == self@.with_fallback(proposed@));
        } else {
            assert(b@ == self@.with_fallback(NotFound::response_view()));
        }
        b
    }

    /// Finalize the error response built by the endpoint.
    pub fn build(self) -> (r: BuiltResponse)
        ensures
            r@ == self@.finalize(),
    {
        let ErrorBuilder { chain, user_facing_response } = self;
        match user_facing_response {
            Some(response) => {
                let cause = if chain.len() == 0 {
                    None
                } else {
                    Some(render(&chain))
                };
                BuiltResponse::Response { response, cause }
            },
            None => {
                let record_absent = chain.len() > 0 && match &chain[0] {
                    ChainElement::Error(Failure::Storage(StorageError::NotFound)) => true,
                    _ => false,
                };
                if record_absent {
                    BuiltResponse::Response { response: NotFound.response(), cause: None }
                } else {
                    BuiltResponse::Error(InternalAppError { text: render(&chain) })
                }
            },
        }
    }
}

impl NotFound {
    pub fn root_cause(&self) -> (r: ErrorBuilder)
        ensures
            r@ == (FaultView {
                chain: seq![CauseView::Opaque(Failure::NotFound)],
                response: Some(NotFound::response_view()),
            }),
    {
        ErrorBuilder::root_cause(Failure::NotFound, self.response())
    }
}

impl Forbidden {
    pub fn root_cause(&self) -> (r: ErrorBuilder)
        ensures
            r@ == (FaultView {
                chain: seq![CauseView::Opaque(Failure::Forbidden)],
                response: Some(Forbidden::response_view()),
            }),
    {
        ErrorBuilder::root_cause(Failure::Forbidden, self.response())
    }
}

impl ReadOnlyMode {
    pub fn root_cause(&self) -> (r: ErrorBuilder)
        ensures
            r@ == (FaultView {
                chain: seq![CauseView::Opaque(Failure::ReadOnlyMode)],
                response: Some(ReadOnlyMode::response_view()),
            }),
    {
        ErrorBuilder::root_cause(Failure::ReadOnlyMode, self.response())
    }
}

impl InsecurelyGeneratedTokenRevoked {
    pub fn root_cause(&self) -> (r: ErrorBuilder)
        ensures
            r@ == (FaultView {
                chain: seq![CauseView::Opaque(Failure::InsecurelyGeneratedTokenRevoked)],
                response: Some(InsecurelyGeneratedTokenRevoked::response_view()),
            }),
    {
        ErrorBuilder::root_cause(Failure::InsecurelyGeneratedTokenRevoked, self.response())
    }
}

impl TooManyRequests {
    pub fn root_cause(self) -> (r: ErrorBuilder)
        requires
            self.wf(),
        ensures
            r@ == (FaultView {
                chain: seq![CauseView::Opaque(Failure::TooManyRequests(self))],
                response: Some(self.response_view()),
            }),
    {
        let response = self.response();
        ErrorBuilder::root_cause(Failure::TooManyRequests(self), response)
    }
}

/// Helpers for common error responses.
pub struct UserFacing;

impl UserFacing {
    /// Returns an error with status 400 and the provided description as JSON.
    pub fn bad_request(user_message: &str) -> (r: Response)
        ensures
            r@ == json_error_view(user_message@, STATUS_BAD_REQUEST),
    {
        BadRequest(String::from_str(user_message)).response()
    }

    /// Return a custom error with status 400 and the provided description as JSON.
    ///
    /// Care should be taken not to include sensitive information when generating
    /// custom user facing messages.
    pub fn custom_bad_request(user_message: String) -> (r: Response)
        ensures
            r@ == json_error_view(user_message@, STATUS_BAD_REQUEST),
    {
        BadRequest(user_message).response()
    }

    /// Returns an error with status 500 and the provided description as JSON.
    pub fn server_error(user_message: &str) -> (r: Response)
        ensures
            r@ == json_error_view(user_message@, STATUS_INTERNAL_SERVER_ERROR),
    {
        ServerError(String::from_str(user_message)).response()
    }

    /// Returns an error with status 200 and the provided user message as JSON.
    ///
    /// Newer versions of cargo support other status codes so usage of these helpers
    /// should be removed over time.
    pub fn cargo_err_legacy(user_message: &str) -> (r: Response)
        ensures
            r@ == json_error_view(user_message@, STATUS_OK),
    {
        CargoLegacy(String::from_str(user_message)).response()
    }

    /// Returns an error with status 200 and the provided user message as JSON.
    ///
    /// Care should be taken not to include sensitive information when generating
    /// custom user facing messages.
    pub fn custom_cargo_err_legacy(user_message: String) -> (r: Response)
        ensures
            r@ == json_error_view(user_message@, STATUS_OK),
    {
        CargoLegacy(user_message).response()
    }
}

/// A fault without a response after the contexts `contexts` were added, in order.
pub open spec fn with_contexts(f: FaultView, contexts: Seq<Seq<char>>) -> FaultView
    decreases contexts.len(),
{
    if contexts.len() == 0 {
        f
    } else {
        with_contexts(f, contexts.drop_last()).with_context(contexts.last())
    }
}

/// The first response proposed wins: after a fault without a response takes `first`, a
/// second proposal changes nothing, and finalizing yields `first`.
pub proof fn lemma_first_proposal_wins(f: FaultView, first: ResponseView, second: ResponseView)
    requires
        f.response is None,
    ensures
        f.with_fallback(first).with_fallback(second) == f.with_fallback(first),
        f.with_fallback(first).with_fallback(second).finalize() == (OutcomeView::Responded {
            response: first,
            cause: f.cause_text(),
        }),
{
}

/// Contexts render newest first: `a`, then `b`, then `c` added to an empty fault give the
/// text `c caused by b caused by a`.
pub proof fn lemma_context_order(a: Seq<char>, b: Seq<char>, c: Seq<char>)
    ensures
        (FaultView { chain: Seq::empty(), response: None }).with_context(a).with_context(
            b,
        ).with_context(c).finalize() == (OutcomeView::Unhandled {
            text: c + CAUSED_BY@ + b + CAUSED_BY@ + a,
        }),
{
    let f = (FaultView { chain: Seq::empty(), response: None }).with_context(a).with_context(
        b,
    ).with_context(c);
    let ch = f.chain;
    assert(ch =~= seq![CauseView::Internal(a), CauseView::Internal(b), CauseView::Internal(c)]);
    assert(ch.drop_first().drop_first() =~= seq![CauseView::Internal(c)]);
    assert(render_chain(ch.drop_first().drop_first()) == c);
    assert(render_chain(ch.drop_first()) == c + CAUSED_BY@ + b);
    assert(render_chain(ch) == c + CAUSED_BY@ + b + CAUSED_BY@ + a);
}

/// A storage failure whose message ends with `read-only transaction` finalizes, with no
/// further call, into the maintenance response (status 503), the failure being logged.
pub proof fn lemma_read_only_classification(message: String)
    requires
        ends_with(message@, READ_ONLY_SUFFIX@),
    ensures
        classify(Failure::Storage(StorageError::Database { message })).finalize()
            == (OutcomeView::Responded {
            response: ReadOnlyMode::response_view(),
            cause: Some(message@),
        }),
        ReadOnlyMode::response_view().status == 503,
{
}

/// A storage "record absent" failure for which no response was proposed finalizes into
/// the not-found response with nothing to log, whatever contexts were added.
pub proof fn lemma_not_found_convenience(contexts: Seq<Seq<char>>)
    ensures
        with_contexts(classify(Failure::Storage(StorageError::NotFound)), contexts).finalize()
            == (OutcomeView::Responded { response: NotFound::response_view(), cause: None }),
{
    lemma_contexts_keep_root(classify(Failure::Storage(StorageError::NotFound)), contexts);
}

/// Adding contexts keeps the root of the chain and the committed response.
pub proof fn lemma_contexts_keep_root(f: FaultView, contexts: Seq<Seq<char>>)
    requires
        f.chain.len() > 0,
    ensures
        with_contexts(f, contexts).response == f.response,
        with_contexts(f, contexts).chain.len() > 0,
        with_contexts(f, contexts).chain[0] == f.chain[0],
    decreases contexts.len(),
{
    if contexts.len() > 0 {
        lemma_contexts_keep_root(f, contexts.drop_last());
    }
}

/// Rendering a catalog entry depends on its fields alone: entries with equal fields
/// render identical responses.
pub proof fn lemma_rendering_is_pure(
    b1: BadRequest,
    b2: BadRequest,
    c1: CargoLegacy,
    c2: CargoLegacy,
    s1: ServerError,
    s2: ServerError,
    t1: TooManyRequests,
    t2: TooManyRequests,
)
    requires
        b1.0@ == b2.0@,
        c1.0@ == c2.0@,
        s1.0@ == s2.0@,
        t1.retry_after == t2.retry_after,
    ensures
        b1.response_view() == b2.response_view(),
        c1.response_view() == c2.response_view(),
        s1.response_view() == s2.response_view(),
        t1.response_view() == t2.response_view(),
{
}

/// A rate-limit response carries one `Retry-After` header, and its detail text holds the
/// very same date string.
pub proof fn lemma_retry_after_matches_detail(t: TooManyRequests)
    ensures
        ({
            let v = t.response_view();
            let date = v.headers[0].1;
            let detail = too_many_requests_detail(date);
            let start = TOO_MANY_REQUESTS_PREFIX@.len();
            &&& v.headers.len() == 1
            &&& v.headers[0].0 == RETRY_AFTER@
            &&& date == http_date_of(t.retry_after)
            &&& v.body == error_body(detail)
            &&& detail.subrange(start as int, (start + date.len()) as int) == date
        }),
{
    let date = http_date_of(t.retry_after);
    let detail = too_many_requests_detail(date);
    let start = TOO_MANY_REQUESTS_PREFIX@.len();
    assert(detail.subrange(start as int, (start + date.len()) as int) =~= date);
}

/// An unrecognized failure with one context added finalizes unhandled, its text being the
/// context, then `caused by`, then the failure's own text.
pub proof fn lemma_unrecognized_failure_is_unhandled(text: String, context: Seq<char>)
    ensures
        classify(Failure::Other { text }).with_context(context).finalize()
            == (OutcomeView::Unhandled { text: context + CAUSED_BY@ + text@ }),
{
    let f = classify(Failure::Other { text }).with_context(context);
    assert(f.chain.drop_first() =~= seq![CauseView::Internal(context)]);
    assert(render_chain(f.chain.drop_first()) == context);
    assert(render_chain(f.chain) == context + CAUSED_BY@ + text@);
}

/// For a storage "record absent" failure, a proposed response wins over the not-found
/// convenience; without a proposal the convenience applies.
pub proof fn lemma_proposal_beats_not_found(r: ResponseView)
    ensures
        classify(Failure::Storage(StorageError::NotFound)).with_fallback(r).finalize()
            == (OutcomeView::Responded { response: r, cause: Some("NotFound"@) }),
        classify(Failure::Storage(StorageError::NotFound)).finalize() == (OutcomeView::Responded {
            response: NotFound::response_view(),
            cause: None,
        }),
{
}

/// A response proposed for an unrecognized failure is kept when a context is added later,
/// and the log text holds the context and then the failure.
pub proof fn lemma_proposal_then_context(text: String, r: ResponseView, context: Seq<char>)
    ensures
        classify(Failure::Other { text }).with_fallback(r).with_context(context).finalize()
            == (OutcomeView::Responded {
            response: r,
            cause: Some(context + CAUSED_BY@ + text@),
        }),
{
    let f = classify(Failure::Other { text }).with_fallback(r).with_context(context);
    assert(f.chain.drop_first() =~= seq![CauseView::Internal(context)]);
    assert(render_chain(f.chain.drop_first()) == context);
    assert(render_chain(f.chain) == context + CAUSED_BY@ + text@);
}

} // verus!
