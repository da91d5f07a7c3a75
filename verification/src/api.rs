//! The request gatekeeper: wire types, admission of a request by rate and
//! token, the CORS policy, and the validation of a print request.

use crate::config::Config;
use crate::codec::base64_decoding;
use crate::config::ConfigView;
use crate::error::BridgeError;
use crate::error::ErrorView;
use crate::printer::has_pipeline;
use crate::printer::planned;
use crate::printer::PrintJob;
use crate::printer::PrintJobView;
use crate::printer::PrinterManager;
use crate::rate::account;
use crate::rate::admits;
use crate::rate::record;
use crate::text::clone_texts;
use crate::text::contains_text;
use std::sync::Arc;
use vstd::hash_map::StringHashMap;
use vstd::prelude::*;
use vstd::utf8::encode_utf8;

verus! {

/// Print options of a request. They are accepted; none changes how a job is
/// dispatched.
#[derive(Debug, Clone, PartialEq, Eq)]
pub struct PrintOptions {
    pub paper_size: Option<String>,
    pub orientation: Option<String>,
    pub color: Option<bool>,
    pub duplex: Option<bool>,
}

/// A print job as a client submits it. `content` is text for `html` and
/// `text`, base64 for `pdf` and `image`.
#[derive(Debug, Clone, PartialEq, Eq)]
pub struct PrintRequest {
    pub printer_name: Option<String>,
    pub content: String,
    pub content_type: String,
    pub copies: Option<u32>,
    pub options: Option<PrintOptions>,
}

/// The mathematical value of [`PrintOptions`].
pub struct PrintOptionsView {
    pub paper_size: Option<Seq<char>>,
    pub orientation: Option<Seq<char>>,
    pub color: Option<bool>,
    pub duplex: Option<bool>,
}

impl View for PrintOptions {
    type V = PrintOptionsView;

    open spec fn view(&self) -> PrintOptionsView {
        PrintOptionsView {
            paper_size: self.paper_size.deep_view(),
            orientation: self.orientation.deep_view(),
            color: self.color,
            duplex: self.duplex,
        }
    }
}

/// The mathematical value of a [`PrintRequest`].
pub struct PrintRequestView {
    pub printer_name: Option<Seq<char>>,
    pub content: Seq<char>,
    pub content_type: Seq<char>,
    pub copies: Option<u32>,
    pub options: Option<PrintOptionsView>,
}

impl View for PrintRequest {
    type V = PrintRequestView;

    open spec fn view(&self) -> PrintRequestView {
        PrintRequestView {
            printer_name: self.printer_name.deep_view(),
            content: self.content@,
            content_type: self.content_type@,
            copies: self.copies,
            options: match self.options {
                Some(options) => Some(options@),
                None => None,
            },
        }
    }
}

/// The outcome of a submission that reached the spooler.
#[derive(Debug, Clone, PartialEq, Eq)]
pub struct PrintResponse {
    pub success: bool,
    pub message: String,
    pub job_id: Option<String>,
}

/// The mathematical value of a [`PrintResponse`].
pub struct PrintResponseView {
    pub success: bool,
    pub message: Seq<char>,
    pub job_id: Option<Seq<char>>,
}

impl View for PrintResponse {
    type V = PrintResponseView;

    open spec fn view(&self) -> PrintResponseView {
        PrintResponseView {
            success: self.success,
            message: self.message@,
            job_id: self.job_id.deep_view(),
        }
    }
}

/// One installed printer and what was found out about it.
#[derive(Debug, Clone, PartialEq, Eq)]
pub struct PrinterInfo {
    pub name: String,
    pub status: String,
    pub is_default: bool,
    pub supports_color: bool,
    pub paper_sizes: Vec<String>,
}

/// The mathematical value of a [`PrinterInfo`].
pub struct PrinterInfoView {
    pub name: Seq<char>,
    pub status: Seq<char>,
    pub is_default: bool,
    pub supports_color: bool,
    pub paper_sizes: Seq<Seq<char>>,
}

impl View for PrinterInfo {
    type V = PrinterInfoView;

    open spec fn view(&self) -> PrinterInfoView {
        PrinterInfoView {
            name: self.name@,
            status: self.status@,
            is_default: self.is_default,
            supports_color: self.supports_color,
            paper_sizes: self.paper_sizes.deep_view(),
        }
    }
}

/// What admission needs: the settings, shared and never changed, and the
/// request times of every client identity seen so far. The caller
/// serialises access to the request times.
pub struct SecurityContext {
    pub config: Arc<Config>,
    pub rate_limiter: StringHashMap<Vec<u64>>,
}

/// Whether a presented token passes: always when none is required,
/// otherwise only when it is the required one, character for character.
pub open spec fn token_accepted(required: Option<Seq<char>>, presented: Option<Seq<char>>) -> bool {
    required is None || presented == required
}

/// The verdict on a request: `None` admits it. The quota is looked at
/// before the token, so that probing with bad tokens is throttled too.
pub open spec fn admission(
    config: ConfigView,
    window: Seq<u64>,
    presented: Option<Seq<char>>,
    now: u64,
) -> Option<ErrorView> {
    if !admits(window, now, config.rate_limit_per_minute) {
        Some(ErrorView::RateLimitExceeded)
    } else if !token_accepted(config.api_token, presented) {
        Some(ErrorView::Unauthorized)
    } else {
        None
    }
}

/// Token law: where a token is required and the quota allows the request,
/// presenting exactly that token admits the request, and presenting another
/// token, or none, has it rejected as unauthorized.
pub proof fn lemma_token_gate(
    config: ConfigView,
    window: Seq<u64>,
    presented: Option<Seq<char>>,
    now: u64,
)
    requires
        config.api_token is Some,
        admits(window, now, config.rate_limit_per_minute),
    ensures
        presented == config.api_token ==> admission(config, window, presented, now) is None,
        presented != config.api_token ==> admission(config, window, presented, now) == Some(
            ErrorView::Unauthorized,
        ),
{
}

/// Admission law: a request is turned away with 429 exactly when its quota
/// is used up, and with 401 exactly when the quota allows it but the token
/// does not pass; nothing else turns it away.
pub proof fn lemma_admission_status(
    config: ConfigView,
    window: Seq<u64>,
    presented: Option<Seq<char>>,
    now: u64,
)
    ensures
        match admission(config, window, presented, now) {
            Some(e) => e.status_code() == 429 || e.status_code() == 401,
            None => admits(window, now, config.rate_limit_per_minute) && token_accepted(
                config.api_token,
                presented,
            ),
        },
        admission(config, window, presented, now) == Some(ErrorView::RateLimitExceeded)
            <==> !admits(window, now, config.rate_limit_per_minute),
        admission(config, window, presented, now) == Some(ErrorView::Unauthorized) <==> admits(
            window,
            now,
            config.rate_limit_per_minute,
        ) && !token_accepted(config.api_token, presented),
{
}

/// Decides [`token_accepted`].
pub fn check_token(required: &Option<String>, presented: &Option<String>) -> (ok: bool)
    ensures
        ok == token_accepted(required.deep_view(), presented.deep_view()),
{
    match required {
        None => true,
        Some(wanted) => match presented {
            Some(given) => {
                let same = *given == *wanted;
                same
            },
            None => false,
        },
    }
}

impl SecurityContext {
    /// The identities that have a window.
    pub open spec fn identities(&self) -> Set<Seq<char>> {
        self.rate_limiter@.dom()
    }

    /// The window of `identity`; empty for one never seen.
    pub open spec fn window_of(&self, identity: Seq<char>) -> Seq<u64> {
        if self.rate_limiter@.contains_key(identity) {
            self.rate_limiter@[identity]@
        } else {
            Seq::empty()
        }
    }

    /// A context for `config` in which no client has any history.
    pub fn new(config: Config) -> (ctx: SecurityContext)
        ensures
            *ctx.config == config,
            ctx.identities() == Set::<Seq<char>>::empty(),
    {
        SecurityContext { config: Arc::new(config), rate_limiter: StringHashMap::new() }
    }
}

/// Admits or rejects a request of client `identity` at time `now`, in
/// seconds since the epoch, presenting `token`.
///
/// The client's window is purged and, if the quota allows, stamped, whatever
/// the token: a request over quota is rejected with `RateLimitExceeded` and
/// leaves no stamp; one within quota is stamped and then rejected with
/// `Unauthorized` if a token is required and the presented one is not it.
/// No other client's window changes.
pub fn validate_auth(
    token: Option<String>,
    ctx: &mut SecurityContext,
    identity: &str,
    now: u64,
) -> (r: Result<(), BridgeError>)
    ensures
        final(ctx).config == old(ctx).config,
        final(ctx).identities() == old(ctx).identities().insert(identity@),
        final(ctx).window_of(identity@) == record(
            old(ctx).window_of(identity@),
            now,
            old(ctx).config.rate_limit_per_minute,
        ),
        forall|other: Seq<char>|
            other != identity@ ==> final(ctx).window_of(other) == old(ctx).window_of(other),
        match r {
            Ok(_) => admission(
                old(ctx).config@,
                old(ctx).window_of(identity@),
                token.deep_view(),
                now,
            ) is None,
            Err(e) => admission(
                old(ctx).config@,
                old(ctx).window_of(identity@),
                token.deep_view(),
                now,
            ) == Some(e@),
        },
{
    let limit = ctx.config.rate_limit_per_minute;
    let (within, fresh) = match ctx.rate_limiter.get(identity) {
        Some(stamps) => account(stamps, now, limit),
        None => account(&Vec::new(), now, limit),
    };
    ctx.rate_limiter.insert(String::from_str(identity), fresh);
    if !within {
        return Err(BridgeError::RateLimitExceeded);
    }
    if check_token(&ctx.config.api_token, &token) {
        Ok(())
    } else {
        Err(BridgeError::Unauthorized)
    }
}

/// The largest body, in bytes, that the transport layer lets through to
/// the print route: 50 MB, whatever the configured payload size.
pub const BODY_LIMIT_BYTES: u64 = 52_428_800;

/// The cross-origin policy of the HTTP surface.
#[derive(Debug, Clone, PartialEq, Eq)]
pub struct CorsPolicy {
    pub allow_any_origin: bool,
    pub origins: Vec<String>,
    pub headers: Vec<String>,
    pub methods: Vec<String>,
}

/// The mathematical value of a [`CorsPolicy`].
pub struct CorsPolicyView {
    pub allow_any_origin: bool,
    pub origins: Seq<Seq<char>>,
    pub headers: Seq<Seq<char>>,
    pub methods: Seq<Seq<char>>,
}

impl View for CorsPolicy {
    type V = CorsPolicyView;

    open spec fn view(&self) -> CorsPolicyView {
        CorsPolicyView {
            allow_any_origin: self.allow_any_origin,
            origins: self.origins.deep_view(),
            headers: self.headers.deep_view(),
            methods: self.methods.deep_view(),
        }
    }
}

impl CorsPolicyView {
    /// The policy for a set of allowed origins: any origin where the set
    /// holds the wildcard, else exactly the origins of the set; always the
    /// same three headers and three methods.
    pub open spec fn of(allowed_origins: Seq<Seq<char>>) -> CorsPolicyView {
        CorsPolicyView {
            allow_any_origin: allowed_origins.contains("*"@),
            origins: if allowed_origins.contains("*"@) {
                Seq::empty()
            } else {
                allowed_origins
            },
            headers: seq!["content-type"@, "authorization"@, "x-api-token"@],
            methods: seq!["GET"@, "POST"@, "OPTIONS"@],
        }
    }

    /// Whether a request from `origin` is allowed.
    pub open spec fn allows(self, origin: Seq<char>) -> bool {
        self.allow_any_origin || self.origins.contains(origin)
    }
}

impl CorsPolicy {
    /// Decides [`CorsPolicyView::allows`].
    pub fn allows_origin(&self, origin: &str) -> (ok: bool)
        ensures
            ok == self@.allows(origin@),
    {
        self.allow_any_origin || contains_text(&self.origins, origin)
    }
}

/// The cross-origin policy that `config` asks for. It is derived once, when
/// the routes are built.
pub fn cors_policy(config: &Config) -> (policy: CorsPolicy)
    ensures
        policy@ == CorsPolicyView::of(config@.allowed_origins),
        forall|origin: Seq<char>|
            policy@.allows(origin) <==> config@.allowed_origins.contains("*"@)
                || config@.allowed_origins.contains(origin),
{
    let any = contains_text(&config.allowed_origins, "*");
    let origins = if any {
        Vec::new()
    } else {
        clone_texts(&config.allowed_origins)
    };
    let mut headers: Vec<String> = Vec::new();
    headers.push(String::from_str("content-type"));
    headers.push(String::from_str("authorization"));
    headers.push(String::from_str("x-api-token"));
    let mut methods: Vec<String> = Vec::new();
    methods.push(String::from_str("GET"));
    methods.push(String::from_str("POST"));
    methods.push(String::from_str("OPTIONS"));
    let policy = CorsPolicy { allow_any_origin: any, origins, headers, methods };
    proof {
        let wanted = CorsPolicyView::of(config@.allowed_origins);
        assert(policy@.origins =~= wanted.origins);
        assert(policy@.headers =~= wanted.headers);
        assert(policy@.methods =~= wanted.methods);
    }
    policy
}

/// What the health route answers.
#[derive(Debug, Clone, PartialEq, Eq)]
pub struct HealthStatus {
    pub status: String,
    pub service: String,
    pub version: String,
}

/// The answer of the health route for a build of version `version`. The
/// route is open: it does not pass through admission.
pub fn health(version: &str) -> (report: HealthStatus)
    ensures
        report.status@ == "ok"@,
        report.service@ == "print-my-bridge"@,
        report.version@ == version@,
{
    HealthStatus {
        status: String::from_str("ok"),
        service: String::from_str("print-my-bridge"),
        version: String::from_str(version),
    }
}

/// The size in bytes that a payload is taken to decode to: three quarters
/// of its length in bytes, as for base64.
pub open spec fn estimated_size(content: Seq<char>) -> nat {
    encode_utf8(content).len() * 3 / 4
}

/// The largest estimated size, in bytes, that `config` accepts.
pub open spec fn size_limit(config: ConfigView) -> nat {
    (config.max_file_size_mb * 1024 * 1024) as nat
}

/// The verdict on a print request before anything is done with it: `None`
/// lets it pass. The content type is looked at before the size.
pub open spec fn validation(request: PrintRequestView, config: ConfigView) -> Option<ErrorView> {
    if !config.allowed_file_types.contains(request.content_type) {
        Some(ErrorView::UnsupportedFormat(request.content_type))
    } else if estimated_size(request.content) > size_limit(config) {
        Some(ErrorView::FileTooLarge)
    } else {
        None
    }
}

/// What becomes of a print request: the validation's verdict, else the
/// first step of its pipeline, else the failure to prepare that step, which
/// keeps its kind: a payload that does not decode fails as a decode error,
/// not as a print error.
pub open spec fn submission(request: PrintRequestView, config: ConfigView) -> Result<
    PrintJobView,
    ErrorView,
> {
    match validation(request, config) {
        Some(e) => Err(e),
        None => planned(request, config),
    }
}

/// Format law: a request whose content type is not among the allowed ones
/// is refused as unsupported, whatever else it holds, and no step of any
/// pipeline is prepared for it.
pub proof fn lemma_unlisted_type_refused(request: PrintRequestView, config: ConfigView)
    requires
        !config.allowed_file_types.contains(request.content_type),
    ensures
        validation(request, config) == Some(ErrorView::UnsupportedFormat(request.content_type)),
        submission(request, config) == Err::<PrintJobView, ErrorView>(
            ErrorView::UnsupportedFormat(request.content_type),
        ),
        ErrorView::UnsupportedFormat(request.content_type).status_code() == 400,
{
}

/// Submission law: a request is refused as unsupported, with 400, exactly
/// when its content type is not allowed, or is allowed and within size but
/// has no pipeline; as too large, with 413, exactly when the type is
/// allowed and the estimated size is over the limit; and every other
/// failure is a decode error, answered with 500. No failure at this stage
/// is a print error: none has reached the spooler.
pub proof fn lemma_submission_status(request: PrintRequestView, config: ConfigView)
    ensures
        match submission(request, config) {
            Ok(_) => validation(request, config) is None && has_pipeline(request.content_type),
            Err(e) => {
                &&& e.status_code() == 400 <==> e is UnsupportedFormat
                &&& e.status_code() == 413 <==> e is FileTooLarge
                &&& e.status_code() == 500 <==> e is Base64Error
                &&& e is UnsupportedFormat <==> !config.allowed_file_types.contains(
                    request.content_type,
                ) || (validation(request, config) is None && !has_pipeline(request.content_type))
                &&& e is FileTooLarge <==> config.allowed_file_types.contains(
                    request.content_type,
                ) && estimated_size(request.content) > size_limit(config)
                &&& e is Base64Error <==> validation(request, config) is None && has_pipeline(
                    request.content_type,
                )
                &&& e !is PrintError
            },
        },
{
}

/// Decode law: an allowed request within size whose payload is base64 by
/// its content type and does not decode fails with the decoder's reason as
/// a decode error.
pub proof fn lemma_decode_failure_keeps_its_kind(
    request: PrintRequestView,
    config: ConfigView,
    reason: Seq<char>,
)
    requires
        validation(request, config) is None,
        request.content_type == "pdf"@ || request.content_type == "image"@,
        base64_decoding(request.content) == Err::<Seq<u8>, Seq<char>>(reason),
    ensures
        submission(request, config) == Err::<PrintJobView, ErrorView>(
            ErrorView::Base64Error(reason),
        ),
{
    reveal_strlit("pdf");
    reveal_strlit("html");
    reveal_strlit("text");
    reveal_strlit("image");
    assert("image"@.len() == 5 && "pdf"@.len() == 3 && "html"@.len() == 4 && "text"@.len() == 4);
}

/// Validates a print request against the settings.
pub fn validate_print(request: &PrintRequest, config: &Config) -> (r: Result<(), BridgeError>)
    ensures
        match r {
            Ok(_) => validation(request@, config@) is None,
            Err(e) => validation(request@, config@) == Some(e@),
        },
{
    if !contains_text(&config.allowed_file_types, request.content_type.as_str()) {
        return Err(BridgeError::UnsupportedFormat(request.content_type.clone()));
    }
    let length: usize = request.content.as_str().as_bytes().len();
    let estimated: u128 = (length as u128) * 3 / 4;
    let limit: u128 = (config.max_file_size_mb as u128) * 1024 * 1024;
    if estimated > limit {
        return Err(BridgeError::FileTooLarge);
    }
    Ok(())
}

/// The failure of a discovery as the printers route reports it.
pub fn listing_failure(e: &BridgeError) -> (failure: BridgeError)
    ensures
        failure@ == ErrorView::PrinterError(e@.message()),
{
    BridgeError::PrinterError(e.message())
}

/// Handles an admitted print request up to its first step: a request that
/// fails validation is rejected before any file is written or process
/// started.
pub fn handle_print(request: PrintRequest, config: &Config) -> (r: Result<PrintJob, BridgeError>)
    ensures
        match r {
            Ok(job) => submission(request@, config@) == Ok::<PrintJobView, ErrorView>(job@),
            Err(e) => submission(request@, config@) == Err::<PrintJobView, ErrorView>(e@),
        },
{
    match validate_print(&request, config) {
        Err(e) => Err(e),
        Ok(_) => PrinterManager::print(request, config),
    }
}

} // verus!
