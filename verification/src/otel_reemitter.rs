//! Passing requests on to another OTLP endpoint.
use vstd::prelude::*;

use crate::otlp::PROTOBUF;

verus! {

/// How long a re-emitted request may take.
pub const REEMIT_TIMEOUT_SECS: u64 = 10;

/// Why a receiver does not start.
#[derive(Debug)]
pub enum StartError {
    /// A re-emission endpoint is no absolute URL; the text says what is wrong with it.
    InvalidEndpoint(String),
    /// No HTTP client could be built for a re-emission endpoint.
    ClientUnavailable,
    /// The call came from within an async context.
    AsyncContext,
}

/// The value of a [`StartError`].
pub enum StartErrorView {
    InvalidEndpoint(Seq<char>),
    ClientUnavailable,
    AsyncContext,
}

impl View for StartError {
    type V = StartErrorView;

    open spec fn view(&self) -> StartErrorView {
        match *self {
            StartError::InvalidEndpoint(text) => StartErrorView::InvalidEndpoint(text@),
            StartError::ClientUnavailable => StartErrorView::ClientUnavailable,
            StartError::AsyncContext => StartErrorView::AsyncContext,
        }
    }
}

/// The serialization of the absolute URL that a text denotes, or what is wrong with the text.
pub uninterp spec fn parsed_url(text: Seq<char>) -> Result<Seq<char>, Seq<char>>;

/// Calls `reqwest::Url::parse`, and hands the URL out as its serialization, the error as its
/// message. Trusted: both depend on the text alone.
#[verifier::external_body]
fn parse_url(text: &str) -> (url: Result<String, String>)
    ensures
        match url {
            Ok(u) => parsed_url(text@) == Ok::<Seq<char>, Seq<char>>(u@),
            Err(e) => parsed_url(text@) == Err::<Seq<char>, Seq<char>>(e@),
        },
{
    match reqwest::Url::parse(text) {
        Ok(url) => Ok(url.as_str().to_string()),
        Err(error) => Err(error.to_string()),
    }
}

/// Forwards OTLP data to another endpoint, such as a collector.
#[derive(Debug)]
pub struct OtelReemitter {
    endpoint: String,
}

/// The value of an [`OtelReemitter`] is the URL that it forwards to.
impl View for OtelReemitter {
    type V = Seq<char>;

    closed spec fn view(&self) -> Seq<char> {
        self.endpoint@
    }
}

/// A request that is to be posted to a re-emission endpoint.
#[derive(Debug)]
pub struct Reemission {
    pub endpoint: String,
    pub content_type: String,
    pub body: Vec<u8>,
}

/// The value of a [`Reemission`].
#[verifier::ext_equal]
pub struct ReemissionView {
    pub endpoint: Seq<char>,
    pub content_type: Seq<char>,
    pub body: Seq<u8>,
}

impl View for Reemission {
    type V = ReemissionView;

    open spec fn view(&self) -> ReemissionView {
        ReemissionView {
            endpoint: self.endpoint@,
            content_type: self.content_type@,
            body: self.body@,
        }
    }
}

/// The URL of the re-emitter for an endpoint, given what its text denotes and whether a client
/// could be built for it.
pub open spec fn reemitter_for(
    url: Result<Seq<char>, Seq<char>>,
    client_built: bool,
) -> Result<Seq<char>, StartErrorView> {
    match url {
        Err(reason) => Err(StartErrorView::InvalidEndpoint(reason)),
        Ok(_) if !client_built => Err(StartErrorView::ClientUnavailable),
        Ok(u) => Ok(u),
    }
}

/// As [`reemitter_for`], where re-emission is optional.
pub open spec fn optional_reemitter_for(
    endpoint: Option<Seq<char>>,
    client_built: bool,
) -> Result<Option<Seq<char>>, StartErrorView> {
    match endpoint {
        None => Ok(None),
        Some(text) => match reemitter_for(parsed_url(text), client_built) {
            Ok(url) => Ok(Some(url)),
            Err(error) => Err(error),
        },
    }
}

/// The value of the outcome of building an optional re-emitter.
pub open spec fn reemitter_outcome(
    outcome: Result<Option<OtelReemitter>, StartError>,
) -> Result<Option<Seq<char>>, StartErrorView> {
    match outcome {
        Ok(Some(reemitter)) => Ok(Some(reemitter@)),
        Ok(None) => Ok(None),
        Err(error) => Err(error@),
    }
}

impl OtelReemitter {
    /// A re-emitter for an endpoint, given what its text was found to denote and whether a client
    /// could be built for it.
    pub fn with_url(url: Result<String, String>, client_built: bool) -> (reemitter: Result<
        OtelReemitter,
        StartError,
    >)
        ensures
            ({
                let expected = reemitter_for(
                    match url {
                        Ok(u) => Ok(u@),
                        Err(e) => Err(e@),
                    },
                    client_built,
                );
                match reemitter {
                    Ok(r) => expected == Ok::<Seq<char>, StartErrorView>(r@),
                    Err(e) => expected == Err::<Seq<char>, StartErrorView>(e@),
                }
            }),
    {
        match url {
            Err(reason) => Err(StartError::InvalidEndpoint(reason)),
            Ok(endpoint) => if client_built {
                Ok(OtelReemitter { endpoint })
            } else {
                Err(StartError::ClientUnavailable)
            },
        }
    }

    /// A re-emitter for an endpoint, given whether a client could be built for it.
    pub fn new(endpoint: &str, client_built: bool) -> (reemitter: Result<OtelReemitter, StartError>)
        ensures
            match reemitter {
                Ok(r) => reemitter_for(parsed_url(endpoint@), client_built) == Ok::<
                    Seq<char>,
                    StartErrorView,
                >(r@),
                Err(e) => reemitter_for(parsed_url(endpoint@), client_built) == Err::<
                    Seq<char>,
                    StartErrorView,
                >(e@),
            },
    {
        Self::with_url(parse_url(endpoint), client_built)
    }

    /// A re-emitter for an endpoint, if one is given.
    pub fn optional(endpoint: Option<&str>, client_built: bool) -> (reemitter: Result<
        Option<OtelReemitter>,
        StartError,
    >)
        ensures
            reemitter_outcome(reemitter) == optional_reemitter_for(
                match endpoint {
                    Some(text) => Some(text@),
                    None => None,
                },
                client_built,
            ),
    {
        match endpoint {
            None => Ok(None),
            Some(text) => match Self::new(text, client_built) {
                Ok(reemitter) => Ok(Some(reemitter)),
                Err(error) => Err(error),
            },
        }
    }

    /// The request that passes the given OTLP data on.
    pub fn reemit(&self, data: Vec<u8>) -> (reemission: Reemission)
        ensures
            reemission@ == (ReemissionView {
                endpoint: self@,
                content_type: PROTOBUF@,
                body: data@,
            }),
    {
        Reemission {
            endpoint: self.endpoint.clone(),
            content_type: PROTOBUF.to_owned(),
            body: data,
        }
    }
}

/// The values of errors, of re-emissions and of outcomes show what they stand for as it is.
pub proof fn law_reemission_values_are_complete(
    error: StartError,
    reemission: Reemission,
    outcome: Result<Option<OtelReemitter>, StartError>,
)
    ensures
        error matches StartError::InvalidEndpoint(text) ==> error@
            == StartErrorView::InvalidEndpoint(text@),
        error is ClientUnavailable ==> error@ == StartErrorView::ClientUnavailable,
        error is AsyncContext ==> error@ == StartErrorView::AsyncContext,
        reemission@.endpoint == reemission.endpoint@,
        reemission@.content_type == reemission.content_type@,
        reemission@.body == reemission.body@,
        outcome matches Ok(Some(reemitter)) ==> reemitter_outcome(outcome) == Ok::<
            Option<Seq<char>>,
            StartErrorView,
        >(Some(reemitter@)),
        outcome matches Ok(None) ==> reemitter_outcome(outcome) == Ok::<
            Option<Seq<char>>,
            StartErrorView,
        >(None),
        outcome matches Err(failure) ==> reemitter_outcome(outcome) == Err::<
            Option<Seq<char>>,
            StartErrorView,
        >(failure@),
{
}

/// A text that denotes a URL is re-emitted to exactly that URL, whichever it is, where a client could
/// be built. A text that denotes none is refused for that reason, whether or not a client could be
/// built; and a URL without a client is refused for the want of one.
pub proof fn law_endpoints_are_where_their_texts_say(text: Seq<char>, client_built: bool)
    ensures
        client_built ==> (parsed_url(text) matches Ok(url) ==> reemitter_for(
            parsed_url(text),
            client_built,
        ) == Ok::<Seq<char>, StartErrorView>(url) && optional_reemitter_for(
            Some(text),
            client_built,
        ) == Ok::<Option<Seq<char>>, StartErrorView>(Some(url))),
        parsed_url(text) is Ok && !client_built ==> reemitter_for(parsed_url(text), client_built)
            == Err::<Seq<char>, StartErrorView>(StartErrorView::ClientUnavailable)
            && optional_reemitter_for(Some(text), client_built) == Err::<
            Option<Seq<char>>,
            StartErrorView,
        >(StartErrorView::ClientUnavailable),
        parsed_url(text) matches Err(reason) ==> reemitter_for(parsed_url(text), client_built)
            == Err::<Seq<char>, StartErrorView>(StartErrorView::InvalidEndpoint(reason))
            && optional_reemitter_for(Some(text), client_built) == Err::<
            Option<Seq<char>>,
            StartErrorView,
        >(StartErrorView::InvalidEndpoint(reason)),
{
}

/// What a text denotes and whether a client could be built decide alone: every URL with a client is
/// used as it is, and every failure is passed on as it is.
pub proof fn law_urls_are_used_as_they_are(url: Seq<char>, reason: Seq<char>, client_built: bool)
    ensures
        reemitter_for(Ok(url), true) == Ok::<Seq<char>, StartErrorView>(url),
        reemitter_for(Ok(url), false) == Err::<Seq<char>, StartErrorView>(
            StartErrorView::ClientUnavailable,
        ),
        reemitter_for(Err(reason), client_built) == Err::<Seq<char>, StartErrorView>(
            StartErrorView::InvalidEndpoint(reason),
        ),
{
}

/// A re-emitted request is given ten seconds.
pub proof fn law_reemission_is_bounded()
    ensures
        REEMIT_TIMEOUT_SECS == 10,
{
}

/// Without an endpoint there is no re-emission, and nothing that could fail.
pub proof fn law_reemission_is_optional(client_built: bool)
    ensures
        optional_reemitter_for(None, client_built) == Ok::<Option<Seq<char>>, StartErrorView>(None),
{
}

} // verus!
