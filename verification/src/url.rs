//! What a download link points at: its validation, the file name it suggests,
//! and the exchange of requests through which its headers are learnt.

use vstd::prelude::*;
use vstd::string::*;
use crate::headers::{
    spec_accept_ranges, spec_content_dispo, spec_content_length, Headers, ParseHeaders,
};
use crate::errors::UrlError;
use crate::text::{chars_of, last_segment, last_segment_start, trim, trim_bounds};

verus! {

/// The pattern that a file name taken from a link must match.
pub const FILENAME_RE: &'static str = r#"^[\w\s,-]+(\.[\w-]+)*\.[A-Za-z0-9]{2,4}$"#;

/// Whether the `regex` crate accepts `pattern` (`regex::Regex::new` succeeds).
pub uninterp spec fn regex_compiles(pattern: Seq<char>) -> bool;

/// Whether `text` matches the regular expression `pattern` (`regex::Regex::is_match`).
pub uninterp spec fn regex_match(pattern: Seq<char>, text: Seq<char>) -> bool;

/// Compiles `pattern` with `regex::Regex::new` and tests `text` with `Regex::is_match`.
/// Trusted: `None` exactly when the pattern is refused, and otherwise whether the
/// text matches, named `regex_match`.
#[verifier::external_body]
fn regex_is_match(pattern: &str, text: &str) -> (r: Option<bool>)
    ensures
        r is Some <==> regex_compiles(pattern@),
        r matches Some(b) ==> b == regex_match(pattern@, text@),
{
    match regex::Regex::new(pattern) {
        Ok(re) => Some(re.is_match(text)),
        Err(_) => None,
    }
}

/// Whether `url::Url::parse` accepts `link`.
pub uninterp spec fn url_is_valid(link: Seq<char>) -> bool;

/// Parses `link` with `url::Url::parse`. Trusted: `true` exactly when the parse
/// succeeds, named `url_is_valid`.
#[verifier::external_body]
fn url_parses(link: &str) -> (r: bool)
    ensures
        r == url_is_valid(link@),
{
    url::Url::parse(link).is_ok()
}

/// The candidate file name of a link: its last `/`-separated part, trimmed.
pub open spec fn name_candidate(link: Seq<char>) -> Seq<char> {
    trim(last_segment(link))
}

/// The file name that a link suggests: the candidate, when it looks like a file name.
pub open spec fn spec_name_from_url(link: Seq<char>) -> Option<Seq<char>> {
    if regex_compiles(FILENAME_RE@) && regex_match(FILENAME_RE@, name_candidate(link)) {
        Some(name_candidate(link))
    } else {
        None
    }
}

fn sub_chars(v: &Vec<char>, lo: usize, hi: usize) -> (r: Vec<char>)
    requires
        lo <= hi <= v@.len(),
    ensures
        r@ == v@.subrange(lo as int, hi as int),
{
    let mut r: Vec<char> = Vec::new();
    let mut i: usize = lo;
    while i < hi
        invariant
            lo <= i <= hi <= v@.len(),
            r@ == v@.subrange(lo as int, i as int),
        decreases hi - i,
    {
        r.push(v[i]);
        i = i + 1;
        assert(r@ =~= v@.subrange(lo as int, i as int));
    }
    r
}

/// The file name that `link` suggests: the text after its last `/`, trimmed,
/// when it matches `FILENAME_RE`.
pub fn parse_name_from_url(link: &str) -> (r: Option<String>)
    ensures
        r.deep_view() == spec_name_from_url(link@),
{
    let cs = chars_of(link);
    let j = last_segment_start(&cs);
    let seg = sub_chars(&cs, j, cs.len());
    let (a, b) = trim_bounds(&seg);
    let candidate = link.substring_char(j + a, j + b);
    assert(candidate@ =~= name_candidate(link@));
    match regex_is_match(FILENAME_RE, candidate) {
        Some(true) => Some(candidate.to_owned()),
        _ => None,
    }
}

/// The outcome of the range test: the request for bytes `0-1` of the file counts as
/// answered when its body (`Some` length) holds exactly one byte; any other length, or
/// a failed request (`None`), counts as no range support.
pub fn range_reply_accepted(body_len: Option<usize>) -> (r: bool)
    ensures
        r == (body_len == Some(1usize)),
{
    match body_len {
        Some(n) => n == 1,
        None => false,
    }
}

/// A probed link: where it is, the file name to save under, the announced
/// length and whether byte ranges are served.
pub struct Url {
    pub link: String,
    pub filename: String,
    pub content_length: usize,
    pub range_support: bool,
}

impl View for Url {
    type V = (Seq<char>, Seq<char>, nat, bool);

    open spec fn view(&self) -> (Seq<char>, Seq<char>, nat, bool) {
        (self.link@, self.filename@, self.content_length as nat, self.range_support)
    }
}

impl Default for Url {
    fn default() -> (r: Self)
        ensures
            r@ == (Seq::<char>::empty(), Seq::<char>::empty(), 0nat, false),
    {
        Url { link: String::new(), filename: String::new(), content_length: 0, range_support: false }
    }
}

/// The probed link that `link` gives, from the headers of the reply and the outcome
/// of the range test: the announced length (0 when none can be read); the name from
/// `content-disposition`, else the one the link suggests, else none; the server's own
/// word on ranges, else the range test.
pub open spec fn spec_url_from_reply(
    link: Seq<char>,
    h: Seq<(Seq<char>, Seq<u8>)>,
    range_tested: bool,
) -> (Seq<char>, Seq<char>, nat, bool) {
    (
        link,
        match spec_content_dispo(h) {
            Some(f) => f,
            None => match spec_name_from_url(link) {
                Some(n) => n,
                None => Seq::empty(),
            },
        },
        match spec_content_length(h) {
            Some(n) => n,
            None => 0,
        },
        match spec_accept_ranges(h) {
            Some(b) => b,
            None => range_tested,
        },
    )
}

impl Url {
    /// Builds the probed link from the reply's headers and the range test.
    pub fn from_reply(link: &str, headers: &Headers, range_tested: bool) -> (r: Url)
        ensures
            r@ == spec_url_from_reply(link@, headers@, range_tested),
    {
        let content_length = match headers.content_length() {
            Some(n) => n,
            None => 0,
        };
        let filename = match headers.content_dispo() {
            Some(f) => f,
            None => match parse_name_from_url(link) {
                Some(n) => n,
                None => String::new(),
            },
        };
        let range_support = match headers.accept_ranges() {
            Some(b) => b,
            None => range_tested,
        };
        Url { link: link.to_owned(), filename, content_length, range_support }
    }
}

/// Where the probing of a link stands.
#[derive(Clone, Copy, PartialEq, Eq, Structural)]
pub enum ProbeStage {
    /// The HTTP client is being built.
    Client,
    /// A `HEAD` request is under way.
    Head,
    /// A `GET` request is under way, after the `HEAD` request failed.
    Get,
    /// A request for the first bytes is under way, to see whether ranges are served.
    RangeTest,
    /// Nothing is left to do.
    Finished,
}

/// What the outside world reports back to a probe.
pub enum ProbeEvent {
    /// The client was built.
    ClientReady,
    /// The client could not be built; the description of the failure.
    ClientFailed(String),
    /// The `HEAD` request was answered with these headers.
    HeadReplied(Headers),
    /// The `HEAD` request failed.
    HeadFailed,
    /// The `GET` request was answered with these headers.
    GetReplied(Headers),
    /// The `GET` request failed; the description of the failure.
    GetFailed(String),
    /// The range request came back with a body of this length (`None` when the
    /// request or the reading of the body failed).
    RangeReplied(Option<usize>),
}

/// What a probe asks the outside world to do next.
pub enum ProbeAction {
    BuildClient,
    SendHead,
    SendGet,
    SendRangeRequest,
    /// The probe is over, with this outcome.
    Finish(Result<Url, UrlError>),
}

/// The probing of one link (what `Url::new` did with its requests), as a machine
/// that is told what each request gave and says which request comes next.
pub struct UrlProbe {
    pub link: String,
    pub stage: ProbeStage,
    pub headers: Option<Headers>,
}

/// Whether a probe at `stage` can be told `event`.
pub open spec fn probe_expects(stage: ProbeStage, event: ProbeEvent) -> bool {
    match stage {
        ProbeStage::Client => event is ClientReady || event is ClientFailed,
        ProbeStage::Head => event is HeadReplied || event is HeadFailed,
        ProbeStage::Get => event is GetReplied || event is GetFailed,
        ProbeStage::RangeTest => event is RangeReplied,
        ProbeStage::Finished => false,
    }
}

impl UrlProbe {
    /// Starts probing `link`: a link that is not a URL is refused at once; otherwise
    /// the client is built first.
    pub fn start(link: &str) -> (r: (UrlProbe, ProbeAction))
        ensures
            r.0.link@ == link@,
            r.0.headers is None,
            url_is_valid(link@) ==> r.0.stage == ProbeStage::Client && r.1 is BuildClient,
            !url_is_valid(link@) ==> r.0.stage == ProbeStage::Finished && r.1 matches ProbeAction::Finish(Err(UrlError::InvalidUrl)),
    {
        let probe = UrlProbe { link: link.to_owned(), stage: ProbeStage::Client, headers: None };
        if url_parses(link) {
            (probe, ProbeAction::BuildClient)
        } else {
            (UrlProbe { stage: ProbeStage::Finished, ..probe }, ProbeAction::Finish(Err(UrlError::InvalidUrl)))
        }
    }

    /// Takes in what the last request gave and says what comes next: a failed `HEAD`
    /// is retried as a `GET`; a failed client or `GET` ends the probe with a request
    /// error; headers lead to the range test, whose outcome ends the probe.
    pub fn advance(&mut self, event: ProbeEvent) -> (a: ProbeAction)
        requires
            probe_expects(old(self).stage, event),
        ensures
            final(self).link == old(self).link,
            match (old(self).stage, event) {
                (ProbeStage::Client, ProbeEvent::ClientReady) => final(self).stage == ProbeStage::Head
                    && a is SendHead && final(self).headers == old(self).headers,
                (ProbeStage::Client, ProbeEvent::ClientFailed(m)) => final(self).stage == ProbeStage::Finished
                    && (a matches ProbeAction::Finish(Err(UrlError::RequestError(e))) && e@ == m@),
                (ProbeStage::Head, ProbeEvent::HeadReplied(h)) => final(self).stage == ProbeStage::RangeTest
                    && a is SendRangeRequest && final(self).headers == Some(h),
                (ProbeStage::Head, ProbeEvent::HeadFailed) => final(self).stage == ProbeStage::Get
                    && a is SendGet && final(self).headers == old(self).headers,
                (ProbeStage::Get, ProbeEvent::GetReplied(h)) => final(self).stage == ProbeStage::RangeTest
                    && a is SendRangeRequest && final(self).headers == Some(h),
                (ProbeStage::Get, ProbeEvent::GetFailed(m)) => final(self).stage == ProbeStage::Finished
                    && (a matches ProbeAction::Finish(Err(UrlError::RequestError(e))) && e@ == m@),
                (ProbeStage::RangeTest, ProbeEvent::RangeReplied(len)) => final(self).stage == ProbeStage::Finished
                    && (a matches ProbeAction::Finish(Ok(u)) && u@ == spec_url_from_reply(
                        old(self).link@,
                        match old(self).headers { Some(h) => h@, None => Seq::empty() },
                        len == Some(1usize),
                    )),
                _ => false,
            },
    {
        match event {
            ProbeEvent::ClientReady => {
                self.stage = ProbeStage::Head;
                ProbeAction::SendHead
            },
            ProbeEvent::ClientFailed(m) => {
                self.stage = ProbeStage::Finished;
                ProbeAction::Finish(Err(UrlError::RequestError(m)))
            },
            ProbeEvent::HeadReplied(h) => {
                self.stage = ProbeStage::RangeTest;
                self.headers = Some(h);
                ProbeAction::SendRangeRequest
            },
            ProbeEvent::HeadFailed => {
                self.stage = ProbeStage::Get;
                ProbeAction::SendGet
            },
            ProbeEvent::GetReplied(h) => {
                self.stage = ProbeStage::RangeTest;
                self.headers = Some(h);
                ProbeAction::SendRangeRequest
            },
            ProbeEvent::GetFailed(m) => {
                self.stage = ProbeStage::Finished;
                ProbeAction::Finish(Err(UrlError::RequestError(m)))
            },
            ProbeEvent::RangeReplied(len) => {
                self.stage = ProbeStage::Finished;
                let tested = range_reply_accepted(len);
                let url = match &self.headers {
                    Some(h) => Url::from_reply(self.link.as_str(), h, tested),
                    None => {
                        let empty = Headers { fields: Vec::new() };
                        assert(empty@ =~= Seq::<(Seq<char>, Seq<u8>)>::empty());
                        Url::from_reply(self.link.as_str(), &empty, tested)
                    },
                };
                ProbeAction::Finish(Ok(url))
            },
        }
    }
}

} // verus!
