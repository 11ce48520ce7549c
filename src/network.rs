use vstd::prelude::*;
use crate::json::{json_string_member, string_member};
use crate::text::{chars_of, contains_chars, contains_seq, lower_of, lowercase, trim_text, trimmed};

verus! {

/// How often the exit-confirmation endpoint is asked before falling back.
pub const PRIMARY_ATTEMPTS: u32 = 12;

/// Seconds to wait before asking the exit-confirmation endpoint again after
/// it could not be reached.
pub const RETRY_PAUSE_SECS: u64 = 5;

/// Seconds that any one request may take.
pub const REQUEST_TIMEOUT_SECS: u64 = 5;

/// The address reported when no source gave one.
pub open spec fn ip_failure_text() -> Seq<char> {
    "Error obtaining IP"@
}

/// The country reported when no source gave one.
pub open spec fn unknown_country_text() -> Seq<char> {
    "Unknown"@
}

/// The public address and its country.
#[derive(Clone, Debug)]
pub struct IpInfo {
    pub ip: String,
    pub country: String,
}

/// How the exit-confirmation endpoint is retried.
#[derive(Clone, Copy, Debug, PartialEq, Eq, Structural)]
pub struct RetryPolicy {
    /// Attempts in all, the first included.
    pub attempts: u32,
    /// Pause before the next attempt after one that could not reach the endpoint.
    pub pause_secs: u64,
}

impl RetryPolicy {
    /// Twelve attempts, five seconds apart.
    pub fn standard() -> (r: RetryPolicy)
        ensures
            r.attempts == PRIMARY_ATTEMPTS,
            r.pause_secs == RETRY_PAUSE_SECS,
    {
        RetryPolicy { attempts: PRIMARY_ATTEMPTS, pause_secs: RETRY_PAUSE_SECS }
    }
}

/// Which lookup is under way.
#[derive(Debug)]
pub enum Lookup {
    /// The exit-confirmation endpoint, after `tried` failed attempts.
    Primary { tried: u32 },
    /// The plain-text address echo.
    Fallback,
    /// The plain-text country lookup for `ip`.
    Country { ip: String },
    /// The JSON geolocation lookup for `ip`.
    Geo { ip: String },
    /// The result has been handed out.
    Finished,
}

/// What the caller must fetch next, or the result.
#[derive(Debug)]
pub enum Request {
    /// Wait `wait_secs` seconds, then ask the exit-confirmation endpoint.
    Primary { wait_secs: u64 },
    /// Ask the plain-text address echo.
    Fallback,
    /// Ask the plain-text country lookup for `ip`.
    Country { ip: String },
    /// Ask the JSON geolocation lookup for `ip`.
    Geo { ip: String },
    /// The resolution is over.
    Done(IpInfo),
    /// Nothing is left to do.
    Stop,
}

/// How one request went.
#[derive(Clone, Debug)]
pub enum Reply {
    /// No response: a network error or a timeout.
    Unreachable,
    /// A response whose body could not be read.
    Unreadable,
    /// A response with this body.
    Body(String),
}

/// What a reply told the lookup under way.
#[derive(Debug)]
pub enum Finding {
    Unreachable,
    /// A response that gave nothing usable.
    Missing,
    /// The address or country looked for.
    Found(String),
}

/// The lookup under way, with texts as character sequences.
pub enum LookupView {
    Primary { tried: nat },
    Fallback,
    Country { ip: Seq<char> },
    Geo { ip: Seq<char> },
    Finished,
}

/// A request, with texts as character sequences.
pub enum RequestView {
    Primary { wait_secs: nat },
    Fallback,
    Country { ip: Seq<char> },
    Geo { ip: Seq<char> },
    Done { ip: Seq<char>, country: Seq<char> },
    Stop,
}

/// A finding, with texts as character sequences.
pub enum FindingView {
    Unreachable,
    Missing,
    Found(Seq<char>),
}

impl View for Lookup {
    type V = LookupView;

    open spec fn view(&self) -> LookupView {
        match self {
            Lookup::Primary { tried } => LookupView::Primary { tried: *tried as nat },
            Lookup::Fallback => LookupView::Fallback,
            Lookup::Country { ip } => LookupView::Country { ip: ip@ },
            Lookup::Geo { ip } => LookupView::Geo { ip: ip@ },
            Lookup::Finished => LookupView::Finished,
        }
    }
}

impl View for Request {
    type V = RequestView;

    open spec fn view(&self) -> RequestView {
        match self {
            Request::Primary { wait_secs } => RequestView::Primary { wait_secs: *wait_secs as nat },
            Request::Fallback => RequestView::Fallback,
            Request::Country { ip } => RequestView::Country { ip: ip@ },
            Request::Geo { ip } => RequestView::Geo { ip: ip@ },
            Request::Done(info) => RequestView::Done { ip: info.ip@, country: info.country@ },
            Request::Stop => RequestView::Stop,
        }
    }
}

impl View for Finding {
    type V = FindingView;

    open spec fn view(&self) -> FindingView {
        match self {
            Finding::Unreachable => FindingView::Unreachable,
            Finding::Missing => FindingView::Missing,
            Finding::Found(s) => FindingView::Found(s@),
        }
    }
}

/// The first lookup under `p`, and the first request.
pub open spec fn start_spec(p: RetryPolicy) -> (LookupView, RequestView) {
    if p.attempts == 0 {
        (LookupView::Fallback, RequestView::Fallback)
    } else {
        (LookupView::Primary { tried: 0 }, RequestView::Primary { wait_secs: 0 })
    }
}

/// The next lookup and request after finding `f` during lookup `s`.
pub open spec fn advance_spec(p: RetryPolicy, s: LookupView, f: FindingView) -> (LookupView, RequestView) {
    match s {
        LookupView::Primary { tried } => match f {
            FindingView::Found(ip) => (LookupView::Country { ip }, RequestView::Country { ip }),
            _ => if tried + 1 < p.attempts {
                (
                    LookupView::Primary { tried: tried + 1 },
                    RequestView::Primary {
                        wait_secs: if f is Unreachable { p.pause_secs as nat } else { 0 },
                    },
                )
            } else {
                (LookupView::Fallback, RequestView::Fallback)
            },
        },
        LookupView::Fallback => match f {
            FindingView::Found(ip) => (LookupView::Country { ip }, RequestView::Country { ip }),
            _ => (
                LookupView::Finished,
                RequestView::Done { ip: ip_failure_text(), country: unknown_country_text() },
            ),
        },
        LookupView::Country { ip } => match f {
            FindingView::Found(c) => (LookupView::Finished, RequestView::Done { ip, country: c }),
            _ => (LookupView::Geo { ip }, RequestView::Geo { ip }),
        },
        LookupView::Geo { ip } => match f {
            FindingView::Found(c) => (LookupView::Finished, RequestView::Done { ip, country: c }),
            _ => (LookupView::Finished, RequestView::Done { ip, country: unknown_country_text() }),
        },
        LookupView::Finished => (LookupView::Finished, RequestView::Stop),
    }
}

/// A trimmed country reply is taken when it is not empty and its lower-case
/// form does not mention an error.
pub open spec fn country_accepted(reply: Seq<char>, lowered: Seq<char>) -> bool {
    reply.len() > 0 && !contains_seq(lowered, "error"@)
}

/// The country of a geolocation reply: its `country` member, taken only when
/// its `status` member says `success`.
pub open spec fn geo_country_spec(country: Option<Seq<char>>, status: Option<Seq<char>>) -> Option<Seq<char>> {
    if status == Some("success"@) {
        country
    } else {
        None
    }
}

/// `Found` for a value, `Missing` for none.
pub open spec fn found_or_missing(v: Option<Seq<char>>) -> FindingView {
    match v {
        Some(s) => FindingView::Found(s),
        None => FindingView::Missing,
    }
}

/// What reply `r` tells lookup `s`.
pub open spec fn finding_of(s: LookupView, r: Reply) -> FindingView {
    match r {
        Reply::Unreachable => FindingView::Unreachable,
        Reply::Unreadable => FindingView::Missing,
        Reply::Body(b) => match s {
            LookupView::Primary { .. } => found_or_missing(json_string_member(b@, "IP"@)),
            LookupView::Fallback => FindingView::Found(trimmed(b@)),
            LookupView::Country { .. } => if country_accepted(
                trimmed(b@),
                lower_of(trimmed(b@)),
            ) {
                FindingView::Found(trimmed(b@))
            } else {
                FindingView::Missing
            },
            LookupView::Geo { .. } => found_or_missing(
                geo_country_spec(json_string_member(b@, "country"@), json_string_member(b@, "status"@)),
            ),
            LookupView::Finished => FindingView::Missing,
        },
    }
}

/// Whether a trimmed country reply is taken, given its lower-case form.
pub fn country_reply_accepted(reply: &str, lowered: &str) -> (r: bool)
    ensures
        r == country_accepted(reply@, lowered@),
{
    let marker = chars_of("error");
    let text = chars_of(lowered);
    reply.unicode_len() > 0 && !contains_chars(&text, &marker)
}

/// The country that a geolocation reply gives, from its `country` and
/// `status` members.
pub fn geo_country(country: Option<String>, status: Option<String>) -> (r: Option<String>)
    ensures
        opt_view(r) == geo_country_spec(opt_view(country), opt_view(status)),
{
    match status {
        Some(st) => {
            let success = "success".to_string();
            if st == success {
                country
            } else {
                None
            }
        },
        None => None,
    }
}

/// The view of an optional text.
pub open spec fn opt_view(v: Option<String>) -> Option<Seq<char>> {
    match v {
        Some(s) => Some(s@),
        None => None,
    }
}

fn found_or_missing_of(v: Option<String>) -> (r: Finding)
    ensures
        r@ == found_or_missing(opt_view(v)),
{
    match v {
        Some(s) => Finding::Found(s),
        None => Finding::Missing,
    }
}

/// The state of one public-address resolution.
#[derive(Debug)]
pub struct IpResolver {
    pub policy: RetryPolicy,
    pub lookup: Lookup,
}

impl IpResolver {
    /// Starts a resolution under `policy`; also gives the first request.
    pub fn start(policy: RetryPolicy) -> (r: (IpResolver, Request))
        ensures
            r.0.policy == policy,
            (r.0.lookup@, r.1@) == start_spec(policy),
    {
        if policy.attempts == 0 {
            (IpResolver { policy, lookup: Lookup::Fallback }, Request::Fallback)
        } else {
            (IpResolver { policy, lookup: Lookup::Primary { tried: 0 } }, Request::Primary { wait_secs: 0 })
        }
    }

    /// What `reply` tells the lookup under way.
    pub fn observe(&self, reply: &Reply) -> (r: Finding)
        ensures
            r@ == finding_of(self.lookup@, *reply),
    {
        match reply {
            Reply::Unreachable => Finding::Unreachable,
            Reply::Unreadable => Finding::Missing,
            Reply::Body(b) => match &self.lookup {
                Lookup::Primary { .. } => found_or_missing_of(string_member(b.as_str(), "IP")),
                Lookup::Fallback => Finding::Found(trim_text(b.as_str())),
                Lookup::Country { .. } => {
                    let reply = trim_text(b.as_str());
                    let lowered = lowercase(reply.as_str());
                    if country_reply_accepted(reply.as_str(), lowered.as_str()) {
                        Finding::Found(reply)
                    } else {
                        Finding::Missing
                    }
                },
                Lookup::Geo { .. } => {
                    let country = string_member(b.as_str(), "country");
                    let status = string_member(b.as_str(), "status");
                    found_or_missing_of(geo_country(country, status))
                },
                Lookup::Finished => Finding::Missing,
            },
        }
    }

    /// Moves on after finding `f`, and gives the next request.
    pub fn advance(&mut self, f: Finding) -> (r: Request)
        ensures
            final(self).policy == old(self).policy,
            (final(self).lookup@, r@) == advance_spec(old(self).policy, old(self).lookup@, f@),
    {
        match &self.lookup {
            Lookup::Primary { tried } => {
                let tried = *tried;
                match f {
                    Finding::Found(ip) => {
                        self.lookup = Lookup::Country { ip: ip.clone() };
                        Request::Country { ip }
                    },
                    Finding::Unreachable => {
                        let pause = self.policy.pause_secs;
                        self.retry(tried, pause)
                    },
                    Finding::Missing => self.retry(tried, 0),
                }
            },
            Lookup::Fallback => match f {
                Finding::Found(ip) => {
                    self.lookup = Lookup::Country { ip: ip.clone() };
                    Request::Country { ip }
                },
                _ => {
                    self.lookup = Lookup::Finished;
                    Request::Done(
                        IpInfo { ip: "Error obtaining IP".to_string(), country: "Unknown".to_string() },
                    )
                },
            },
            Lookup::Country { ip } => {
                let ip = ip.clone();
                match f {
                    Finding::Found(c) => {
                        self.lookup = Lookup::Finished;
                        Request::Done(IpInfo { ip, country: c })
                    },
                    _ => {
                        self.lookup = Lookup::Geo { ip: ip.clone() };
                        Request::Geo { ip }
                    },
                }
            },
            Lookup::Geo { ip } => {
                let ip = ip.clone();
                self.lookup = Lookup::Finished;
                match f {
                    Finding::Found(c) => Request::Done(IpInfo { ip, country: c }),
                    _ => Request::Done(IpInfo { ip, country: "Unknown".to_string() }),
                }
            },
            Lookup::Finished => Request::Stop,
        }
    }

    /// After `tried` failed attempts and one more, either waits `wait_secs`
    /// and tries again or falls back.
    fn retry(&mut self, tried: u32, wait_secs: u64) -> (r: Request)
        ensures
            final(self).policy == old(self).policy,
            (tried as nat + 1 < old(self).policy.attempts) ==> final(self).lookup@
                == (LookupView::Primary { tried: tried as nat + 1 }) && r@ == (RequestView::Primary {
                wait_secs: wait_secs as nat,
            }),
            !(tried as nat + 1 < old(self).policy.attempts) ==> final(self).lookup@
                == LookupView::Fallback && r@ == RequestView::Fallback,
    {
        if (tried as u64) + 1 < self.policy.attempts as u64 {
            self.lookup = Lookup::Primary { tried: tried + 1 };
            Request::Primary { wait_secs }
        } else {
            self.lookup = Lookup::Fallback;
            Request::Fallback
        }
    }

    /// Takes the reply to the last request and gives the next one.
    pub fn on_reply(&mut self, reply: Reply) -> (r: Request)
        ensures
            final(self).policy == old(self).policy,
            (final(self).lookup@, r@) == advance_spec(
                old(self).policy,
                old(self).lookup@,
                finding_of(old(self).lookup@, reply),
            ),
    {
        let f = self.observe(&reply);
        self.advance(f)
    }
}

} // verus!
