//! The state that the two kinds of session share: the configuration in
//! force and the request counter, with the planning and the completion of
//! single requests and the start and the end of batches.

use vstd::prelude::*;
use crate::config::{
    header_fault, proxy_accepted, valid_timeout, ClientConfig, ConfigModel, Fault,
    config_fault, text_option,
};
use crate::dispatch::{
    counted, count, fresh, in_flight, texts, BatchKind, BatchReport, Discipline, Dispatch, Slot,
};
use crate::error::{ConfigurationError, SessionError};
use crate::headers::{normalized, overlaid};
use crate::method::{carries_body, method_named, uppercased, Method};
use crate::plan::{Outcome, Payload, PayloadModel, PlanModel, RequestPlan};
use crate::response::{received, HttpResponse};
use crate::strmap::StrMap;

verus! {

/// A session as a mathematical value.
pub struct SessionModel {
    pub config: ConfigModel,
    pub requests: nat,
}

/// A counter raised by `by`, which stops at the largest value it can hold.
pub open spec fn bumped(counter: nat, by: nat) -> nat {
    if counter + by > usize::MAX {
        usize::MAX as nat
    } else {
        counter + by
    }
}

/// The session with another timeout in force.
pub open spec fn with_timeout(m: SessionModel, timeout: u64) -> SessionModel {
    SessionModel { config: ConfigModel { timeout, ..m.config }, ..m }
}

/// The session with a proxy in force.
pub open spec fn with_proxy(m: SessionModel, address: Seq<char>) -> SessionModel {
    SessionModel { config: ConfigModel { proxy: Some(address), ..m.config }, ..m }
}

/// The session without a proxy.
pub open spec fn without_proxy(m: SessionModel) -> SessionModel {
    SessionModel { config: ConfigModel { proxy: None, ..m.config }, ..m }
}

/// The session with the given headers in the place of its default headers.
pub open spec fn with_headers(m: SessionModel, headers: Seq<(String, String)>) -> SessionModel {
    SessionModel { config: ConfigModel { headers: normalized(headers), ..m.config }, ..m }
}

/// The session with the given headers laid over its default headers.
pub open spec fn with_more_headers(m: SessionModel, headers: Seq<(String, String)>) -> SessionModel {
    SessionModel {
        config: ConfigModel { headers: overlaid(m.config.headers, headers), ..m.config },
        ..m
    }
}

/// The plan of a request under the configuration in force.
pub open spec fn plan_of(
    m: SessionModel,
    method: Method,
    url: Seq<char>,
    payload: PayloadModel,
    destination: Option<Seq<char>>,
) -> PlanModel {
    PlanModel { config: m.config, method, url, payload, destination }
}

/// The payload of a request that was given a text as its body: the text
/// where the method carries a body, nothing where it does not.
pub open spec fn body_for(method: Method, body: Seq<char>) -> PayloadModel {
    if carries_body(method) {
        PayloadModel::Text(body)
    } else {
        PayloadModel::Empty
    }
}

/// The session after one more request was counted.
pub open spec fn counted_once(m: SessionModel) -> SessionModel {
    SessionModel { requests: bumped(m.requests, 1), ..m }
}

/// The default of the warning switch: warnings are on.
pub open spec fn warn_or_default(warn_status: Option<bool>) -> bool {
    match warn_status {
        Some(warn) => warn,
        None => true,
    }
}

/// The state that the two kinds of session share.
pub struct Session {
    config: ClientConfig,
    num_req: usize,
}

impl Session {
    /// The session as a mathematical value.
    pub closed spec fn view(&self) -> SessionModel {
        SessionModel { config: self.config@, requests: self.num_req as nat }
    }

    /// Validity: the configuration in force is valid.
    pub closed spec fn wf(&self) -> bool {
        self.config.wf()
    }

    /// A session with the given configuration, where it has no fault. The
    /// header names go to lower case; the counter starts at zero.
    pub fn new(timeout: u64, headers: &StrMap<String>, proxy_url: Option<String>) -> (r: Result<
        Session,
        ConfigurationError,
    >)
        requires
            valid_timeout(timeout),
        ensures
            match r {
                Ok(session) => {
                    &&& config_fault(headers.entries(), proxy_url) is None
                    &&& session.wf()
                    &&& session@ == (SessionModel {
                        config: ConfigModel {
                            timeout,
                            headers: normalized(headers.entries()),
                            proxy: text_option(proxy_url),
                        },
                        requests: 0,
                    })
                },
                Err(e) => config_fault(headers.entries(), proxy_url) == Some(e@),
            },
    {
        match ClientConfig::new(timeout, headers.as_entries(), proxy_url) {
            Ok(config) => Ok(Session { config, num_req: 0 }),
            Err(e) => Err(e),
        }
    }

    /// The configuration in force.
    pub fn config(&self) -> (config: &ClientConfig)
        ensures
            config@ == self@.config,
            self.wf() ==> config.wf(),
    {
        &self.config
    }

    /// The number of requests counted so far.
    pub fn num_req(&self) -> (n: usize)
        ensures
            n == self@.requests,
    {
        self.num_req
    }

    /// Puts another timeout in force.
    pub fn set_timeout(&mut self, new_timeout: u64)
        requires
            old(self).wf(),
            valid_timeout(new_timeout),
        ensures
            final(self).wf(),
            final(self)@ == with_timeout(old(self)@, new_timeout),
    {
        self.config.set_timeout(new_timeout);
    }

    /// Puts a proxy in force, where its address is accepted; else the
    /// session stays as it was.
    pub fn set_proxy(&mut self, proxy: String) -> (r: Result<(), ConfigurationError>)
        requires
            old(self).wf(),
        ensures
            final(self).wf(),
            match r {
                Ok(()) => proxy_accepted(proxy@) && final(self)@ == with_proxy(old(self)@, proxy@),
                Err(e) => !proxy_accepted(proxy@) && e@ == Fault::Proxy(proxy@) && final(self)@
                    == old(self)@,
            },
    {
        self.config.set_proxy(proxy)
    }

    /// Takes the proxy out of force.
    pub fn remove_proxy(&mut self)
        requires
            old(self).wf(),
        ensures
            final(self).wf(),
            final(self)@ == without_proxy(old(self)@),
    {
        self.config.remove_proxy();
    }

    /// Lays the given headers over the default headers, where they have no
    /// fault; else the session stays as it was.
    pub fn update_headers(&mut self, new_headers: &StrMap<String>) -> (r: Result<
        (),
        ConfigurationError,
    >)
        requires
            old(self).wf(),
        ensures
            final(self).wf(),
            match r {
                Ok(()) => header_fault(new_headers.entries()) is None && final(self)@
                    == with_more_headers(old(self)@, new_headers.entries()),
                Err(e) => header_fault(new_headers.entries()) == Some(e@) && final(self)@ == old(
                    self,
                )@,
            },
    {
        self.config.update_headers(new_headers.as_entries())
    }

    /// Replaces the default headers by the given ones, where they have no
    /// fault; else the session stays as it was.
    pub fn set_headers(&mut self, new_headers: &StrMap<String>) -> (r: Result<
        (),
        ConfigurationError,
    >)
        requires
            old(self).wf(),
        ensures
            final(self).wf(),
            match r {
                Ok(()) => header_fault(new_headers.entries()) is None && final(self)@
                    == with_headers(old(self)@, new_headers.entries()),
                Err(e) => header_fault(new_headers.entries()) == Some(e@) && final(self)@ == old(
                    self,
                )@,
            },
    {
        self.config.set_headers(new_headers.as_entries())
    }

    /// The plan of one request under the configuration in force.
    pub fn plan(
        &self,
        method: Method,
        url: String,
        payload: Payload,
        destination: Option<String>,
    ) -> (plan: RequestPlan)
        requires
            self.wf(),
        ensures
            plan.config.wf(),
            plan@ == plan_of(self@, method, url@, payload@, text_option(destination)),
    {
        RequestPlan { config: self.config.snapshot(), method, url, payload, destination }
    }

    /// The plan of a request whose method is given by a string, in any
    /// case. A string that names no method gives no plan.
    pub fn send_request(&self, url: String, body: String, method_str: &str) -> (r: Result<
        RequestPlan,
        SessionError,
    >)
        requires
            self.wf(),
        ensures
            match r {
                Ok(plan) => {
                    &&& method_named(uppercased(method_str@)) matches Some(method)
                    &&& plan.config.wf()
                    &&& plan@ == plan_of(self@, method, url@, body_for(method, body@), None)
                },
                Err(e) => method_named(uppercased(method_str@)) is None && e is InvalidMethod,
            },
    {
        match Method::parse(method_str) {
            Some(method) => Ok(self.request(method, url, body)),
            None => Err(SessionError::InvalidMethod),
        }
    }

    /// The plan of a request of the given method that was given a text as
    /// its body.
    pub fn request(&self, method: Method, url: String, body: String) -> (plan: RequestPlan)
        requires
            self.wf(),
        ensures
            plan.config.wf(),
            plan@ == plan_of(self@, method, url@, body_for(method, body@), None),
    {
        if method.has_body() {
            self.plan(method, url, Payload::Text(body), None)
        } else {
            self.plan(method, url, Payload::Empty, None)
        }
    }

    /// Takes what came of a single request. A success is counted and hands
    /// out the envelope of the response, if there is a response; a failure
    /// is handed out as an error and not counted.
    pub fn complete(&mut self, method: Method, outcome: Outcome) -> (r: Result<
        Option<HttpResponse>,
        SessionError,
    >)
        requires
            old(self).wf(),
        ensures
            final(self).wf(),
            final(self)@ == (if outcome.succeeded() {
                counted_once(old(self)@)
            } else {
                old(self)@
            }),
            match outcome {
                Outcome::Response(raw) => r matches Ok(Some(envelope)) && envelope.wf() && envelope@
                    == received(
                    raw.status_code,
                    raw.headers@,
                    match raw.body {
                        Some(bytes) => bytes@,
                        None => Seq::empty(),
                    },
                ),
                Outcome::Written => r matches Ok(None),
                Outcome::FetchFailed(cause) => r matches Err(SessionError::Request(name, text))
                    && name@ == method.name() && text@ == cause@,
                Outcome::ReadFailed(cause) => r matches Err(SessionError::Request(name, text))
                    && name@ == method.name() && text@ == cause@,
                Outcome::WriteFailed(cause) => r matches Err(SessionError::Io(text)) && text@
                    == cause@,
            },
    {
        match outcome {
            Outcome::Response(raw) => {
                self.count(1);
                Ok(Some(HttpResponse::from_reqwest(raw.status_code, &raw.headers, raw.body)))
            },
            Outcome::Written => {
                self.count(1);
                Ok(None)
            },
            Outcome::FetchFailed(cause) => Err(SessionError::Request(method.as_string(), cause)),
            Outcome::ReadFailed(cause) => Err(SessionError::Request(method.as_string(), cause)),
            Outcome::WriteFailed(cause) => Err(SessionError::Io(cause)),
        }
    }

    /// Raises the request counter.
    fn count(&mut self, by: usize)
        requires
            old(self).wf(),
        ensures
            final(self).wf(),
            final(self)@ == (SessionModel {
                requests: bumped(old(self)@.requests, by as nat),
                ..old(self)@
            }),
    {
        if by > usize::MAX - self.num_req {
            self.num_req = usize::MAX;
        } else {
            self.num_req = self.num_req + by;
        }
    }

    /// A batch of the given requests under the configuration in force. The
    /// lists that pair with the URLs must be as long as the list of URLs;
    /// else there is no batch, and no request.
    pub fn batch(
        &self,
        discipline: Discipline,
        kind: BatchKind,
        urls: Vec<String>,
        bodies: Vec<Vec<u8>>,
        forms: Vec<StrMap<String>>,
        files: Vec<String>,
        limit: usize,
        warn_status: Option<bool>,
    ) -> (r: Result<Dispatch, SessionError>)
        requires
            self.wf(),
        ensures
            match r {
                Ok(dispatch) => {
                    &&& paired(kind, urls@.len(), bodies@.len(), forms@.len(), files@.len())
                    &&& dispatch.wf()
                    &&& dispatch@ == fresh(
                        self@.config,
                        discipline,
                        kind,
                        texts(urls@),
                        texts(files@),
                        limit as nat,
                        warn_or_default(warn_status),
                    )
                    &&& in_flight(dispatch@) == 0
                    &&& dispatch.bodies() == bodies@
                    &&& dispatch.forms() == forms@
                },
                Err(e) => !paired(kind, urls@.len(), bodies@.len(), forms@.len(), files@.len())
                    && e is LengthMismatch,
            },
    {
        let n = urls.len();
        let fits = match kind {
            BatchKind::Get => bodies.len() == 0 && forms.len() == 0 && files.len() == 0,
            BatchKind::Post => bodies.len() == n && forms.len() == 0 && files.len() == 0,
            BatchKind::PostJson => bodies.len() == 0 && forms.len() == n && files.len() == 0,
            BatchKind::Download => bodies.len() == 0 && forms.len() == 0 && files.len() == n,
        };
        if !fits {
            return Err(SessionError::LengthMismatch);
        }
        let warn = match warn_status {
            Some(warn) => warn,
            None => true,
        };
        Ok(
            Dispatch::new(
                self.config.snapshot(),
                discipline,
                kind,
                urls,
                bodies,
                forms,
                files,
                limit,
                warn,
            ),
        )
    }

    /// Ends a batch: counts its requests as its discipline and kind say, and
    /// hands out what it leaves.
    pub fn finish_batch(&mut self, dispatch: Dispatch) -> (report: BatchReport)
        requires
            old(self).wf(),
            dispatch.wf(),
        ensures
            final(self).wf(),
            final(self)@ == (SessionModel {
                requests: bumped(old(self)@.requests, report.counted as nat),
                ..old(self)@
            }),
            report.results == dispatch.results(),
            texts(report.warnings@) == dispatch@.warnings,
            report.counted == counted(
                dispatch@.discipline,
                dispatch@.kind,
                dispatch@.urls.len(),
                dispatch@.started,
                count(dispatch@.slots, Slot::Answered),
                dispatch@.entries,
            ),
    {
        let report = dispatch.finish();
        self.count(report.counted);
        report
    }
}

/// Whether the lists of a batch pair with its URLs: a batch of `GET`s has
/// URLs only, any other batch one list more, as long as the list of URLs.
pub open spec fn paired(kind: BatchKind, urls: nat, bodies: nat, forms: nat, files: nat) -> bool {
    match kind {
        BatchKind::Get => bodies == 0 && forms == 0 && files == 0,
        BatchKind::Post => bodies == urls && forms == 0 && files == 0,
        BatchKind::PostJson => bodies == 0 && forms == urls && files == 0,
        BatchKind::Download => bodies == 0 && forms == 0 && files == urls,
    }
}

} // verus!
