//! The session that runs its batches all at once on a cooperative scheduler.

use vstd::prelude::*;
use crate::config::{
    config_fault, header_fault, proxy_accepted, text_option, valid_timeout, ClientConfig,
    ConfigModel, Fault,
};
use crate::dispatch::{
    count, counted, fresh, in_flight, texts, BatchKind, BatchReport, Discipline, Dispatch, Slot,
};
use crate::error::{ConfigurationError, SessionError};
use crate::headers::normalized;
use crate::method::{method_named, uppercased, Method};
use crate::plan::{Outcome, Payload, PayloadModel, RequestPlan};
use crate::response::{received, HttpResponse};
use crate::session::{
    body_for, bumped, counted_once, plan_of, warn_or_default, with_headers, with_more_headers,
    with_proxy, with_timeout, without_proxy, Session, SessionModel,
};
use crate::strmap::StrMap;

verus! {

/// A session whose batches run all at once: every request of a batch is
/// handed out in one wave, with no limit on their number.
pub struct AsyncSessionRs {
    core: Session,
}

impl AsyncSessionRs {
    /// The session as a mathematical value.
    pub closed spec fn view(&self) -> SessionModel {
        self.core@
    }

    /// Validity: the configuration in force is valid.
    pub closed spec fn wf(&self) -> bool {
        self.core.wf()
    }

    /// A session with the given timeout, default headers and proxy, where
    /// they have no fault. The timeout is given in seconds, by the bits of
    /// an IEEE 754 binary64 number.
    pub fn new(timeout: u64, headers: &StrMap<String>, proxy_url: Option<String>) -> (r: Result<
        AsyncSessionRs,
        ConfigurationError,
    >)
        requires
            valid_timeout(timeout),
        ensures
            match r {
                Ok(session) => {
                    &&& config_fault(headers.entries(), proxy_url) is None
                    &&& session.wf()
                    &&& session@ == (SessionModel {
                        config: ConfigModel {
                            timeout,
                            headers: normalized(headers.entries()),
                            proxy: text_option(proxy_url),
                        },
                        requests: 0,
                    })
                },
                Err(e) => config_fault(headers.entries(), proxy_url) == Some(e@),
            },
    {
        match Session::new(timeout, headers, proxy_url) {
            Ok(core) => Ok(AsyncSessionRs { core }),
            Err(e) => Err(e),
        }
    }

    /// The configuration in force, from which the transport client is built.
    pub fn config(&self) -> (config: &ClientConfig)
        ensures
            config@ == self@.config,
            self.wf() ==> config.wf(),
    {
        self.core.config()
    }

    /// The number of requests counted so far.
    pub fn num_req(&self) -> (n: usize)
        ensures
            n == self@.requests,
    {
        self.core.num_req()
    }

    /// Puts a proxy in force, where its address is accepted; else the
    /// session stays as it was.
    pub fn set_proxy(&mut self, proxy: String) -> (r: Result<(), ConfigurationError>)
        requires
            old(self).wf(),
        ensures
            final(self).wf(),
            match r {
                Ok(()) => proxy_accepted(proxy@) && final(self)@ == with_proxy(old(self)@, proxy@),
                Err(e) => !proxy_accepted(proxy@) && e@ == Fault::Proxy(proxy@) && final(self)@
                    == old(self)@,
            },
    {
        self.core.set_proxy(proxy)
    }

    /// Takes the proxy out of force.
    pub fn remove_proxy(&mut self)
        requires
            old(self).wf(),
        ensures
            final(self).wf(),
            final(self)@ == without_proxy(old(self)@),
    {
        self.core.remove_proxy();
    }

    /// Lays the given headers over the default headers, where they have no
    /// fault; else the session stays as it was.
    pub fn update_headers(&mut self, new_headers: &StrMap<String>) -> (r: Result<
        (),
        ConfigurationError,
    >)
        requires
            old(self).wf(),
        ensures
            final(self).wf(),
            match r {
                Ok(()) => header_fault(new_headers.entries()) is None && final(self)@
                    == with_more_headers(old(self)@, new_headers.entries()),
                Err(e) => header_fault(new_headers.entries()) == Some(e@) && final(self)@ == old(
                    self,
                )@,
            },
    {
        self.core.update_headers(new_headers)
    }

    /// Puts another timeout in force.
    pub fn set_timeout(&mut self, new_timeout: u64)
        requires
            old(self).wf(),
            valid_timeout(new_timeout),
        ensures
            final(self).wf(),
            final(self)@ == with_timeout(old(self)@, new_timeout),
    {
        self.core.set_timeout(new_timeout);
    }

    /// Replaces the default headers by the given ones, where they have no
    /// fault; else the session stays as it was.
    pub fn set_headers(&mut self, new_headers: &StrMap<String>) -> (r: Result<
        (),
        ConfigurationError,
    >)
        requires
            old(self).wf(),
        ensures
            final(self).wf(),
            match r {
                Ok(()) => header_fault(new_headers.entries()) is None && final(self)@
                    == with_headers(old(self)@, new_headers.entries()),
                Err(e) => header_fault(new_headers.entries()) == Some(e@) && final(self)@ == old(
                    self,
                )@,
            },
    {
        self.core.set_headers(new_headers)
    }

    /// Plans a `GET`.
    pub fn get(&self, url: String) -> (plan: RequestPlan)
        requires
            self.wf(),
        ensures
            plan.config.wf(),
            plan@ == plan_of(self@, Method::Get, url@, PayloadModel::Empty, None),
    {
        self.core.plan(Method::Get, url, Payload::Empty, None)
    }

    /// Plans a `POST` with the given bytes as its body.
    pub fn post(&self, url: String, data: Vec<u8>) -> (plan: RequestPlan)
        requires
            self.wf(),
        ensures
            plan.config.wf(),
            plan@ == plan_of(self@, Method::Post, url@, PayloadModel::Bytes(data@), None),
    {
        self.core.plan(Method::Post, url, Payload::Bytes(data), None)
    }

    /// Plans a `POST` with the given mapping, written as JSON, as its body.
    pub fn post_json(&self, url: String, data: StrMap<String>) -> (plan: RequestPlan)
        requires
            self.wf(),
        ensures
            plan.config.wf(),
            plan@ == plan_of(
                self@,
                Method::Post,
                url@,
                PayloadModel::JsonMap(data.entries()),
                None,
            ),
    {
        self.core.plan(Method::Post, url, Payload::JsonMap(data), None)
    }

    /// Plans a `PUT` with the given text as its body.
    pub fn put(&self, url: String, body: String) -> (plan: RequestPlan)
        requires
            self.wf(),
        ensures
            plan.config.wf(),
            plan@ == plan_of(self@, Method::Put, url@, PayloadModel::Text(body@), None),
    {
        self.core.request(Method::Put, url, body)
    }

    /// Plans a `DELETE`.
    pub fn delete(&self, url: String) -> (plan: RequestPlan)
        requires
            self.wf(),
        ensures
            plan.config.wf(),
            plan@ == plan_of(self@, Method::Delete, url@, PayloadModel::Empty, None),
    {
        self.core.request(Method::Delete, url, String::new())
    }

    /// Plans a `HEAD`.
    pub fn head(&self, url: String) -> (plan: RequestPlan)
        requires
            self.wf(),
        ensures
            plan.config.wf(),
            plan@ == plan_of(self@, Method::Head, url@, PayloadModel::Empty, None),
    {
        self.core.request(Method::Head, url, String::new())
    }

    /// Plans an `OPTIONS`.
    pub fn options(&self, url: String) -> (plan: RequestPlan)
        requires
            self.wf(),
        ensures
            plan.config.wf(),
            plan@ == plan_of(self@, Method::Options, url@, PayloadModel::Empty, None),
    {
        self.core.request(Method::Options, url, String::new())
    }

    /// Plans a `TRACE`.
    pub fn trace(&self, url: String) -> (plan: RequestPlan)
        requires
            self.wf(),
        ensures
            plan.config.wf(),
            plan@ == plan_of(self@, Method::Trace, url@, PayloadModel::Empty, None),
    {
        self.core.request(Method::Trace, url, String::new())
    }

    /// Plans a `CONNECT`.
    pub fn connect(&self, url: String) -> (plan: RequestPlan)
        requires
            self.wf(),
        ensures
            plan.config.wf(),
            plan@ == plan_of(self@, Method::Connect, url@, PayloadModel::Empty, None),
    {
        self.core.request(Method::Connect, url, String::new())
    }

    /// Plans a `GET` whose body, as received, goes to the file `filename`.
    pub fn download(&self, url: String, filename: String) -> (plan: RequestPlan)
        requires
            self.wf(),
        ensures
            plan.config.wf(),
            plan@ == plan_of(self@, Method::Get, url@, PayloadModel::Empty, Some(filename@)),
    {
        self.core.plan(Method::Get, url, Payload::Empty, Some(filename))
    }

    /// Plans a request whose method is given by a string, in any case. A
    /// string that names no method gives no plan, so that nothing is sent.
    pub fn send_request(&self, url: String, body: String, method_str: &str) -> (r: Result<
        RequestPlan,
        SessionError,
    >)
        requires
            self.wf(),
        ensures
            match r {
                Ok(plan) => {
                    &&& method_named(uppercased(method_str@)) matches Some(method)
                    &&& plan.config.wf()
                    &&& plan@ == plan_of(self@, method, url@, body_for(method, body@), None)
                },
                Err(e) => method_named(uppercased(method_str@)) is None && e is InvalidMethod,
            },
    {
        self.core.send_request(url, body, method_str)
    }

    /// Takes what came of a single request of the given method. A success
    /// is counted and hands out the envelope of the response, if there is a
    /// response; a failure is handed out as an error and not counted.
    pub fn complete(&mut self, method: Method, outcome: Outcome) -> (r: Result<
        Option<HttpResponse>,
        SessionError,
    >)
        requires
            old(self).wf(),
        ensures
            final(self).wf(),
            final(self)@ == (if outcome.succeeded() {
                counted_once(old(self)@)
            } else {
                old(self)@
            }),
            match outcome {
                Outcome::Response(raw) => r matches Ok(Some(envelope)) && envelope.wf() && envelope@
                    == received(
                    raw.status_code,
                    raw.headers@,
                    match raw.body {
                        Some(bytes) => bytes@,
                        None => Seq::empty(),
                    },
                ),
                Outcome::Written => r matches Ok(None),
                Outcome::FetchFailed(cause) => r matches Err(SessionError::Request(name, text))
                    && name@ == method.name() && text@ == cause@,
                Outcome::ReadFailed(cause) => r matches Err(SessionError::Request(name, text))
                    && name@ == method.name() && text@ == cause@,
                Outcome::WriteFailed(cause) => r matches Err(SessionError::Io(text)) && text@
                    == cause@,
            },
    {
        self.core.complete(method, outcome)
    }

    /// Starts a batch of `GET`s, run all at once.
    pub fn get_batch(&self, urls: Vec<String>, warn_status: Option<bool>) -> (dispatch: Dispatch)
        requires
            self.wf(),
        ensures
            dispatch.wf(),
            dispatch@ == fresh(
                self@.config,
                Discipline::AllAtOnce,
                BatchKind::Get,
                texts(urls@),
                Seq::empty(),
                urls@.len(),
                warn_or_default(warn_status),
            ),
            in_flight(dispatch@) == 0,
    {
        let limit = urls.len();
        let warn = match warn_status {
            Some(warn) => warn,
            None => true,
        };
        let dispatch = Dispatch::new(
            self.core.config().snapshot(),
            Discipline::AllAtOnce,
            BatchKind::Get,
            urls,
            Vec::new(),
            Vec::new(),
            Vec::new(),
            limit,
            warn,
        );
        assert(dispatch@.files =~= Seq::empty());
        dispatch
    }

    /// Starts a batch of `POST`s, run all at once, each body as it is. The
    /// lists must be of one length; else there is no batch, and nothing is
    /// sent.
    pub fn post_batch(
        &self,
        urls: Vec<String>,
        data: Vec<Vec<u8>>,
        warn_status: Option<bool>,
    ) -> (r: Result<Dispatch, SessionError>)
        requires
            self.wf(),
        ensures
            match r {
                Ok(dispatch) => {
                    &&& urls@.len() == data@.len()
                    &&& dispatch.wf()
                    &&& dispatch@ == fresh(
                        self@.config,
                        Discipline::AllAtOnce,
                        BatchKind::Post,
                        texts(urls@),
                        Seq::empty(),
                        urls@.len(),
                        warn_or_default(warn_status),
                    )
                    &&& in_flight(dispatch@) == 0
                    &&& dispatch.bodies() == data@
                },
                Err(e) => urls@.len() != data@.len() && e is LengthMismatch,
            },
    {
        let limit = urls.len();
        match self.core.batch(
            Discipline::AllAtOnce,
            BatchKind::Post,
            urls,
            data,
            Vec::new(),
            Vec::new(),
            limit,
            warn_status,
        ) {
            Ok(dispatch) => {
                assert(dispatch@.files =~= Seq::empty());
                Ok(dispatch)
            },
            Err(e) => Err(e),
        }
    }

    /// Starts a batch of `POST`s with JSON bodies, run all at once. The
    /// lists must be of one length; else there is no batch, and nothing is
    /// sent.
    pub fn post_json_batch(
        &self,
        urls: Vec<String>,
        data: Vec<StrMap<String>>,
        warn_status: Option<bool>,
    ) -> (r: Result<Dispatch, SessionError>)
        requires
            self.wf(),
        ensures
            match r {
                Ok(dispatch) => {
                    &&& urls@.len() == data@.len()
                    &&& dispatch.wf()
                    &&& dispatch@ == fresh(
                        self@.config,
                        Discipline::AllAtOnce,
                        BatchKind::PostJson,
                        texts(urls@),
                        Seq::empty(),
                        urls@.len(),
                        warn_or_default(warn_status),
                    )
                    &&& in_flight(dispatch@) == 0
                    &&& dispatch.forms() == data@
                },
                Err(e) => urls@.len() != data@.len() && e is LengthMismatch,
            },
    {
        let limit = urls.len();
        match self.core.batch(
            Discipline::AllAtOnce,
            BatchKind::PostJson,
            urls,
            Vec::new(),
            data,
            Vec::new(),
            limit,
            warn_status,
        ) {
            Ok(dispatch) => {
                assert(dispatch@.files =~= Seq::empty());
                Ok(dispatch)
            },
            Err(e) => Err(e),
        }
    }

    /// Starts a batch of downloads, run all at once: the body of each
    /// response, as received, goes to the file that pairs with its URL. The
    /// lists must be of one length; else there is no batch, and nothing is
    /// sent.
    pub fn download_batch(
        &self,
        urls: Vec<String>,
        filenames: Vec<String>,
        warn_status: Option<bool>,
    ) -> (r: Result<Dispatch, SessionError>)
        requires
            self.wf(),
        ensures
            match r {
                Ok(dispatch) => {
                    &&& urls@.len() == filenames@.len()
                    &&& dispatch.wf()
                    &&& dispatch@ == fresh(
                        self@.config,
                        Discipline::AllAtOnce,
                        BatchKind::Download,
                        texts(urls@),
                        texts(filenames@),
                        urls@.len(),
                        warn_or_default(warn_status),
                    )
                    &&& in_flight(dispatch@) == 0
                },
                Err(e) => urls@.len() != filenames@.len() && e is LengthMismatch,
            },
    {
        let limit = urls.len();
        self.core.batch(
            Discipline::AllAtOnce,
            BatchKind::Download,
            urls,
            Vec::new(),
            Vec::new(),
            filenames,
            limit,
            warn_status,
        )
    }

    /// Ends a batch: counts its requests and hands out what it leaves.
    pub fn finish_batch(&mut self, dispatch: Dispatch) -> (report: BatchReport)
        requires
            old(self).wf(),
            dispatch.wf(),
        ensures
            final(self).wf(),
            final(self)@ == (SessionModel {
                requests: bumped(old(self)@.requests, report.counted as nat),
                ..old(self)@
            }),
            report.results == dispatch.results(),
            texts(report.warnings@) == dispatch@.warnings,
            report.counted == counted(
                dispatch@.discipline,
                dispatch@.kind,
                dispatch@.urls.len(),
                dispatch@.started,
                count(dispatch@.slots, Slot::Answered),
                dispatch@.entries,
            ),
    {
        self.core.finish_batch(dispatch)
    }
}

} // verus!
