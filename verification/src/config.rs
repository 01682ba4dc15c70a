//! The configuration of a session: timeout, default headers and proxy.
//!
//! A configuration is a snapshot. A change builds a new snapshot, checks it,
//! and only then puts it in the place of the old one, so that a session
//! always holds a configuration from which a transport client can be built.

use std::str::FromStr;
use vstd::prelude::*;
use crate::error::ConfigurationError;
use crate::headers::{header_model, normalized, overlaid, overlay};
use crate::strmap::{has_key, index_of, StrMap};
use crate::text::{ascii_lower, ascii_lower_char};

verus! {

/// Whether `c` may stand in a header name: a letter, a digit, or one of
/// ``!#$%&'*+-.^_`|~``.
pub open spec fn is_token_char(c: char) -> bool {
    let n = c as u32;
    ||| n == 33
    ||| 35 <= n <= 39
    ||| n == 42
    ||| n == 43
    ||| n == 45
    ||| n == 46
    ||| 48 <= n <= 57
    ||| 65 <= n <= 90
    ||| 94 <= n <= 122
    ||| n == 124
    ||| n == 126
}

/// Whether `name` is a valid header name: between 1 and 65535 characters,
/// each of which may stand in a header name.
pub open spec fn valid_header_name(name: Seq<char>) -> bool {
    &&& 0 < name.len() <= 65535
    &&& forall|i: int| 0 <= i < name.len() ==> is_token_char(#[trigger] name[i])
}

/// Whether `value` is a valid header value: no control character but the
/// horizontal tab.
pub open spec fn valid_header_value(value: Seq<char>) -> bool {
    forall|i: int|
        0 <= i < value.len() ==> {
            let n = (#[trigger] value[i]) as u32;
            (n >= 32 && n != 127) || n == 9
        }
}

/// Whether `reqwest` reads `address` as the URL of a proxy.
pub uninterp spec fn proxy_accepted(address: Seq<char>) -> bool;

/// Whether a timeout, given by the bits of its value in seconds as an
/// IEEE 754 binary64 number, is positive and below 2^64 seconds.
pub open spec fn valid_timeout(bits: u64) -> bool {
    0 < bits < 0x43F0_0000_0000_0000
}

/// Calls `HeaderName::from_str` of `http`, which `reqwest` hands on, and
/// tells whether it accepted the name. It accepts the names of 1 to 65535
/// bytes of which every byte is an ASCII letter, a digit or one of
/// ``!#$%&'*+-.^_`|~``; the bytes of a character beyond ASCII are none of
/// these, so that such a name is one of as many characters.
#[verifier::external_body]
pub(crate) fn header_name_accepted(name: &str) -> (ok: bool)
    ensures
        ok == valid_header_name(name@),
{
    reqwest::header::HeaderName::from_str(name).is_ok()
}

/// Calls `HeaderValue::from_str` of `http`, which `reqwest` hands on, and
/// tells whether it accepted the value. It accepts the values of which
/// every byte is 32 or more and not 127, or is the horizontal tab; the
/// bytes of a character beyond ASCII are all above 127.
#[verifier::external_body]
pub(crate) fn header_value_accepted(value: &str) -> (ok: bool)
    ensures
        ok == valid_header_value(value@),
{
    reqwest::header::HeaderValue::from_str(value).is_ok()
}

/// Calls `reqwest::Proxy::all` and tells whether it accepted the address.
/// The outcome is a function of the address alone, named `proxy_accepted`.
#[verifier::external_body]
pub(crate) fn proxy_address_accepted(address: &str) -> (ok: bool)
    ensures
        ok == proxy_accepted(address@),
{
    reqwest::Proxy::all(address).is_ok()
}

/// What is wrong with a configuration.
pub enum Fault {
    /// The header of this name has no valid name.
    HeaderName(Seq<char>),
    /// The header of this name has no valid value.
    HeaderValue(Seq<char>),
    /// The proxy address is not accepted.
    Proxy(Seq<char>),
}

impl ConfigurationError {
    /// The fault that the error reports.
    pub open spec fn view(&self) -> Fault {
        match self {
            ConfigurationError::HeaderName(name) => Fault::HeaderName(name@),
            ConfigurationError::HeaderValue(name) => Fault::HeaderValue(name@),
            ConfigurationError::Proxy(address) => Fault::Proxy(address@),
        }
    }
}

/// The first fault among the headers, in their order; of one header the
/// name is looked at before the value.
pub open spec fn header_fault(entries: Seq<(String, String)>) -> Option<Fault>
    decreases entries.len(),
{
    if entries.len() == 0 {
        None
    } else if !valid_header_name(entries[0].0@) {
        Some(Fault::HeaderName(entries[0].0@))
    } else if !valid_header_value(entries[0].1@) {
        Some(Fault::HeaderValue(entries[0].0@))
    } else {
        header_fault(entries.drop_first())
    }
}

/// The fault of a proxy address, if it has one.
pub open spec fn proxy_fault(proxy: Option<String>) -> Option<Fault> {
    match proxy {
        Some(address) => if proxy_accepted(address@) {
            None
        } else {
            Some(Fault::Proxy(address@))
        },
        None => None,
    }
}

/// The first fault of a configuration: the headers come before the proxy.
pub open spec fn config_fault(entries: Seq<(String, String)>, proxy: Option<String>) -> Option<Fault> {
    match header_fault(entries) {
        Some(fault) => Some(fault),
        None => proxy_fault(proxy),
    }
}

/// A configuration as a mathematical value.
pub struct ConfigModel {
    pub timeout: u64,
    pub headers: Map<Seq<char>, Seq<char>>,
    pub proxy: Option<Seq<char>>,
}

/// Whether a transport client can be built from a configuration.
pub open spec fn usable(m: ConfigModel) -> bool {
    &&& valid_timeout(m.timeout)
    &&& forall|k: Seq<char>| #[trigger]
        m.headers.contains_key(k) ==> valid_header_name(k) && valid_header_value(m.headers[k])
    &&& m.proxy matches Some(address) ==> proxy_accepted(address)
}

/// The view of an optional string.
pub open spec fn text_option(s: Option<String>) -> Option<Seq<char>> {
    match s {
        Some(text) => Some(text@),
        None => None,
    }
}

/// Without a fault among them, all headers have valid names and values.
pub proof fn lemma_no_header_fault(entries: Seq<(String, String)>)
    requires
        header_fault(entries) is None,
    ensures
        forall|i: int|
            0 <= i < entries.len() ==> valid_header_name((#[trigger] entries[i]).0@)
                && valid_header_value(entries[i].1@),
    decreases entries.len(),
{
    if entries.len() > 0 {
        let rest = entries.drop_first();
        lemma_no_header_fault(rest);
        assert forall|i: int| 0 <= i < entries.len() implies valid_header_name(
            (#[trigger] entries[i]).0@,
        ) && valid_header_value(entries[i].1@) by {
            if i > 0 {
                assert(rest[i - 1] == entries[i]);
            }
        }
    }
}

/// A valid header name stays valid in lower case.
pub proof fn lemma_lower_name_valid(name: Seq<char>)
    requires
        valid_header_name(name),
    ensures
        valid_header_name(ascii_lower(name)),
{
}

/// Laying valid headers over a map of valid headers gives valid headers.
pub proof fn lemma_overlaid_valid(base: Map<Seq<char>, Seq<char>>, entries: Seq<(String, String)>)
    requires
        forall|k: Seq<char>| #[trigger]
            base.contains_key(k) ==> valid_header_name(k) && valid_header_value(base[k]),
        header_fault(entries) is None,
    ensures
        forall|k: Seq<char>| #[trigger]
            overlaid(base, entries).contains_key(k) ==> valid_header_name(k) && valid_header_value(
                overlaid(base, entries)[k],
            ),
    decreases entries.len(),
{
    if entries.len() > 0 {
        lemma_no_header_fault(entries);
        let front = entries.drop_last();
        assert(header_fault(front) is None) by {
            lemma_fault_prefix(entries, entries.len() - 1);
        }
        lemma_overlaid_valid(base, front);
        lemma_lower_name_valid(entries.last().0@);
        let before = overlaid(base, front);
        let key = ascii_lower(entries.last().0@);
        assert forall|k: Seq<char>| #[trigger]
            overlaid(base, entries).contains_key(k) implies valid_header_name(k)
            && valid_header_value(overlaid(base, entries)[k]) by {
            assert(k == key || before.contains_key(k));
        }
    }
}

/// A list of headers without a fault has no fault in any prefix.
pub proof fn lemma_fault_prefix(entries: Seq<(String, String)>, n: int)
    requires
        0 <= n <= entries.len(),
        header_fault(entries) is None,
    ensures
        header_fault(entries.take(n)) is None,
    decreases n,
{
    if n > 0 {
        lemma_fault_prefix(entries.drop_first(), n - 1);
        assert(entries.take(n).drop_first() =~= entries.drop_first().take(n - 1));
    }
}

/// Tells whether `bits` is a timeout that a session accepts.
pub fn timeout_accepted(bits: u64) -> (ok: bool)
    ensures
        ok == valid_timeout(bits),
{
    0 < bits && bits < 0x43F0_0000_0000_0000
}

/// Looks for the first fault among the headers.
pub fn check_headers(entries: &Vec<(String, String)>) -> (r: Result<(), ConfigurationError>)
    ensures
        match r {
            Ok(()) => header_fault(entries@) is None,
            Err(e) => header_fault(entries@) == Some(e@),
        },
{
    let mut i: usize = 0;
    assert(entries@.skip(0) =~= entries@);
    while i < entries.len()
        invariant
            0 <= i <= entries.len(),
            header_fault(entries@) == header_fault(entries@.skip(i as int)),
        decreases entries.len() - i,
    {
        let ghost tail = entries@.skip(i as int);
        if !header_name_accepted(entries[i].0.as_str()) {
            return Err(ConfigurationError::HeaderName(entries[i].0.clone()));
        }
        if !header_value_accepted(entries[i].1.as_str()) {
            return Err(ConfigurationError::HeaderValue(entries[i].0.clone()));
        }
        assert(tail.drop_first() =~= entries@.skip(i + 1));
        i += 1;
    }
    Ok(())
}

/// Looks at the proxy address.
pub fn check_proxy(proxy: &Option<String>) -> (r: Result<(), ConfigurationError>)
    ensures
        match r {
            Ok(()) => proxy_fault(*proxy) is None,
            Err(e) => proxy_fault(*proxy) == Some(e@),
        },
{
    match proxy {
        Some(address) => {
            if proxy_address_accepted(address.as_str()) {
                Ok(())
            } else {
                Err(ConfigurationError::Proxy(address.clone()))
            }
        },
        None => Ok(()),
    }
}

/// A checked configuration.
#[derive(Debug)]
pub struct ClientConfig {
    timeout: u64,
    headers: StrMap<String>,
    proxy: Option<String>,
}

impl ClientConfig {
    /// The configuration as a mathematical value.
    pub closed spec fn view(&self) -> ConfigModel {
        ConfigModel {
            timeout: self.timeout,
            headers: header_model(self.headers@),
            proxy: text_option(self.proxy),
        }
    }

    /// Validity: the header map is valid, and a client can be built.
    pub closed spec fn wf(&self) -> bool {
        self.headers.wf() && usable(self@)
    }

    /// A valid configuration is usable.
    pub proof fn lemma_usable(self)
        requires
            self.wf(),
        ensures
            usable(self@),
    {
    }

    /// The configuration with the given timeout, headers and proxy, where
    /// they have no fault.
    pub fn new(timeout: u64, headers: &Vec<(String, String)>, proxy: Option<String>) -> (r: Result<
        ClientConfig,
        ConfigurationError,
    >)
        requires
            valid_timeout(timeout),
        ensures
            match r {
                Ok(config) => {
                    &&& config_fault(headers@, proxy) is None
                    &&& config.wf()
                    &&& config@ == (ConfigModel {
                        timeout,
                        headers: normalized(headers@),
                        proxy: text_option(proxy),
                    })
                },
                Err(e) => config_fault(headers@, proxy) == Some(e@),
            },
    {
        match check_headers(headers) {
            Ok(()) => {},
            Err(e) => {
                return Err(e);
            },
        }
        match check_proxy(&proxy) {
            Ok(()) => {},
            Err(e) => {
                return Err(e);
            },
        }
        let mut lower: StrMap<String> = StrMap::new();
        assert(header_model(lower@) =~= Map::empty());
        overlay(&mut lower, headers);
        proof {
            lemma_overlaid_valid(Map::empty(), headers@);
        }
        Ok(ClientConfig { timeout, headers: lower, proxy })
    }

    /// The timeout in seconds, as the bits of an IEEE 754 binary64 number.
    pub fn timeout(&self) -> (bits: u64)
        ensures
            bits == self@.timeout,
    {
        self.timeout
    }

    /// The default headers, names in lower case.
    pub fn headers(&self) -> (headers: &StrMap<String>)
        ensures
            header_model(headers@) == self@.headers,
            self.wf() ==> headers.wf(),
    {
        &self.headers
    }

    /// The proxy address, if there is one.
    pub fn proxy(&self) -> (proxy: &Option<String>)
        ensures
            text_option(*proxy) == self@.proxy,
    {
        &self.proxy
    }

    /// A copy of the configuration.
    pub fn snapshot(&self) -> (copy: ClientConfig)
        requires
            self.wf(),
        ensures
            copy.wf(),
            copy@ == self@,
    {
        let mut headers: StrMap<String> = StrMap::new();
        let mut i: usize = 0;
        while i < self.headers.len()
            invariant
                0 <= i <= self.headers.entries().len(),
                self.headers.wf(),
                headers.wf(),
                headers.entries() == self.headers.entries().take(i as int),
            decreases self.headers.entries().len() - i,
        {
            let key = self.headers.key_at(i).clone();
            let value = self.headers.value_at(i).clone();
            assert(!has_key(self.headers.entries().take(i as int), key@));
            headers.insert(key, value);
            i += 1;
        }
        assert(self.headers.entries().take(i as int) =~= self.headers.entries());
        let proxy = match &self.proxy {
            Some(address) => Some(address.clone()),
            None => None,
        };
        ClientConfig { timeout: self.timeout, headers, proxy }
    }

    /// Puts another timeout in force.
    pub fn set_timeout(&mut self, timeout: u64)
        requires
            old(self).wf(),
            valid_timeout(timeout),
        ensures
            final(self).wf(),
            final(self)@ == (ConfigModel { timeout, ..old(self)@ }),
    {
        self.timeout = timeout;
    }

    /// Puts a proxy in force, where its address is accepted; else the
    /// configuration stays as it was.
    pub fn set_proxy(&mut self, address: String) -> (r: Result<(), ConfigurationError>)
        requires
            old(self).wf(),
        ensures
            final(self).wf(),
            match r {
                Ok(()) => proxy_accepted(address@) && final(self)@ == (ConfigModel {
                    proxy: Some(address@),
                    ..old(self)@
                }),
                Err(e) => !proxy_accepted(address@) && e@ == Fault::Proxy(address@) && final(self)@
                    == old(self)@,
            },
    {
        if proxy_address_accepted(address.as_str()) {
            self.proxy = Some(address);
            Ok(())
        } else {
            Err(ConfigurationError::Proxy(address))
        }
    }

    /// Takes the proxy out of force.
    pub fn remove_proxy(&mut self)
        requires
            old(self).wf(),
        ensures
            final(self).wf(),
            final(self)@ == (ConfigModel { proxy: None, ..old(self)@ }),
    {
        self.proxy = None;
    }

    /// Lays the given headers over the default headers, where they have no
    /// fault; else the configuration stays as it was.
    pub fn update_headers(&mut self, headers: &Vec<(String, String)>) -> (r: Result<
        (),
        ConfigurationError,
    >)
        requires
            old(self).wf(),
        ensures
            final(self).wf(),
            match r {
                Ok(()) => header_fault(headers@) is None && final(self)@ == (ConfigModel {
                    headers: overlaid(old(self)@.headers, headers@),
                    ..old(self)@
                }),
                Err(e) => header_fault(headers@) == Some(e@) && final(self)@ == old(self)@,
            },
    {
        match check_headers(headers) {
            Ok(()) => {},
            Err(e) => {
                return Err(e);
            },
        }
        proof {
            lemma_overlaid_valid(header_model(self.headers@), headers@);
        }
        overlay(&mut self.headers, headers);
        Ok(())
    }

    /// Replaces the default headers by the given ones, where they have no
    /// fault; else the configuration stays as it was.
    pub fn set_headers(&mut self, headers: &Vec<(String, String)>) -> (r: Result<
        (),
        ConfigurationError,
    >)
        requires
            old(self).wf(),
        ensures
            final(self).wf(),
            match r {
                Ok(()) => header_fault(headers@) is None && final(self)@ == (ConfigModel {
                    headers: normalized(headers@),
                    ..old(self)@
                }),
                Err(e) => header_fault(headers@) == Some(e@) && final(self)@ == old(self)@,
            },
    {
        match check_headers(headers) {
            Ok(()) => {},
            Err(e) => {
                return Err(e);
            },
        }
        let mut lower: StrMap<String> = StrMap::new();
        assert(header_model(lower@) =~= Map::empty());
        overlay(&mut lower, headers);
        proof {
            lemma_overlaid_valid(Map::empty(), headers@);
        }
        self.headers = lower;
        Ok(())
    }
}

} // verus!
