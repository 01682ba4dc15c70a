//! HTTP methods and the reading of a method string.

use vstd::prelude::*;

verus! {

/// An HTTP method that the transport must support.
#[derive(Clone, Copy, PartialEq, Eq, Structural, Debug)]
pub enum Method {
    Get,
    Post,
    Put,
    Delete,
    Head,
    Options,
    Connect,
    Trace,
    Patch,
}

/// What `str::to_uppercase` returns for a string.
pub uninterp spec fn uppercased(s: Seq<char>) -> Seq<char>;

/// `str::to_uppercase` returns the upper-case form of the string, which is a
/// function of the string alone, named `uppercased`.
pub assume_specification[ str::to_uppercase ](s: &str) -> (upper: std::string::String)
    ensures
        upper@ == uppercased(s@),
;

/// The method that a name in upper case stands for in a method string.
/// `GET` has a verb of its own and is no method string.
pub open spec fn method_named(upper: Seq<char>) -> Option<Method> {
    if upper == "POST"@ {
        Some(Method::Post)
    } else if upper == "PUT"@ {
        Some(Method::Put)
    } else if upper == "DELETE"@ {
        Some(Method::Delete)
    } else if upper == "HEAD"@ {
        Some(Method::Head)
    } else if upper == "OPTIONS"@ {
        Some(Method::Options)
    } else if upper == "CONNECT"@ {
        Some(Method::Connect)
    } else if upper == "TRACE"@ {
        Some(Method::Trace)
    } else if upper == "PATCH"@ {
        Some(Method::Patch)
    } else {
        None
    }
}

/// Whether a request of this method carries the body it was given.
pub open spec fn carries_body(method: Method) -> bool {
    method == Method::Post || method == Method::Put || method == Method::Patch
}

impl Method {
    /// The name of the method, in upper case.
    pub open spec fn name(self) -> Seq<char> {
        match self {
            Method::Get => "GET"@,
            Method::Post => "POST"@,
            Method::Put => "PUT"@,
            Method::Delete => "DELETE"@,
            Method::Head => "HEAD"@,
            Method::Options => "OPTIONS"@,
            Method::Connect => "CONNECT"@,
            Method::Trace => "TRACE"@,
            Method::Patch => "PATCH"@,
        }
    }

    /// The name of the method, in upper case.
    pub fn as_string(self) -> (name: String)
        ensures
            name@ == self.name(),
    {
        match self {
            Method::Get => "GET".to_owned(),
            Method::Post => "POST".to_owned(),
            Method::Put => "PUT".to_owned(),
            Method::Delete => "DELETE".to_owned(),
            Method::Head => "HEAD".to_owned(),
            Method::Options => "OPTIONS".to_owned(),
            Method::Connect => "CONNECT".to_owned(),
            Method::Trace => "TRACE".to_owned(),
            Method::Patch => "PATCH".to_owned(),
        }
    }

    /// Whether a request of this method carries the body it was given.
    pub fn has_body(self) -> (b: bool)
        ensures
            b == carries_body(self),
    {
        match self {
            Method::Post => true,
            Method::Put => true,
            Method::Patch => true,
            _ => false,
        }
    }

    /// The method that a name in upper case stands for.
    pub fn from_upper(upper: &String) -> (r: Option<Method>)
        ensures
            r == method_named(upper@),
    {
        if *upper == "POST".to_owned() {
            Some(Method::Post)
        } else if *upper == "PUT".to_owned() {
            Some(Method::Put)
        } else if *upper == "DELETE".to_owned() {
            Some(Method::Delete)
        } else if *upper == "HEAD".to_owned() {
            Some(Method::Head)
        } else if *upper == "OPTIONS".to_owned() {
            Some(Method::Options)
        } else if *upper == "CONNECT".to_owned() {
            Some(Method::Connect)
        } else if *upper == "TRACE".to_owned() {
            Some(Method::Trace)
        } else if *upper == "PATCH".to_owned() {
            Some(Method::Patch)
        } else {
            None
        }
    }

    /// Reads a method string: the method that its upper-case form names.
    pub fn parse(method: &str) -> (r: Option<Method>)
        ensures
            r == method_named(uppercased(method@)),
    {
        let upper = method.to_uppercase();
        Method::from_upper(&upper)
    }
}

} // verus!
