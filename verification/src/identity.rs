//! The identity of a call: the service and the method it is counted under.
//!
//! A gRPC request path has the shape `/service/method`. Positions in a path
//! are counted in characters throughout.

use vstd::prelude::*;
use vstd::std_specs::iter::IteratorSpec;

verus! {

/// The service and the method that a call is counted under.
#[derive(Clone, Debug, PartialEq, Eq)]
pub struct CallIdentity {
    pub service: String,
    pub method: String,
}

/// What a [`CallIdentity`] holds, as a value of specifications.
pub struct IdentityModel {
    pub service: Seq<char>,
    pub method: Seq<char>,
}

impl View for CallIdentity {
    type V = IdentityModel;

    open spec fn view(&self) -> IdentityModel {
        IdentityModel { service: self.service@, method: self.method@ }
    }
}

/// The position of the first `/` of `path` at or after `from`, if there is one.
pub open spec fn next_slash(path: Seq<char>, from: int) -> Option<int>
    decreases path.len() - from,
{
    if from < 0 || from >= path.len() {
        None
    } else if path[from] == '/' {
        Some(from)
    } else {
        next_slash(path, from + 1)
    }
}

/// Where the method of `path` begins: the position of the first `/` behind
/// the leading one. A path that does not begin with `/`, or holds no second
/// `/`, has no such position.
pub open spec fn separator_of(path: Seq<char>) -> Option<int> {
    if path.len() > 0 && path[0] == '/' {
        next_slash(path, 1)
    } else {
        None
    }
}

/// The identity that `path` gives when it is cut at `separator`: the service
/// lies between the leading `/` and the separator, the method behind the
/// separator. Without a separator inside the path, the service is empty and
/// the whole path is the method.
pub open spec fn split_identity(path: Seq<char>, separator: Option<int>) -> IdentityModel {
    match separator {
        Some(at) if 1 <= at < path.len() => IdentityModel {
            service: path.subrange(1, at),
            method: path.subrange(at + 1, path.len() as int),
        },
        _ => IdentityModel { service: Seq::empty(), method: path },
    }
}

/// The identity of a call to `path`.
pub open spec fn identity_of(path: Seq<char>) -> IdentityModel {
    split_identity(path, separator_of(path))
}

/// A position handed over as `usize`, as a position of specifications.
pub open spec fn position(separator: Option<usize>) -> Option<int> {
    match separator {
        Some(at) => Some(at as int),
        None => None,
    }
}

/// `next_slash` finds a `/`, and the first one: nothing before it, from
/// `from` on, is a `/`. Where it finds none, there is none.
pub proof fn lemma_next_slash(path: Seq<char>, from: int)
    requires
        0 <= from,
    ensures
        match next_slash(path, from) {
            Some(at) => from <= at < path.len() && path[at] == '/' && forall|i: int|
                from <= i < at ==> path[i] != '/',
            None => forall|i: int| from <= i < path.len() ==> path[i] != '/',
        },
    decreases path.len() - from,
{
    if from < path.len() && path[from] != '/' {
        lemma_next_slash(path, from + 1);
    }
}

/// The separator of a path is the one position that holds a `/`, lies behind
/// a leading `/`, and has no `/` between the two.
pub proof fn lemma_separator_of(path: Seq<char>)
    ensures
        match separator_of(path) {
            Some(at) => 1 <= at < path.len() && path[0] == '/' && path[at] == '/' && forall|i: int|
                1 <= i < at ==> path[i] != '/',
            None => path.len() == 0 || path[0] != '/' || forall|i: int|
                1 <= i < path.len() ==> path[i] != '/',
        },
{
    lemma_next_slash(path, 1);
}

/// Finds where the method of `path` begins.
pub fn service_method_separator(path: &str) -> (separator: Option<usize>)
    ensures
        position(separator) == separator_of(path@),
{
    let length: usize = path.unicode_len();
    let mut rest = path.chars();
    match rest.next() {
        Some(first) => {
            if first != '/' {
                return None;
            }
        },
        None => {
            return None;
        },
    }
    let mut at: usize = 1;
    loop
        invariant
            1 <= at <= length,
            length == path@.len(),
            path@[0] == '/',
            rest.remaining() == path@.subrange(at as int, length as int),
            next_slash(path@, at as int) == next_slash(path@, 1),
        decreases length - at,
    {
        match rest.next() {
            Some(c) => {
                if c == '/' {
                    return Some(at);
                }
                at = at + 1;
            },
            None => {
                return None;
            },
        }
    }
}

impl CallIdentity {
    /// The identity with the given service and method.
    pub fn new(service: String, method: String) -> (identity: CallIdentity)
        ensures
            identity@ == (IdentityModel { service: service@, method: method@ }),
    {
        CallIdentity { service, method }
    }

    /// Cuts `path` at `separator`. A separator that does not lie inside the
    /// path is taken as none.
    pub fn split(path: &str, separator: Option<usize>) -> (identity: CallIdentity)
        ensures
            identity@ == split_identity(path@, position(separator)),
    {
        let length: usize = path.unicode_len();
        match separator {
            Some(at) => {
                if 1 <= at && at < length {
                    let service = path.substring_char(1, at).to_owned();
                    let method = path.substring_char(at + 1, length).to_owned();
                    return CallIdentity { service, method };
                }
            },
            None => {},
        }
        CallIdentity { service: String::new(), method: path.to_owned() }
    }

    /// The identity of a call to `path`.
    pub fn from_path(path: &str) -> (identity: CallIdentity)
        ensures
            identity@ == identity_of(path@),
    {
        CallIdentity::split(path, service_method_separator(path))
    }

    /// The identity that a client call carries in its metadata; a call
    /// without such metadata has an empty service and an empty method.
    pub fn from_metadata(grpc_method: Option<(String, String)>) -> (identity: CallIdentity)
        ensures
            identity@ == metadata_identity(grpc_method),
    {
        match grpc_method {
            Some((service, method)) => CallIdentity { service, method },
            None => CallIdentity { service: String::new(), method: String::new() },
        }
    }
}

/// The identity of a call with the given metadata: its service and method
/// where it has them, two empty names where it has none.
pub open spec fn metadata_identity(grpc_method: Option<(String, String)>) -> IdentityModel {
    match grpc_method {
        Some((service, method)) => IdentityModel { service: service@, method: method@ },
        None => IdentityModel { service: Seq::empty(), method: Seq::empty() },
    }
}

} // verus!
