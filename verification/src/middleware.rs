//! The access guard: the decision whether a request may pass, made from the
//! allow-list and the credential that the request carries.

use crate::structs::AppState;
use vstd::prelude::*;
use vstd::string::StringSliceAdditionalSpecFns;
use vstd::utf8::encode_utf8;

verus! {

/// Whether `credential` is, byte for byte, one of `keys`.
pub open spec fn listed(keys: Seq<String>, credential: Seq<u8>) -> bool {
    exists|i: int| 0 <= i < keys.len() && encode_utf8((#[trigger] keys[i])@) == credential
}

/// The rule of the guard. An empty allow-list lets every request pass. Under
/// any other list a request passes if it carries a credential and the
/// credential is one of the keys.
pub open spec fn authorized(keys: Seq<String>, credential: Option<Seq<u8>>) -> bool {
    keys.len() == 0 || match credential {
        Some(bytes) => listed(keys, bytes),
        None => false,
    }
}

/// The bytes of a credential, where one was presented.
pub open spec fn presented(credential: Option<&[u8]>) -> Option<Seq<u8>> {
    match credential {
        Some(bytes) => Some(bytes@),
        None => None,
    }
}

/// Whether two byte strings are the same.
pub fn same_bytes(a: &[u8], b: &[u8]) -> (same: bool)
    ensures
        same == (a@ == b@),
{
    if a.len() != b.len() {
        return false;
    }
    let mut i: usize = 0;
    while i < a.len()
        invariant
            a.len() == b.len(),
            i <= a.len(),
            a@.take(i as int) == b@.take(i as int),
        decreases a.len() - i,
    {
        if a[i] != b[i] {
            return false;
        }
        assert(a@.take(i + 1) == a@.take(i as int).push(a@[i as int]));
        assert(b@.take(i + 1) == b@.take(i as int).push(b@[i as int]));
        i += 1;
    }
    assert(a@.take(a@.len() as int) == a@);
    assert(b@.take(b@.len() as int) == b@);
    true
}

/// Whether `credential` is one of `keys`.
pub fn is_listed(keys: &Vec<String>, credential: &[u8]) -> (found: bool)
    ensures
        found == listed(keys@, credential@),
{
    let mut i: usize = 0;
    while i < keys.len()
        invariant
            i <= keys.len(),
            forall|j: int| 0 <= j < i ==> encode_utf8((#[trigger] keys@[j])@) != credential@,
        decreases keys.len() - i,
    {
        if same_bytes(keys[i].as_str().as_bytes(), credential) {
            return true;
        }
        i += 1;
    }
    false
}

/// The guard as a stage in front of a service.
pub struct Auth;

impl Auth {
    /// Puts the guard in front of `service`.
    pub fn new_transform<S>(&self, service: S) -> (middleware: AuthMiddleware<S>)
        ensures
            middleware.service == service,
    {
        AuthMiddleware { service }
    }
}

/// A service with the guard in front of it.
pub struct AuthMiddleware<S> {
    pub service: S,
}

impl<S> AuthMiddleware<S> {
    /// Decides on one request: whether it is to be handed on to the service.
    /// `authorization` is the value of its authorization header, where it has
    /// one.
    pub fn call(&self, app_state: &AppState, authorization: Option<&[u8]>) -> (auth_success: bool)
        ensures
            auth_success == authorized(app_state.api_keys@, presented(authorization)),
    {
        if app_state.api_keys.is_empty() {
            return true;
        }
        match authorization {
            Some(key) => is_listed(&app_state.api_keys, key),
            None => false,
        }
    }
}

/// Open mode: under an empty allow-list every request passes, whether
/// it carries a credential or not.
pub proof fn law_open_mode(credential: Option<Seq<u8>>)
    ensures
        authorized(Seq::<String>::empty(), credential),
{
}

/// Closed mode: under a list that holds a key, a request without a
/// credential does not pass, and one with a credential passes exactly if the
/// credential is listed.
pub proof fn law_closed_mode(keys: Seq<String>, credential: Seq<u8>)
    requires
        keys.len() > 0,
    ensures
        !authorized(keys, None),
        authorized(keys, Some(credential)) == listed(keys, credential),
{
}

} // verus!
