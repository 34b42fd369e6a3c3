//! The reveal-gated secrets cache.
//!
//! Secret values are reachable only through the two-step contract: an
//! existence check (`secrets_get`) returns a non-secret handle, and only the
//! explicit `secrets_reveal` step returns the value.  The cache is populated
//! once at component startup and is immutable afterwards from this core's
//! perspective.

use vstd::prelude::*;
use crate::handler::Handler;
use crate::strmap::StrMap;
use crate::strmap::lemma_entries_map_congruence;
use crate::stream::copy_bytes;

verus! {

/// A secret's value: textual or binary.
#[derive(Debug, PartialEq, Eq)]
pub enum SecretValue {
    Text(String),
    Binary(Vec<u8>),
}

/// The mathematical content of a secret value.
pub enum SecretContent {
    Text(Seq<char>),
    Binary(Seq<u8>),
}

impl View for SecretValue {
    type V = SecretContent;

    open spec fn view(&self) -> SecretContent {
        match self {
            SecretValue::Text(s) => SecretContent::Text(s@),
            SecretValue::Binary(b) => SecretContent::Binary(b@),
        }
    }
}

impl DeepView for SecretValue {
    type V = SecretContent;

    open spec fn deep_view(&self) -> SecretContent {
        self.view()
    }
}

impl Clone for SecretValue {
    /// Cloning keeps the content exactly.
    fn clone(&self) -> (r: Self)
        ensures
            r@ == self@,
    {
        match self {
            SecretValue::Text(s) => SecretValue::Text(s.clone()),
            SecretValue::Binary(b) => SecretValue::Binary(copy_bytes(b)),
        }
    }
}

impl Clone for StrMap<SecretValue> {
    /// Cloning keeps keys exactly and secret contents exactly.
    fn clone(&self) -> (r: Self)
        ensures
            r@ == self@,
            r.wf() == self.wf(),
    {
        let src = self.entries_vec();
        let n = src.len();
        let mut e: Vec<(String, SecretValue)> = Vec::new();
        let mut i: usize = 0;
        while i < n
            invariant
                n == src@.len(),
                0 <= i <= n,
                e@.len() == i,
                forall|j: int|
                    0 <= j < i ==> (#[trigger] e@[j]).0 == (#[trigger] src@[j]).0 && e@[j].1@
                        == src@[j].1@,
            decreases n - i,
        {
            let k = src[i].0.clone();
            let v = src[i].1.clone();
            e.push((k, v));
            i += 1;
        }
        proof {
            self.lemma_view_entries();
            crate::strmap::lemma_distinct_congruence(e@, src@);
            lemma_entries_map_congruence(e@, src@);
        }
        StrMap::from_entries(e)
    }
}

/// The opaque handle `secrets_get` returns: it names the secret but never
/// carries the value.
pub struct SecretHandle {
    name: String,
}

impl View for SecretHandle {
    type V = Seq<char>;

    closed spec fn view(&self) -> Seq<char> {
        self.name@
    }
}

impl SecretHandle {
    /// A handle for a name; holding one grants nothing but the right to ask
    /// for a reveal.
    pub fn new(name: String) -> (h: Self)
        ensures
            h@ == name@,
    {
        SecretHandle { name }
    }
}

/// The typed outcome of a failed existence check.
#[derive(Clone, Copy, Debug, PartialEq, Eq)]
pub enum SecretsError {
    NotFound,
}

/// A reveal on a name the cache does not hold.  The handler rejects component
/// startup when a declared secret is missing, so this path indicates a bug
/// elsewhere and is a hard failure, deliberately distinct from `NotFound`.
pub struct RevealError {
    name: String,
}

impl RevealError {
    /// The name that vanished between the existence check and the reveal.
    pub fn name(&self) -> (r: &String)
        ensures
            r == self.secret_name(),
    {
        &self.name
    }

    pub closed spec fn secret_name(&self) -> String {
        self.name
    }

    /// The operator-facing message of the hard failure.
    pub fn message(&self) -> (r: String)
        ensures
            r@
                == "secret not found to reveal, ensure the secret is declared and associated with this component at startup"@,
    {
        String::from_str(
            "secret not found to reveal, ensure the secret is declared and associated with this component at startup",
        )
    }
}

impl Handler {
    /// Existence check only: an opaque handle if the secret is present, a
    /// typed `NotFound` outcome otherwise — never the value, and never a
    /// hard failure.
    pub fn secrets_get(&self, key: &String) -> (r: Result<SecretHandle, SecretsError>)
        requires
            self.wf(),
        ensures
            r is Ok <==> self.secrets@.contains_key(key@),
            r matches Ok(h) ==> h@ == key@,
            r matches Err(e) ==> e is NotFound,
    {
        if self.secrets.contains_key(key) {
            Ok(SecretHandle { name: key.clone() })
        } else {
            Err(SecretsError::NotFound)
        }
    }

    /// The explicit second step: look the handle's name back up and return
    /// the underlying value.  Absence at this stage is an internal-invariant
    /// violation reported as a hard failure.
    pub fn secrets_reveal(&self, handle: &SecretHandle) -> (r: Result<SecretValue, RevealError>)
        requires
            self.wf(),
        ensures
            r is Ok <==> self.secrets@.contains_key(handle@),
            r matches Ok(v) ==> v@ == self.secrets@[handle@],
            r matches Err(e) ==> e.secret_name()@ == handle@,
    {
        match self.secrets.get(&handle.name) {
            Some(v) => Ok(v.clone()),
            None => Err(RevealError { name: handle.name.clone() }),
        }
    }
}

/// A handle obtained from a successful `secrets_get` names a cached secret:
/// `secrets_reveal` succeeds on it, and — the cache being immutable — any
/// two reveals of that handle return the same content, the one the cache
/// maps under that name (idempotent read).
pub proof fn lemma_reveal_idempotent(h: Handler, name: Seq<char>, v1: SecretValue, v2: SecretValue)
    requires
        h.secrets@.contains_key(name),
        v1@ == h.secrets@[name],
        v2@ == h.secrets@[name],
    ensures
        v1@ == v2@,
{
}

} // verus!
