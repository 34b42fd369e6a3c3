//! Interface references and their canonical lookup form.
//!
//! An interface a component imports is a `(namespace, package, interface)`
//! triple, canonicalized to `namespace:package/interface` for every lookup;
//! a trailing `@version` qualifier on a free-form instance string is
//! stripped.  A few well-known interfaces whose names changed between
//! protocol revisions can be pinned explicitly and override the free-form
//! string.

use vstd::prelude::*;
use vstd::string::StrSliceExecFns;
use vstd::string::StringExecFns;

verus! {

/// An interface reference a component imports.
pub struct CallTargetInterface {
    pub namespace: String,
    pub package: String,
    pub interface: String,
}

impl Clone for CallTargetInterface {
    /// Cloning copies the three parts exactly.
    fn clone(&self) -> (r: Self)
        ensures
            r == *self,
    {
        CallTargetInterface {
            namespace: self.namespace.clone(),
            package: self.package.clone(),
            interface: self.interface.clone(),
        }
    }
}

/// Canonical form `namespace:package/interface`.
pub open spec fn canonical_of(ns: Seq<char>, pkg: Seq<char>, iface: Seq<char>) -> Seq<char> {
    ns + seq![':'] + pkg + seq!['/'] + iface
}

impl CallTargetInterface {
    /// The canonical `namespace:package/interface` string under which this
    /// reference is looked up.
    pub fn as_instance(&self) -> (r: String)
        ensures
            r@ == canonical_of(self.namespace@, self.package@, self.interface@),
    {
        let mut s = self.namespace.clone();
        s.append(":");
        s.append(self.package.as_str());
        s.append("/");
        s.append(self.interface.as_str());
        proof {
            reveal_strlit(":");
            reveal_strlit("/");
            assert(":"@ =~= seq![':']);
            assert("/"@ =~= seq!['/']);
            assert(s@ =~= canonical_of(self.namespace@, self.package@, self.interface@));
        }
        s
    }
}

/// `i` is the position of the first `@` in `s`.
pub open spec fn is_version_split(s: Seq<char>, i: int) -> bool {
    0 <= i < s.len() && s[i] == '@' && forall|j: int| 0 <= j < i ==> s[j] != '@'
}

/// `s` with any `@version` suffix removed: the prefix before the first `@`,
/// or all of `s` when no `@` occurs.
pub open spec fn strip_version_spec(s: Seq<char>) -> Seq<char> {
    if exists|i: int| is_version_split(s, i) {
        s.subrange(0, choose|i: int| is_version_split(s, i))
    } else {
        s
    }
}

/// Canonicalize a free-form instance string by stripping any `@version`
/// qualifier.
pub fn canonical_instance(instance: &str) -> (r: String)
    ensures
        r@ == strip_version_spec(instance@),
{
    let n = instance.unicode_len();
    let mut i: usize = 0;
    while i < n
        invariant
            n == instance@.len(),
            0 <= i <= n,
            forall|j: int| 0 <= j < i ==> instance@[j] != '@',
        decreases n - i,
    {
        if instance.get_char(i) == '@' {
            let p = instance.substring_char(0, i);
            proof {
                assert(is_version_split(instance@, i as int));
                let c = choose|i2: int| is_version_split(instance@, i2);
                assert(is_version_split(instance@, c));
                if c < i as int {
                    assert(instance@[c] == '@');
                } else if c > i as int {
                    assert(instance@[i as int] != '@');
                }
                assert(c == i as int);
            }
            return p.to_owned();
        }
        i += 1;
    }
    proof {
        if exists|i2: int| is_version_split(instance@, i2) {
            let c = choose|i2: int| is_version_split(instance@, i2);
            assert(is_version_split(instance@, c));
            assert(instance@[c] != '@');
        }
    }
    instance.to_owned()
}

/// A well-known interface whose name changed between protocol revisions; when
/// pinned by the caller it overrides the free-form instance string.
#[derive(Clone, Copy, Debug)]
pub enum ReplacedInstanceTarget {
    BlobstoreBlobstore,
    BlobstoreContainer,
    KeyvalueAtomics,
    KeyvalueStore,
    KeyvalueBatch,
    HttpIncomingHandler,
    HttpOutgoingHandler,
}

/// The canonical instance name each well-known interface resolves under.
pub open spec fn replaced_instance_spec(t: ReplacedInstanceTarget) -> Seq<char> {
    match t {
        ReplacedInstanceTarget::BlobstoreBlobstore => "wasi:blobstore/blobstore"@,
        ReplacedInstanceTarget::BlobstoreContainer => "wasi:blobstore/blobstore"@,
        ReplacedInstanceTarget::KeyvalueAtomics => "wasi:keyvalue/atomics"@,
        ReplacedInstanceTarget::KeyvalueStore => "wasi:keyvalue/store"@,
        ReplacedInstanceTarget::KeyvalueBatch => "wasi:keyvalue/batch"@,
        ReplacedInstanceTarget::HttpIncomingHandler => "wasi:http/incoming-handler"@,
        ReplacedInstanceTarget::HttpOutgoingHandler => "wasi:http/outgoing-handler"@,
    }
}

/// The canonical instance name for a well-known interface.
pub fn replaced_instance(t: &ReplacedInstanceTarget) -> (r: &'static str)
    ensures
        r@ == replaced_instance_spec(*t),
{
    match t {
        ReplacedInstanceTarget::BlobstoreBlobstore => "wasi:blobstore/blobstore",
        ReplacedInstanceTarget::BlobstoreContainer => "wasi:blobstore/blobstore",
        ReplacedInstanceTarget::KeyvalueAtomics => "wasi:keyvalue/atomics",
        ReplacedInstanceTarget::KeyvalueStore => "wasi:keyvalue/store",
        ReplacedInstanceTarget::KeyvalueBatch => "wasi:keyvalue/batch",
        ReplacedInstanceTarget::HttpIncomingHandler => "wasi:http/incoming-handler",
        ReplacedInstanceTarget::HttpOutgoingHandler => "wasi:http/outgoing-handler",
    }
}

/// The canonical interface a call is dispatched under: the pinned well-known
/// interface when present, otherwise the version-stripped instance string.
pub open spec fn effective_instance_spec(
    ctx: Option<ReplacedInstanceTarget>,
    instance: Seq<char>,
) -> Seq<char> {
    match ctx {
        Option::Some(t) => replaced_instance_spec(t),
        Option::None => strip_version_spec(instance),
    }
}

/// Derive the canonical interface for a call.
pub fn effective_instance(ctx: &Option<ReplacedInstanceTarget>, instance: &str) -> (r: String)
    ensures
        r@ == effective_instance_spec(*ctx, instance@),
{
    match ctx {
        Option::Some(t) => String::from_str(replaced_instance(t)),
        Option::None => canonical_instance(instance),
    }
}

} // verus!
