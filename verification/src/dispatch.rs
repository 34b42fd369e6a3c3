//! The dual-path invocation dispatcher.
//!
//! Every outbound call derives its canonical interface, resolves it to a
//! destination id, and then goes one of two ways: a destination present in
//! the component registry is dispatched locally through the in-process
//! stream bridge, anything else goes to the remote transport session
//! addressed at `<lattice>.<destination>` under the invocation timeout.  The
//! host performs the chosen action; the decision and the stream setup are
//! made here.

use vstd::prelude::*;
use vstd::string::StringExecFns;
use crate::errors::ResolveError;
use crate::handler::Handler;
use crate::handler::active_link_spec;
use crate::handler::resolvable;
use crate::handler::resolved_destination;
use crate::iface::ReplacedInstanceTarget;
use crate::iface::effective_instance;
use crate::iface::effective_instance_spec;
use crate::stream::MyDuplexStream;
use crate::stream::send_request;

verus! {

/// Where and how a call is to be carried out.
#[derive(Debug, PartialEq, Eq)]
pub enum DispatchPlan {
    /// The destination is hosted in this process: bridge the call through
    /// the in-process stream pair.
    Local { destination: String },
    /// The destination is remote: open a transport session at `address`,
    /// attach `headers` (after the host's trace-propagation headers), and
    /// bound the call by `timeout_ms`.
    Remote { address: String, headers: Vec<(String, String)>, timeout_ms: u64 },
}

/// The remote session address `<lattice>.<destination>`.
pub open spec fn remote_address_spec(lattice: Seq<char>, destination: Seq<char>) -> Seq<char> {
    lattice + seq!['.'] + destination
}

/// The headers the dispatcher attaches to a remote call.
pub open spec fn remote_headers_spec(headers: Seq<(String, String)>, h: Handler, link: Seq<char>) -> bool {
    &&& headers.len() == 2
    &&& headers[0].0@ == "source-id"@
    &&& headers[0].1@ == h.component_id@
    &&& headers[1].0@ == "link-name"@
    &&& headers[1].1@ == link
}

impl Handler {
    /// Decide the path of an outbound call: derive the canonical interface
    /// (the pinned well-known interface if `target_instance` is set, else
    /// the version-stripped `instance`), resolve it, and dispatch locally
    /// exactly when the destination id is present in the component registry
    /// — membership is authoritative for locality — and remotely otherwise.
    /// A resolution failure is propagated unchanged, naming the call site.
    pub fn plan_invoke(
        &self,
        target_instance: &Option<ReplacedInstanceTarget>,
        instance: &str,
        func: &String,
    ) -> (r: Result<DispatchPlan, ResolveError>)
        requires
            self.wf(),
        ensures
            ({
                let key = effective_instance_spec(*target_instance, instance@);
                &&& (r is Ok <==> resolvable(self.targets@, self.instance_links@, key))
                &&& (r matches Ok(p) ==> {
                    let dest = resolved_destination(self.targets@, self.instance_links@, key);
                    &&& (p is Local <==> self.components@.contains(dest))
                    &&& (p matches DispatchPlan::Local { destination } ==> destination@ == dest)
                    &&& (p matches DispatchPlan::Remote { address, headers, timeout_ms } ==> {
                        &&& !self.components@.contains(dest)
                        &&& address@ == remote_address_spec(self.lattice@, dest)
                        &&& remote_headers_spec(
                            headers@,
                            *self,
                            active_link_spec(self.targets@, key),
                        )
                        &&& timeout_ms == self.invocation_timeout_ms
                    })
                })
                &&& (r matches Err(e) ==> self.resolve_error_matches(key, instance@, func@, e))
            }),
    {
        let key = effective_instance(target_instance, instance);
        let instance_string = instance.to_owned();
        let destination = match self.resolve_destination(&key, &instance_string, func) {
            Ok(d) => d,
            Err(e) => {
                return Err(e);
            },
        };
        if self.components.contains(&destination) {
            Ok(DispatchPlan::Local { destination })
        } else {
            let mut address = self.lattice.clone();
            address.append(".");
            address.append(destination.as_str());
            proof {
                reveal_strlit(".");
                assert("."@ =~= seq!['.']);
                assert(address@ =~= remote_address_spec(self.lattice@, destination@));
            }
            let link_name = self.active_link(&key);
            let mut headers: Vec<(String, String)> = Vec::new();
            headers.push((String::from_str("source-id"), self.component_id.clone()));
            headers.push((String::from_str("link-name"), link_name));
            Ok(
                DispatchPlan::Remote {
                    address,
                    headers,
                    timeout_ms: self.invocation_timeout_ms,
                },
            )
        }
    }
}

/// The stream pair of a local call, host side and guest side of both
/// directions rolled into the two pipes: the first carries host-to-guest
/// bytes and already holds the full request followed by end-of-input; the
/// second carries guest-to-host bytes and is fresh.
pub struct LocalStreams {
    pub host_to_guest: MyDuplexStream,
    pub guest_to_host: MyDuplexStream,
}

/// Set up the in-process stream pair of a local call: the full request is
/// written into the host-to-guest pipe and end-of-input signalled before the
/// callee reads anything, so the callee observes exactly the request bytes
/// followed by end-of-stream.
pub fn prepare_local_streams(request: Vec<u8>) -> (r: LocalStreams)
    ensures
        r.host_to_guest.wf(),
        r.host_to_guest.written() == request@,
        r.host_to_guest.consumed() == Seq::<u8>::empty(),
        r.host_to_guest.pending() == request@,
        r.host_to_guest.is_closed(),
        r.guest_to_host.wf(),
        !r.guest_to_host.is_closed(),
        r.guest_to_host.has_reader(),
        !r.guest_to_host.has_chunk(),
        r.guest_to_host.written() == Seq::<u8>::empty(),
{
    LocalStreams { host_to_guest: send_request(request), guest_to_host: MyDuplexStream::new() }
}

} // verus!
