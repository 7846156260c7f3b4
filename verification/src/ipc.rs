//! Interprocess messaging: a fixed-capacity endpoint table where each
//! endpoint owns a one-message inbox. Sending stores a message into the
//! destination's free inbox; receiving takes it out.

use vstd::prelude::*;

verus! {

/// Errors of the IPC subsystem.
#[derive(Clone, Copy, PartialEq, Eq, Structural, Debug)]
pub enum IpcError {
    /// The destination endpoint was not found.
    EndpointNotFound,
    /// The endpoint cannot take the operation now (inbox full).
    InvalidEndpointState,
    /// The message failed validation.
    InvalidMessage,
    /// Nothing to receive.
    Timeout,
    /// Internal error (table full, double registration, not initialised).
    InternalError,
}

/// Result of an IPC operation.
pub type IpcResult<T> = Result<T, IpcError>;

/// Identifier of a process, thread or kernel service: the communication
/// address.
#[derive(Clone, Copy, PartialEq, Eq, Structural, Debug)]
pub struct Endpoint(pub u64);

/// The kind or purpose of a message.
#[derive(Clone, Copy, PartialEq, Eq, Structural, Debug)]
pub enum IpcKind {
    Request,
    Response,
    Notification,
    DriverCommand,
    FilesystemRequest,
}

/// A message: sender, kind and a fixed-size payload.
#[derive(Clone, Copy, PartialEq, Eq, Debug)]
pub struct Message {
    /// Who sent the message.
    pub sender: Endpoint,
    /// What the message is for.
    pub kind: IpcKind,
    /// The data carried, fixed-size for a stable layout.
    pub payload: [u8; 48],
}

/// Capacity of the endpoint table.
pub const ENDPOINT_CAPACITY: usize = 16;

/// Some slot holds endpoint `e`.
pub open spec fn has_endpoint(s: Seq<(Endpoint, Option<Message>)>, e: Endpoint) -> bool {
    exists|i: int| 0 <= i < s.len() && s[i].0 == e
}

/// 📚 The endpoint table: each registered endpoint with its inbox.
pub struct SimpleEndpointMap {
    entries: Vec<(Endpoint, Option<Message>)>,
}

impl View for SimpleEndpointMap {
    type V = Seq<(Endpoint, Option<Message>)>;

    closed spec fn view(&self) -> Seq<(Endpoint, Option<Message>)> {
        self.entries@
    }
}

impl SimpleEndpointMap {
    /// Bounded capacity, endpoints registered at most once.
    pub open spec fn wf(&self) -> bool {
        &&& self@.len() <= ENDPOINT_CAPACITY
        &&& forall|i: int, j: int| 0 <= i < j < self@.len() ==> self@[i].0 != self@[j].0
    }

    /// 🏭 An empty table.
    pub fn new() -> (m: Self)
        ensures
            m.wf(),
            m@ == Seq::<(Endpoint, Option<Message>)>::empty(),
    {
        SimpleEndpointMap { entries: Vec::new() }
    }

    /// 📝 Registers a new endpoint with an empty inbox. Fails with
    /// `InternalError` exactly when the table is full or the endpoint is
    /// already registered; failure changes nothing.
    pub fn register(&mut self, endpoint: Endpoint) -> (r: IpcResult<()>)
        requires
            old(self).wf(),
        ensures
            final(self).wf(),
            match r {
                Result::Ok(()) => {
                    &&& old(self)@.len() < ENDPOINT_CAPACITY
                    &&& !has_endpoint(old(self)@, endpoint)
                    &&& final(self)@ == old(self)@.push((endpoint, Option::<Message>::None))
                },
                Result::Err(e) => {
                    &&& e == IpcError::InternalError
                    &&& (old(self)@.len() == ENDPOINT_CAPACITY || has_endpoint(
                        old(self)@,
                        endpoint,
                    ))
                    &&& final(self)@ == old(self)@
                },
            },
    {
        if self.entries.len() >= ENDPOINT_CAPACITY {
            return Err(IpcError::InternalError);
        }
        let ghost s0 = self.entries@;
        let mut i: usize = 0;
        while i < self.entries.len()
            invariant
                i <= s0.len(),
                self.entries@ == s0,
                s0 == old(self)@,
                old(self).wf(),
                forall|j: int| 0 <= j < i ==> s0[j].0 != endpoint,
            decreases s0.len() - i,
        {
            if self.entries[i].0 == endpoint {
                return Err(IpcError::InternalError);
            }
            i = i + 1;
        }
        self.entries.push((endpoint, None));
        Ok(())
    }

    /// 📬 Stores `msg` into the destination's inbox. Fails with
    /// `EndpointNotFound` when the destination is not registered, and with
    /// `InvalidEndpointState` when its inbox is already full; failure
    /// changes nothing.
    pub fn send(&mut self, destination: Endpoint, msg: Message) -> (r: IpcResult<()>)
        requires
            old(self).wf(),
        ensures
            final(self).wf(),
            match r {
                Result::Ok(()) => exists|i: int|
                    {
                        &&& 0 <= i < old(self)@.len()
                        &&& (#[trigger] old(self)@[i]).0 == destination
                        &&& old(self)@[i].1.is_none()
                        &&& final(self)@ == old(self)@.update(
                            i,
                            (destination, Option::Some(msg)),
                        )
                    },
                Result::Err(e) => {
                    &&& final(self)@ == old(self)@
                    &&& (e == IpcError::EndpointNotFound || e == IpcError::InvalidEndpointState)
                    &&& (e == IpcError::EndpointNotFound <==> !has_endpoint(
                        old(self)@,
                        destination,
                    ))
                    &&& (e == IpcError::InvalidEndpointState ==> exists|i: int|
                        0 <= i < old(self)@.len() && (#[trigger] old(self)@[i]).0 == destination
                            && old(self)@[i].1.is_some())
                },
            },
    {
        let ghost s0 = self.entries@;
        let mut i: usize = 0;
        while i < self.entries.len()
            invariant
                i <= s0.len(),
                self.entries@ == s0,
                s0 == old(self)@,
                old(self).wf(),
                forall|j: int| 0 <= j < i ==> s0[j].0 != destination,
            decreases s0.len() - i,
        {
            if self.entries[i].0 == destination {
                if self.entries[i].1.is_none() {
                    self.entries[i] = (destination, Some(msg));
                    return Ok(());
                } else {
                    return Err(IpcError::InvalidEndpointState);
                }
            }
            i = i + 1;
        }
        Err(IpcError::EndpointNotFound)
    }

    /// 📥 Takes the message out of the receiver's inbox. Fails with
    /// `EndpointNotFound` when the receiver is not registered, and with
    /// `Timeout` when the inbox is empty; failure changes nothing.
    pub fn receive(&mut self, receiver: Endpoint) -> (r: IpcResult<Message>)
        requires
            old(self).wf(),
        ensures
            final(self).wf(),
            match r {
                Result::Ok(m) => exists|i: int|
                    {
                        &&& 0 <= i < old(self)@.len()
                        &&& (#[trigger] old(self)@[i]).0 == receiver
                        &&& old(self)@[i].1 == Option::Some(m)
                        &&& final(self)@ == old(self)@.update(
                            i,
                            (receiver, Option::<Message>::None),
                        )
                    },
                Result::Err(e) => {
                    &&& final(self)@ == old(self)@
                    &&& (e == IpcError::EndpointNotFound || e == IpcError::Timeout)
                    &&& (e == IpcError::EndpointNotFound <==> !has_endpoint(old(self)@, receiver))
                    &&& (e == IpcError::Timeout ==> exists|i: int|
                        0 <= i < old(self)@.len() && (#[trigger] old(self)@[i]).0 == receiver
                            && old(self)@[i].1.is_none())
                },
            },
    {
        let ghost s0 = self.entries@;
        let mut i: usize = 0;
        while i < self.entries.len()
            invariant
                i <= s0.len(),
                self.entries@ == s0,
                s0 == old(self)@,
                old(self).wf(),
                forall|j: int| 0 <= j < i ==> s0[j].0 != receiver,
            decreases s0.len() - i,
        {
            if self.entries[i].0 == receiver {
                let inbox = self.entries[i].1;
                match inbox {
                    Some(m) => {
                        self.entries[i] = (receiver, None);
                        return Ok(m);
                    },
                    None => {
                        return Err(IpcError::Timeout);
                    },
                }
            }
            i = i + 1;
        }
        Err(IpcError::EndpointNotFound)
    }
}

/// 🧠 Owner of the endpoint table, created once at kernel initialisation.
pub struct IpcManager {
    pub endpoints: SimpleEndpointMap,
}

impl IpcManager {
    /// Creates the table and registers the kernel log endpoint (id 1).
    pub fn init() -> (m: IpcManager)
        ensures
            m.endpoints.wf(),
            m.endpoints@ == Seq::<(Endpoint, Option<Message>)>::empty().push(
                (Endpoint(1), Option::<Message>::None),
            ),
    {
        let mut table = SimpleEndpointMap::new();
        let r = table.register(Endpoint(1));
        proof {
            assert(r.is_ok());
        }
        IpcManager { endpoints: table }
    }
}

/// 📬 Sends `msg` to `destination` through the kernel's endpoint table.
pub fn send_message(manager: &mut IpcManager, destination: Endpoint, msg: Message) -> (r: IpcResult<
    (),
>)
    requires
        old(manager).endpoints.wf(),
    ensures
        final(manager).endpoints.wf(),
        match r {
            Result::Ok(()) => exists|i: int|
                {
                    &&& 0 <= i < old(manager).endpoints@.len()
                    &&& (#[trigger] old(manager).endpoints@[i]).0 == destination
                    &&& old(manager).endpoints@[i].1.is_none()
                    &&& final(manager).endpoints@ == old(manager).endpoints@.update(
                        i,
                        (destination, Option::Some(msg)),
                    )
                },
            Result::Err(e) => {
                &&& final(manager).endpoints@ == old(manager).endpoints@
                &&& (e == IpcError::EndpointNotFound <==> !has_endpoint(
                    old(manager).endpoints@,
                    destination,
                ))
                &&& (e == IpcError::EndpointNotFound || e == IpcError::InvalidEndpointState)
            },
        },
{
    manager.endpoints.send(destination, msg)
}

/// 📥 Receives the pending message for `receiver` from the kernel's
/// endpoint table.
pub fn receive_message(manager: &mut IpcManager, receiver: Endpoint) -> (r: IpcResult<Message>)
    requires
        old(manager).endpoints.wf(),
    ensures
        final(manager).endpoints.wf(),
        match r {
            Result::Ok(m) => exists|i: int|
                {
                    &&& 0 <= i < old(manager).endpoints@.len()
                    &&& (#[trigger] old(manager).endpoints@[i]).0 == receiver
                    &&& old(manager).endpoints@[i].1 == Option::Some(m)
                    &&& final(manager).endpoints@ == old(manager).endpoints@.update(
                        i,
                        (receiver, Option::<Message>::None),
                    )
                },
            Result::Err(e) => {
                &&& final(manager).endpoints@ == old(manager).endpoints@
                &&& (e == IpcError::EndpointNotFound <==> !has_endpoint(
                    old(manager).endpoints@,
                    receiver,
                ))
                &&& (e == IpcError::EndpointNotFound || e == IpcError::Timeout)
            },
        },
{
    manager.endpoints.receive(receiver)
}

/// 📝 Registers `endpoint` in the kernel's endpoint table.
pub fn register_endpoint(manager: &mut IpcManager, endpoint: Endpoint) -> (r: IpcResult<()>)
    requires
        old(manager).endpoints.wf(),
    ensures
        final(manager).endpoints.wf(),
        match r {
            Result::Ok(()) => {
                &&& old(manager).endpoints@.len() < ENDPOINT_CAPACITY
                &&& !has_endpoint(old(manager).endpoints@, endpoint)
                &&& final(manager).endpoints@ == old(manager).endpoints@.push(
                    (endpoint, Option::<Message>::None),
                )
            },
            Result::Err(e) => {
                &&& e == IpcError::InternalError
                &&& (old(manager).endpoints@.len() == ENDPOINT_CAPACITY || has_endpoint(
                    old(manager).endpoints@,
                    endpoint,
                ))
                &&& final(manager).endpoints@ == old(manager).endpoints@
            },
        },
{
    manager.endpoints.register(endpoint)
}

} // verus!
