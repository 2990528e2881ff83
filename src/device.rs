use vstd::prelude::*;
use crate::account::FirefoxAccount;
use crate::error::{FxaError, TransportError, transport_error_spec};

verus! {

/// A command that a device can receive.
#[derive(Debug, Clone, Copy, PartialEq, Eq, Structural)]
pub enum DeviceCapability {
    SendTab,
    CloseTabs,
}

/// Where the push service reaches this device.
#[derive(Debug, PartialEq, Eq)]
pub struct DevicePushSubscription {
    pub endpoint: String,
    pub public_key: String,
    pub auth_key: String,
}

/// This device as registered with the identity service.
#[derive(Debug)]
pub struct DeviceRegistration {
    pub device_id: String,
    pub display_name: String,
    pub capabilities: Vec<DeviceCapability>,
    pub push_subscription: Option<DevicePushSubscription>,
}

pub open spec fn registration_equiv(a: DeviceRegistration, b: DeviceRegistration) -> bool {
    &&& a.device_id == b.device_id
    &&& a.display_name == b.display_name
    &&& a.capabilities@ == b.capabilities@
    &&& a.push_subscription == b.push_subscription
}

pub open spec fn opt_registration_equiv(a: Option<DeviceRegistration>, b: Option<DeviceRegistration>) -> bool {
    match (a, b) {
        (None, None) => true,
        (Some(x), Some(y)) => registration_equiv(x, y),
        _ => false,
    }
}

/// Copies a list of capabilities.
pub fn copy_capabilities(caps: &Vec<DeviceCapability>) -> (r: Vec<DeviceCapability>)
    ensures
        r@ == caps@,
{
    let mut out: Vec<DeviceCapability> = Vec::new();
    let mut i: usize = 0;
    while i < caps.len()
        invariant
            0 <= i <= caps.len(),
            out@ == caps@.take(i as int),
        decreases caps.len() - i,
    {
        out.push(caps[i]);
        assert(out@ =~= caps@.take(i + 1));
        i = i + 1;
    }
    assert(caps@.take(caps.len() as int) =~= caps@);
    out
}

impl DevicePushSubscription {
    /// A copy of this value.
    pub fn copy(&self) -> (r: DevicePushSubscription)
        ensures
            r == *self,
    {
        DevicePushSubscription {
            endpoint: self.endpoint.clone(),
            public_key: self.public_key.clone(),
            auth_key: self.auth_key.clone(),
        }
    }
}

impl DeviceRegistration {
    /// A copy of this value.
    pub fn copy(&self) -> (r: DeviceRegistration)
        ensures
            registration_equiv(r, *self),
    {
        DeviceRegistration {
            device_id: self.device_id.clone(),
            display_name: self.display_name.clone(),
            capabilities: copy_capabilities(&self.capabilities),
            push_subscription: match &self.push_subscription {
                Some(p) => Some(p.copy()),
                None => None,
            },
        }
    }
}

/// A device of the account, as the most recent device list gave it.
#[derive(Debug)]
pub struct Device {
    pub id: String,
    pub display_name: String,
    pub capabilities: Vec<DeviceCapability>,
}

/// A command sent to this device; `index` grows with each command the server queues.
#[derive(Debug, PartialEq, Eq)]
pub struct IncomingDeviceCommand {
    pub index: u64,
    pub sender: String,
    pub capability: DeviceCapability,
    pub payload: String,
}

/// How the server answered a device command.
#[derive(Debug, Clone, Copy, PartialEq, Eq, Structural)]
pub enum SendOutcome {
    Delivered,
    /// The server declined it, for instance because the target lacks the capability.
    Declined,
    Failed(TransportError),
}

/// The commands of `fetched`, in order, that come after the index `after`.
pub open spec fn commands_after(fetched: Seq<IncomingDeviceCommand>, after: u64) -> Seq<IncomingDeviceCommand>
    decreases fetched.len(),
{
    if fetched.len() == 0 {
        Seq::empty()
    } else {
        let rest = commands_after(fetched.drop_last(), after);
        if fetched.last().index > after { rest.push(fetched.last()) } else { rest }
    }
}

/// The greatest of `start` and the indices of `fetched`.
pub open spec fn max_index(fetched: Seq<IncomingDeviceCommand>, start: u64) -> u64
    decreases fetched.len(),
{
    if fetched.len() == 0 {
        start
    } else {
        let rest = max_index(fetched.drop_last(), start);
        if fetched.last().index > rest { fetched.last().index } else { rest }
    }
}

/// Whether the device list holds `target` with the capability `cap`.
pub open spec fn can_receive(devices: Seq<Device>, target: Seq<char>, cap: DeviceCapability) -> bool {
    exists|i: int| 0 <= i < devices.len() && (#[trigger] devices[i]).id@ == target && devices[i].capabilities@.contains(cap)
}

/// The error for a device command, from the server's answer.
pub open spec fn send_outcome_spec(o: SendOutcome) -> Result<(), FxaError> {
    match o {
        SendOutcome::Delivered => Ok(()),
        SendOutcome::Declined => Err(FxaError::CommandRejected),
        SendOutcome::Failed(e) => Err(transport_error_spec(e)),
    }
}

/// Whether `caps` holds `cap`.
fn has_capability(caps: &Vec<DeviceCapability>, cap: DeviceCapability) -> (r: bool)
    ensures
        r == caps@.contains(cap),
{
    let mut i: usize = 0;
    while i < caps.len()
        invariant
            0 <= i <= caps.len(),
            forall|j: int| 0 <= j < i ==> caps@[j] != cap,
        decreases caps.len() - i,
    {
        if caps[i] == cap {
            assert(caps@[i as int] == cap);
            return true;
        }
        i = i + 1;
    }
    false
}

impl FirefoxAccount {
    /// Records the registration of this device; registering again replaces it.
    pub fn register_device(
        &mut self,
        device_id: &str,
        display_name: &str,
        capabilities: &Vec<DeviceCapability>,
        push_subscription: Option<DevicePushSubscription>,
    ) -> (r: Result<(), FxaError>)
        requires
            old(self).wf(),
        ensures
            final(self).wf(),
            !old(self).state.is_connected() ==> r == Err::<(), FxaError>(FxaError::NotAuthenticated) && *final(self) == *old(self),
            old(self).state.is_connected() ==> {
                &&& r is Ok
                &&& final(self).registration matches Some(reg)
                &&& reg.device_id@ == device_id@
                &&& reg.display_name@ == display_name@
                &&& reg.capabilities@ == capabilities@
                &&& reg.push_subscription == push_subscription
                &&& final(self).same_config(*old(self))
                &&& final(self).state == old(self).state
                &&& final(self).access_tokens == old(self).access_tokens
                &&& final(self).refreshing == old(self).refreshing
                &&& final(self).devices == old(self).devices
                &&& final(self).last_command_index == old(self).last_command_index
                &&& final(self).migration == old(self).migration
            },
    {
        if !self.state.is_connected_exec() {
            return Err(FxaError::NotAuthenticated);
        }
        self.registration = Some(DeviceRegistration {
            device_id: device_id.to_string(),
            display_name: display_name.to_string(),
            capabilities: copy_capabilities(capabilities),
            push_subscription,
        });
        Ok(())
    }

    /// Replaces the device list with the one just fetched.
    pub fn set_device_list(&mut self, devices: Vec<Device>) -> (r: Result<(), FxaError>)
        requires
            old(self).wf(),
        ensures
            final(self).wf(),
            !old(self).state.is_connected() ==> r == Err::<(), FxaError>(FxaError::NotAuthenticated) && *final(self) == *old(self),
            old(self).state.is_connected() ==> {
                &&& r is Ok
                &&& final(self).devices == devices
                &&& final(self).same_config(*old(self))
                &&& final(self).state == old(self).state
                &&& final(self).access_tokens == old(self).access_tokens
                &&& final(self).refreshing == old(self).refreshing
                &&& final(self).registration == old(self).registration
                &&& final(self).last_command_index == old(self).last_command_index
                &&& final(self).migration == old(self).migration
            },
    {
        if !self.state.is_connected_exec() {
            return Err(FxaError::NotAuthenticated);
        }
        self.devices = devices;
        Ok(())
    }

    /// Checks that `target` is a device of the most recent list that can receive
    /// `capability`, before a command is sent to it.
    pub fn check_command_target(&self, target: &str, capability: DeviceCapability) -> (r: Result<(), FxaError>)
        ensures
            !self.state.is_connected() ==> r == Err::<(), FxaError>(FxaError::NotAuthenticated),
            self.state.is_connected() ==> (r is Ok <==> can_receive(self.devices@, target@, capability)),
            self.state.is_connected() && r is Err ==> r == Err::<(), FxaError>(FxaError::UnknownDevice),
    {
        if !self.state.is_connected_exec() {
            return Err(FxaError::NotAuthenticated);
        }
        let t = target.to_string();
        let mut i: usize = 0;
        while i < self.devices.len()
            invariant
                0 <= i <= self.devices.len(),
                self.state.is_connected(),
                t@ == target@,
                forall|j: int| 0 <= j < i ==> !((#[trigger] self.devices@[j]).id@ == target@ && self.devices@[j].capabilities@.contains(capability)),
            decreases self.devices.len() - i,
        {
            if self.devices[i].id == t && has_capability(&self.devices[i].capabilities, capability) {
                return Ok(());
            }
            i = i + 1;
        }
        Err(FxaError::UnknownDevice)
    }

    /// The result of a device command, from the server's answer.
    pub fn finish_send_command(outcome: SendOutcome) -> (r: Result<(), FxaError>)
        ensures
            r == send_outcome_spec(outcome),
    {
        match outcome {
            SendOutcome::Delivered => Ok(()),
            SendOutcome::Declined => Err(FxaError::CommandRejected),
            SendOutcome::Failed(e) => Err(FxaError::from_transport(e)),
        }
    }

    /// Takes the commands of one poll and hands the caller those it has not had yet,
    /// in order; the last index delivered moves past them, so that they are acknowledged
    /// and not delivered again.
    pub fn receive_commands(&mut self, fetched: Vec<IncomingDeviceCommand>) -> (r: Result<Vec<IncomingDeviceCommand>, FxaError>)
        requires
            old(self).wf(),
        ensures
            final(self).wf(),
            !old(self).state.is_connected() ==> r == Err::<Vec<IncomingDeviceCommand>, FxaError>(FxaError::NotAuthenticated) && *final(self) == *old(self),
            old(self).state.is_connected() ==> {
                &&& r matches Ok(out)
                &&& out@ == commands_after(fetched@, old(self).last_command_index)
                &&& final(self).last_command_index == max_index(fetched@, old(self).last_command_index)
                &&& final(self).same_config(*old(self))
                &&& final(self).state == old(self).state
                &&& final(self).access_tokens == old(self).access_tokens
                &&& final(self).refreshing == old(self).refreshing
                &&& final(self).devices == old(self).devices
                &&& final(self).registration == old(self).registration
                &&& final(self).migration == old(self).migration
            },
    {
        if !self.state.is_connected_exec() {
            return Err(FxaError::NotAuthenticated);
        }
        let after = self.last_command_index;
        let mut last = after;
        let mut out: Vec<IncomingDeviceCommand> = Vec::new();
        let mut i: usize = 0;
        while i < fetched.len()
            invariant
                0 <= i <= fetched.len(),
                out@ == commands_after(fetched@.take(i as int), after),
                last == max_index(fetched@.take(i as int), after),
            decreases fetched.len() - i,
        {
            proof {
                assert(fetched@.take(i + 1).drop_last() =~= fetched@.take(i as int));
            }
            let c = &fetched[i];
            if c.index > after {
                out.push(c.clone_command());
            }
            if c.index > last {
                last = c.index;
            }
            i = i + 1;
        }
        proof {
            assert(fetched@.take(fetched.len() as int) =~= fetched@);
        }
        self.last_command_index = last;
        Ok(out)
    }
}

impl IncomingDeviceCommand {
    /// A copy of this command.
    pub fn clone_command(&self) -> (r: IncomingDeviceCommand)
        ensures
            r == *self,
    {
        IncomingDeviceCommand {
            index: self.index,
            sender: self.sender.clone(),
            capability: self.capability,
            payload: self.payload.clone(),
        }
    }
}

} // verus!
