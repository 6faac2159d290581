//! Opening a device: picking it out of the bus by its identity, finding its
//! three endpoints among its interface descriptors, and the bring-up
//! sequence that prepares it for streaming.

use vstd::prelude::*;

use crate::protocol::{
    clear_ring_buffer_request, enable_output_request, get_frame, get_request, set_frame, Buf,
    GetCommand, SetCommand, ValueWidth,
};

verus! {

/// USB vendor identifier of the device.
pub const USB_VENDOR_ID: u16 = 0x1fc9;

/// USB product identifier of the device.
pub const USB_PRODUCT_ID: u16 = 0x04d8;

/// Interface that holds the two control endpoints.
pub const CONTROL_INTERFACE: u8 = 0;

/// Interface that holds the sample data endpoint.
pub const DATA_INTERFACE: u8 = 1;

/// Ways opening a device can fail.
#[derive(Clone, Copy, PartialEq, Eq, Structural, Debug)]
pub enum OpenError {
    /// No device on the bus has the device's vendor and product identifiers.
    DeviceNotFound,
    /// One of the three endpoints is missing from the device's descriptors.
    EndpointNotFound,
    /// The device reported its output off after being told to enable it.
    OutputEnableFailed,
}

/// Vendor and product identifiers read from a device descriptor.
#[derive(Clone, Copy, PartialEq, Eq, Structural, Debug)]
pub struct DeviceIdentity {
    pub vendor_id: u16,
    pub product_id: u16,
}

/// Whether a bus entry is the device: its descriptor could be read and
/// carries the device's identifiers.
pub open spec fn is_device(entry: Option<DeviceIdentity>) -> bool {
    entry matches Some(id) && id.vendor_id == USB_VENDOR_ID && id.product_id == USB_PRODUCT_ID
}

/// Picks the device out of the bus: the index of the first entry that
/// `is_device`, where an entry is `None` when its descriptor could not be
/// read. `DeviceNotFound` when no entry matches.
pub fn find_device(entries: &[Option<DeviceIdentity>]) -> (r: Result<usize, OpenError>)
    ensures
        r matches Ok(i) ==> i < entries@.len() && is_device(entries@[i as int]) && forall|j: int|
            0 <= j < i ==> !is_device(#[trigger] entries@[j]),
        r is Err ==> r == Err::<usize, OpenError>(OpenError::DeviceNotFound) && forall|j: int|
            0 <= j < entries@.len() ==> !is_device(#[trigger] entries@[j]),
{
    let mut i: usize = 0;
    while i < entries.len()
        invariant
            i <= entries@.len(),
            forall|j: int| 0 <= j < i ==> !is_device(#[trigger] entries@[j]),
        decreases entries@.len() - i,
    {
        if let Some(id) = entries[i] {
            if id.vendor_id == USB_VENDOR_ID && id.product_id == USB_PRODUCT_ID {
                return Ok(i);
            }
        }
        i = i + 1;
    }
    Err(OpenError::DeviceNotFound)
}

/// Direction of an endpoint, seen from the host.
#[derive(Clone, Copy, PartialEq, Eq, Structural, Debug)]
pub enum Direction {
    In,
    Out,
}

/// Transfer type of an endpoint.
#[derive(Clone, Copy, PartialEq, Eq, Structural, Debug)]
pub enum TransferType {
    Control,
    Isochronous,
    Bulk,
    Interrupt,
}

/// One endpoint descriptor, with the interface and alternate setting it
/// belongs to.
#[derive(Clone, Copy, PartialEq, Eq, Structural, Debug)]
pub struct EndpointEntry {
    pub interface: u8,
    pub setting: u8,
    pub address: u8,
    pub direction: Direction,
    pub transfer_type: TransferType,
}

/// A resolved endpoint.
#[derive(Clone, Copy, PartialEq, Eq, Structural, Debug)]
pub struct Endpoint {
    pub configuration: u8,
    pub interface: u8,
    pub setting: u8,
    pub address: u8,
    pub direction: Direction,
}

/// The endpoint that `entry` describes, in configuration `configuration`.
pub open spec fn endpoint_of(configuration: u8, entry: EndpointEntry) -> Endpoint {
    Endpoint {
        configuration,
        interface: entry.interface,
        setting: entry.setting,
        address: entry.address,
        direction: entry.direction,
    }
}

/// The three endpoints a session needs.
#[derive(Clone, Copy, PartialEq, Eq, Structural, Debug)]
pub enum EndpointRole {
    /// Bulk, inbound, on the control interface.
    ControlRead,
    /// Bulk, outbound, on the control interface.
    ControlWrite,
    /// Bulk, outbound, on the data interface.
    DataWrite,
}

impl EndpointRole {
    /// Whether `e` can serve in this role.
    pub open spec fn spec_accepts(self, e: EndpointEntry) -> bool {
        e.transfer_type == TransferType::Bulk && match self {
            EndpointRole::ControlRead => e.interface == CONTROL_INTERFACE && e.direction
                == Direction::In,
            EndpointRole::ControlWrite => e.interface == CONTROL_INTERFACE && e.direction
                == Direction::Out,
            EndpointRole::DataWrite => e.interface == DATA_INTERFACE && e.direction
                == Direction::Out,
        }
    }

    #[verifier::when_used_as_spec(spec_accepts)]
    pub fn accepts(self, e: EndpointEntry) -> (r: bool)
        ensures
            r == self.spec_accepts(e),
    {
        let (interface, direction) = match self {
            EndpointRole::ControlRead => (CONTROL_INTERFACE, Direction::In),
            EndpointRole::ControlWrite => (CONTROL_INTERFACE, Direction::Out),
            EndpointRole::DataWrite => (DATA_INTERFACE, Direction::Out),
        };
        e.transfer_type == TransferType::Bulk && e.interface == interface && e.direction
            == direction
    }
}

/// Whether entry `i` is the first of `entries` that can serve in `role`.
pub open spec fn is_first_match(entries: Seq<EndpointEntry>, role: EndpointRole, i: int) -> bool {
    &&& 0 <= i < entries.len()
    &&& role.spec_accepts(entries[i])
    &&& forall|j: int| 0 <= j < i ==> !role.spec_accepts(#[trigger] entries[j])
}

/// The index of the first entry that can serve in `role`, if any.
pub open spec fn first_match(entries: Seq<EndpointEntry>, role: EndpointRole) -> Option<int> {
    if exists|i: int| is_first_match(entries, role, i) {
        Some(choose|i: int| is_first_match(entries, role, i))
    } else {
        None
    }
}

/// The endpoint for `role` as `first_match` picks it.
pub open spec fn resolved(configuration: u8, entries: Seq<EndpointEntry>, role: EndpointRole) -> Option<
    Endpoint,
> {
    match first_match(entries, role) {
        Some(i) => Some(endpoint_of(configuration, entries[i])),
        None => None,
    }
}

/// There is at most one first match.
proof fn lemma_first_match_unique(entries: Seq<EndpointEntry>, role: EndpointRole, i: int, k: int)
    requires
        is_first_match(entries, role, i),
        is_first_match(entries, role, k),
    ensures
        i == k,
{
    if i < k {
        assert(!role.spec_accepts(entries[i]));
    } else if k < i {
        assert(!role.spec_accepts(entries[k]));
    }
}

/// Finds the endpoint for `role`: the first entry that can serve in it.
pub fn find_endpoint(configuration: u8, entries: &[EndpointEntry], role: EndpointRole) -> (r:
    Option<Endpoint>)
    ensures
        r == resolved(configuration, entries@, role),
{
    let mut i: usize = 0;
    while i < entries.len()
        invariant
            i <= entries@.len(),
            forall|j: int| 0 <= j < i ==> !role.spec_accepts(#[trigger] entries@[j]),
        decreases entries@.len() - i,
    {
        let e = entries[i];
        if role.accepts(e) {
            proof {
                assert(is_first_match(entries@, role, i as int));
                let k = choose|k: int| is_first_match(entries@, role, k);
                lemma_first_match_unique(entries@, role, i as int, k);
            }
            return Some(
                Endpoint {
                    configuration,
                    interface: e.interface,
                    setting: e.setting,
                    address: e.address,
                    direction: e.direction,
                },
            );
        }
        i = i + 1;
    }
    assert(!exists|k: int| is_first_match(entries@, role, k));
    None
}

/// The endpoints of a device, one per role.
#[derive(Clone, Copy, PartialEq, Eq, Structural, Debug)]
pub struct Endpoints {
    pub control_read: Endpoint,
    pub control_write: Endpoint,
    pub data_write: Endpoint,
}

/// Finds the three endpoints among the descriptors of configuration
/// `configuration`; `EndpointNotFound` when any of them is missing.
pub fn resolve_endpoints(configuration: u8, entries: &[EndpointEntry]) -> (r: Result<
    Endpoints,
    OpenError,
>)
    ensures
        match (
            resolved(configuration, entries@, EndpointRole::ControlRead),
            resolved(configuration, entries@, EndpointRole::ControlWrite),
            resolved(configuration, entries@, EndpointRole::DataWrite),
        ) {
            (Some(control_read), Some(control_write), Some(data_write)) => r == Ok::<
                Endpoints,
                OpenError,
            >(Endpoints { control_read, control_write, data_write }),
            _ => r == Err::<Endpoints, OpenError>(OpenError::EndpointNotFound),
        },
{
    let control_read = find_endpoint(configuration, entries, EndpointRole::ControlRead);
    let control_write = find_endpoint(configuration, entries, EndpointRole::ControlWrite);
    let data_write = find_endpoint(configuration, entries, EndpointRole::DataWrite);
    match (control_read, control_write, data_write) {
        (Some(control_read), Some(control_write), Some(data_write)) => Ok(
            Endpoints { control_read, control_write, data_write },
        ),
        _ => Err(OpenError::EndpointNotFound),
    }
}

/// Steps of the bring-up sequence, in the order they run.
#[derive(Clone, Copy, PartialEq, Eq, Structural, Debug)]
pub enum BringupStep {
    /// Empty the device's sample ring buffer.
    ClearRingBuffer,
    /// Turn the output on.
    EnableOutput,
    /// Ask whether the output is on.
    CheckOutput,
    /// Done: the device is ready to stream.
    Ready,
}

/// The request each step sends; `None` once the sequence is done.
pub open spec fn step_request(step: BringupStep) -> Option<Seq<u8>> {
    match step {
        BringupStep::ClearRingBuffer => Some(set_frame(SetCommand::ClearRingBuffer, 0)),
        BringupStep::EnableOutput => Some(set_frame(SetCommand::EnableOutput, 1)),
        BringupStep::CheckOutput => Some(get_frame(GetCommand::OutputEnabled)),
        BringupStep::Ready => None,
    }
}

/// Whether an answer to `OutputEnabled` says the output is on.
pub open spec fn reports_enabled(response: Buf) -> bool {
    response.spec_value(ValueWidth::Byte) != 0
}

/// The step that follows `step` once the device has answered its request
/// with `response`; the sequence fails with `OutputEnableFailed` when the
/// device reports its output off after being told to enable it.
pub open spec fn step_after(step: BringupStep, response: Buf) -> Result<BringupStep, OpenError> {
    match step {
        BringupStep::ClearRingBuffer => Ok(BringupStep::EnableOutput),
        BringupStep::EnableOutput => Ok(BringupStep::CheckOutput),
        BringupStep::CheckOutput => if reports_enabled(response) {
            Ok(BringupStep::Ready)
        } else {
            Err(OpenError::OutputEnableFailed)
        },
        BringupStep::Ready => Ok(BringupStep::Ready),
    }
}

/// Whether the answer to an `OutputEnabled` request says the output is on.
pub fn output_enabled(response: &Buf) -> (r: bool)
    ensures
        r == reports_enabled(*response),
{
    response.value(GetCommand::OutputEnabled) != 0
}

impl BringupStep {
    /// The request to send at this step; `None` once the device is ready.
    pub fn request(self) -> (r: Option<Vec<u8>>)
        ensures
            match (r, step_request(self)) {
                (Some(v), Some(s)) => v@ == s,
                (None, None) => true,
                _ => false,
            },
    {
        match self {
            BringupStep::ClearRingBuffer => Some(clear_ring_buffer_request()),
            BringupStep::EnableOutput => Some(enable_output_request()),
            BringupStep::CheckOutput => Some(get_request(GetCommand::OutputEnabled)),
            BringupStep::Ready => None,
        }
    }

    /// The next step, given the validated response to this step's request.
    pub fn next(self, response: &Buf) -> (r: Result<BringupStep, OpenError>)
        ensures
            r == step_after(self, *response),
    {
        match self {
            BringupStep::ClearRingBuffer => Ok(BringupStep::EnableOutput),
            BringupStep::EnableOutput => Ok(BringupStep::CheckOutput),
            BringupStep::CheckOutput => if output_enabled(response) {
                Ok(BringupStep::Ready)
            } else {
                Err(OpenError::OutputEnableFailed)
            },
            BringupStep::Ready => Ok(BringupStep::Ready),
        }
    }
}

} // verus!
