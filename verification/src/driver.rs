//! USB transport for the stage controller.
//!
//! Everything that touches rusb goes through the trusted wrappers in
//! this module; the open/claim/release lifecycle and the framing checks
//! around raw transfers are verified on top of them.
//!
//! Fixed addressing, from the controller's documentation: commands go
//! out on bulk endpoint `0x02`, responses come back on bulk endpoint
//! `0x82`, and a vendor control transfer with value 2 (open) or 4
//! (close) brackets a session.

use vstd::prelude::*;

use crate::codec::response_of;
use crate::error::StageError;

verus! {

/// Bulk OUT endpoint for commands.
pub const ENDPOINT_OUT: u8 = 0x02;

/// Bulk IN endpoint for responses.
pub const ENDPOINT_IN: u8 = 0x82;

/// Vendor control transfer: request type and request number.
pub const CONTROL_REQUEST_TYPE: u8 = 64;

/// Vendor control transfer request number.
pub const CONTROL_REQUEST: u8 = 2;

/// Control value signalling "device ready".
pub const CONTROL_VALUE_OPEN: u16 = 2;

/// Control value signalling "device done".
pub const CONTROL_VALUE_CLOSE: u16 = 4;

/// Timeout for required transfers, in milliseconds.
pub const TRANSFER_TIMEOUT_MS: u64 = 3000;

/// Timeout for the best-effort drain read, in milliseconds. rusb treats
/// anything below one millisecond as an infinite block, so this is the
/// shortest usable drain.
pub const DRAIN_TIMEOUT_MS: u64 = 1;

/// Size of the raw response buffer; 64 bytes covers all known replies.
pub const RESPONSE_BUFFER_LEN: usize = 64;

/// An open rusb device handle, opaque to the verifier. (rusb's
/// `DeviceHandle<T: UsbContext>` carries a trait bound Verus refuses to
/// declare, so the concrete instantiation is held behind this struct.)
#[verifier::external_body]
pub struct UsbDeviceHandle {
    inner: rusb::DeviceHandle<rusb::GlobalContext>,
}

/// A reference to an attached rusb device, opaque to the verifier.
#[verifier::external_body]
pub struct UsbDevice {
    inner: rusb::Device<rusb::GlobalContext>,
}

/// A device descriptor, opaque to the verifier; only its vendor and
/// product identifiers are read.
#[verifier::external_body]
pub struct UsbDescriptor {
    inner: rusb::DeviceDescriptor,
}

/// How a bulk read ended when it did not succeed.
#[derive(Clone, Copy, Debug, PartialEq, Eq, Structural)]
pub enum ReadFault {
    /// The transfer timed out with nothing received.
    Timeout,
    /// Any other transfer failure.
    Other,
}

/// Exclusive ownership of the open USB device and its claimed
/// interface. Exactly one live handle drives the stage; the ghost flag
/// records whether this library still owes a `release_interface` call.
pub struct StageHandle {
    dev: UsbDeviceHandle,
    claimed: Ghost<bool>,
}

impl StageHandle {
    /// The handle's interface is claimed and no release has been issued
    /// yet; every exchange with the device demands this.
    pub closed spec fn is_open(self) -> bool {
        self.claimed@
    }
}

/// Relies on rusb::devices and DeviceList::iter: a snapshot of the
/// attached USB devices.
#[verifier::external_body]
fn usb_device_list() -> (r: Result<Vec<UsbDevice>, StageError>) {
    match rusb::devices() {
        Ok(list) => Ok(list.iter().map(|inner| UsbDevice { inner }).collect()),
        Err(_) => Err(StageError::TransportIO),
    }
}

/// Relies on Device::device_descriptor: the device's descriptor.
#[verifier::external_body]
fn usb_device_descriptor(d: &UsbDevice) -> (r: Result<UsbDescriptor, StageError>) {
    match d.inner.device_descriptor() {
        Ok(inner) => Ok(UsbDescriptor { inner }),
        Err(_) => Err(StageError::TransportIO),
    }
}

/// Relies on DeviceDescriptor::vendor_id.
#[verifier::external_body]
fn usb_vendor_id(d: &UsbDescriptor) -> u16 {
    d.inner.vendor_id()
}

/// Relies on DeviceDescriptor::product_id.
#[verifier::external_body]
fn usb_product_id(d: &UsbDescriptor) -> u16 {
    d.inner.product_id()
}

/// Relies on Device::open.
#[verifier::external_body]
fn usb_open_device(d: &UsbDevice) -> (r: Result<UsbDeviceHandle, StageError>) {
    match d.inner.open() {
        Ok(inner) => Ok(UsbDeviceHandle { inner }),
        Err(_) => Err(StageError::TransportIO),
    }
}

/// Relies on DeviceHandle::claim_interface. On success the ghost flag
/// records the release now owed for the claimed interface.
#[verifier::external_body]
fn usb_claim_interface(h: &mut StageHandle, iface: u8) -> (r: Result<(), StageError>)
    ensures
        r is Ok ==> final(h).claimed@ == true,
        r is Err ==> final(h).claimed@ == old(h).claimed@,
{
    h.dev.inner.claim_interface(iface).map_err(|_| StageError::InterfaceClaimFailed)
}

/// Relies on DeviceHandle::release_interface. Clearing the ghost flag
/// records that the release has been issued, whatever its outcome.
#[verifier::external_body]
fn usb_release_interface(h: &mut StageHandle, iface: u8) -> (r: Result<(), StageError>)
    ensures
        final(h).claimed@ == false,
{
    h.dev.inner.release_interface(iface).map_err(|_| StageError::TransportIO)
}

/// Relies on DeviceHandle::write_control with an empty payload: the
/// session open/close signal carries data in `value` alone.
#[verifier::external_body]
fn usb_write_control(
    h: &StageHandle,
    request_type: u8,
    request: u8,
    value: u16,
    index: u16,
    timeout_ms: u64,
) -> (r: Result<(), StageError>) {
    match h.dev.inner.write_control(
        request_type,
        request,
        value,
        index,
        &[],
        std::time::Duration::from_millis(timeout_ms),
    ) {
        Ok(_) => Ok(()),
        Err(_) => Err(StageError::TransportIO),
    }
}

/// Relies on DeviceHandle::write_bulk: `Ok(n)` means exactly the first
/// `n` bytes of `data` were written to the endpoint, and `n` never
/// exceeds the data's length.
#[verifier::external_body]
fn usb_write_bulk(h: &StageHandle, endpoint: u8, data: &Vec<u8>, timeout_ms: u64) -> (r: Result<
    usize,
    StageError,
>)
    ensures
        r matches Ok(n) ==> n <= data@.len(),
        r matches Err(e) ==> e == StageError::TransportIO,
{
    h.dev.inner.write_bulk(endpoint, data.as_slice(), std::time::Duration::from_millis(timeout_ms))
        .map_err(|_| StageError::TransportIO)
}

/// Relies on DeviceHandle::read_bulk: `Ok(n)` means the first `n` bytes
/// of `buf` now hold data received from the endpoint; `n` never exceeds
/// the buffer's length, which is preserved. A timed-out transfer that
/// moved no bytes is reported as `ReadFault::Timeout`.
#[verifier::external_body]
fn usb_read_bulk(h: &StageHandle, endpoint: u8, buf: &mut Vec<u8>, timeout_ms: u64) -> (r: Result<
    usize,
    ReadFault,
>)
    ensures
        final(buf)@.len() == old(buf)@.len(),
        r matches Ok(n) ==> n <= old(buf)@.len(),
{
    match h.dev.inner.read_bulk(
        endpoint,
        buf.as_mut_slice(),
        std::time::Duration::from_millis(timeout_ms),
    ) {
        Ok(n) => Ok(n),
        Err(rusb::Error::Timeout) => Err(ReadFault::Timeout),
        Err(_) => Err(ReadFault::Other),
    }
}

/// Whether a reported write count covers the whole command. A short
/// write is never tolerated: anything less than the full command is a
/// `TransportIO` error, never a silent success.
pub fn check_write_count(bytes_written: usize, expected: usize) -> (r: Result<(), StageError>)
    ensures
        bytes_written == expected ==> r is Ok,
        bytes_written != expected ==> r == Result::<(), StageError>::Err(StageError::TransportIO),
{
    if bytes_written == expected {
        Ok(())
    } else {
        Err(StageError::TransportIO)
    }
}

/// Find the first attached device matching the vendor/product pair and
/// open it. Fails with `DeviceNotFound` when nothing matches.
pub fn get_handle_from_vendor_product_id(vendor_id: u16, product_id: u16) -> (r: Result<
    UsbDeviceHandle,
    StageError,
>) {
    let devices = match usb_device_list() {
        Ok(d) => d,
        Err(e) => {
            return Err(e);
        },
    };
    let mut i: usize = 0;
    while i < devices.len()
        decreases devices@.len() - i,
    {
        let desc = match usb_device_descriptor(&devices[i]) {
            Ok(d) => d,
            Err(e) => {
                return Err(e);
            },
        };
        if usb_vendor_id(&desc) == vendor_id && usb_product_id(&desc) == product_id {
            return usb_open_device(&devices[i]);
        }
        i = i + 1;
    }
    Err(StageError::DeviceNotFound)
}

/// Best-effort read on the response endpoint with a very short timeout,
/// discarding whatever stale bytes a prior exchange left behind. A
/// timeout is the expected outcome; every other fault is non-fatal
/// here, so the call always succeeds.
pub fn saftey_read(handle: &StageHandle) -> (r: Result<(), StageError>)
    requires
        handle.is_open(),
    ensures
        r is Ok,
{
    let mut buf = response_buffer();
    let _ = usb_read_bulk(handle, ENDPOINT_IN, &mut buf, DRAIN_TIMEOUT_MS);
    Ok(())
}

/// Drain step of `open`: like `saftey_read`, but any fault other than a
/// timeout is surfaced.
fn drain_read(handle: &StageHandle) -> (r: Result<(), StageError>)
    requires
        handle.is_open(),
{
    let mut buf = response_buffer();
    match usb_read_bulk(handle, ENDPOINT_IN, &mut buf, DRAIN_TIMEOUT_MS) {
        Ok(_) => Ok(()),
        Err(ReadFault::Timeout) => Ok(()),
        Err(ReadFault::Other) => Err(StageError::TransportIO),
    }
}

/// A zeroed raw response buffer.
fn response_buffer() -> (r: Vec<u8>)
    ensures
        r@.len() == RESPONSE_BUFFER_LEN,
        forall|i: int| 0 <= i < r@.len() ==> r@[i] == 0u8,
{
    let mut buf: Vec<u8> = Vec::new();
    let mut i: usize = 0;
    while i < RESPONSE_BUFFER_LEN
        invariant
            0 <= i <= RESPONSE_BUFFER_LEN,
            buf@.len() == i,
            forall|j: int| 0 <= j < i ==> buf@[j] == 0u8,
        decreases RESPONSE_BUFFER_LEN - i,
    {
        buf.push(0u8);
        i = i + 1;
    }
    buf
}

/// Issue the session control transfer carrying `value`.
pub fn write_to_control(handle: &StageHandle, value: u16) -> (r: Result<(), StageError>)
    requires
        handle.is_open(),
{
    usb_write_control(
        handle,
        CONTROL_REQUEST_TYPE,
        CONTROL_REQUEST,
        value,
        0,
        TRANSFER_TIMEOUT_MS,
    )
}

/// Write a framed command to the command endpoint. Succeeds only when
/// the device took every byte: a short write is a `TransportIO` error.
pub fn write_to_bulk(handle: &StageHandle, command: &Vec<u8>) -> (r: Result<(), StageError>)
    requires
        handle.is_open(),
    ensures
        r matches Err(e) ==> e == StageError::TransportIO,
{
    match usb_write_bulk(handle, ENDPOINT_OUT, command, TRANSFER_TIMEOUT_MS) {
        Ok(n) => check_write_count(n, command.len()),
        Err(e) => Err(e),
    }
}

/// Read one raw reply from the response endpoint and extract the
/// response text before its first NUL. Unlike the drain read, a timeout
/// here is a hard error.
pub fn read_from_bulk(handle: &StageHandle) -> (r: Result<Vec<u8>, StageError>)
    requires
        handle.is_open(),
    ensures
        r matches Ok(resp) ==> {
            &&& resp@.len() <= RESPONSE_BUFFER_LEN
            &&& forall|i: int| 0 <= i < resp@.len() ==> resp@[i] != 0u8
        },
        r matches Err(e) ==> e == StageError::TransportIO,
{
    let mut buf = response_buffer();
    match usb_read_bulk(handle, ENDPOINT_IN, &mut buf, TRANSFER_TIMEOUT_MS) {
        Ok(_) => {
            let resp = crate::codec::extract_response(&buf);
            proof {
                crate::codec::lemma_response_prefix(buf@);
                assert(resp@ == response_of(buf@));
                assert(resp@.len() <= buf@.len());
                assert(forall|i: int|
                    0 <= i < resp@.len() ==> #[trigger] response_of(buf@)[i] != 0u8);
                assert(forall|i: int| 0 <= i < resp@.len() ==> resp@[i] != 0u8);
            }
            Ok(resp)
        },
        Err(_) => Err(StageError::TransportIO),
    }
}

/// Open a session on the first device matching the vendor/product pair:
/// open the device, claim interface 0, signal "device ready", and drain
/// stale bytes (a drain timeout is ignored, any other drain fault is
/// surfaced). Should a step after the claim fail, the handle is dropped
/// and rusb itself releases every claimed interface on drop.
pub fn open(vendor_id: u16, product_id: u16) -> (r: Result<StageHandle, StageError>)
    ensures
        r matches Ok(h) ==> h.is_open(),
{
    let dev = match get_handle_from_vendor_product_id(vendor_id, product_id) {
        Ok(d) => d,
        Err(e) => {
            return Err(e);
        },
    };
    let mut handle = StageHandle { dev, claimed: Ghost(false) };
    match usb_claim_interface(&mut handle, 0) {
        Ok(()) => (),
        Err(e) => {
            return Err(e);
        },
    }
    match write_to_control(&handle, CONTROL_VALUE_OPEN) {
        Ok(()) => (),
        Err(e) => {
            return Err(e);
        },
    }
    match drain_read(&handle) {
        Ok(()) => (),
        Err(e) => {
            return Err(e);
        },
    }
    Ok(handle)
}

/// Close the session: signal "device done", then release the claimed
/// interface. The release is issued even when the control transfer
/// fails; the first failure is the one reported.
pub fn close(handle: &mut StageHandle) -> (r: Result<(), StageError>)
    requires
        old(handle).is_open(),
    ensures
        !final(handle).is_open(),
{
    let control_result = write_to_control(handle, CONTROL_VALUE_CLOSE);
    let release_result = usb_release_interface(handle, 0);
    match control_result {
        Ok(()) => release_result,
        Err(e) => Err(e),
    }
}

} // verus!
