//! Discovery: picking the target devices out of a USB enumeration.
//!
//! The runtime enumerates the bus and reads each device's descriptor; what
//! it saw arrives here as a list of candidates, in bus order. The verified
//! scan keeps exactly the candidates whose descriptor was readable and
//! carries the target vendor/product signature, in order, each as a fresh
//! uninitialized [`QrngDevice`]; a failed descriptor read skips only that
//! candidate. A failed enumeration is the one fatal outcome.

use vstd::prelude::*;

use crate::device::DeviceView;
use crate::device::QrngDevice;
use crate::device::FTDI_PRODUCT_ID;
use crate::device::FTDI_VENDOR_ID;
use crate::error::QrngError;

verus! {

/// One device seen during enumeration: the runtime's key to its handle and
/// its (vendor id, product id) pair, or `None` where the descriptor read
/// failed.
#[derive(Debug, Clone, Copy)]
pub struct UsbCandidate {
    pub handle: u64,
    pub descriptor: Option<(u16, u16)>,
}

/// Whether a candidate carries the target signature.
pub open spec fn is_target(c: UsbCandidate) -> bool {
    c.descriptor matches Some(d) && d.0 == FTDI_VENDOR_ID && d.1 == FTDI_PRODUCT_ID
}

/// The device a target candidate turns into: its identity recorded,
/// protocol state `Uninitialized`.
pub open spec fn device_of(c: UsbCandidate) -> DeviceView
    recommends
        is_target(c),
{
    DeviceView {
        handle: c.handle,
        vendor_id: FTDI_VENDOR_ID,
        product_id: FTDI_PRODUCT_ID,
        initialized: false,
    }
}

/// What a scan over `cs` yields: the target candidates, in order.
pub open spec fn scan_result(cs: Seq<UsbCandidate>) -> Seq<DeviceView>
    decreases cs.len(),
{
    if cs.len() == 0 {
        Seq::empty()
    } else if is_target(cs.last()) {
        scan_result(cs.drop_last()).push(device_of(cs.last()))
    } else {
        scan_result(cs.drop_last())
    }
}

/// The mathematical content of a list of devices.
pub open spec fn views_of(ds: Seq<QrngDevice>) -> Seq<DeviceView> {
    ds.map_values(|d: QrngDevice| d@)
}

/// Filters an enumeration down to the attached target devices. A failed
/// enumeration is reported as `UsbError`; otherwise the result is exactly
/// [`scan_result`] of the candidates: every readable descriptor matching
/// the target signature, in bus order, each device uninitialized.
pub fn scan_devices(enumeration: Result<Vec<UsbCandidate>, String>) -> (r: Result<
    Vec<QrngDevice>,
    QrngError,
>)
    ensures
        enumeration matches Ok(cs) ==> {
            &&& r matches Ok(ds)
            &&& views_of(ds@) == scan_result(cs@)
        },
        enumeration matches Err(e) ==> r == Err::<Vec<QrngDevice>, QrngError>(
            QrngError::UsbError(e),
        ),
{
    let cs = match enumeration {
        Ok(cs) => cs,
        Err(e) => {
            return Err(QrngError::UsbError(e));
        }
    };
    let mut out: Vec<QrngDevice> = Vec::new();
    let n = cs.len();
    for i in 0..n
        invariant
            n == cs@.len(),
            views_of(out@) == scan_result(cs@.take(i as int)),
    {
        let ghost prefix = cs@.take(i as int);
        match cs[i].descriptor {
            Some((vendor, product)) => {
                if vendor == FTDI_VENDOR_ID && product == FTDI_PRODUCT_ID {
                    let ghost before = out@;
                    out.push(QrngDevice::new(cs[i].handle, vendor, product));
                    proof {
                        assert(views_of(out@) =~= views_of(before).push(out@.last()@));
                    }
                }
            }
            None => {}
        }
        proof {
            assert(cs@.take(i + 1).drop_last() =~= prefix);
            assert(cs@.take(i + 1).last() == cs@[i as int]);
        }
    }
    proof {
        assert(cs@.take(n as int) =~= cs@);
    }
    Ok(out)
}

} // verus!
