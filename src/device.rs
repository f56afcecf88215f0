use vstd::prelude::*;
use crate::session::CaptureError;

verus! {

/// A native sample encoding a source may deliver.
#[derive(Clone, Copy, PartialEq, Eq, Structural, Debug)]
pub enum SampleEncoding {
    F32,
    I16,
    U16,
    /// Any encoding the library does not read.
    Other,
}

/// Whether chunks in encoding `e` can be normalized.
pub open spec fn readable(e: SampleEncoding) -> bool {
    e != SampleEncoding::Other
}

/// A capture source as listed at enumeration time.
pub struct DeviceDescriptor {
    pub name: String,
    /// The encodings the source offers.
    pub encodings: Vec<SampleEncoding>,
    /// The encoding of the source's default configuration, when it could
    /// be read.
    pub default_encoding: Option<SampleEncoding>,
    pub channels: u16,
    pub sample_rate: u32,
}

/// The format a session captures in.
#[derive(Clone, Copy, PartialEq, Eq, Structural, Debug)]
pub struct StreamFormat {
    pub encoding: SampleEncoding,
    pub channels: u16,
    pub sample_rate: u32,
}

/// Index of the first device in `devices` named `name`.
pub open spec fn first_named(devices: Seq<DeviceDescriptor>, name: Seq<char>, i: int) -> bool {
    &&& 0 <= i < devices.len()
    &&& devices[i].name@ == name
    &&& forall|j: int| 0 <= j < i ==> devices[j].name@ != name
}

/// The device named `name`, the first one in enumeration order where names
/// repeat; `DeviceNotFound` when none is.
pub fn find_device(devices: &Vec<DeviceDescriptor>, name: &String) -> (r: Result<
    usize,
    CaptureError,
>)
    ensures
        match r {
            Ok(i) => first_named(devices@, name@, i as int),
            Err(e) => e == CaptureError::DeviceNotFound && forall|j: int|
                0 <= j < devices@.len() ==> devices@[j].name@ != name@,
        },
{
    let mut i: usize = 0;
    while i < devices.len()
        invariant
            i <= devices@.len(),
            forall|j: int| 0 <= j < i ==> devices@[j].name@ != name@,
        decreases devices@.len() - i,
    {
        if devices[i].name == *name {
            return Ok(i);
        }
        i = i + 1;
    }
    Err(CaptureError::DeviceNotFound)
}

/// The encoding a session on `device` uses: the requested one, else the
/// default configuration's.
pub open spec fn chosen_encoding(device: DeviceDescriptor, requested: Option<SampleEncoding>) -> Option<
    SampleEncoding,
> {
    match requested {
        Some(e) => Some(e),
        None => device.default_encoding,
    }
}

/// Whether `device` can capture in `e`.
pub open spec fn offers(device: DeviceDescriptor, e: SampleEncoding) -> bool {
    readable(e) && device.encodings@.contains(e) && device.channels > 0 && device.sample_rate > 0
}

/// Resolves the capture format for `device`: the requested encoding if
/// given, else the default configuration's. Fails with
/// `FormatNegotiationError` when there is none, or when the device does
/// not offer it in a form the library reads.
pub fn negotiate_format(device: &DeviceDescriptor, requested: Option<SampleEncoding>) -> (r: Result<
    StreamFormat,
    CaptureError,
>)
    ensures
        match chosen_encoding(*device, requested) {
            Some(e) => if offers(*device, e) {
                r == Ok::<StreamFormat, CaptureError>(
                    (StreamFormat {
                        encoding: e,
                        channels: device.channels,
                        sample_rate: device.sample_rate,
                    }),
                )
            } else {
                r == Err::<StreamFormat, CaptureError>(CaptureError::FormatNegotiationError)
            },
            None => r == Err::<StreamFormat, CaptureError>(CaptureError::FormatNegotiationError),
        },
{
    let e = match requested {
        Some(e) => e,
        None => match device.default_encoding {
            Some(e) => e,
            None => {
                return Err(CaptureError::FormatNegotiationError);
            },
        },
    };
    if e == SampleEncoding::Other || device.channels == 0 || device.sample_rate == 0 {
        return Err(CaptureError::FormatNegotiationError);
    }
    let mut i: usize = 0;
    while i < device.encodings.len()
        invariant
            i <= device.encodings@.len(),
            chosen_encoding(*device, requested) == Some(e),
            readable(e),
            device.channels > 0,
            device.sample_rate > 0,
            forall|j: int| 0 <= j < i ==> device.encodings@[j] != e,
        decreases device.encodings@.len() - i,
    {
        if device.encodings[i] == e {
            assert(device.encodings@.contains(e)) by {
                assert(device.encodings@[i as int] == e);
            }

            return Ok(
                StreamFormat { encoding: e, channels: device.channels, sample_rate: device.sample_rate },
            );
        }
        i = i + 1;
    }
    Err(CaptureError::FormatNegotiationError)
}

} // verus!
