use sysaudio_capture::device::{
    find_device, negotiate_format, DeviceDescriptor, SampleEncoding, StreamFormat,
};
use sysaudio_capture::session::CaptureError;

fn dev(name: &str, encodings: Vec<SampleEncoding>, default: Option<SampleEncoding>) -> DeviceDescriptor {
    DeviceDescriptor {
        name: name.to_string(),
        encodings,
        default_encoding: default,
        channels: 2,
        sample_rate: 48000,
    }
}

#[test]
fn find_device_takes_first_of_equal_names() {
    let ds = vec![
        dev("Mic", vec![SampleEncoding::I16], None),
        dev("Loopback", vec![SampleEncoding::F32], None),
        dev("Mic", vec![SampleEncoding::F32], None),
    ];
    assert_eq!(find_device(&ds, &"Mic".to_string()), Ok(0));
    assert_eq!(find_device(&ds, &"Loopback".to_string()), Ok(1));
    assert_eq!(find_device(&ds, &"Line In".to_string()), Err(CaptureError::DeviceNotFound));
    assert_eq!(find_device(&Vec::new(), &"Mic".to_string()), Err(CaptureError::DeviceNotFound));
}

#[test]
fn negotiate_uses_default_unless_overridden() {
    let d = dev("Mic", vec![SampleEncoding::I16, SampleEncoding::F32], Some(SampleEncoding::I16));
    assert_eq!(
        negotiate_format(&d, None),
        Ok(StreamFormat { encoding: SampleEncoding::I16, channels: 2, sample_rate: 48000 })
    );
    assert_eq!(
        negotiate_format(&d, Some(SampleEncoding::F32)),
        Ok(StreamFormat { encoding: SampleEncoding::F32, channels: 2, sample_rate: 48000 })
    );
}

#[test]
fn negotiate_fails_on_missing_or_unsupported_format() {
    let d = dev("Mic", vec![SampleEncoding::I16, SampleEncoding::Other], None);
    assert_eq!(negotiate_format(&d, None), Err(CaptureError::FormatNegotiationError));
    assert_eq!(
        negotiate_format(&d, Some(SampleEncoding::U16)),
        Err(CaptureError::FormatNegotiationError)
    );
    assert_eq!(
        negotiate_format(&d, Some(SampleEncoding::Other)),
        Err(CaptureError::FormatNegotiationError)
    );
    let mut silent = dev("Mic", vec![SampleEncoding::I16], Some(SampleEncoding::I16));
    silent.sample_rate = 0;
    assert_eq!(negotiate_format(&silent, None), Err(CaptureError::FormatNegotiationError));
}
