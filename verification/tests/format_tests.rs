use momcap::format::FormatError;
use momcap::format::FormatNegotiation;
use momcap::format::SampleRep;
use momcap::format::StreamFormatSpec;
use momcap::handshake::HandshakeSession;
use momcap::handshake::PropertyReadOutcome;
use momcap::handshake::PropertyWriteOutcome;

fn completed_handshake() -> HandshakeSession {
    let mut hs = HandshakeSession::new("capture".to_string());
    hs.on_initial_read(&PropertyReadOutcome::Value("".to_string())).unwrap();
    hs.on_write(&PropertyWriteOutcome::Accepted).unwrap();
    hs.on_confirm_read(&PropertyReadOutcome::Value("capture".to_string())).unwrap();
    hs
}

fn stereo_f32_48k() -> StreamFormatSpec {
    StreamFormatSpec { sample_rate: 48000, channel_count: 2, rep: SampleRep::F32Packed }
}

#[test]
fn logical_before_physical_is_rejected() {
    let mut neg = FormatNegotiation::new();
    let r = neg.negotiate_logical(stereo_f32_48k());
    assert_eq!(r, Err(FormatError::PhysicalNotNegotiated));
    assert_eq!(neg.logical(), None);
}

#[test]
fn physical_negotiation_requires_an_exact_supported_match() {
    let hs = completed_handshake();
    let mut neg = FormatNegotiation::new();
    let supported = vec![
        StreamFormatSpec { sample_rate: 44100, channel_count: 2, rep: SampleRep::F32Packed },
        StreamFormatSpec { sample_rate: 48000, channel_count: 1, rep: SampleRep::F32Packed },
        StreamFormatSpec { sample_rate: 48000, channel_count: 2, rep: SampleRep::I16 },
    ];
    let r = neg.negotiate_physical(stereo_f32_48k(), &supported, &hs);
    assert_eq!(r, Err(FormatError::Unsupported));
    assert_eq!(neg.physical(), None);
}

#[test]
fn physical_negotiation_selects_the_matching_format() {
    let hs = completed_handshake();
    let mut neg = FormatNegotiation::new();
    let supported = vec![
        StreamFormatSpec { sample_rate: 44100, channel_count: 2, rep: SampleRep::F32Packed },
        stereo_f32_48k(),
    ];
    neg.negotiate_physical(stereo_f32_48k(), &supported, &hs).unwrap();
    assert_eq!(neg.physical(), Some(stereo_f32_48k()));
}

#[test]
fn logical_must_agree_with_physical() {
    let hs = completed_handshake();
    let mut neg = FormatNegotiation::new();
    neg.negotiate_physical(stereo_f32_48k(), &vec![stereo_f32_48k()], &hs).unwrap();
    let other = StreamFormatSpec { sample_rate: 48000, channel_count: 2, rep: SampleRep::I16 };
    assert_eq!(neg.negotiate_logical(other), Err(FormatError::Mismatch));
    assert_eq!(neg.logical(), None);
    neg.negotiate_logical(stereo_f32_48k()).unwrap();
    assert_eq!(neg.logical(), Some(stereo_f32_48k()));
}
