use std::cell::Cell;

use lime_suite::bindings::{dataFmt_t, linkFmt_t, lms_stream_meta_t};
use lime_suite::device::high_level::ChannelDirection;
use lime_suite::device::streaming::{
    recv_buffer_len, DataFmt, LinkFmt, StreamChFlags, StreamConfiguration, WaveformDataFmt,
};
use lime_suite::device::{Context, Device};
use lime_suite::error::{Error, LmsRetVal};

fn device() -> Device {
    match Context::open(0, 21) {
        Ok(d) => d,
        Err(_) => panic!("open failed"),
    }
}

fn configuration() -> StreamConfiguration {
    StreamConfiguration {
        channel_dir: ChannelDirection::RX(),
        channel: 0,
        fifo_size: 1024 * 1024,
        throughput_vs_latency: 0.5f32.to_bits(),
        data_fmt: DataFmt::FmtI16,
        link_fmt: LinkFmt::LinkFmtDefault,
    }
}

#[test]
fn new_stream_has_no_handle() {
    let d = device();
    let s = d.create_stream(configuration());
    assert_eq!(s.get_handle(), 0);
    assert_eq!(s.get_device().get_handle(), 21);
    assert_eq!(s.configuration.fifo_size, 1024 * 1024);
    assert_eq!(f32::from_bits(s.configuration.throughput_vs_latency), 0.5);
}

#[test]
fn setup_takes_handle_on_success_only() {
    let d = device();
    let mut s = d.create_stream(configuration());
    assert!(s.setup(-1, 99).is_err());
    assert_eq!(s.get_handle(), 0);
    assert!(s.setup(0, 99).is_ok());
    assert_eq!(s.get_handle(), 99);
    assert!(s.setup(-1, 5).is_err());
    assert_eq!(s.get_handle(), 99);
}

#[test]
fn stream_status_outcomes() {
    let s = device().create_stream(configuration());
    assert!(s.start(0).is_ok());
    assert!(s.stop(-1).is_err());
    assert!(s.destroy(0).is_ok());
    assert_eq!(s.send(128).unwrap(), 128);
    assert!(matches!(s.send(-1), Err(Error::Lms(LmsRetVal::GeneralError))));
}

#[test]
fn receive_keeps_received_bytes() {
    let s = device().create_stream(configuration());
    let meta = lms_stream_meta_t { timestamp: 5, waitForTimestamp: false, flushPartialPacket: false };
    let buffer: Vec<u8> = (0..4096u32).map(|i| (i % 251) as u8).collect();
    let (kept, m) = s.recv(2, buffer.clone(), meta).unwrap();
    assert_eq!(kept, buffer[..8].to_vec());
    assert_eq!(m.timestamp, 5);
    let (all, _) = s.recv(5000, buffer.clone(), meta).unwrap();
    assert_eq!(all.len(), 4096);
    let (none, _) = s.recv(0, buffer.clone(), meta).unwrap();
    assert!(none.is_empty());
    assert!(s.recv(-1, buffer, meta).is_err());
}

#[test]
fn format_conversions() {
    for f in [DataFmt::FmtF32, DataFmt::FmtI16, DataFmt::FmtI12] {
        assert_eq!(DataFmt::from(dataFmt_t::from(f)), f);
    }
    for f in [LinkFmt::LinkFmtDefault, LinkFmt::LinkFmtI16, LinkFmt::LinkFmtI12] {
        assert_eq!(LinkFmt::from(linkFmt_t::from(f)), f);
    }
    assert_eq!(dataFmt_t::from(DataFmt::FmtI12), dataFmt_t::LMS_FMT_I12);
    assert_eq!(LinkFmt::from(linkFmt_t::LMS_LINK_FMT_I16), LinkFmt::LinkFmtI16);
    assert_eq!(WaveformDataFmt::FmtI12.code(), 0);
    assert_eq!(WaveformDataFmt::FmtI16.code(), 1);
    assert_eq!(WaveformDataFmt::FmtF32.code(), 2);
    assert_eq!(usize::from(StreamChFlags::ALIGN_CH_PHASE()), 1 << 16);
    let meta = lms_stream_meta_t::default();
    assert_eq!(meta.timestamp, 0);
    assert!(!meta.waitForTimestamp && !meta.flushPartialPacket);
}

#[test]
fn waveform_outcomes() {
    let d = device();
    let given = Cell::new((0u8, -1i32));
    assert!(d
        .upload_wfm(2, WaveformDataFmt::FmtI16, |count, code| {
            given.set((count, code));
            0
        })
        .is_ok());
    assert_eq!(given.get(), (2, 1));
    assert!(d.upload_wfm(1, WaveformDataFmt::FmtF32, |_, _| -1).is_err());
    // The count is handed over cut to the call's u8.
    assert!(d
        .upload_wfm(257, WaveformDataFmt::FmtI12, |count, code| {
            given.set((count, code));
            0
        })
        .is_ok());
    assert_eq!(given.get(), (1, 0));
    assert!(d.enable_tx_wfm(-1).is_err());
}

#[test]
fn receive_buffer_holds_requested_samples() {
    assert_eq!(recv_buffer_len(0), 0);
    assert_eq!(recv_buffer_len(1024), 4096);
    assert_eq!(recv_buffer_len(5000), 20000);
}

#[test]
fn stream_configuration_accessor() {
    let s = device().create_stream(configuration());
    assert_eq!(s.configuration().channel, 0);
    assert_eq!(s.configuration().data_fmt, DataFmt::FmtI16);
}

#[test]
fn format_codes() {
    assert_eq!(DataFmt::FmtF32.code(), 0);
    assert_eq!(DataFmt::FmtI16.code(), 1);
    assert_eq!(DataFmt::FmtI12.code(), 2);
    assert_eq!(LinkFmt::LinkFmtDefault.code(), 0);
    assert_eq!(LinkFmt::LinkFmtI16.code(), 1);
    assert_eq!(LinkFmt::LinkFmtI12.code(), 2);
    assert_eq!(dataFmt_t::LMS_FMT_I12.code(), 2);
    assert_eq!(linkFmt_t::LMS_LINK_FMT_I16.code(), 1);
}
