//! Sample Streaming functions
//!
//! The functions in this section provides support for sending and receiving
//! IQ data samples.

use vstd::prelude::*;

use crate::bindings::c_size_t;
use crate::bindings::dataFmt_t;
use crate::bindings::data_fmt_code;
use crate::bindings::link_fmt_code;
use crate::bindings::linkFmt_t;
use crate::bindings::lms_stream_meta_t;
use crate::bindings::LMS_ALIGN_CH_PHASE;
use crate::error::status_into_result;
use crate::error::status_result;
use crate::error::value_into_result;
use crate::error::value_result;
use crate::error::Error;

use super::high_level::ChannelDirection;
use super::Device;

verus! {

/// Metadata structure used in sample transfers
pub type StreamMeta = lms_stream_meta_t;

/// Bytes per received sample.
pub const SAMPLE_SIZE_BYTES: usize = 4;


// ---------------------------------------------------------------------
// Stream channel flags
// ---------------------------------------------------------------------

/// Additional streaming options, combined with `StreamConfiguration::channel`.
#[derive(Debug, Copy, Clone, PartialEq, Eq, Structural)]
#[non_exhaustive]
pub struct StreamChFlags(c_size_t);

impl StreamChFlags {
    /// The LimeSuite value of the flags.
    pub closed spec fn bits(self) -> usize {
        self.0
    }

    /// Attempt to align channel phases in MIMO
    /// mode (supported only for Rx channels)
    #[allow(non_snake_case)]
    pub fn ALIGN_CH_PHASE() -> (f: StreamChFlags)
        ensures
            f.bits() == LMS_ALIGN_CH_PHASE,
    {
        StreamChFlags(LMS_ALIGN_CH_PHASE)
    }
}

impl From<StreamChFlags> for usize {
    fn from(stream_ch_flags: StreamChFlags) -> (r: usize)
        ensures
            r == stream_ch_flags.bits(),
    {
        stream_ch_flags.0
    }
}

impl vstd::std_specs::convert::FromSpecImpl<StreamChFlags> for usize {
    open spec fn obeys_from_spec() -> bool {
        true
    }

    open spec fn from_spec(stream_ch_flags: StreamChFlags) -> usize {
        stream_ch_flags.bits()
    }
}

impl core::ops::Deref for StreamChFlags {
    type Target = usize;

    fn deref(&self) -> (r: &usize)
        ensures
            *r == self.bits(),
    {
        &self.0
    }
}

// ---------------------------------------------------------------------
// Data formats
// ---------------------------------------------------------------------

/// Data output format
#[derive(Debug, Clone, Copy, PartialEq, Eq, Hash, Structural)]
pub enum DataFmt {
    /// 32-bit floating point
    FmtF32,
    /// 16-bit integers
    FmtI16,
    /// 12-bit integers stored in 16-bit variables
    FmtI12,
}

/// The format of a LimeSuite data format value.
pub open spec fn data_fmt_of(raw: dataFmt_t) -> DataFmt {
    match raw {
        dataFmt_t::LMS_FMT_F32 => DataFmt::FmtF32,
        dataFmt_t::LMS_FMT_I16 => DataFmt::FmtI16,
        dataFmt_t::LMS_FMT_I12 => DataFmt::FmtI12,
    }
}

/// The LimeSuite value of a data format.
pub open spec fn raw_data_fmt(fmt: DataFmt) -> dataFmt_t {
    match fmt {
        DataFmt::FmtF32 => dataFmt_t::LMS_FMT_F32,
        DataFmt::FmtI16 => dataFmt_t::LMS_FMT_I16,
        DataFmt::FmtI12 => dataFmt_t::LMS_FMT_I12,
    }
}

impl From<dataFmt_t> for DataFmt {
    fn from(data_fmt: dataFmt_t) -> (r: Self) {
        match data_fmt {
            dataFmt_t::LMS_FMT_F32 => Self::FmtF32,
            dataFmt_t::LMS_FMT_I16 => Self::FmtI16,
            dataFmt_t::LMS_FMT_I12 => Self::FmtI12,
        }
    }
}

impl vstd::std_specs::convert::FromSpecImpl<dataFmt_t> for DataFmt {
    open spec fn obeys_from_spec() -> bool {
        true
    }

    open spec fn from_spec(data_fmt: dataFmt_t) -> DataFmt {
        data_fmt_of(data_fmt)
    }
}

impl From<DataFmt> for dataFmt_t {
    fn from(data_fmt: DataFmt) -> (r: Self) {
        match data_fmt {
            DataFmt::FmtF32 => dataFmt_t::LMS_FMT_F32,
            DataFmt::FmtI16 => dataFmt_t::LMS_FMT_I16,
            DataFmt::FmtI12 => dataFmt_t::LMS_FMT_I12,
        }
    }
}

impl vstd::std_specs::convert::FromSpecImpl<DataFmt> for dataFmt_t {
    open spec fn obeys_from_spec() -> bool {
        true
    }

    open spec fn from_spec(data_fmt: DataFmt) -> dataFmt_t {
        raw_data_fmt(data_fmt)
    }
}

impl DataFmt {
    /// The C value LimeSuite knows the format by: FmtF32 0, FmtI16 1,
    /// FmtI12 2.
    pub fn code(self) -> (c: i32)
        ensures
            c == data_fmt_code(raw_data_fmt(self)),
    {
        dataFmt_t::from(self).code()
    }
}

/// Data link format
#[derive(Debug, Clone, Copy, PartialEq, Eq, Hash, Structural)]
pub enum LinkFmt {
    /// 12-bit integers stored in 16-bit variables
    /// when dataFmt=LMS_FMT_I12, 16-bit otherwise
    LinkFmtDefault,
    /// 16-bit integers
    LinkFmtI16,
    /// 12-bit integers
    LinkFmtI12,
}

/// The format of a LimeSuite link format value.
pub open spec fn link_fmt_of(raw: linkFmt_t) -> LinkFmt {
    match raw {
        linkFmt_t::LMS_LINK_FMT_DEFAULT => LinkFmt::LinkFmtDefault,
        linkFmt_t::LMS_LINK_FMT_I16 => LinkFmt::LinkFmtI16,
        linkFmt_t::LMS_LINK_FMT_I12 => LinkFmt::LinkFmtI12,
    }
}

/// The LimeSuite value of a link format.
pub open spec fn raw_link_fmt(fmt: LinkFmt) -> linkFmt_t {
    match fmt {
        LinkFmt::LinkFmtDefault => linkFmt_t::LMS_LINK_FMT_DEFAULT,
        LinkFmt::LinkFmtI16 => linkFmt_t::LMS_LINK_FMT_I16,
        LinkFmt::LinkFmtI12 => linkFmt_t::LMS_LINK_FMT_I12,
    }
}

impl From<linkFmt_t> for LinkFmt {
    fn from(data_fmt: linkFmt_t) -> (r: Self) {
        match data_fmt {
            linkFmt_t::LMS_LINK_FMT_DEFAULT => Self::LinkFmtDefault,
            linkFmt_t::LMS_LINK_FMT_I16 => Self::LinkFmtI16,
            linkFmt_t::LMS_LINK_FMT_I12 => Self::LinkFmtI12,
        }
    }
}

impl vstd::std_specs::convert::FromSpecImpl<linkFmt_t> for LinkFmt {
    open spec fn obeys_from_spec() -> bool {
        true
    }

    open spec fn from_spec(data_fmt: linkFmt_t) -> LinkFmt {
        link_fmt_of(data_fmt)
    }
}

impl From<LinkFmt> for linkFmt_t {
    fn from(data_fmt: LinkFmt) -> (r: Self) {
        match data_fmt {
            LinkFmt::LinkFmtDefault => linkFmt_t::LMS_LINK_FMT_DEFAULT,
            LinkFmt::LinkFmtI16 => linkFmt_t::LMS_LINK_FMT_I16,
            LinkFmt::LinkFmtI12 => linkFmt_t::LMS_LINK_FMT_I12,
        }
    }
}

impl vstd::std_specs::convert::FromSpecImpl<LinkFmt> for linkFmt_t {
    open spec fn obeys_from_spec() -> bool {
        true
    }

    open spec fn from_spec(data_fmt: LinkFmt) -> linkFmt_t {
        raw_link_fmt(data_fmt)
    }
}

impl LinkFmt {
    /// The C value LimeSuite knows the format by: LinkFmtDefault 0,
    /// LinkFmtI16 1, LinkFmtI12 2.
    pub fn code(self) -> (c: i32)
        ensures
            c == link_fmt_code(raw_link_fmt(self)),
    {
        linkFmt_t::from(self).code()
    }
}

/// The data and link format conversions are inverse bijections.
pub proof fn lemma_format_round_trips(data: DataFmt, raw_data: dataFmt_t, link: LinkFmt, raw_link: linkFmt_t)
    ensures
        data_fmt_of(raw_data_fmt(data)) == data,
        raw_data_fmt(data_fmt_of(raw_data)) == raw_data,
        link_fmt_of(raw_link_fmt(link)) == link,
        raw_link_fmt(link_fmt_of(raw_link)) == raw_link,
{
}

/// Waveform data format
#[derive(Debug, Clone, Copy, PartialEq, Eq, Hash, Structural)]
pub enum WaveformDataFmt {
    /// int16 [-2048, 2047]
    FmtI12,
    /// int16 [-32768, 32767]
    FmtI16,
    /// float [-1.0, 1.0]
    FmtF32,
}

/// The LimeSuite code of a waveform data format.
pub open spec fn waveform_code(fmt: WaveformDataFmt) -> i32 {
    match fmt {
        WaveformDataFmt::FmtI12 => 0,
        WaveformDataFmt::FmtI16 => 1,
        WaveformDataFmt::FmtF32 => 2,
    }
}

impl WaveformDataFmt {
    /// The LimeSuite code of the format, handed to `LMS_UploadWFM`.
    pub fn code(self) -> (c: i32)
        ensures
            c == waveform_code(self),
    {
        match self {
            WaveformDataFmt::FmtI12 => 0,
            WaveformDataFmt::FmtI16 => 1,
            WaveformDataFmt::FmtF32 => 2,
        }
    }
}

// ---------------------------------------------------------------------
// Streams
// ---------------------------------------------------------------------

/// Stream configuration structure.
#[derive(Clone)]
pub struct StreamConfiguration {
    /// Indicates whether stream is TX or RX.
    pub channel_dir: ChannelDirection,
    /// Channel number, starts at 0.
    /// Can be combined with additional flags (StreamChFlags).
    pub channel: u32,
    /// FIFO size (in samples) used by stream.
    pub fifo_size: u32,
    /// Parameter for controlling configuration bias toward low latency or
    /// high data throughput, range [0,1.0], held as the bit pattern of the
    /// `f32` value (`f32::to_bits`).
    /// 0 - lowest latency, usually results in lower throughput
    /// 1 - higher throughput, usually results in higher latency
    pub throughput_vs_latency: u32,
    /// Data output format
    pub data_fmt: DataFmt,
    /// Data link format
    pub link_fmt: LinkFmt,
}

/// Stream.
#[derive(Clone)]
pub struct Stream {
    /// Cloned device
    device: Device,
    /// Stream handle
    handle: usize,
    /// Stream configuration
    pub configuration: StreamConfiguration,
}

impl Device {
    /// Create new stream based on parameters passed in `configuration`.
    /// The stream has no LimeSuite handle (`0`) until it is set up.
    pub fn create_stream(&self, configuration: StreamConfiguration) -> (s: Stream)
        ensures
            s.device() == *self,
            s.stream_handle() == 0,
            s.stream_configuration() == configuration,
    {
        Stream { device: Device { context: self.context }, handle: 0, configuration }
    }
}

/// The number of bytes a receive call keeps of its buffer of `len` bytes
/// when `received` samples arrived.
pub open spec fn received_bytes(len: nat, received: nat) -> nat {
    let wanted = (received * SAMPLE_SIZE_BYTES) as nat;
    if wanted < len {
        wanted
    } else {
        len
    }
}

/// Size in bytes of the buffer that a receive call asking for
/// `sample_count` samples hands to `LMS_RecvStream`: room for every sample
/// requested, 4 bytes each.
pub fn recv_buffer_len(sample_count: usize) -> (n: usize)
    requires
        sample_count * SAMPLE_SIZE_BYTES <= usize::MAX,
    ensures
        n == sample_count * SAMPLE_SIZE_BYTES,
{
    sample_count * SAMPLE_SIZE_BYTES
}

/// A receive keeps 4 bytes for each sample received, unless the buffer is
/// shorter, in which case it keeps the whole buffer: the minimum of the two.
pub proof fn lemma_received_bytes(len: nat, received: nat)
    ensures
        received_bytes(len, received) <= len,
        received_bytes(len, received) <= 4 * received,
        received_bytes(len, received) == 4 * received || received_bytes(len, received) == len,
{
}

impl Stream {
    /// The configuration of the stream, as the field holds it.
    pub fn configuration(&self) -> (c: &StreamConfiguration)
        ensures
            *c == self.stream_configuration(),
    {
        &self.configuration
    }

    /// The device the stream belongs to.
    pub closed spec fn device(self) -> Device {
        self.device
    }

    /// The configuration of the stream.
    pub closed spec fn stream_configuration(self) -> StreamConfiguration {
        self.configuration
    }

    /// The LimeSuite handle of the stream.
    pub closed spec fn stream_handle(self) -> usize {
        self.handle
    }

    /// The device the stream belongs to, whose handle the stream calls
    /// need.
    pub fn get_device(&self) -> (d: &Device)
        ensures
            *d == self.device(),
    {
        &self.device
    }

    /// The LimeSuite handle of the stream, to be handed to the stream
    /// calls.
    pub fn get_handle(&self) -> (h: usize)
        ensures
            h == self.stream_handle(),
    {
        self.handle
    }

    /// Initialize stream based on configuration: the outcome of
    /// `LMS_SetupStream`, which answered `status` and assigned `handle`.
    /// The stream takes that handle on success and keeps its own
    /// otherwise.
    pub fn setup(&mut self, status: i32, handle: usize) -> (r: Result<(), Error>)
        ensures
            r == status_result(status),
            final(self).stream_handle() == (if status == 0 {
                handle
            } else {
                old(self).stream_handle()
            }),
            final(self).device() == old(self).device(),
            final(self).stream_configuration() == old(self).stream_configuration(),
    {
        match status_into_result(status) {
            Ok(()) => {
                self.handle = handle;
                Ok(())
            },
            Err(e) => Err(e),
        }
    }

    /// Deallocate memory used by previously initialized stream: the
    /// outcome of `LMS_DestroyStream`.
    pub fn destroy(&self, status: i32) -> (r: Result<(), Error>)
        ensures
            r == status_result(status),
    {
        status_into_result(status)
    }

    /// Start initialized stream: the outcome of `LMS_StartStream`.
    pub fn start(&self, status: i32) -> (r: Result<(), Error>)
        ensures
            r == status_result(status),
    {
        status_into_result(status)
    }

    /// Stop initialized stream: the outcome of `LMS_StopStream`.
    pub fn stop(&self, status: i32) -> (r: Result<(), Error>)
        ensures
            r == status_result(status),
    {
        status_into_result(status)
    }

    /// Read samples from the FIFO of the initialized stream.
    ///
    /// `status` is the answer of `LMS_RecvStream` (the number of samples
    /// received, or `-1`), `samples` the buffer it filled (of
    /// `recv_buffer_len(sample_count)` bytes, room for every sample asked
    /// for) and `meta` the metadata it filled. The buffer is cut to the
    /// bytes of the samples received (4 per sample); `Vec::truncate` keeps
    /// a buffer that is already shorter whole.
    pub fn recv(&self, status: i32, samples: Vec<u8>, meta: StreamMeta) -> (r: Result<
        (Vec<u8>, StreamMeta),
        Error,
    >)
        requires
            status >= -1,
            status * SAMPLE_SIZE_BYTES <= usize::MAX,
        ensures
            r is Ok <==> status != -1,
            r matches Err(e) ==> value_result(status) == Err::<i32, Error>(e),
            r matches Ok((kept, m)) ==> m == meta && kept@ == samples@.take(
                received_bytes(samples@.len(), status as nat) as int,
            ),
            r matches Ok((kept, m)) ==> kept@ == samples@.take(
                if 4 * status < samples@.len() {
                    4 * status
                } else {
                    samples@.len() as int
                },
            ),
    {
        let received = match value_into_result(status) {
            Ok(n) => n as usize,
            Err(e) => return Err(e),
        };
        let mut samples = samples;
        let wanted = received * SAMPLE_SIZE_BYTES;
        samples.truncate(wanted);
        Ok((samples, meta))
    }

    /// Write samples to the FIFO of the initialized stream and return
    /// number of samples send on success: the answer of `LMS_SendStream`
    /// unless it failed.
    pub fn send(&self, status: i32) -> (r: Result<usize, Error>)
        ensures
            r is Ok <==> status != -1,
            r matches Err(e) ==> value_result(status) == Err::<i32, Error>(e),
            r matches Ok(n) ==> n == status as usize,
    {
        match value_into_result(status) {
            Ok(n) => Ok(#[verifier::truncate] (n as usize)),
            Err(e) => Err(e),
        }
    }
}

impl Device {
    /// Uploads waveform to on board memory for later use.
    ///
    /// `channel_count` is the number of waveform channels whose samples are
    /// handed over (LimeSuite takes 1 or 2). `lms_upload_wfm` is called with
    /// that count cut to the call's `u8` (its value modulo 256) and with the
    /// format's code, and its status gives the outcome.
    pub fn upload_wfm<F: FnOnce(u8, i32) -> i32>(
        &self,
        channel_count: usize,
        format: WaveformDataFmt,
        lms_upload_wfm: F,
    ) -> (r: Result<(), Error>)
        requires
            forall|count: u8, code: i32| lms_upload_wfm.requires((count, code)),
        ensures
            exists|status: i32|
                lms_upload_wfm.ensures(((channel_count % 256) as u8, waveform_code(format)), status)
                    && r == status_result(status),
    {
        let count = (channel_count % 256) as u8;
        let status = lms_upload_wfm(count, format.code());
        status_into_result(status)
    }

    /// Enables/Disables transmitting of uploaded waveform: the outcome of
    /// `LMS_EnableTxWFM`.
    pub fn enable_tx_wfm(&self, status: i32) -> (r: Result<(), Error>)
        ensures
            r == status_result(status),
    {
        status_into_result(status)
    }
}

} // verus!
