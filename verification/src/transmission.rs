//! What the controller says: the spoken line of a reply, the audio frames of
//! its synthesised speech, and the pace at which they go out.

use vstd::prelude::*;
use vstd::string::*;

verus! {

/// A reply of the controller, before it is spoken.
#[derive(Debug)]
pub struct OutgoingTransmission {
    pub to_callsign: String,
    pub from_callsign: String,
    pub message: String,
}

/// The mathematical content of an [`OutgoingTransmission`].
pub struct OutgoingView {
    pub to_callsign: Seq<char>,
    pub from_callsign: Seq<char>,
    pub message: Seq<char>,
}

impl OutgoingView {
    /// The line as it is spoken: whom it is for, who speaks, and the message.
    pub open spec fn speech(self) -> Seq<char> {
        self.to_callsign + ", "@ + self.from_callsign + ", "@ + self.message
    }
}

impl View for OutgoingTransmission {
    type V = OutgoingView;

    open spec fn view(&self) -> OutgoingView {
        OutgoingView {
            to_callsign: self.to_callsign@,
            from_callsign: self.from_callsign@,
            message: self.message@,
        }
    }
}

impl OutgoingTransmission {
    /// The line as it is spoken.
    pub fn to_speech_string(&self) -> (line: String)
        ensures
            line@ == self@.speech(),
    {
        let mut line = self.to_callsign.clone();
        line.append(", ");
        line.append(self.from_callsign.as_str());
        line.append(", ");
        line.append(self.message.as_str());
        line
    }
}

// ---------------------------------------------------------------------------
// Audio frames
// ---------------------------------------------------------------------------

/// An Ogg stream held in memory, being taken apart into its packets: the
/// reader of the `ogg` crate over an in-memory cursor. Nothing of its inside
/// is known here.
#[verifier::external_body]
pub struct PacketStream {
    reader: ogg::PacketReader<std::io::Cursor<Vec<u8>>>,
}

/// The error with which the `ogg` crate gives up reading a stream.
#[verifier::external_type_specification]
#[verifier::external_body]
pub struct ExOggReadError(ogg::OggReadError);

/// The packets that a reader has still to hand out, in order, up to the
/// point where it reports the end of the stream or an error.
pub uninterp spec fn packets_ahead(reader: PacketStream) -> Seq<
    Seq<u8>,
>;

/// Whether a reader, once it has handed out the packets ahead, reports the
/// end of the stream rather than an error.
pub uninterp spec fn ends_cleanly(reader: PacketStream) -> bool;

/// The packets of an Ogg stream held in memory, if the stream can be read to
/// its end; `None` if reading it runs into an error.
pub uninterp spec fn ogg_packets(stream: Seq<u8>) -> Option<Seq<Seq<u8>>>;

/// Opens a reader on a stream held in memory.
///
/// Trusted: calls `ogg::PacketReader::new` on a `std::io::Cursor` over the
/// bytes. The reader has read nothing yet, so what it will hand out is what
/// the stream holds.
#[verifier::external_body]
fn open_stream(stream: Vec<u8>) -> (reader: PacketStream)
    ensures
        ends_cleanly(reader) == ogg_packets(stream@) is Some,
        ends_cleanly(reader) ==> packets_ahead(reader) == ogg_packets(stream@)->0,
{
    PacketStream { reader: ogg::PacketReader::new(std::io::Cursor::new(stream)) }
}

/// Reads the next packet, if there is one.
///
/// Trusted: calls `ogg::PacketReader::read_packet` and keeps the packet's
/// data. The call gives the next packet, `Ok(None)` at the end of the
/// stream, or the error it ran into.
#[verifier::external_body]
fn read_packet(reader: &mut PacketStream) -> (r: Result<
    Option<Vec<u8>>,
    ogg::OggReadError,
>)
    ensures
        match r {
            Ok(Some(data)) => {
                &&& packets_ahead(*old(reader)).len() > 0
                &&& data@ == packets_ahead(*old(reader))[0]
                &&& packets_ahead(*final(reader)) == packets_ahead(*old(reader)).drop_first()
                &&& ends_cleanly(*final(reader)) == ends_cleanly(*old(reader))
            },
            Ok(None) => packets_ahead(*old(reader)).len() == 0 && ends_cleanly(*old(reader)),
            Err(_) => packets_ahead(*old(reader)).len() == 0 && !ends_cleanly(*old(reader)),
        },
{
    match reader.reader.read_packet() {
        Ok(Some(packet)) => Ok(Some(packet.data)),
        Ok(None) => Ok(None),
        Err(error) => Err(error),
    }
}

/// Reads the next packet, which must be there.
///
/// Trusted: calls `ogg::PacketReader::read_packet_expected` and keeps the
/// packet's data. The call is `read_packet` with the end of the stream
/// turned into an error.
#[verifier::external_body]
fn read_packet_expected(reader: &mut PacketStream) -> (r: Result<
    Vec<u8>,
    ogg::OggReadError,
>)
    ensures
        match r {
            Ok(data) => {
                &&& packets_ahead(*old(reader)).len() > 0
                &&& data@ == packets_ahead(*old(reader))[0]
                &&& packets_ahead(*final(reader)) == packets_ahead(*old(reader)).drop_first()
                &&& ends_cleanly(*final(reader)) == ends_cleanly(*old(reader))
            },
            Err(_) => packets_ahead(*old(reader)).len() == 0,
        },
{
    match reader.reader.read_packet_expected() {
        Ok(packet) => Ok(packet.data),
        Err(error) => Err(error),
    }
}

/// Why a synthesised speech could not be taken apart into frames.
#[derive(Debug)]
pub struct DemuxError {
    /// What the Ogg reader reported.
    pub source: ogg::OggReadError,
}

/// The audio frames of an Ogg stream: its packets but for the two that lead
/// it, which describe the stream and hold no audio. There are none if the
/// stream cannot be read to its end, or is shorter than those two packets.
pub open spec fn audio_frames(stream: Seq<u8>) -> Option<Seq<Seq<u8>>> {
    match ogg_packets(stream) {
        Some(packets) => if packets.len() >= 2 {
            Some(packets.skip(2))
        } else {
            None
        },
        None => None,
    }
}

/// The contents of a list of frames.
pub open spec fn frame_views(frames: Seq<Vec<u8>>) -> Seq<Seq<u8>> {
    frames.map_values(|f: Vec<u8>| f@)
}

/// Takes a synthesised speech apart into its audio frames.
pub fn demux_frames(speech: Vec<u8>) -> (r: Result<Vec<Vec<u8>>, DemuxError>)
    ensures
        match r {
            Ok(frames) => audio_frames(speech@) == Some(frame_views(frames@)),
            Err(_) => audio_frames(speech@) is None,
        },
{
    let mut reader = open_stream(speech);
    let ghost clean = ends_cleanly(reader);
    let ghost total = packets_ahead(reader);
    let head = match read_packet_expected(&mut reader) {
        Ok(data) => data,
        Err(source) => {
            return Err(DemuxError { source });
        },
    };
    let tags = match read_packet_expected(&mut reader) {
        Ok(data) => data,
        Err(source) => {
            return Err(DemuxError { source });
        },
    };
    let mut frames: Vec<Vec<u8>> = Vec::new();
    proof {
        assert(total.skip(2) =~= packets_ahead(reader));
        assert(frame_views(frames@) =~= Seq::<Seq<u8>>::empty());
    }
    loop
        invariant
            ends_cleanly(reader) == clean,
            clean == ogg_packets(speech@) is Some,
            clean ==> total == ogg_packets(speech@)->0,
            total.len() >= 2,
            total.skip(2) == frame_views(frames@) + packets_ahead(reader),
        decreases packets_ahead(reader).len(),
    {
        let ghost ahead = packets_ahead(reader);
        let ghost before = frame_views(frames@);
        match read_packet(&mut reader) {
            Ok(Some(data)) => {
                frames.push(data);
                proof {
                    assert(frame_views(frames@) =~= before.push(ahead[0]));
                    assert(before + ahead =~= before.push(ahead[0]) + ahead.drop_first());
                }
            },
            Ok(None) => {
                proof {
                    assert(before + ahead =~= before);
                }
                return Ok(frames);
            },
            Err(source) => {
                return Err(DemuxError { source });
            },
        }
    }
}

// ---------------------------------------------------------------------------
// Pacing
// ---------------------------------------------------------------------------

/// How long one frame plays, in nanoseconds: 20 milliseconds.
pub const FRAME_NANOS: u64 = 20_000_000;

/// The time since the start of a transmission, in nanoseconds, before which
/// the frame at `index` is not sent: the playing time of the frames up to
/// and with it.
pub open spec fn frame_deadline(index: nat) -> nat {
    (index + 1) * 20_000_000
}

/// How long to wait before the frame at `index` is sent, when `elapsed`
/// nanoseconds have passed since the start of the transmission.
pub open spec fn pacing_delay(index: nat, elapsed: nat) -> nat {
    if elapsed < frame_deadline(index) {
        (frame_deadline(index) - elapsed) as nat
    } else {
        0
    }
}

/// Computes how long to wait before the frame at `index` is sent.
pub fn frame_delay(index: u64, elapsed: u128) -> (delay: u128)
    ensures
        delay == pacing_delay(index as nat, elapsed as nat),
{
    let frames: u128 = index as u128 + 1;
    proof {
        assert(frames * 20_000_000 <= 0x1_0000_0000_0000_0000 * 20_000_000) by (nonlinear_arith)
            requires
                frames <= 0x1_0000_0000_0000_0000,
        ;
    }
    let deadline: u128 = frames * (FRAME_NANOS as u128);
    if elapsed < deadline {
        deadline - elapsed
    } else {
        0
    }
}

/// A frame goes out no earlier than its deadline, whenever the clock was
/// read, provided the wait lasts at least as long as asked.
pub proof fn lemma_frame_not_early(index: nat, elapsed: nat, waited: nat)
    requires
        waited >= pacing_delay(index, elapsed),
    ensures
        elapsed + waited >= frame_deadline(index),
{
}

/// Sending `count` frames takes at least `count` times the playing time of
/// one frame: the last of them goes out no earlier than that.
pub proof fn lemma_transmission_lasts(count: nat, elapsed: nat, waited: nat)
    requires
        count >= 1,
        waited >= pacing_delay((count - 1) as nat, elapsed),
    ensures
        elapsed + waited >= count * 20_000_000,
{
}

/// Once a frame has gone out on time, the wait before the next one is at
/// most the playing time of one frame, and none at all when the sender is
/// late.
pub proof fn lemma_gap_is_one_frame(index: nat, elapsed: nat)
    requires
        elapsed >= frame_deadline(index),
    ensures
        pacing_delay(index + 1, elapsed) <= 20_000_000,
        elapsed >= frame_deadline(index + 1) ==> pacing_delay(index + 1, elapsed) == 0,
{
}

} // verus!
