//! What the controller hears: recognised radio calls, and the cycle that
//! turns captured audio into them.

use crate::config::CommonConfig;
use crate::state::{texts, TacviewState};
use crate::text::{chars_of, pieces_view, same_text, split, split_on, trim, trimmed};
use vstd::prelude::*;
use vstd::string::*;

verus! {

/// What a pilot wants.
#[derive(Clone, Copy, Debug, PartialEq, Eq, Structural)]
pub enum Intent {
    RadioCheck,
    RequestBogeyDope,
    Unknown,
}

impl Intent {
    /// The intent that a label stands for. A label that is not known stands
    /// for [`Intent::Unknown`].
    pub open spec fn of_label(label: Seq<char>) -> Intent {
        if label == "radio_check"@ {
            Intent::RadioCheck
        } else if label == "request_bogey_dope"@ {
            Intent::RequestBogeyDope
        } else {
            Intent::Unknown
        }
    }

    /// Reads an intent from its label. No label is an error.
    pub fn from_label(label: &str) -> (intent: Intent)
        ensures
            intent == Intent::of_label(label@),
    {
        if same_text(label, "radio_check") {
            Intent::RadioCheck
        } else if same_text(label, "request_bogey_dope") {
            Intent::RequestBogeyDope
        } else {
            Intent::Unknown
        }
    }
}

/// A recognised radio call.
#[derive(Debug)]
pub struct IncomingTransmission {
    pub to_callsign: String,
    pub from_callsign: String,
    pub intent: Intent,
}

/// The mathematical content of an [`IncomingTransmission`].
pub struct IncomingView {
    pub to_callsign: Seq<char>,
    pub from_callsign: Seq<char>,
    pub intent: Intent,
}

impl View for IncomingTransmission {
    type V = IncomingView;

    open spec fn view(&self) -> IncomingView {
        IncomingView {
            to_callsign: self.to_callsign@,
            from_callsign: self.from_callsign@,
            intent: self.intent,
        }
    }
}

// ---------------------------------------------------------------------------
// Callsign hints
// ---------------------------------------------------------------------------

/// The callsigns that the pilots' display names hold: a display name may
/// hold several, parted by `|`; each is trimmed.
pub open spec fn hints(names: Seq<Seq<char>>) -> Seq<Seq<char>>
    decreases names.len(),
{
    if names.len() == 0 {
        Seq::empty()
    } else {
        hints(names.drop_last()) + split_on(names.last(), '|').map_values(
            |piece: Seq<char>| trimmed(piece),
        )
    }
}

/// A text made of the given characters.
///
/// Trusted: calls `String::from_iter` on the characters, which appends them
/// one by one to an empty `String`.
#[verifier::external_body]
fn string_of(chars: &Vec<char>) -> (r: String)
    ensures
        r@ == chars@,
{
    String::from_iter(chars.iter())
}

/// The callsigns that one display name holds.
fn hints_of(name: &str) -> (r: Vec<String>)
    ensures
        texts(r@) == split_on(name@, '|').map_values(|piece: Seq<char>| trimmed(piece)),
{
    let chars = chars_of(name);
    let pieces = split(&chars, '|');
    let ghost wanted = split_on(name@, '|').map_values(|piece: Seq<char>| trimmed(piece));
    let mut out: Vec<String> = Vec::new();
    let mut i: usize = 0;
    while i < pieces.len()
        invariant
            i <= pieces.len(),
            pieces_view(pieces@) == split_on(name@, '|'),
            wanted == split_on(name@, '|').map_values(|piece: Seq<char>| trimmed(piece)),
            texts(out@) == wanted.take(i as int),
        decreases pieces.len() - i,
    {
        let cut = trim(&pieces[i]);
        let ghost before = texts(out@);
        out.push(string_of(&cut));
        proof {
            assert(pieces_view(pieces@)[i as int] == pieces@[i as int]@);
            assert(texts(out@) =~= before.push(cut@));
            assert(wanted.take(i + 1) =~= wanted.take(i as int).push(wanted[i as int]));
        }
        i += 1;
    }
    proof {
        assert(wanted.take(pieces.len() as int) =~= wanted);
    }
    out
}

/// The callsigns that may be heard on the radio: those of the aircraft of
/// the controller's own side.
pub fn possible_callsigns(state: &TacviewState, common_config: &CommonConfig) -> (r: Vec<String>)
    ensures
        texts(r@) == hints(state@.air_callsigns(common_config@.coalition.telemetry_label())),
{
    let names = state.list_air_callsigns_by_coalition(
        common_config.coalition.as_tacview_coalition(),
    );
    let ghost all = texts(names@);
    let mut out: Vec<String> = Vec::new();
    let mut i: usize = 0;
    proof {
        assert(all.take(0) =~= Seq::<Seq<char>>::empty());
    }
    while i < names.len()
        invariant
            i <= names.len(),
            all == texts(names@),
            texts(out@) == hints(all.take(i as int)),
        decreases names.len() - i,
    {
        let mut more = hints_of(names[i].as_str());
        let ghost before = texts(out@);
        let ghost added = texts(more@);
        proof {
            let next = all.take(i + 1);
            assert(next.drop_last() =~= all.take(i as int));
            assert(next.last() == names@[i as int]@);
        }
        out.append(&mut more);
        proof {
            assert(texts(out@) =~= before + added);
        }
        i += 1;
    }
    proof {
        assert(all.take(names.len() as int) =~= all);
    }
    out
}

// ---------------------------------------------------------------------------
// Audio container
// ---------------------------------------------------------------------------

/// The format tag of uncompressed PCM audio in a WAV file.
pub const WAV_PCM: u16 = 1;

/// Utterances have one channel.
pub const CHANNELS: u16 = 1;

/// Utterances are sampled at 16 kHz.
pub const SAMPLE_RATE: u32 = 16000;

/// Utterances have 16 bits to the sample.
pub const BITS_PER_SAMPLE: u16 = 16;

/// The two bytes of a number below 65536, low byte first.
pub open spec fn le16(x: int) -> Seq<u8> {
    seq![(x % 256) as u8, (x / 256 % 256) as u8]
}

/// The four bytes of a number below 4294967296, low byte first.
pub open spec fn le32(x: int) -> Seq<u8> {
    seq![
        (x % 256) as u8,
        (x / 256 % 256) as u8,
        (x / 65536 % 256) as u8,
        (x / 16777216 % 256) as u8,
    ]
}

/// The bytes of 16-bit samples, each in two's complement, low byte first.
pub open spec fn pcm_bytes(samples: Seq<i16>) -> Seq<u8>
    decreases samples.len(),
{
    if samples.len() == 0 {
        Seq::empty()
    } else {
        pcm_bytes(samples.drop_last()) + le16(
            if samples.last() >= 0 {
                samples.last() as int
            } else {
                samples.last() + 65536
            },
        )
    }
}

/// The bytes that one sample of all channels takes.
pub open spec fn block_size(channels: u16, bits: u16) -> int {
    (bits / 8) * channels
}

/// The header can be written: its sizes fit the 16 and 32 bits that the
/// format has for them.
pub open spec fn header_fits(channels: u16, rate: u32, bits: u16) -> bool {
    block_size(channels, bits) <= 0xFFFF && block_size(channels, bits) * rate <= 0xFFFF_FFFF
}

/// The samples fit into a WAV file: the sizes that the file states are 32
/// bits wide, and the file holds 36 bytes besides the samples and the first
/// size.
pub open spec fn fits_wav(samples: nat) -> bool {
    36 + 2 * samples <= 0xFFFF_FFFF
}

/// A WAV file of 16-bit samples: the RIFF header with the size of what
/// follows it, the format chunk of 16 bytes, and the data chunk.
pub open spec fn wav_file(format: u16, channels: u16, rate: u32, bits: u16, samples: Seq<i16>)
    -> Seq<u8> {
    seq![0x52u8, 0x49u8, 0x46u8, 0x46u8] + le32(36 + 2 * (samples.len() as int)) + seq![
        0x57u8,
        0x41u8,
        0x56u8,
        0x45u8,
    ] + seq![0x66u8, 0x6Du8, 0x74u8, 0x20u8] + le32(16) + le16(format as int) + le16(
        channels as int,
    ) + le32(rate as int) + le32(block_size(channels, bits) * rate) + le16(
        block_size(channels, bits),
    ) + le16(bits as int) + seq![0x64u8, 0x61u8, 0x74u8, 0x61u8] + le32(2 * (samples.len() as int))
        + pcm_bytes(samples)
}

/// Packs 16-bit samples into a WAV file.
///
/// Trusted: calls `wav::Header::new` and `wav::write` on an in-memory cursor
/// and hands back what was written. The crate writes the chunks named in
/// [`wav_file`] through the `riff` crate, every number low byte first. On
/// sizes that fit, neither the header arithmetic nor the size checks of the
/// writer fail, and writing to memory does not fail.
#[verifier::external_body]
fn write_wav(format: u16, channels: u16, rate: u32, bits: u16, samples: Vec<i16>) -> (r: Option<
    Vec<u8>,
>)
    requires
        header_fits(channels, rate, bits),
        fits_wav(samples@.len()),
    ensures
        r is Some,
        r matches Some(bytes) ==> bytes@ == wav_file(format, channels, rate, bits, samples@),
{
    let mut out = std::io::Cursor::new(Vec::new());
    let header = wav::Header::new(format, channels, rate, bits);
    match wav::write(header, &wav::BitDepth::Sixteen(samples), &mut out) {
        Ok(()) => Some(out.into_inner()),
        Err(_) => None,
    }
}

/// The WAV file of an utterance, if the utterance fits into one: PCM, one
/// channel, 16 kHz, 16 bits.
pub open spec fn encoded(samples: Seq<i16>) -> Option<Seq<u8>> {
    if fits_wav(samples.len()) {
        Some(wav_file(WAV_PCM, CHANNELS, SAMPLE_RATE, BITS_PER_SAMPLE, samples))
    } else {
        None
    }
}

/// Packs an utterance into a WAV file.
pub fn encode_utterance(samples: Vec<i16>) -> (r: Option<Vec<u8>>)
    ensures
        match r {
            Some(bytes) => encoded(samples@) == Some(bytes@),
            None => encoded(samples@) is None,
        },
{
    if samples.len() <= 2_147_483_629 {
        write_wav(WAV_PCM, CHANNELS, SAMPLE_RATE, BITS_PER_SAMPLE, samples)
    } else {
        None
    }
}

// ---------------------------------------------------------------------------
// The recognition cycle
// ---------------------------------------------------------------------------

/// Where the cycle stands.
#[derive(Clone, Copy, Debug, PartialEq, Eq, Structural)]
pub enum Phase {
    /// Audio is being gathered into an utterance.
    Listening,
    /// The utterance is with the transcription service.
    Transcribing,
    /// The transcript is with the parsing service.
    Parsing,
    /// The audio stream is closed; nothing more is heard.
    Stopped,
}

/// What happened while the cycle waited.
#[derive(Debug)]
pub enum Event {
    /// A packet arrived and was decoded to these samples.
    Decoded(Vec<i16>),
    /// A packet arrived and could not be decoded.
    Undecodable,
    /// The audio stream reported an error.
    StreamError,
    /// No packet arrived within the silence timeout.
    Silence,
    /// The audio stream is closed, or the task was told to stop.
    Closed,
    /// The transcription service answered, or failed.
    Transcribed(Option<String>),
    /// The parsing service answered, or failed.
    Parsed(Option<IncomingTransmission>),
}

/// What the cycle wants done next.
#[derive(Debug)]
pub enum Action {
    /// Wait for the next packet, no longer than the silence timeout.
    Listen,
    /// Have this WAV file transcribed, with these callsigns as a hint.
    Transcribe { audio: Vec<u8>, callsigns: Vec<String> },
    /// Have this transcript parsed.
    Parse { transcript: String },
    /// Hand this call to the tactical engine, then listen again.
    Deliver(IncomingTransmission),
    /// End the task.
    Stop,
}

/// How long the cycle waits for a packet before it takes the utterance to
/// be over, in milliseconds.
pub const SILENCE_TIMEOUT_MILLIS: u64 = 500;

/// The state of the recognition cycle.
#[derive(Debug)]
pub struct Recognizer {
    pub phase: Phase,
    /// The samples of the utterance so far.
    pub buffer: Vec<i16>,
}

impl Recognizer {
    /// A cycle that listens and has heard nothing yet.
    pub fn new() -> (r: Recognizer)
        ensures
            r.phase == Phase::Listening,
            r.buffer@ == Seq::<i16>::empty(),
    {
        Recognizer { phase: Phase::Listening, buffer: Vec::new() }
    }

    /// Takes one event and says what is to be done next.
    ///
    /// While listening, decoded samples are added to the utterance, and what
    /// cannot be decoded or received is passed over. Silence ends the
    /// utterance: an empty one is forgotten, any other is packed and sent to
    /// be transcribed. A transcript that is not empty is sent to be parsed,
    /// and a parsed call is delivered. Whatever fails on the way, the
    /// utterance is given up and the cycle listens again. Once the stream is
    /// closed the cycle stops for good, and what was gathered is dropped.
    pub fn step(
        &mut self,
        event: Event,
        state: &TacviewState,
        common_config: &CommonConfig,
    ) -> (action: Action)
        ensures
            old(self).phase == Phase::Stopped || event is Closed ==> final(self).phase
                == Phase::Stopped && action is Stop,
            action is Stop ==> old(self).phase == Phase::Stopped || event is Closed,
            old(self).phase == Phase::Listening ==> match event {
                Event::Decoded(samples) => final(self).phase == Phase::Listening && final(self).buffer@ == old(self).buffer@ + samples@ && action is Listen,
                Event::Silence => final(self).buffer@.len() == 0 && (match encoded(
                    old(self).buffer@,
                ) {
                    Some(bytes) => if old(self).buffer@.len() == 0 {
                        final(self).phase == Phase::Listening && action is Listen
                    } else {
                        final(self).phase == Phase::Transcribing && (action matches Action::Transcribe {
                            audio,
                            callsigns,
                        } && audio@ == bytes && texts(callsigns@) == hints(
                            state@.air_callsigns(common_config@.coalition.telemetry_label()),
                        ))
                    },
                    None => final(self).phase == Phase::Listening && action is Listen,
                }),
                Event::Closed => true,
                _ => final(self).phase == Phase::Listening && final(self).buffer@ == old(self).buffer@ && action is Listen,
            },
            old(self).phase == Phase::Transcribing && !(event is Closed) ==> final(self).buffer@.len() == 0 && (match event {
                Event::Transcribed(Some(text)) => if text@.len() == 0 {
                    final(self).phase == Phase::Listening && action is Listen
                } else {
                    final(self).phase == Phase::Parsing && (action matches Action::Parse {
                        transcript,
                    } && transcript@ == text@)
                },
                _ => final(self).phase == Phase::Listening && action is Listen,
            }),
            old(self).phase == Phase::Parsing && !(event is Closed) ==> final(self).buffer@.len() == 0 && final(self).phase == Phase::Listening && (match event {
                Event::Parsed(Some(call)) => (action matches Action::Deliver(delivered)
                    && delivered@ == call@),
                _ => action is Listen,
            }),
            action is Transcribe ==> old(self).phase == Phase::Listening && event is Silence
                && old(self).buffer@.len() > 0,
    {
        match self.phase {
            Phase::Stopped => {
                return Action::Stop;
            },
            _ => {},
        }
        if let Event::Closed = event {
            self.phase = Phase::Stopped;
            self.buffer.clear();
            return Action::Stop;
        }
        match self.phase {
            Phase::Listening => match event {
                Event::Decoded(samples) => {
                    let mut samples = samples;
                    self.buffer.append(&mut samples);
                    Action::Listen
                },
                Event::Silence => {
                    let mut utterance: Vec<i16> = Vec::new();
                    std::mem::swap(&mut self.buffer, &mut utterance);
                    if utterance.len() == 0 {
                        return Action::Listen;
                    }
                    match encode_utterance(utterance) {
                        Some(audio) => {
                            let callsigns = possible_callsigns(state, common_config);
                            self.phase = Phase::Transcribing;
                            Action::Transcribe { audio, callsigns }
                        },
                        None => Action::Listen,
                    }
                },
                _ => Action::Listen,
            },
            Phase::Transcribing => {
                self.buffer.clear();
                match event {
                    Event::Transcribed(Some(text)) => {
                        if text.as_str().unicode_len() == 0 {
                            self.phase = Phase::Listening;
                            Action::Listen
                        } else {
                            self.phase = Phase::Parsing;
                            Action::Parse { transcript: text }
                        }
                    },
                    _ => {
                        self.phase = Phase::Listening;
                        Action::Listen
                    },
                }
            },
            _ => {
                self.buffer.clear();
                self.phase = Phase::Listening;
                match event {
                    Event::Parsed(Some(call)) => Action::Deliver(call),
                    _ => Action::Listen,
                }
            },
        }
    }
}

} // verus!
