use awacs::transmission::{demux_frames, frame_delay, OutgoingTransmission, FRAME_NANOS};
use ogg::{PacketWriteEndInfo, PacketWriter};

fn ogg_stream(packets: &[Vec<u8>]) -> Vec<u8> {
    let mut out = Vec::new();
    {
        let mut writer = PacketWriter::new(std::io::Cursor::new(&mut out));
        let last = packets.len().saturating_sub(1);
        for (i, packet) in packets.iter().enumerate() {
            let end = if i == last {
                PacketWriteEndInfo::EndStream
            } else if i < 2 {
                PacketWriteEndInfo::EndPage
            } else {
                PacketWriteEndInfo::NormalPacket
            };
            writer.write_packet(packet.clone(), 7, end, i as u64).unwrap();
        }
    }
    out
}

#[test]
fn the_spoken_line_names_addressee_speaker_and_message() {
    let transmission = OutgoingTransmission {
        to_callsign: "Viper 1-1".to_string(),
        from_callsign: "Magic".to_string(),
        message: "5 by 5".to_string(),
    };
    assert_eq!(transmission.to_speech_string(), "Viper 1-1, Magic, 5 by 5");
    let empty = OutgoingTransmission {
        to_callsign: String::new(),
        from_callsign: String::new(),
        message: String::new(),
    };
    assert_eq!(empty.to_speech_string(), ", , ");
}

#[test]
fn the_two_leading_packets_are_no_frames() {
    let packets = vec![
        b"OpusHead".to_vec(),
        b"OpusTags".to_vec(),
        vec![1, 2, 3],
        vec![],
        vec![9; 700],
        vec![4],
    ];
    let frames = demux_frames(ogg_stream(&packets)).unwrap();
    assert_eq!(frames, packets[2..].to_vec());
}

#[test]
fn a_stream_of_headers_only_has_no_frames() {
    let packets = vec![b"OpusHead".to_vec(), b"OpusTags".to_vec()];
    let frames = demux_frames(ogg_stream(&packets)).unwrap();
    assert!(frames.is_empty());
}

#[test]
fn a_stream_that_lacks_a_header_is_refused() {
    assert!(demux_frames(ogg_stream(&[b"OpusHead".to_vec()])).is_err());
}

#[test]
fn what_is_no_ogg_stream_is_refused() {
    assert!(demux_frames(Vec::new()).is_err());
    assert!(demux_frames(b"RIFFxxxxWAVE".to_vec()).is_err());
}

#[test]
fn a_damaged_stream_is_refused() {
    let packets = vec![b"OpusHead".to_vec(), b"OpusTags".to_vec(), vec![1, 2, 3]];
    let mut stream = ogg_stream(&packets);
    let last = stream.len() - 1;
    stream[last] ^= 0xFF;
    assert!(demux_frames(stream).is_err());
    let mut stream = ogg_stream(&packets);
    stream.truncate(stream.len() - 2);
    assert!(demux_frames(stream).is_err());
}

#[test]
fn a_frame_waits_for_its_deadline() {
    assert_eq!(FRAME_NANOS, 20_000_000);
    assert_eq!(frame_delay(0, 0), 20_000_000);
    assert_eq!(frame_delay(0, 5_000_000), 15_000_000);
    assert_eq!(frame_delay(0, 20_000_000), 0);
    assert_eq!(frame_delay(0, 25_000_000), 0);
    assert_eq!(frame_delay(1, 20_000_000), 20_000_000);
    assert_eq!(frame_delay(49, 0), 1_000_000_000);
    assert_eq!(frame_delay(49, 999_999_999), 1);
    assert_eq!(frame_delay(u64::MAX, 0), (u64::MAX as u128 + 1) * 20_000_000);
    assert_eq!(frame_delay(3, u128::MAX), 0);
}

#[test]
fn frames_sent_without_other_delay_take_their_playing_time() {
    let count: u64 = 50;
    let mut clock: u128 = 0;
    let mut previous: u128 = 0;
    for index in 0..count {
        clock += 137;
        clock += frame_delay(index, clock);
        assert!(clock >= (index as u128 + 1) * 20_000_000);
        if index > 0 {
            assert!(clock - previous <= 20_000_000 + 137);
        }
        previous = clock;
    }
    assert!(clock >= count as u128 * 20_000_000);
}
