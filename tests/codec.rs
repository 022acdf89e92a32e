use dfplayer::codec::{
    add_checksum, add_static_bytes, command_identifier, encode, encode_query, Command, Message,
    Query,
};
use dfplayer::player::DFPlayer;
use dfplayer::types::{Device, Equalizer, PlaybackMode, State};

fn all_commands() -> Vec<Command> {
    vec![
        Command::Next,
        Command::Previous,
        Command::SpecifyTrack(1234),
        Command::IncreaseVolume,
        Command::DecreaseVolume,
        Command::SpecifyVolume(17),
        Command::SpecifyEqualizer(Equalizer::Jazz),
        Command::SpecifyPlaybackMode(PlaybackMode::Random),
        Command::Standby,
        Command::NormalWorking,
        Command::ResetModule,
        Command::Playback,
        Command::Pause,
        Command::SpecifyFolder(12, 34),
        Command::SpecifyMp3Track(9999),
        Command::SpecifyAdvertisement(42),
        Command::StopAdvertisement,
        Command::Stop,
    ]
}

fn checksum_holds(m: &Message) -> bool {
    let sum: u32 = m[1..7].iter().map(|b| *b as u32).sum();
    let expected = (0x10000 - sum) % 0x10000;
    (m[7] as u32) * 256 + m[8] as u32 == expected
}

#[test]
fn encode_frames_are_well_formed() {
    for c in all_commands() {
        let m = encode(c);
        assert_eq!(m.len(), 10);
        assert_eq!(m[0], 0x7E);
        assert_eq!(m[1], 0xFF);
        assert_eq!(m[2], 0x06);
        assert_eq!(m[4], 0x00);
        assert_eq!(m[9], 0xEF);
        assert!(checksum_holds(&m), "{:?}", c);
    }
}

#[test]
fn encode_pause_exact_frame() {
    assert_eq!(
        encode(Command::Pause),
        [0x7E, 0xFF, 0x06, 0x0E, 0x00, 0x00, 0x00, 0xFE, 0xED, 0xEF]
    );
}

#[test]
fn encode_playback_exact_frame() {
    assert_eq!(
        encode(Command::Playback),
        [0x7E, 0xFF, 0x06, 0x0D, 0x00, 0x00, 0x00, 0xFE, 0xEE, 0xEF]
    );
}

#[test]
fn encode_parameter_bytes() {
    let m = encode(Command::SpecifyTrack(0x1234));
    assert_eq!((m[3], m[5], m[6]), (0x03, 0x12, 0x34));
    let m = encode(Command::SpecifyFolder(7, 200));
    assert_eq!((m[3], m[5], m[6]), (0x0F, 7, 200));
    let m = encode(Command::SpecifyEqualizer(Equalizer::Bass));
    assert_eq!((m[3], m[5], m[6]), (0x07, 0, 5));
    let m = encode(Command::SpecifyPlaybackMode(PlaybackMode::SingleRepeat));
    assert_eq!((m[3], m[5], m[6]), (0x08, 0, 2));
    let m = encode(Command::SpecifyAdvertisement(300));
    assert_eq!((m[3], m[5], m[6]), (0x13, 0x01, 0x2C));
}

#[test]
fn set_volume_clamps_high() {
    let p = DFPlayer::new();
    let m = p.set_volume(255);
    assert_eq!(m[3], 0x06);
    assert_eq!(m[6], 30);
    assert!(checksum_holds(&m));
}

#[test]
fn set_volume_zero() {
    let p = DFPlayer::new();
    let m = p.set_volume(0);
    assert_eq!(m[5], 0);
    assert_eq!(m[6], 0);
}

#[test]
fn play_mp3_clamps_track() {
    let p = DFPlayer::new();
    let m = p.play_mp3(65535);
    assert_eq!(m[3], 0x12);
    assert_eq!((m[5], m[6]), (0x27, 0x0F));
}

#[test]
fn play_folder_track_clamps_folder() {
    let p = DFPlayer::new();
    let m = p.play_folder_track(200, 5);
    assert_eq!(m[3], 0x0F);
    assert_eq!((m[5], m[6]), (99, 5));
}

#[test]
fn advertise_clamps_track() {
    let p = DFPlayer::new();
    let m = p.advertise(10000);
    assert_eq!(m[3], 0x13);
    assert_eq!((m[5], m[6]), (0x27, 0x0F));
}

#[test]
fn driver_operations_use_their_identifiers() {
    let p = DFPlayer::new();
    assert_eq!(p.pause()[3], 0x0E);
    assert_eq!(p.play()[3], 0x0D);
    assert_eq!(p.next_track()[3], 0x01);
    assert_eq!(p.previous_track()[3], 0x02);
    assert_eq!(p.increse_volume()[3], 0x04);
    assert_eq!(p.decrese_volume()[3], 0x05);
    assert_eq!(p.standby()[3], 0x0A);
    assert_eq!(p.reset_module()[3], 0x0C);
    assert_eq!(p.wakeup()[3], 0x0B);
    assert_eq!(p.set_equilizer(Equalizer::Rock)[3], 0x07);
    assert_eq!(p.set_equilizer(Equalizer::Rock)[6], 0x02);
    assert_eq!(p.set_playback_mode(PlaybackMode::FolderRepeat)[3], 0x08);
    assert_eq!(p.set_playback_mode(PlaybackMode::FolderRepeat)[6], 0x01);
}

#[test]
fn identifiers_are_unique_and_documented() {
    let documented: [u8; 18] = [
        0x01, 0x02, 0x03, 0x04, 0x05, 0x06, 0x07, 0x08, 0x0A, 0x0B, 0x0C, 0x0D, 0x0E, 0x0F, 0x12,
        0x13, 0x15, 0x16,
    ];
    let ids: Vec<u8> = all_commands().into_iter().map(command_identifier).collect();
    assert_eq!(ids, documented.to_vec());
    for i in 0..ids.len() {
        for j in (i + 1)..ids.len() {
            assert_ne!(ids[i], ids[j]);
        }
    }
}

#[test]
fn query_volume_is_supported() {
    let m = encode_query(Query::Volume).unwrap();
    assert_eq!(m, [0x7E, 0xFF, 0x06, 0x01, 0x00, 0x00, 0x00, 0xFE, 0xFA, 0xEF]);
}

#[test]
fn other_queries_are_not_supported() {
    for q in [
        Query::Status,
        Query::Equalizer,
        Query::PlaybackMode,
        Query::SoftwareVersion,
        Query::FileCountInFolder,
        Query::FolderCount,
    ] {
        assert!(encode_query(q).is_none());
    }
}

#[test]
fn static_bytes_and_checksum_helpers() {
    let mut m: Message = [0x11; 10];
    add_static_bytes(&mut m);
    assert_eq!(m, [0x7E, 0xFF, 0x06, 0x11, 0x11, 0x11, 0x11, 0x11, 0x11, 0xEF]);
    add_checksum(&mut m);
    // 0xFF + 0x06 + 4 * 0x11 = 0x149; 0x10000 - 0x149 = 0xFEB7
    assert_eq!((m[7], m[8]), (0xFE, 0xB7));
}

#[test]
fn checksum_of_zero_sum_is_zero() {
    let mut m: Message = [0; 10];
    add_checksum(&mut m);
    assert_eq!((m[7], m[8]), (0, 0));
}

#[test]
fn enum_byte_conversions() {
    assert_eq!(PlaybackMode::Random.to_u8(), 0x03);
    assert_eq!(PlaybackMode::from_u8(0x01), Some(PlaybackMode::FolderRepeat));
    assert_eq!(PlaybackMode::from_u8(0x04), None);
    assert_eq!(Equalizer::Classic.to_u8(), 0x04);
    assert_eq!(Equalizer::from_u8(0x05), Some(Equalizer::Bass));
    assert_eq!(Equalizer::from_u8(0x06), None);
    assert_eq!(State::Advertise.to_u8(), 0x07);
    assert_eq!(State::from_u8(0x04), Some(State::CheckSumNotMatch));
    assert_eq!(State::from_u8(0x00), None);
    assert_eq!(State::from_u8(0x08), None);
    assert_eq!(Device::Flash.to_u8(), 0x05);
    assert_eq!(Device::from_u8(0x02), Some(Device::SD));
    assert_eq!(Device::from_u8(0x00), None);
    assert_eq!(Device::from_u8(0x06), None);
}
