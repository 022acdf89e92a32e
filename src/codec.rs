//! The command model and the 10-byte frame codec.

use vstd::prelude::*;

use crate::types::{Equalizer, PlaybackMode};

verus! {

/// A frame as it travels over the serial link.
pub type Message = [u8; 10];

/// First byte of every frame.
pub const MSG_START: u8 = 0x7e;

/// Last byte of every frame.
pub const MSG_END: u8 = 0xef;

/// Protocol version byte.
pub const MSG_VERSION: u8 = 0xff;

/// Number of bytes that follow the length byte, up to the checksum.
pub const MSG_LEN: u8 = 0x06;

/// An operation sent to the player module.
#[derive(Debug, Copy, Clone, PartialEq, Eq, Structural)]
pub enum Command {
    /// Next track
    Next,
    /// Previous track
    Previous,
    /// Set a track (0-2999)
    SpecifyTrack(u16),
    /// Volume up by one
    IncreaseVolume,
    /// Volume down by one
    DecreaseVolume,
    /// Set volume (0-30)
    SpecifyVolume(u8),
    /// Select an equalizer preset
    SpecifyEqualizer(Equalizer),
    /// Select a playback mode
    SpecifyPlaybackMode(PlaybackMode),
    /// Go to standby
    Standby,
    /// Leave standby
    NormalWorking,
    /// Reset the module
    ResetModule,
    /// Start or resume playback
    Playback,
    /// Pause playback
    Pause,
    /// Play a track of a folder (folder 0-99, track)
    SpecifyFolder(u8, u8),
    /// Play a track of the mp3 folder (0-9999)
    SpecifyMp3Track(u16),
    /// Play a track of the advertisement folder (0-9999)
    SpecifyAdvertisement(u16),
    /// Stop the advertisement
    StopAdvertisement,
    /// Stop playback
    Stop,
}

/// A read request sent to the player module.
#[derive(Debug, Copy, Clone, PartialEq, Eq, Structural)]
pub enum Query {
    /// Current state
    Status,
    /// Current volume
    Volume,
    /// Current equalizer
    Equalizer,
    /// Current playback mode
    PlaybackMode,
    /// Firmware version
    SoftwareVersion,
    /// Number of files in a folder
    FileCountInFolder,
    /// Number of folders
    FolderCount,
}

/// The identifier byte of a command.
pub open spec fn command_id(c: Command) -> u8 {
    match c {
        Command::Next => 0x01,
        Command::Previous => 0x02,
        Command::SpecifyTrack(_) => 0x03,
        Command::IncreaseVolume => 0x04,
        Command::DecreaseVolume => 0x05,
        Command::SpecifyVolume(_) => 0x06,
        Command::SpecifyEqualizer(_) => 0x07,
        Command::SpecifyPlaybackMode(_) => 0x08,
        Command::Standby => 0x0A,
        Command::NormalWorking => 0x0B,
        Command::ResetModule => 0x0C,
        Command::Playback => 0x0D,
        Command::Pause => 0x0E,
        Command::SpecifyFolder(_, _) => 0x0F,
        Command::SpecifyMp3Track(_) => 0x12,
        Command::SpecifyAdvertisement(_) => 0x13,
        Command::StopAdvertisement => 0x15,
        Command::Stop => 0x16,
    }
}

/// High byte of a 16-bit value.
pub open spec fn hi_byte(v: int) -> u8 {
    (v / 256) as u8
}

/// Low byte of a 16-bit value.
pub open spec fn lo_byte(v: int) -> u8 {
    (v % 256) as u8
}

/// The two parameter bytes of a command.
pub open spec fn command_params(c: Command) -> (u8, u8) {
    match c {
        Command::SpecifyTrack(t) => (hi_byte(t as int), lo_byte(t as int)),
        Command::SpecifyVolume(v) => (0, v),
        Command::SpecifyEqualizer(e) => (0, e.spec_byte()),
        Command::SpecifyPlaybackMode(m) => (0, m.spec_byte()),
        Command::SpecifyFolder(f, t) => (f, t),
        Command::SpecifyMp3Track(t) => (hi_byte(t as int), lo_byte(t as int)),
        Command::SpecifyAdvertisement(t) => (hi_byte(t as int), lo_byte(t as int)),
        _ => (0, 0),
    }
}

/// Whether two commands are the same operation, whatever their parameters.
pub open spec fn same_operation(a: Command, b: Command) -> bool {
    match (a, b) {
        (Command::Next, Command::Next) => true,
        (Command::Previous, Command::Previous) => true,
        (Command::SpecifyTrack(_), Command::SpecifyTrack(_)) => true,
        (Command::IncreaseVolume, Command::IncreaseVolume) => true,
        (Command::DecreaseVolume, Command::DecreaseVolume) => true,
        (Command::SpecifyVolume(_), Command::SpecifyVolume(_)) => true,
        (Command::SpecifyEqualizer(_), Command::SpecifyEqualizer(_)) => true,
        (Command::SpecifyPlaybackMode(_), Command::SpecifyPlaybackMode(_)) => true,
        (Command::Standby, Command::Standby) => true,
        (Command::NormalWorking, Command::NormalWorking) => true,
        (Command::ResetModule, Command::ResetModule) => true,
        (Command::Playback, Command::Playback) => true,
        (Command::Pause, Command::Pause) => true,
        (Command::SpecifyFolder(_, _), Command::SpecifyFolder(_, _)) => true,
        (Command::SpecifyMp3Track(_), Command::SpecifyMp3Track(_)) => true,
        (Command::SpecifyAdvertisement(_), Command::SpecifyAdvertisement(_)) => true,
        (Command::StopAdvertisement, Command::StopAdvertisement) => true,
        (Command::Stop, Command::Stop) => true,
        _ => false,
    }
}

/// Sum of the bytes that the checksum covers (indices 1 to 6).
pub open spec fn frame_sum(m: Seq<u8>) -> int
    recommends
        m.len() >= 7,
{
    m[1] as int + m[2] as int + m[3] as int + m[4] as int + m[5] as int + m[6] as int
}

/// Sum of the bytes at indices 1 up to, not including, `k`.
pub open spec fn partial_sum(m: Seq<u8>, k: int) -> int
    decreases k,
{
    if k <= 1 {
        0
    } else {
        partial_sum(m, k - 1) + m[k - 1] as int
    }
}

/// The checksum over a frame: zero minus the covered sum, modulo 2^16.
pub open spec fn checksum_value(m: Seq<u8>) -> int {
    (0x10000 - frame_sum(m) % 0x10000) % 0x10000
}

/// The checksum stored big-endian at indices 7 and 8 matches the frame.
pub open spec fn checksum_ok(m: Seq<u8>) -> bool {
    m[7] as int * 256 + m[8] as int == checksum_value(m)
}

/// A complete, consistent frame as this driver sends it.
pub open spec fn well_framed(m: Seq<u8>) -> bool {
    &&& m.len() == 10
    &&& m[0] == MSG_START
    &&& m[1] == MSG_VERSION
    &&& m[2] == MSG_LEN
    &&& m[4] == 0x00
    &&& m[9] == MSG_END
    &&& checksum_ok(m)
}

/// The frame carrying identifier `id` and parameter bytes `p0`, `p1`.
pub open spec fn frame_of(id: u8, p0: u8, p1: u8) -> Seq<u8> {
    let cs = (0x10000 - (0xFF + 0x06 + id + p0 + p1)) % 0x10000;
    seq![MSG_START, MSG_VERSION, MSG_LEN, id, 0x00u8, p0, p1, hi_byte(cs), lo_byte(cs), MSG_END]
}

/// The frame that encodes a command.
pub open spec fn encode_spec(c: Command) -> Seq<u8> {
    frame_of(command_id(c), command_params(c).0, command_params(c).1)
}

/// The frame that encodes a query, where the query is supported.
pub open spec fn encode_query_spec(q: Query) -> Option<Seq<u8>> {
    match q {
        Query::Volume => Some(frame_of(0x01, 0, 0)),
        _ => None,
    }
}

/// Every frame built from an identifier and two parameter bytes is well framed.
pub proof fn lemma_frame_of_well_framed(id: u8, p0: u8, p1: u8)
    ensures
        well_framed(frame_of(id, p0, p1)),
{
}

/// Every encoded command is a well-formed 10-byte frame: start and end
/// markers, version and length bytes, no feedback request, and a checksum
/// equal to zero minus the sum of bytes 1 to 6, modulo 2^16.
pub proof fn lemma_encode_well_framed(c: Command)
    ensures
        well_framed(encode_spec(c)),
        encode_spec(c)[3] == command_id(c),
{
    lemma_frame_of_well_framed(command_id(c), command_params(c).0, command_params(c).1);
}

/// Every command has an identifier from the documented table, and two
/// commands share an identifier exactly when they are the same operation.
pub proof fn lemma_command_ids_unique(a: Command, b: Command)
    ensures
        command_id(a) == command_id(b) <==> same_operation(a, b),
        0x01 <= command_id(a) <= 0x16,
        command_id(a) != 0x09 && command_id(a) != 0x10 && command_id(a) != 0x11
            && command_id(a) != 0x14,
{
}

/// Splits a 16-bit value into its big-endian bytes.
fn split_u16(v: u16) -> (r: (u8, u8))
    ensures
        r.0 == hi_byte(v as int),
        r.1 == lo_byte(v as int),
{
    ((v / 256) as u8, (v % 256) as u8)
}

/// Writes the start marker, version, length and end marker into a frame.
pub fn add_static_bytes(msg: &mut Message)
    ensures
        final(msg)@ == old(msg)@.update(0, MSG_START).update(1, MSG_VERSION).update(
            2,
            MSG_LEN,
        ).update(9, MSG_END),
{
    msg[0] = MSG_START;
    msg[1] = MSG_VERSION;
    msg[2] = MSG_LEN;
    msg[9] = MSG_END;
}

/// Computes the checksum over bytes 1 to 6 and writes it big-endian into
/// bytes 7 and 8.
pub fn add_checksum(msg: &mut Message)
    ensures
        final(msg)@ == old(msg)@.update(7, hi_byte(checksum_value(old(msg)@))).update(
            8,
            lo_byte(checksum_value(old(msg)@)),
        ),
        checksum_ok(final(msg)@),
{
    let mut sum: u16 = 0;
    let mut i: usize = 1;
    while i < 7
        invariant
            1 <= i <= 7,
            msg@ == old(msg)@,
            sum as int == partial_sum(msg@, i as int),
            sum <= 255 * i,
        decreases 7 - i,
    {
        sum = sum + msg[i] as u16;
        i = i + 1;
    }
    proof {
        reveal_with_fuel(partial_sum, 7);
    }
    let checksum: u16 = 0u16.wrapping_sub(sum);
    let (hi, lo) = split_u16(checksum);
    msg[7] = hi;
    msg[8] = lo;
}

/// The identifier byte of a command, from the exhaustive table.
pub fn command_identifier(command: Command) -> (r: u8)
    ensures
        r == command_id(command),
{
    match command {
        Command::Next => 0x01,
        Command::Previous => 0x02,
        Command::SpecifyTrack(_) => 0x03,
        Command::IncreaseVolume => 0x04,
        Command::DecreaseVolume => 0x05,
        Command::SpecifyVolume(_) => 0x06,
        Command::SpecifyEqualizer(_) => 0x07,
        Command::SpecifyPlaybackMode(_) => 0x08,
        Command::Standby => 0x0A,
        Command::NormalWorking => 0x0B,
        Command::ResetModule => 0x0C,
        Command::Playback => 0x0D,
        Command::Pause => 0x0E,
        Command::SpecifyFolder(_, _) => 0x0F,
        Command::SpecifyMp3Track(_) => 0x12,
        Command::SpecifyAdvertisement(_) => 0x13,
        Command::StopAdvertisement => 0x15,
        Command::Stop => 0x16,
    }
}

/// The two parameter bytes of a command.
pub fn command_parameters(command: Command) -> (r: (u8, u8))
    ensures
        r == command_params(command),
{
    match command {
        Command::SpecifyTrack(track) => split_u16(track),
        Command::SpecifyVolume(vol) => (0x00, vol),
        Command::SpecifyEqualizer(equ) => (0x00, equ.to_u8()),
        Command::SpecifyPlaybackMode(mode) => (0x00, mode.to_u8()),
        Command::SpecifyFolder(folder, track) => (folder, track),
        Command::SpecifyMp3Track(track) => split_u16(track),
        Command::SpecifyAdvertisement(track) => split_u16(track),
        _ => (0x00, 0x00),
    }
}

/// Builds the frame for an identifier and two parameter bytes.
fn build_frame(id: u8, p0: u8, p1: u8) -> (msg: Message)
    ensures
        msg@ == frame_of(id, p0, p1),
{
    let mut msg: Message = [0; 10];
    add_static_bytes(&mut msg);
    msg[3] = id;
    // A command never asks for a feedback frame.
    msg[4] = 0x00;
    msg[5] = p0;
    msg[6] = p1;
    add_checksum(&mut msg);
    assert(msg@ =~= frame_of(id, p0, p1));
    msg
}

/// Encodes a command into its wire frame.
pub fn encode(command: Command) -> (msg: Message)
    ensures
        msg@ == encode_spec(command),
{
    let id = command_identifier(command);
    let (p0, p1) = command_parameters(command);
    build_frame(id, p0, p1)
}

/// Encodes a query into its wire frame; `None` for a query this driver
/// does not support.
pub fn encode_query(query: Query) -> (r: Option<Message>)
    ensures
        r matches Some(msg) ==> encode_query_spec(query) == Some(msg@),
        r is None <==> encode_query_spec(query) is None,
{
    match query {
        Query::Volume => Some(build_frame(0x01, 0x00, 0x00)),
        _ => None,
    }
}

} // verus!
