//! The driver state: command frames for each playback operation, and the
//! incremental reassembly of frames received one byte at a time.

use vstd::prelude::*;

use crate::codec::{Command, Message, MSG_END, MSG_START, encode, encode_spec, lemma_encode_well_framed};
use crate::types::{Equalizer, PlaybackMode};
use nb::Error as NbError;

verus! {

/// Serial read error of the `nb` crate: "no data yet" or a transport error.
#[verifier::external_type_specification]
#[verifier::external_body]
#[verifier::reject_recursive_types(E)]
pub struct ExNbError<E>(NbError<E>);

/// Errors of the driver.
#[derive(Debug)]
#[verifier::reject_recursive_types(RXE)]
pub enum Error<TXE, RXE> {
    /// Serial write error
    WriteError(TXE),
    /// Serial read error
    ReadError(NbError<RXE>),
    /// Message not complete yet: call again with the next byte
    MessageNotComplete,
    /// End marker received after the frame buffer was already full
    MessageOverrun,
}

/// The frame buffer right after a start marker.
pub open spec fn fresh_buffer() -> Seq<u8> {
    Seq::new(10, |i: int| if i == 0 { MSG_START } else { 0u8 })
}

/// The reassembly buffer after receiving byte `b` with cursor `c`.
pub open spec fn next_buffer(buf: Seq<u8>, c: nat, b: u8) -> Seq<u8> {
    if b == MSG_START {
        fresh_buffer()
    } else if c < 10 {
        buf.update(c as int, b)
    } else {
        buf
    }
}

/// The cursor after receiving byte `b` with cursor `c`.
pub open spec fn next_cursor(c: nat, b: u8) -> nat {
    if b == MSG_START {
        1
    } else if c < 10 {
        c + 1
    } else {
        c
    }
}

/// Receiving byte `b` with cursor `c` completes a frame.
pub open spec fn completes(c: nat, b: u8) -> bool {
    b == MSG_END && c < 10
}

/// Receiving byte `b` with cursor `c` is an overrun.
pub open spec fn overruns(c: nat, b: u8) -> bool {
    b == MSG_END && c >= 10
}

/// A byte that is neither a start nor an end marker.
pub open spec fn is_plain(b: u8) -> bool {
    b != MSG_START && b != MSG_END
}

/// Buffer and cursor after receiving the bytes of `s` in order.
pub open spec fn run(buf: Seq<u8>, c: nat, s: Seq<u8>) -> (Seq<u8>, nat)
    decreases s.len(),
{
    if s.len() == 0 {
        (buf, c)
    } else {
        let prev = run(buf, c, s.drop_last());
        (next_buffer(prev.0, prev.1, s.last()), next_cursor(prev.1, s.last()))
    }
}

/// The reassembly buffer holding the first `k` bytes of `m`, zeros after.
pub open spec fn prefix_buffer(m: Seq<u8>, k: int) -> Seq<u8> {
    Seq::new(10, |i: int| if i < k { m[i] } else { 0u8 })
}

/// A 10-byte frame whose bytes between the markers are all plain.
pub open spec fn cleanly_delimited(m: Seq<u8>) -> bool {
    &&& m.len() == 10
    &&& m[0] == MSG_START
    &&& m[9] == MSG_END
    &&& forall|i: int| 1 <= i < 9 ==> is_plain(#[trigger] m[i])
}

/// Receiving `s` then `t` is receiving `s + t`.
pub proof fn lemma_run_concat(buf: Seq<u8>, c: nat, s: Seq<u8>, t: Seq<u8>)
    ensures
        run(buf, c, s + t) == run(run(buf, c, s).0, run(buf, c, s).1, t),
    decreases t.len(),
{
    if t.len() == 0 {
        assert(s + t =~= s);
    } else {
        assert((s + t).drop_last() =~= s + t.drop_last());
        assert((s + t).last() == t.last());
        lemma_run_concat(buf, c, s, t.drop_last());
    }
}

/// After the first `k` bytes of a cleanly delimited frame, whatever the
/// state before, the buffer holds exactly those bytes and the cursor is `k`.
pub proof fn lemma_run_prefix(buf: Seq<u8>, c: nat, m: Seq<u8>, k: int)
    requires
        cleanly_delimited(m),
        1 <= k <= 9,
    ensures
        run(buf, c, m.take(k)).0 == prefix_buffer(m, k),
        run(buf, c, m.take(k)).1 == k,
    decreases k,
{
    if k == 1 {
        assert(m.take(1).drop_last() =~= Seq::<u8>::empty());
        assert(fresh_buffer() =~= prefix_buffer(m, 1));
    } else {
        assert(m.take(k).drop_last() =~= m.take(k - 1));
        lemma_run_prefix(buf, c, m, k - 1);
        assert(is_plain(m[k - 1]));
        assert(prefix_buffer(m, k - 1).update(k - 1, m[k - 1]) =~= prefix_buffer(m, k));
    }
}

/// Receiving plain bytes only advances the cursor, up to the end of the
/// buffer, and keeps the buffer's length.
pub proof fn lemma_run_plain(buf: Seq<u8>, c: nat, s: Seq<u8>)
    requires
        buf.len() == 10,
        c <= 10,
        forall|i: int| 0 <= i < s.len() ==> is_plain(#[trigger] s[i]),
    ensures
        run(buf, c, s).1 == if c + s.len() > 10 { 10 } else { c + s.len() },
        run(buf, c, s).0.len() == 10,
    decreases s.len(),
{
    if s.len() > 0 {
        let p = s.drop_last();
        assert forall|i: int| 0 <= i < p.len() implies is_plain(#[trigger] p[i]) by {
            assert(p[i] == s[i]);
        }
        lemma_run_plain(buf, c, p);
        assert(is_plain(s[s.len() - 1]));
    }
}

/// Whatever the state, receiving the bytes of an encoded command one at a
/// time reports no frame and no overrun for the first nine bytes, and the
/// tenth completes the frame, which equals the encoded command. This holds
/// where no byte between the markers is itself a marker.
pub proof fn lemma_round_trip(buf: Seq<u8>, c: nat, cmd: Command)
    requires
        forall|i: int| 1 <= i < 9 ==> is_plain(#[trigger] encode_spec(cmd)[i]),
    ensures
        forall|k: int|
            0 <= k < 9 ==> !completes(#[trigger] run(buf, c, encode_spec(cmd).take(k)).1, encode_spec(cmd)[k])
                && !overruns(run(buf, c, encode_spec(cmd).take(k)).1, encode_spec(cmd)[k]),
        completes(run(buf, c, encode_spec(cmd).take(9)).1, encode_spec(cmd)[9]),
        next_buffer(
            run(buf, c, encode_spec(cmd).take(9)).0,
            run(buf, c, encode_spec(cmd).take(9)).1,
            encode_spec(cmd)[9],
        ) == encode_spec(cmd),
{
    let m = encode_spec(cmd);
    lemma_encode_well_framed(cmd);
    assert(m[0] == MSG_START);
    assert forall|k: int| 0 <= k < 9 implies !completes(#[trigger] run(buf, c, m.take(k)).1, m[k])
        && !overruns(run(buf, c, m.take(k)).1, m[k]) by {
        if k > 0 {
            assert(is_plain(m[k]));
        }
    }
    lemma_run_prefix(buf, c, m, 9);
    assert(prefix_buffer(m, 9).update(9, m[9]) =~= m);
}

/// A start marker resynchronizes: whatever was received before, receiving a
/// cleanly delimited frame completes exactly that frame.
pub proof fn lemma_resync(buf: Seq<u8>, c: nat, junk: Seq<u8>, m: Seq<u8>)
    requires
        cleanly_delimited(m),
    ensures
        completes(run(buf, c, junk + m.take(9)).1, m[9]),
        next_buffer(run(buf, c, junk + m.take(9)).0, run(buf, c, junk + m.take(9)).1, m[9])
            == m,
{
    lemma_run_concat(buf, c, junk, m.take(9));
    let st = run(buf, c, junk);
    lemma_run_prefix(st.0, st.1, m, 9);
    assert(prefix_buffer(m, 9).update(9, m[9]) =~= m);
}

/// Ten plain bytes, from any state, fill the buffer: an end marker then
/// reports an overrun and no frame.
pub proof fn lemma_overrun(buf: Seq<u8>, c: nat, s: Seq<u8>)
    requires
        buf.len() == 10,
        c <= 10,
        s.len() == 10,
        forall|i: int| 0 <= i < s.len() ==> is_plain(#[trigger] s[i]),
    ensures
        run(buf, c, s).1 == 10,
        overruns(run(buf, c, s).1, MSG_END),
        !completes(run(buf, c, s).1, MSG_END),
{
    lemma_run_plain(buf, c, s);
}

/// Eleven plain bytes, from any state, leave the cursor at 10; the last one
/// is dropped and the buffer is what the first ten left.
pub proof fn lemma_passive_overflow(buf: Seq<u8>, c: nat, s: Seq<u8>)
    requires
        buf.len() == 10,
        c <= 10,
        s.len() == 11,
        forall|i: int| 0 <= i < s.len() ==> is_plain(#[trigger] s[i]),
    ensures
        run(buf, c, s).1 == 10,
        run(buf, c, s).0 == run(buf, c, s.take(10)).0,
        run(buf, c, s).0.len() == 10,
{
    let p = s.take(10);
    assert(s.drop_last() =~= p);
    assert forall|i: int| 0 <= i < p.len() implies is_plain(#[trigger] p[i]) by {
        assert(p[i] == s[i]);
    }
    lemma_run_plain(buf, c, p);
    assert(is_plain(s[10]));
}

/// The DFPlayer driver state.
pub struct DFPlayer {
    rx_message: Message,
    rx_counter: u8,
}

impl DFPlayer {
    /// The reassembly buffer.
    pub closed spec fn buffer(&self) -> Seq<u8> {
        self.rx_message@
    }

    /// Number of bytes committed to the reassembly buffer.
    pub closed spec fn cursor(&self) -> nat {
        self.rx_counter as nat
    }

    /// The cursor never passes the end of the buffer.
    pub open spec fn wf(&self) -> bool {
        &&& self.cursor() <= 10
        &&& self.buffer().len() == 10
    }

    /// Creates a driver with an empty reassembly buffer.
    pub fn new() -> (r: DFPlayer)
        ensures
            r.wf(),
            r.cursor() == 0,
            r.buffer() == Seq::new(10, |i: int| 0u8),
    {
        let r = DFPlayer { rx_message: [0; 10], rx_counter: 0 };
        assert(r.rx_message@ =~= Seq::new(10, |i: int| 0u8));
        r
    }

    /// Number of bytes committed to the reassembly buffer.
    pub fn rx_cursor(&self) -> (r: u8)
        ensures
            r as nat == self.cursor(),
    {
        self.rx_counter
    }

    /// A copy of the reassembly buffer.
    pub fn rx_buffer(&self) -> (r: Message)
        ensures
            r@ == self.buffer(),
    {
        self.rx_message
    }

    /// Pause playing a track
    pub fn pause(&self) -> (msg: Message)
        ensures
            msg@ == encode_spec(Command::Pause),
    {
        encode(Command::Pause)
    }

    /// Start playing a track
    pub fn play(&self) -> (msg: Message)
        ensures
            msg@ == encode_spec(Command::Playback),
    {
        encode(Command::Playback)
    }

    /// Next track
    pub fn next_track(&self) -> (msg: Message)
        ensures
            msg@ == encode_spec(Command::Next),
    {
        encode(Command::Next)
    }

    /// Previous track
    pub fn previous_track(&self) -> (msg: Message)
        ensures
            msg@ == encode_spec(Command::Previous),
    {
        encode(Command::Previous)
    }

    /// Increase volume by one
    pub fn increse_volume(&self) -> (msg: Message)
        ensures
            msg@ == encode_spec(Command::IncreaseVolume),
    {
        encode(Command::IncreaseVolume)
    }

    /// Decrease volume by one
    pub fn decrese_volume(&self) -> (msg: Message)
        ensures
            msg@ == encode_spec(Command::DecreaseVolume),
    {
        encode(Command::DecreaseVolume)
    }

    /// Set the volume; values above 30 are lowered to 30.
    pub fn set_volume(&self, vol: u8) -> (msg: Message)
        ensures
            msg@ == encode_spec(Command::SpecifyVolume(if vol > 30 { 30 } else { vol })),
            msg[6] == if vol > 30 { 30 } else { vol },
    {
        let v: u8 = if vol > 30 { 30 } else { vol };
        encode(Command::SpecifyVolume(v))
    }

    /// Set the player to standby to reduce power consumption.
    pub fn standby(&self) -> (msg: Message)
        ensures
            msg@ == encode_spec(Command::Standby),
    {
        encode(Command::Standby)
    }

    /// Reset the player
    pub fn reset_module(&self) -> (msg: Message)
        ensures
            msg@ == encode_spec(Command::ResetModule),
    {
        encode(Command::ResetModule)
    }

    /// Wake the player from standby
    pub fn wakeup(&self) -> (msg: Message)
        ensures
            msg@ == encode_spec(Command::NormalWorking),
    {
        encode(Command::NormalWorking)
    }

    /// Set the equalizer
    pub fn set_equilizer(&self, eq: Equalizer) -> (msg: Message)
        ensures
            msg@ == encode_spec(Command::SpecifyEqualizer(eq)),
    {
        encode(Command::SpecifyEqualizer(eq))
    }

    /// Set the playback mode
    pub fn set_playback_mode(&self, mode: PlaybackMode) -> (msg: Message)
        ensures
            msg@ == encode_spec(Command::SpecifyPlaybackMode(mode)),
    {
        encode(Command::SpecifyPlaybackMode(mode))
    }

    /// Play a track of the mp3 folder; tracks above 9999 are lowered to 9999.
    pub fn play_mp3(&self, track: u16) -> (msg: Message)
        ensures
            msg@ == encode_spec(Command::SpecifyMp3Track(if track > 9999 { 9999 } else { track })),
            msg[5] as int * 256 + msg[6] as int == if track > 9999 { 9999 } else { track },
    {
        let t: u16 = if track > 9999 { 9999 } else { track };
        encode(Command::SpecifyMp3Track(t))
    }

    /// Play a track of a folder; folders above 99 are lowered to 99.
    pub fn play_folder_track(&self, folder: u8, track: u8) -> (msg: Message)
        ensures
            msg@ == encode_spec(Command::SpecifyFolder(if folder > 99 { 99 } else { folder }, track)),
            msg[5] == if folder > 99 { 99 } else { folder },
            msg[6] == track,
    {
        let f: u8 = if folder > 99 { 99 } else { folder };
        encode(Command::SpecifyFolder(f, track))
    }

    /// Pause playing, play an advertisement, resume playing; tracks above
    /// 9999 are lowered to 9999.
    pub fn advertise(&self, ad: u16) -> (msg: Message)
        ensures
            msg@ == encode_spec(Command::SpecifyAdvertisement(if ad > 9999 { 9999 } else { ad })),
            msg[5] as int * 256 + msg[6] as int == if ad > 9999 { 9999 } else { ad },
    {
        let t: u16 = if ad > 9999 { 9999 } else { ad };
        encode(Command::SpecifyAdvertisement(t))
    }

    /// Receiving is driven by `read_message`; this call leaves the state as it is.
    pub fn get_message(&mut self)
        ensures
            *final(self) == *old(self),
    {
    }

    /// Takes the outcome of one serial read and advances the reassembly.
    /// A read error is handed back unchanged and leaves the state alone.
    /// A start marker restarts the frame; an end marker completes it, or is
    /// an overrun once ten bytes are held; any other byte is stored while
    /// there is room and dropped otherwise.
    pub fn read_message<TXE, RXE>(&mut self, read: Result<u8, NbError<RXE>>) -> (r: Result<
        Message,
        Error<TXE, RXE>,
    >)
        requires
            old(self).wf(),
        ensures
            final(self).wf(),
            match read {
                Err(e) => *final(self) == *old(self) && r == Err::<Message, Error<TXE, RXE>>(
                    Error::ReadError(e),
                ),
                Ok(b) => {
                    &&& final(self).buffer() == next_buffer(old(self).buffer(), old(self).cursor(), b)
                    &&& final(self).cursor() == next_cursor(old(self).cursor(), b)
                    &&& (r is Ok <==> completes(old(self).cursor(), b))
                    &&& (r matches Ok(m) ==> m@ == final(self).buffer())
                    &&& (overruns(old(self).cursor(), b) ==> r matches Err(Error::MessageOverrun))
                    &&& (!completes(old(self).cursor(), b) && !overruns(old(self).cursor(), b)
                        ==> r matches Err(Error::MessageNotComplete))
                },
            },
    {
        match read {
            Ok(byte) => {
                if byte == MSG_START {
                    self.rx_counter = 1;
                    self.rx_message = [0x00; 10];
                    self.rx_message[0] = MSG_START;
                    assert(self.rx_message@ =~= fresh_buffer());
                } else if byte == MSG_END {
                    if self.rx_counter < 10 {
                        self.rx_message[self.rx_counter as usize] = MSG_END;
                        self.rx_counter = self.rx_counter + 1;
                        return Ok(self.rx_message);
                    } else {
                        return Err(Error::MessageOverrun);
                    }
                } else {
                    if self.rx_counter < 10 {
                        self.rx_message[self.rx_counter as usize] = byte;
                        self.rx_counter = self.rx_counter + 1;
                    }
                }
            },
            Err(err) => return Err(Error::ReadError(err)),
        }
        Err(Error::MessageNotComplete)
    }
}

} // verus!
