//! The voice receiver: a byte buffer fed from a voice call, bounded by
//! clearing it whenever it has grown past its size limit.
use vstd::prelude::*;

verus! {

/// How many bytes the buffer may hold before the next insert clears it.
pub const DEFAULT_BUFFER_SIZE: usize = 100_000_000;

/// The eight bytes of `x`, most significant first.
pub open spec fn be_bytes(x: u64) -> Seq<u8> {
    seq![
        ((x >> 56u64) & 0xffu64) as u8,
        ((x >> 48u64) & 0xffu64) as u8,
        ((x >> 40u64) & 0xffu64) as u8,
        ((x >> 32u64) & 0xffu64) as u8,
        ((x >> 24u64) & 0xffu64) as u8,
        ((x >> 16u64) & 0xffu64) as u8,
        ((x >> 8u64) & 0xffu64) as u8,
        (x & 0xffu64) as u8,
    ]
}

/// The number whose bytes, most significant first, are `b[0..8]`.
pub open spec fn from_be(b: Seq<u8>) -> u64 {
    ((b[0] as u64) << 56u64) | ((b[1] as u64) << 48u64) | ((b[2] as u64) << 40u64) | ((
    b[3] as u64) << 32u64) | ((b[4] as u64) << 24u64) | ((b[5] as u64) << 16u64) | ((
    b[6] as u64) << 8u64) | (b[7] as u64)
}

/// Reading a speaker's eight bytes back gives the speaker's id.
pub proof fn lemma_speaker_bytes_round_trip(x: u64)
    ensures
        from_be(be_bytes(x)) == x,
{
    let b = be_bytes(x);
    let b0 = ((x >> 56u64) & 0xffu64) as u8;
    let b1 = ((x >> 48u64) & 0xffu64) as u8;
    let b2 = ((x >> 40u64) & 0xffu64) as u8;
    let b3 = ((x >> 32u64) & 0xffu64) as u8;
    let b4 = ((x >> 24u64) & 0xffu64) as u8;
    let b5 = ((x >> 16u64) & 0xffu64) as u8;
    let b6 = ((x >> 8u64) & 0xffu64) as u8;
    let b7 = (x & 0xffu64) as u8;
    assert(b[0] == b0 && b[1] == b1 && b[2] == b2 && b[3] == b3);
    assert(b[4] == b4 && b[5] == b5 && b[6] == b6 && b[7] == b7);
    assert(((b0 as u64) << 56u64) | ((b1 as u64) << 48u64) | ((b2 as u64) << 40u64) | ((
    b3 as u64) << 32u64) | ((b4 as u64) << 24u64) | ((b5 as u64) << 16u64) | ((b6 as u64)
        << 8u64) | (b7 as u64) == x) by (bit_vector)
        requires
            b0 == ((x >> 56u64) & 0xffu64) as u8,
            b1 == ((x >> 48u64) & 0xffu64) as u8,
            b2 == ((x >> 40u64) & 0xffu64) as u8,
            b3 == ((x >> 32u64) & 0xffu64) as u8,
            b4 == ((x >> 24u64) & 0xffu64) as u8,
            b5 == ((x >> 16u64) & 0xffu64) as u8,
            b6 == ((x >> 8u64) & 0xffu64) as u8,
            b7 == (x & 0xffu64) as u8,
    ;
}

/// An event of a voice call, as far as the receiver reads it.
#[derive(Debug, Clone)]
pub enum VoiceEvent {
    /// A user started or stopped speaking; the user is not always known.
    SpeakingStateUpdate { user_id: Option<u64> },
    /// A received audio packet: its bytes, the last `payload_end_pad` of
    /// which are padding.
    RtpPacket { packet: Vec<u8>, payload_end_pad: usize },
    /// Anything else: call statistics, disconnects, track events.
    Other,
}

/// Collects what a voice call sends into a bounded byte buffer.
pub struct Receiver {
    /// The bytes collected so far.
    pub data: Vec<u8>,
    buf_size: usize,
}

/// How many bytes of a packet of `len` bytes, `pad` of them end padding, are
/// taken when the payload is read as 16-bit samples: twice the payload's
/// length, cut at the end of the packet.
pub open spec fn sample_read_len(len: nat, pad: nat) -> int {
    let body = len - pad;
    if 2 * body <= len {
        2 * body
    } else {
        len as int
    }
}

impl Receiver {
    /// The size past which the next insert clears the buffer.
    pub closed spec fn limit(&self) -> nat {
        self.buf_size as nat
    }

    /// The bytes collected so far.
    pub closed spec fn buffer(&self) -> Seq<u8> {
        self.data@
    }

    /// A receiver filling `data`, with the default size limit.
    pub fn new(data: Vec<u8>) -> (r: Receiver)
        ensures
            r.buffer() == data@,
            r.limit() == DEFAULT_BUFFER_SIZE,
    {
        Receiver { data, buf_size: DEFAULT_BUFFER_SIZE }
    }

    /// The size past which the next insert clears the buffer.
    pub fn buf_size(&self) -> (r: usize)
        ensures
            r == self.limit(),
    {
        self.buf_size
    }

    /// Appends `buf`, first clearing the buffer when it has grown past its
    /// limit.
    pub fn insert(&mut self, buf: &[u8])
        ensures
            final(self).limit() == old(self).limit(),
            final(self).buffer() == (if old(self).buffer().len() > old(self).limit() {
                Seq::empty()
            } else {
                old(self).buffer()
            }) + buf@,
    {
        if self.data.len() > self.buf_size {
            self.data.clear();
        }
        let ghost start = self.data@;
        let mut i: usize = 0;
        while i < buf.len()
            invariant
                i <= buf@.len(),
                self.data@ == start + buf@.take(i as int),
                self.buf_size == old(self).buf_size,
            decreases buf@.len() - i,
        {
            self.data.push(buf[i]);
            assert(self.data@ =~= start + buf@.take(i + 1));
            i = i + 1;
        }
        assert(buf@.take(buf@.len() as int) =~= buf@);
    }

    /// Records who is speaking: the user id's eight bytes, most significant
    /// first, appended to the buffer.
    pub fn record_speaker(&mut self, user_id: u64)
        ensures
            final(self).limit() == old(self).limit(),
            final(self).buffer() == old(self).buffer() + be_bytes(user_id),
    {
        let bytes: [u8; 8] = [
            ((user_id >> 56u64) & 0xffu64) as u8,
            ((user_id >> 48u64) & 0xffu64) as u8,
            ((user_id >> 40u64) & 0xffu64) as u8,
            ((user_id >> 32u64) & 0xffu64) as u8,
            ((user_id >> 24u64) & 0xffu64) as u8,
            ((user_id >> 16u64) & 0xffu64) as u8,
            ((user_id >> 8u64) & 0xffu64) as u8,
            (user_id & 0xffu64) as u8,
        ];
        let ghost start = self.data@;
        let mut i: usize = 0;
        while i < 8
            invariant
                i <= 8,
                self.data@ == start + bytes@.take(i as int),
                self.buf_size == old(self).buf_size,
            decreases 8 - i,
        {
            self.data.push(bytes[i]);
            assert(self.data@ =~= start + bytes@.take(i + 1));
            i = i + 1;
        }
        assert(bytes@ =~= be_bytes(user_id));
        assert(bytes@.take(8) =~= bytes@);
    }

    /// Acts on a voice event: a speaking update records the speaker, an
    /// audio packet has its payload read as 16-bit samples inserted (two
    /// bytes for each byte before the end padding, as far as the packet
    /// reaches), and anything else leaves the buffer alone.
    pub fn act(&mut self, event: &VoiceEvent)
        requires
            event matches VoiceEvent::SpeakingStateUpdate { user_id } ==> user_id is Some,
            event matches VoiceEvent::RtpPacket { packet, payload_end_pad } ==> *payload_end_pad
                <= packet@.len(),
        ensures
            final(self).limit() == old(self).limit(),
            final(self).buffer() == match event {
                VoiceEvent::SpeakingStateUpdate { user_id } => old(self).buffer() + be_bytes(
                    user_id->0,
                ),
                VoiceEvent::RtpPacket { packet, payload_end_pad } => (if old(self).buffer().len()
                    > old(self).limit() {
                    Seq::empty()
                } else {
                    old(self).buffer()
                }) + packet@.take(sample_read_len(packet@.len(), *payload_end_pad as nat)),
                VoiceEvent::Other => old(self).buffer(),
            },
    {
        match event {
            VoiceEvent::SpeakingStateUpdate { user_id } => {
                match user_id {
                    Some(id) => self.record_speaker(*id),
                    None => {},
                }
            },
            VoiceEvent::RtpPacket { packet, payload_end_pad } => {
                let body = packet.len() - *payload_end_pad;
                let n = if body <= packet.len() - body {
                    2 * body
                } else {
                    packet.len()
                };
                let mut payload: Vec<u8> = Vec::new();
                let mut i: usize = 0;
                while i < n
                    invariant
                        n <= packet@.len(),
                        i <= n,
                        payload@ == packet@.take(i as int),
                    decreases n - i,
                {
                    payload.push(packet[i]);
                    assert(payload@ =~= packet@.take(i + 1));
                    i = i + 1;
                }
                self.insert(payload.as_slice());
            },
            VoiceEvent::Other => {},
        }
    }
}

} // verus!
