//! Laying samples out in an audio device buffer.
//!
//! A device buffer is a run of frames of `block_align` bytes each. A frame is
//! split into `channels` slots of `block_align / channels` bytes; the leading
//! slots of each frame carry that frame's samples, little-endian, and every
//! other byte stays zero. Samples are 32-bit values given by their bit
//! pattern.
use vstd::prelude::*;
use vstd::arithmetic::div_mod::lemma_fundamental_div_mod_converse;

verus! {

/// The four bytes of `bits` in little-endian order.
pub open spec fn le_bytes(bits: u32) -> Seq<u8> {
    seq![bits as u8, (bits >> 8u32) as u8, (bits >> 16u32) as u8, (bits >> 24u32) as u8]
}

/// The width in bytes of one channel slot of a frame.
pub open spec fn slot_width(block_align: nat, channels: nat) -> nat {
    block_align / channels
}

/// Byte `r` of frame `f`: inside slot `j < per_frame` it is byte `r % slot`
/// of sample `f * per_frame + j` (a slot takes at most a sample's four
/// bytes); everywhere else it is zero.
pub open spec fn frame_byte(samples: Seq<u32>, per_frame: nat, slot: nat, f: int, r: int) -> u8 {
    let j: int = r / (slot as int);
    let b: int = r % (slot as int);
    if j < per_frame && b < 4 {
        le_bytes(samples[f * per_frame + j])[b]
    } else {
        0u8
    }
}

/// The whole buffer for `frame_count` frames.
pub open spec fn rendered(
    samples: Seq<u32>,
    frame_count: nat,
    per_frame: nat,
    block_align: nat,
    channels: nat,
) -> Seq<u8> {
    Seq::new(
        frame_count * block_align,
        |i: int|
            frame_byte(
                samples,
                per_frame,
                slot_width(block_align, channels),
                i / (block_align as int),
                i % (block_align as int),
            ),
    )
}

/// What a buffer layout needs: when there is a frame at all, a frame holds
/// at least one byte per channel and carries no more samples than it has
/// channels; the buffer's size fits in memory, and there is exactly one
/// group of samples per frame.
pub open spec fn layout_ok(
    sample_count: nat,
    frame_count: nat,
    per_frame: nat,
    block_align: nat,
    channels: nat,
) -> bool {
    &&& frame_count > 0 ==> 1 <= channels <= block_align
    &&& frame_count > 0 ==> per_frame <= channels
    &&& frame_count * block_align <= usize::MAX
    &&& sample_count == frame_count * per_frame
}

/// Splits a sample, given by its bit pattern, into its little-endian bytes.
pub fn sample_le_bytes(bits: u32) -> (bytes: [u8; 4])
    ensures
        bytes@ == le_bytes(bits),
        bytes[0] + 256 * bytes[1] + 65536 * bytes[2] + 16777216 * bytes[3] == bits,
{
    let bytes = [bits as u8, (bits >> 8u32) as u8, (bits >> 16u32) as u8, (bits >> 24u32) as u8];
    assert(bytes@ =~= le_bytes(bits));
    proof {
        lemma_le_bytes_encode(bits);
    }
    bytes
}

/// The little-endian bytes encode the sample: there are four of them, and
/// read back with the lowest byte first they give the sample's bit pattern
/// again; so byte `k` is bits `8k` to `8k + 7` of the sample.
pub proof fn lemma_le_bytes_encode(bits: u32)
    ensures
        le_bytes(bits).len() == 4,
        le_bytes(bits)[0] + 256 * le_bytes(bits)[1] + 65536 * le_bytes(bits)[2] + 16777216
            * le_bytes(bits)[3] == bits,
        le_bytes(bits)[0] == bits % 256,
        le_bytes(bits)[1] == (bits / 256) % 256,
        le_bytes(bits)[2] == (bits / 65536) % 256,
        le_bytes(bits)[3] == bits / 16777216,
{
    let b0: u8 = le_bytes(bits)[0];
    let b1: u8 = le_bytes(bits)[1];
    let b2: u8 = le_bytes(bits)[2];
    let b3: u8 = le_bytes(bits)[3];
    assert(b0 == bits as u8 && b1 == (bits >> 8u32) as u8 && b2 == (bits >> 16u32) as u8 && b3
        == (bits >> 24u32) as u8);
    assert(b0 + 256 * b1 + 65536 * b2 + 16777216 * b3 == bits) by (bit_vector)
        requires
            b0 == bits as u8,
            b1 == (bits >> 8u32) as u8,
            b2 == (bits >> 16u32) as u8,
            b3 == (bits >> 24u32) as u8,
    ;
    assert(b0 == bits % 256 && b1 == (bits / 256) % 256 && b2 == (bits / 65536) % 256 && b3
        == bits / 16777216) by (bit_vector)
        requires
            b0 == bits as u8,
            b1 == (bits >> 8u32) as u8,
            b2 == (bits >> 16u32) as u8,
            b3 == (bits >> 24u32) as u8,
    ;
}

proof fn lemma_index_in_group(f: int, n: int, p: int, j: int)
    requires
        0 <= f < n,
        0 <= j < p,
    ensures
        0 <= f * p + j < n * p,
{
    assert(0 <= f * p) by (nonlinear_arith)
        requires
            0 <= f,
            0 <= p,
    ;
    assert(f * p + p <= n * p) by (nonlinear_arith)
        requires
            f + 1 <= n,
            0 <= p,
    ;
}

proof fn lemma_slot_index(r: int, slot: int, block_align: int, channels: int)
    requires
        0 <= r < block_align,
        1 <= channels,
        slot == block_align / channels,
        slot >= 1,
    ensures
        0 <= r / slot,
        0 <= r % slot < slot,
        r / slot <= r,
{
    assert(0 <= r / slot <= r) by (nonlinear_arith)
        requires
            0 <= r,
            slot >= 1,
    ;
}

/// Fills a device buffer of `frame_count` frames: the samples of frame `f`
/// are `samples[f * per_frame ..][.. per_frame]`, and sample `j` of a frame
/// goes, little-endian, to the start of channel slot `j`. With one sample per
/// frame this is a mono stream on the first channel; with two, the first and
/// second channels carry separate waves.
/// With no frames the buffer is empty, whatever the channel settings.
pub fn render_frames(
    samples: &Vec<u32>,
    frame_count: usize,
    per_frame: usize,
    block_align: usize,
    channels: usize,
) -> (buffer: Vec<u8>)
    requires
        layout_ok(
            samples@.len(),
            frame_count as nat,
            per_frame as nat,
            block_align as nat,
            channels as nat,
        ),
    ensures
        buffer@ == rendered(
            samples@,
            frame_count as nat,
            per_frame as nat,
            block_align as nat,
            channels as nat,
        ),
        buffer@.len() == frame_count * block_align,
{
    if frame_count == 0 {
        let empty: Vec<u8> = Vec::new();
        assert(empty@ =~= rendered(
            samples@,
            frame_count as nat,
            per_frame as nat,
            block_align as nat,
            channels as nat,
        ));
        return empty;
    }
    let slot: usize = block_align / channels;
    assert(slot >= 1) by (nonlinear_arith)
        requires
            1 <= channels <= block_align,
            slot == block_align / channels,
    ;
    let ghost target = rendered(
        samples@,
        frame_count as nat,
        per_frame as nat,
        block_align as nat,
        channels as nat,
    );
    let sample_count: usize = samples.len();
    let mut buffer: Vec<u8> = Vec::new();
    let mut f: usize = 0;
    while f < frame_count
        invariant
            layout_ok(
                samples@.len(),
                frame_count as nat,
                per_frame as nat,
                block_align as nat,
                channels as nat,
            ),
            frame_count > 0,
            slot == block_align / channels,
            slot >= 1,
            target == rendered(
                samples@,
                frame_count as nat,
                per_frame as nat,
                block_align as nat,
                channels as nat,
            ),
            f <= frame_count,
            sample_count == samples@.len(),
            buffer@.len() == f * block_align,
            forall|i: int| 0 <= i < buffer@.len() ==> #[trigger] buffer@[i] == target[i],
        decreases frame_count - f,
    {
        assert(f * block_align + block_align <= frame_count * block_align) by (nonlinear_arith)
            requires
                f + 1 <= frame_count,
        ;
        let mut r: usize = 0;
        while r < block_align
            invariant
                layout_ok(
                    samples@.len(),
                    frame_count as nat,
                    per_frame as nat,
                    block_align as nat,
                    channels as nat,
                ),
                frame_count > 0,
                slot == block_align / channels,
                slot >= 1,
                target == rendered(
                    samples@,
                    frame_count as nat,
                    per_frame as nat,
                    block_align as nat,
                    channels as nat,
                ),
                f < frame_count,
                sample_count == samples@.len(),
                r <= block_align,
                f * block_align + block_align <= frame_count * block_align,
                buffer@.len() == f * block_align + r,
                forall|i: int| 0 <= i < buffer@.len() ==> #[trigger] buffer@[i] == target[i],
            decreases block_align - r,
        {
            let j: usize = r / slot;
            let b: usize = r % slot;
            proof {
                lemma_slot_index(r as int, slot as int, block_align as int, channels as int);
            }
            let byte: u8 = if j < per_frame && b < 4 {
                proof {
                    lemma_index_in_group(f as int, frame_count as int, per_frame as int, j as int);
                }
                let bytes = sample_le_bytes(samples[f * per_frame + j]);
                bytes[b]
            } else {
                0u8
            };
            proof {
                let k: int = f * block_align + r;
                lemma_fundamental_div_mod_converse(k, block_align as int, f as int, r as int);
                assert(byte == target[k]);
            }
            buffer.push(byte);
            r = r + 1;
        }
        assert((f + 1) * block_align == f * block_align + block_align) by (nonlinear_arith);
        f = f + 1;
    }
    assert(buffer@ =~= target);
    buffer
}

/// Sample `j` of frame `f` stands, little-endian, at the start of channel
/// slot `j` of that frame in the rendered buffer.
pub proof fn lemma_sample_in_its_slot(
    samples: Seq<u32>,
    frame_count: nat,
    per_frame: nat,
    block_align: nat,
    channels: nat,
    f: nat,
    j: nat,
    b: nat,
)
    requires
        layout_ok(samples.len(), frame_count, per_frame, block_align, channels),
        f < frame_count,
        j < per_frame,
        b < 4,
        b < slot_width(block_align, channels),
    ensures
        ({
            let slot: nat = slot_width(block_align, channels);
            let buf = rendered(samples, frame_count, per_frame, block_align, channels);
            &&& f * block_align + j * slot + b < buf.len()
            &&& buf[(f * block_align + j * slot + b) as int] == le_bytes(samples[(f * per_frame + j) as int])[b as int]
        }),
{
    let slot: nat = slot_width(block_align, channels);
    let r: nat = j * slot + b;
    assert(j * slot + slot <= channels * slot) by (nonlinear_arith)
        requires
            j + 1 <= per_frame <= channels,
    ;
    assert(channels * slot <= block_align) by (nonlinear_arith)
        requires
            slot == block_align / channels,
            channels >= 1,
    ;
    assert(r < block_align);
    assert(f * block_align + block_align <= frame_count * block_align) by (nonlinear_arith)
        requires
            f + 1 <= frame_count,
    ;
    lemma_fundamental_div_mod_converse((f * block_align + r) as int, block_align as int, f as int, r as int);
    lemma_fundamental_div_mod_converse(r as int, slot as int, j as int, b as int);
}

/// Every byte that no sample's slot covers is zero: bytes of a slot past a
/// sample's four bytes, slots past `per_frame`, and the tail of a frame that
/// the slots do not fill.
pub proof fn lemma_unused_bytes_are_zero(
    samples: Seq<u32>,
    frame_count: nat,
    per_frame: nat,
    block_align: nat,
    channels: nat,
    i: int,
)
    requires
        layout_ok(samples.len(), frame_count, per_frame, block_align, channels),
        0 <= i < frame_count * block_align,
        ({
            let slot: int = slot_width(block_align, channels) as int;
            let r: int = i % (block_align as int);
            r / slot >= per_frame || r % slot >= 4
        }),
    ensures
        rendered(samples, frame_count, per_frame, block_align, channels)[i] == 0,
{
}

/// When a channel slot has room for a whole sample, the four bytes at the
/// start of slot `j` of frame `f`, read back lowest byte first, give that
/// frame's sample `j`: each channel carries its own wave unchanged.
pub proof fn lemma_slot_reads_back_sample(
    samples: Seq<u32>,
    frame_count: nat,
    per_frame: nat,
    block_align: nat,
    channels: nat,
    f: nat,
    j: nat,
)
    requires
        layout_ok(samples.len(), frame_count, per_frame, block_align, channels),
        f < frame_count,
        j < per_frame,
        slot_width(block_align, channels) >= 4,
    ensures
        ({
            let o: int = (f * block_align + j * slot_width(block_align, channels)) as int;
            let buf = rendered(samples, frame_count, per_frame, block_align, channels);
            &&& o + 4 <= buf.len()
            &&& buf[o] + 256 * buf[o + 1] + 65536 * buf[o + 2] + 16777216 * buf[o + 3]
                == samples[(f * per_frame + j) as int]
        }),
{
    lemma_sample_in_its_slot(samples, frame_count, per_frame, block_align, channels, f, j, 0);
    lemma_sample_in_its_slot(samples, frame_count, per_frame, block_align, channels, f, j, 1);
    lemma_sample_in_its_slot(samples, frame_count, per_frame, block_align, channels, f, j, 2);
    lemma_sample_in_its_slot(samples, frame_count, per_frame, block_align, channels, f, j, 3);
    lemma_le_bytes_encode(samples[(f * per_frame + j) as int]);
}

/// The buffer holds exactly `frame_count` frames of `block_align` bytes:
/// no byte more and no byte less than the device is told to take.
pub proof fn lemma_buffer_size(
    samples: Seq<u32>,
    frame_count: nat,
    per_frame: nat,
    block_align: nat,
    channels: nat,
)
    ensures
        rendered(samples, frame_count, per_frame, block_align, channels).len() == frame_count
            * block_align,
{
}

} // verus!
