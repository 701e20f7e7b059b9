//! The per-frame uniform block and its fixed byte layout.
//!
//! Every field of the block is a 32-bit float on the GPU side. On the host
//! side the block holds the IEEE 754 binary32 bit pattern of each component as
//! a `u32`, so that the bytes handed to the GPU are a function of integers
//! alone. The layout follows the std140 rules: a scalar is aligned to 4
//! bytes, a two-component vector to 8, a four-component vector to 16, and the
//! block as a whole is padded to a multiple of 16.

use vstd::prelude::*;

verus! {

/// Size of the serialized block in bytes.
pub const UNIFORM_SIZE: usize = 96;

/// Byte offset of `resolution`.
pub const RESOLUTION_OFFSET: usize = 0;

/// Byte offset of `time`.
pub const TIME_OFFSET: usize = 8;

/// Byte offset of `time_delta`.
pub const TIME_DELTA_OFFSET: usize = 12;

/// Byte offset of `frame`.
pub const FRAME_OFFSET: usize = 16;

/// Byte offset of `channel_time`.
pub const CHANNEL_TIME_OFFSET: usize = 32;

/// Byte offset of `mouse`.
pub const MOUSE_OFFSET: usize = 48;

/// Byte offset of `date`.
pub const DATE_OFFSET: usize = 64;

/// Byte offset of `sample_rate`.
pub const SAMPLE_RATE_OFFSET: usize = 80;

/// The shapes a field of the block can have.
#[derive(Clone, Copy, Debug, PartialEq, Eq, Structural)]
pub enum FieldKind {
    /// One float.
    Float,
    /// Two floats.
    Vec2,
    /// Four floats.
    Vec4,
}

impl FieldKind {
    /// Number of bytes the field occupies.
    pub open spec fn spec_size(self) -> nat {
        match self {
            FieldKind::Float => 4,
            FieldKind::Vec2 => 8,
            FieldKind::Vec4 => 16,
        }
    }

    /// Alignment of the field: its offset is a multiple of this.
    pub open spec fn spec_align(self) -> nat {
        match self {
            FieldKind::Float => 4,
            FieldKind::Vec2 => 8,
            FieldKind::Vec4 => 16,
        }
    }

    /// Number of bytes the field occupies.
    pub fn size(self) -> (n: usize)
        ensures
            n == self.spec_size(),
    {
        match self {
            FieldKind::Float => 4,
            FieldKind::Vec2 => 8,
            FieldKind::Vec4 => 16,
        }
    }

    /// Alignment of the field: its offset is a multiple of this.
    pub fn align(self) -> (n: usize)
        ensures
            n == self.spec_align(),
    {
        match self {
            FieldKind::Float => 4,
            FieldKind::Vec2 => 8,
            FieldKind::Vec4 => 16,
        }
    }
}

/// The least multiple of `align` that is not below `offset`.
pub open spec fn align_up(offset: nat, align: nat) -> nat
    recommends
        align > 0,
{
    if offset % align == 0 {
        offset
    } else {
        (offset + align - offset % align) as nat
    }
}

/// The fields of the block in declaration order.
pub open spec fn block_fields() -> Seq<FieldKind> {
    seq![
        FieldKind::Vec2,
        FieldKind::Float,
        FieldKind::Float,
        FieldKind::Float,
        FieldKind::Vec4,
        FieldKind::Vec4,
        FieldKind::Vec4,
        FieldKind::Float,
    ]
}

/// Offset of the `index`-th of `fields` when each field is placed at the
/// first offset past its predecessor that its alignment allows.
pub open spec fn field_offset(fields: Seq<FieldKind>, index: nat) -> nat
    recommends
        index < fields.len(),
    decreases index,
{
    if index == 0 {
        0
    } else {
        let before = (index - 1) as nat;
        align_up(
            field_offset(fields, before) + fields[before as int].spec_size(),
            fields[index as int].spec_align(),
        )
    }
}

/// Size of a block made of `fields`: the end of the last field, rounded up
/// to a multiple of 16.
pub open spec fn block_size(fields: Seq<FieldKind>) -> nat {
    if fields.len() == 0 {
        0
    } else {
        let last = (fields.len() - 1) as nat;
        align_up(field_offset(fields, last) + fields[last as int].spec_size(), 16)
    }
}

/// The named offsets and the block size are what the alignment rules give
/// for the block's fields in their declared order.
pub proof fn lemma_offsets_follow_alignment_rules()
    ensures
        field_offset(block_fields(), 0) == RESOLUTION_OFFSET,
        field_offset(block_fields(), 1) == TIME_OFFSET,
        field_offset(block_fields(), 2) == TIME_DELTA_OFFSET,
        field_offset(block_fields(), 3) == FRAME_OFFSET,
        field_offset(block_fields(), 4) == CHANNEL_TIME_OFFSET,
        field_offset(block_fields(), 5) == MOUSE_OFFSET,
        field_offset(block_fields(), 6) == DATE_OFFSET,
        field_offset(block_fields(), 7) == SAMPLE_RATE_OFFSET,
        block_size(block_fields()) == UNIFORM_SIZE,
{
    let f = block_fields();
    assert(field_offset(f, 0) == 0);
    assert(field_offset(f, 1) == 8);
    assert(field_offset(f, 2) == 12);
    assert(field_offset(f, 3) == 16);
    assert(field_offset(f, 4) == 32);
    assert(field_offset(f, 5) == 48);
    assert(field_offset(f, 6) == 64);
    assert(field_offset(f, 7) == 80);
}

/// The little-endian bytes of a 32-bit word, least significant first.
#[verifier::opaque]
pub open spec fn le_bytes(word: u32) -> Seq<u8> {
    seq![
        (word as int % 256) as u8,
        (word as int / 256 % 256) as u8,
        (word as int / 65536 % 256) as u8,
        (word as int / 16777216 % 256) as u8,
    ]
}

/// The number that four little-endian bytes stand for.
pub open spec fn le_word(bytes: Seq<u8>) -> int
    recommends
        bytes.len() == 4,
{
    bytes[0] as int + 256 * (bytes[1] as int) + 65536 * (bytes[2] as int) + 16777216 * (
    bytes[3] as int)
}

/// `count` zero bytes.
pub open spec fn zero_bytes(count: nat) -> Seq<u8> {
    Seq::new(count, |i: int| 0u8)
}

/// Reading back the bytes of a word gives the word.
pub proof fn lemma_le_round_trip(word: u32)
    ensures
        le_bytes(word).len() == 4,
        le_word(le_bytes(word)) == word,
{
    reveal(le_bytes);
}

/// Two floats, each held as its binary32 bit pattern.
#[derive(Clone, Copy, Debug, PartialEq, Eq, Structural)]
pub struct Vec2 {
    pub x: u32,
    pub y: u32,
}

/// Four floats, each held as its binary32 bit pattern.
#[derive(Clone, Copy, Debug, PartialEq, Eq, Structural)]
pub struct Vec4 {
    pub x: u32,
    pub y: u32,
    pub z: u32,
    pub w: u32,
}

impl Vec2 {
    /// The vector's eight bytes.
    pub open spec fn bytes(self) -> Seq<u8> {
        le_bytes(self.x) + le_bytes(self.y)
    }

    /// The vector held in `bytes` from `offset` on.
    pub open spec fn parse(bytes: Seq<u8>, offset: int) -> Vec2 {
        Vec2 { x: word_at(bytes, offset), y: word_at(bytes, offset + 4) }
    }
}

impl Vec4 {
    /// The vector's sixteen bytes.
    pub open spec fn bytes(self) -> Seq<u8> {
        le_bytes(self.x) + le_bytes(self.y) + le_bytes(self.z) + le_bytes(self.w)
    }

    /// The vector held in `bytes` from `offset` on.
    pub open spec fn parse(bytes: Seq<u8>, offset: int) -> Vec4 {
        Vec4 {
            x: word_at(bytes, offset),
            y: word_at(bytes, offset + 4),
            z: word_at(bytes, offset + 8),
            w: word_at(bytes, offset + 12),
        }
    }
}

/// The word whose little-endian bytes stand in `bytes` from `offset` on.
pub open spec fn word_at(bytes: Seq<u8>, offset: int) -> u32
    recommends
        0 <= offset,
        offset + 4 <= bytes.len(),
{
    le_word(bytes.subrange(offset, offset + 4)) as u32
}

/// The inputs a fragment shader sees each frame. Every component is the bit
/// pattern of a binary32 float.
#[derive(Clone, Copy, Debug, PartialEq, Eq, Structural)]
pub struct UniformState {
    /// Viewport size in physical pixels.
    pub resolution: Vec2,
    /// Seconds since the last reset.
    pub time: u32,
    /// Seconds since the previous frame.
    pub time_delta: u32,
    /// Number of frames shown since the last reset.
    pub frame: u32,
    /// Reserved per-channel timers.
    pub channel_time: Vec4,
    /// Reserved mouse state.
    pub mouse: Vec4,
    /// Reserved calendar fields.
    pub date: Vec4,
    /// Reserved audio sample rate.
    pub sample_rate: u32,
}

impl UniformState {
    /// The block with every component `0.0`.
    pub open spec fn zeroed() -> UniformState {
        UniformState {
            resolution: Vec2 { x: 0, y: 0 },
            time: 0,
            time_delta: 0,
            frame: 0,
            channel_time: Vec4 { x: 0, y: 0, z: 0, w: 0 },
            mouse: Vec4 { x: 0, y: 0, z: 0, w: 0 },
            date: Vec4 { x: 0, y: 0, z: 0, w: 0 },
            sample_rate: 0,
        }
    }

    /// The bytes of the block as the GPU reads them: the fields in order,
    /// each at its offset, with zero bytes in the gaps.
    pub open spec fn layout(self) -> Seq<u8> {
        self.resolution.bytes() + le_bytes(self.time) + le_bytes(self.time_delta) + le_bytes(
            self.frame,
        ) + zero_bytes(12) + self.channel_time.bytes() + self.mouse.bytes() + self.date.bytes()
            + le_bytes(self.sample_rate) + zero_bytes(12)
    }

    /// The block whose fields stand in `bytes` at their offsets.
    pub open spec fn parse(bytes: Seq<u8>) -> UniformState
        recommends
            bytes.len() == UNIFORM_SIZE,
    {
        UniformState {
            resolution: Vec2::parse(bytes, RESOLUTION_OFFSET as int),
            time: word_at(bytes, TIME_OFFSET as int),
            time_delta: word_at(bytes, TIME_DELTA_OFFSET as int),
            frame: word_at(bytes, FRAME_OFFSET as int),
            channel_time: Vec4::parse(bytes, CHANNEL_TIME_OFFSET as int),
            mouse: Vec4::parse(bytes, MOUSE_OFFSET as int),
            date: Vec4::parse(bytes, DATE_OFFSET as int),
            sample_rate: word_at(bytes, SAMPLE_RATE_OFFSET as int),
        }
    }

    /// Serializes the block to the bytes the GPU reads.
    pub fn to_bytes(&self) -> (bytes: Vec<u8>)
        ensures
            bytes@ == self.layout(),
            bytes@.len() == UNIFORM_SIZE,
    {
        let mut out: Vec<u8> = Vec::with_capacity(UNIFORM_SIZE);
        push_vec2(&mut out, self.resolution);
        assert(out@ =~= self.resolution.bytes());
        push_le(&mut out, self.time);
        push_le(&mut out, self.time_delta);
        push_le(&mut out, self.frame);
        push_zeros(&mut out, 12);
        push_vec4(&mut out, self.channel_time);
        push_vec4(&mut out, self.mouse);
        push_vec4(&mut out, self.date);
        push_le(&mut out, self.sample_rate);
        push_zeros(&mut out, 12);
        proof {
            lemma_layout_size(*self);
        }
        out
    }

    /// Reads a block back from its bytes. The twenty-four padding bytes are
    /// not looked at.
    pub fn from_bytes(bytes: &[u8]) -> (block: Option<UniformState>)
        ensures
            block.is_some() <==> bytes@.len() == UNIFORM_SIZE,
            block.is_some() ==> block.unwrap() == UniformState::parse(bytes@),
    {
        if bytes.len() != UNIFORM_SIZE {
            return None;
        }
        Some(
            UniformState {
                resolution: read_vec2(bytes, RESOLUTION_OFFSET),
                time: read_le(bytes, TIME_OFFSET),
                time_delta: read_le(bytes, TIME_DELTA_OFFSET),
                frame: read_le(bytes, FRAME_OFFSET),
                channel_time: read_vec4(bytes, CHANNEL_TIME_OFFSET),
                mouse: read_vec4(bytes, MOUSE_OFFSET),
                date: read_vec4(bytes, DATE_OFFSET),
                sample_rate: read_le(bytes, SAMPLE_RATE_OFFSET),
            },
        )
    }
}

impl Default for UniformState {
    /// The block with every component `0.0`.
    fn default() -> (block: UniformState)
        ensures
            block == UniformState::zeroed(),
    {
        UniformState {
            resolution: Vec2 { x: 0, y: 0 },
            time: 0,
            time_delta: 0,
            frame: 0,
            channel_time: Vec4 { x: 0, y: 0, z: 0, w: 0 },
            mouse: Vec4 { x: 0, y: 0, z: 0, w: 0 },
            date: Vec4 { x: 0, y: 0, z: 0, w: 0 },
            sample_rate: 0,
        }
    }
}

/// The serialized block has the same size whatever its fields hold.
pub proof fn lemma_layout_size(block: UniformState)
    ensures
        block.layout().len() == UNIFORM_SIZE,
{
    lemma_layout_offsets(block);
}

/// Each field stands at its named offset whatever the block holds, and the
/// gaps between the fields hold zero bytes.
pub proof fn lemma_layout_offsets(block: UniformState)
    ensures
        block.layout().subrange(RESOLUTION_OFFSET as int, RESOLUTION_OFFSET + 8)
            == block.resolution.bytes(),
        block.layout().subrange(TIME_OFFSET as int, TIME_OFFSET + 4) == le_bytes(block.time),
        block.layout().subrange(TIME_DELTA_OFFSET as int, TIME_DELTA_OFFSET + 4) == le_bytes(
            block.time_delta,
        ),
        block.layout().subrange(FRAME_OFFSET as int, FRAME_OFFSET + 4) == le_bytes(block.frame),
        block.layout().subrange(FRAME_OFFSET + 4, CHANNEL_TIME_OFFSET as int) == zero_bytes(12),
        block.layout().subrange(CHANNEL_TIME_OFFSET as int, CHANNEL_TIME_OFFSET + 16)
            == block.channel_time.bytes(),
        block.layout().subrange(MOUSE_OFFSET as int, MOUSE_OFFSET + 16) == block.mouse.bytes(),
        block.layout().subrange(DATE_OFFSET as int, DATE_OFFSET + 16) == block.date.bytes(),
        block.layout().subrange(SAMPLE_RATE_OFFSET as int, SAMPLE_RATE_OFFSET + 4) == le_bytes(
            block.sample_rate,
        ),
        block.layout().subrange(SAMPLE_RATE_OFFSET + 4, UNIFORM_SIZE as int) == zero_bytes(12),
        block.layout().len() == UNIFORM_SIZE,
{
    let a = block.resolution.bytes();
    let b = le_bytes(block.time);
    let c = le_bytes(block.time_delta);
    let d = le_bytes(block.frame);
    let e = zero_bytes(12);
    let f = block.channel_time.bytes();
    let g = block.mouse.bytes();
    let h = block.date.bytes();
    let i = le_bytes(block.sample_rate);
    lemma_vec2_len(block.resolution);
    lemma_vec4_len(block.channel_time);
    lemma_vec4_len(block.mouse);
    lemma_vec4_len(block.date);
    lemma_le_round_trip(block.time);
    lemma_le_round_trip(block.time_delta);
    lemma_le_round_trip(block.frame);
    lemma_le_round_trip(block.sample_rate);
    assert(e.len() == 12);
    lemma_parts_in_place(a, b, c, d, e, f, g, h, i, e);
    assert(block.layout() == a + b + c + d + e + f + g + h + i + e);
}

/// A two-component vector has eight bytes.
proof fn lemma_vec2_len(v: Vec2)
    ensures
        v.bytes().len() == 8,
{
    lemma_le_round_trip(v.x);
    lemma_le_round_trip(v.y);
}

/// A four-component vector has sixteen bytes.
proof fn lemma_vec4_len(v: Vec4)
    ensures
        v.bytes().len() == 16,
{
    lemma_le_round_trip(v.x);
    lemma_le_round_trip(v.y);
    lemma_le_round_trip(v.z);
    lemma_le_round_trip(v.w);
}

/// Ten parts of the lengths of the block's fields and gaps, joined in
/// order, stand at the block's offsets.
proof fn lemma_parts_in_place(
    a: Seq<u8>,
    b: Seq<u8>,
    c: Seq<u8>,
    d: Seq<u8>,
    e: Seq<u8>,
    f: Seq<u8>,
    g: Seq<u8>,
    h: Seq<u8>,
    i: Seq<u8>,
    j: Seq<u8>,
)
    requires
        a.len() == 8,
        b.len() == 4,
        c.len() == 4,
        d.len() == 4,
        e.len() == 12,
        f.len() == 16,
        g.len() == 16,
        h.len() == 16,
        i.len() == 4,
        j.len() == 12,
    ensures
        ({
            let all = a + b + c + d + e + f + g + h + i + j;
            &&& all.len() == 96
            &&& all.subrange(0, 8) == a
            &&& all.subrange(8, 12) == b
            &&& all.subrange(12, 16) == c
            &&& all.subrange(16, 20) == d
            &&& all.subrange(20, 32) == e
            &&& all.subrange(32, 48) == f
            &&& all.subrange(48, 64) == g
            &&& all.subrange(64, 80) == h
            &&& all.subrange(80, 84) == i
            &&& all.subrange(84, 96) == j
        }),
{
    let all = a + b + c + d + e + f + g + h + i + j;
    assert(all.subrange(0, 8) =~= a);
    assert(all.subrange(8, 12) =~= b);
    assert(all.subrange(12, 16) =~= c);
    assert(all.subrange(16, 20) =~= d);
    assert(all.subrange(20, 32) =~= e);
    assert(all.subrange(32, 48) =~= f);
    assert(all.subrange(48, 64) =~= g);
    assert(all.subrange(64, 80) =~= h);
    assert(all.subrange(80, 84) =~= i);
    assert(all.subrange(84, 96) =~= j);
}

/// Writing a block and reading the bytes back gives the block: no two
/// blocks share their bytes.
pub proof fn lemma_layout_round_trip(block: UniformState)
    ensures
        UniformState::parse(block.layout()) == block,
{
    let bytes = block.layout();
    lemma_layout_offsets(block);
    lemma_vec2_at(bytes, RESOLUTION_OFFSET as int, block.resolution);
    lemma_word_at(bytes, TIME_OFFSET as int, block.time);
    lemma_word_at(bytes, TIME_DELTA_OFFSET as int, block.time_delta);
    lemma_word_at(bytes, FRAME_OFFSET as int, block.frame);
    lemma_vec4_at(bytes, CHANNEL_TIME_OFFSET as int, block.channel_time);
    lemma_vec4_at(bytes, MOUSE_OFFSET as int, block.mouse);
    lemma_vec4_at(bytes, DATE_OFFSET as int, block.date);
    lemma_word_at(bytes, SAMPLE_RATE_OFFSET as int, block.sample_rate);
}

/// Where the four bytes from `offset` on are those of `word`, the word read
/// there is `word`.
proof fn lemma_word_at(bytes: Seq<u8>, offset: int, word: u32)
    requires
        0 <= offset,
        offset + 4 <= bytes.len(),
        bytes.subrange(offset, offset + 4) =~= le_bytes(word),
    ensures
        word_at(bytes, offset) == word,
{
    lemma_le_round_trip(word);
}

/// Where the eight bytes from `offset` on are those of `v`, the vector read
/// there is `v`.
proof fn lemma_vec2_at(bytes: Seq<u8>, offset: int, v: Vec2)
    requires
        0 <= offset,
        offset + 8 <= bytes.len(),
        bytes.subrange(offset, offset + 8) =~= v.bytes(),
    ensures
        Vec2::parse(bytes, offset) == v,
{
    let part = bytes.subrange(offset, offset + 8);
    lemma_le_round_trip(v.x);
    lemma_le_round_trip(v.y);
    assert(bytes.subrange(offset, offset + 4) =~= part.subrange(0, 4));
    assert(bytes.subrange(offset + 4, offset + 8) =~= part.subrange(4, 8));
    lemma_word_at(bytes, offset, v.x);
    lemma_word_at(bytes, offset + 4, v.y);
}

/// Where the sixteen bytes from `offset` on are those of `v`, the vector
/// read there is `v`.
proof fn lemma_vec4_at(bytes: Seq<u8>, offset: int, v: Vec4)
    requires
        0 <= offset,
        offset + 16 <= bytes.len(),
        bytes.subrange(offset, offset + 16) =~= v.bytes(),
    ensures
        Vec4::parse(bytes, offset) == v,
{
    let part = bytes.subrange(offset, offset + 16);
    lemma_le_round_trip(v.x);
    lemma_le_round_trip(v.y);
    lemma_le_round_trip(v.z);
    lemma_le_round_trip(v.w);
    assert(bytes.subrange(offset, offset + 4) =~= part.subrange(0, 4));
    assert(bytes.subrange(offset + 4, offset + 8) =~= part.subrange(4, 8));
    assert(bytes.subrange(offset + 8, offset + 12) =~= part.subrange(8, 12));
    assert(bytes.subrange(offset + 12, offset + 16) =~= part.subrange(12, 16));
    lemma_word_at(bytes, offset, v.x);
    lemma_word_at(bytes, offset + 4, v.y);
    lemma_word_at(bytes, offset + 8, v.z);
    lemma_word_at(bytes, offset + 12, v.w);
}

/// Appends the little-endian bytes of `word` to `out`.
fn push_le(out: &mut Vec<u8>, word: u32)
    ensures
        final(out)@ == old(out)@ + le_bytes(word),
{
    proof {
        reveal(le_bytes);
    }
    let b0: u8 = (word % 256) as u8;
    let b1: u8 = (word / 256 % 256) as u8;
    let b2: u8 = (word / 65536 % 256) as u8;
    let b3: u8 = (word / 16777216 % 256) as u8;
    out.push(b0);
    out.push(b1);
    out.push(b2);
    out.push(b3);
}

/// Appends the bytes of a two-component vector to `out`.
fn push_vec2(out: &mut Vec<u8>, v: Vec2)
    ensures
        final(out)@ == old(out)@ + v.bytes(),
{
    push_le(out, v.x);
    push_le(out, v.y);
}

/// Appends the bytes of a four-component vector to `out`.
fn push_vec4(out: &mut Vec<u8>, v: Vec4)
    ensures
        final(out)@ == old(out)@ + v.bytes(),
{
    push_le(out, v.x);
    push_le(out, v.y);
    push_le(out, v.z);
    push_le(out, v.w);
}

/// Appends `count` zero bytes to `out`.
fn push_zeros(out: &mut Vec<u8>, count: usize)
    ensures
        final(out)@ == old(out)@ + zero_bytes(count as nat),
{
    let mut i: usize = 0;
    while i < count
        invariant
            i <= count,
            out@ == old(out)@ + zero_bytes(i as nat),
        decreases count - i,
    {
        out.push(0u8);
        i += 1;
    }
}

/// Reads the word whose little-endian bytes start at `offset`.
fn read_le(bytes: &[u8], offset: usize) -> (word: u32)
    requires
        offset + 4 <= bytes@.len(),
    ensures
        word == word_at(bytes@, offset as int),
{
    let b0: u32 = bytes[offset] as u32;
    let b1: u32 = bytes[offset + 1] as u32;
    let b2: u32 = bytes[offset + 2] as u32;
    let b3: u32 = bytes[offset + 3] as u32;
    b0 + 256 * b1 + 65536 * b2 + 16777216 * b3
}

/// Reads the two-component vector that starts at `offset`.
fn read_vec2(bytes: &[u8], offset: usize) -> (v: Vec2)
    requires
        offset + 8 <= bytes@.len() <= usize::MAX,
    ensures
        v == Vec2::parse(bytes@, offset as int),
{
    Vec2 { x: read_le(bytes, offset), y: read_le(bytes, offset + 4) }
}

/// Reads the four-component vector that starts at `offset`.
fn read_vec4(bytes: &[u8], offset: usize) -> (v: Vec4)
    requires
        offset + 16 <= bytes@.len() <= usize::MAX,
    ensures
        v == Vec4::parse(bytes@, offset as int),
{
    Vec4 {
        x: read_le(bytes, offset),
        y: read_le(bytes, offset + 4),
        z: read_le(bytes, offset + 8),
        w: read_le(bytes, offset + 12),
    }
}

} // verus!
