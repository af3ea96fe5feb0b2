//! The instance record: one rectangle's parameters as the GPU reads them.

use vstd::prelude::*;

use crate::bytes::{bytes_of_words, native_bytes};

verus! {

/// Number of 32-bit words in one record, padding included.
pub const RECORD_WORDS: usize = 40;

/// One rectangle as the GPU reads it. Each scalar is the bit pattern of a
/// 32-bit float.
#[derive(Clone, Copy, Debug)]
pub struct Rectangle {
    /// Clip-space transform, column-major.
    pub mvp: [[u32; 4]; 4],
    pub fill_color: [u32; 4],
    pub border_color: [u32; 4],
    pub corner_radii: [u32; 4],
    pub shadow_color: [u32; 4],
    pub half_size: [u32; 2],
    pub border_size: u32,
    pub shadow_spread: u32,
    pub shadow_offset: [u32; 2],
    pub shadow_blur: u32,
}

impl Rectangle {
    /// Size of one record in bytes: a multiple of 16.
    pub const SIZE: usize = 160;

    /// The record whose words are all zero.
    pub open spec fn spec_zeroed() -> Rectangle {
        Rectangle {
            mvp: [
                [0u32, 0u32, 0u32, 0u32],
                [0u32, 0u32, 0u32, 0u32],
                [0u32, 0u32, 0u32, 0u32],
                [0u32, 0u32, 0u32, 0u32],
            ],
            fill_color: [0u32, 0u32, 0u32, 0u32],
            border_color: [0u32, 0u32, 0u32, 0u32],
            corner_radii: [0u32, 0u32, 0u32, 0u32],
            shadow_color: [0u32, 0u32, 0u32, 0u32],
            half_size: [0u32, 0u32],
            border_size: 0,
            shadow_spread: 0,
            shadow_offset: [0u32, 0u32],
            shadow_blur: 0,
        }
    }

    /// The record whose words are all zero.
    #[verifier::when_used_as_spec(spec_zeroed)]
    pub fn zeroed() -> (record: Rectangle)
        ensures
            record == Rectangle::spec_zeroed(),
    {
        Rectangle {
            mvp: [[0, 0, 0, 0], [0, 0, 0, 0], [0, 0, 0, 0], [0, 0, 0, 0]],
            fill_color: [0, 0, 0, 0],
            border_color: [0, 0, 0, 0],
            corner_radii: [0, 0, 0, 0],
            shadow_color: [0, 0, 0, 0],
            half_size: [0, 0],
            border_size: 0,
            shadow_spread: 0,
            shadow_offset: [0, 0],
            shadow_blur: 0,
        }
    }

    /// A builder that was told nothing yet.
    pub fn builder() -> (builder: RectangleBuilder)
        ensures
            builder.record() == Rectangle::zeroed(),
    {
        RectangleBuilder { record: Rectangle::zeroed() }
    }

    /// The record as the GPU reads it, word by word: the fields in their
    /// declared order, then one word of padding.
    pub open spec fn words(self) -> Seq<u32> {
        self.mvp[0]@ + self.mvp[1]@ + self.mvp[2]@ + self.mvp[3]@ + self.fill_color@
            + self.border_color@ + self.corner_radii@ + self.shadow_color@ + self.half_size@
            + seq![self.border_size, self.shadow_spread] + self.shadow_offset@ + seq![
            self.shadow_blur,
            0u32,
        ]
    }

    /// The record as words.
    pub fn to_words(&self) -> (words: [u32; RECORD_WORDS])
        ensures
            words@ == self.words(),
    {
        let words: [u32; RECORD_WORDS] = [
            self.mvp[0][0],
            self.mvp[0][1],
            self.mvp[0][2],
            self.mvp[0][3],
            self.mvp[1][0],
            self.mvp[1][1],
            self.mvp[1][2],
            self.mvp[1][3],
            self.mvp[2][0],
            self.mvp[2][1],
            self.mvp[2][2],
            self.mvp[2][3],
            self.mvp[3][0],
            self.mvp[3][1],
            self.mvp[3][2],
            self.mvp[3][3],
            self.fill_color[0],
            self.fill_color[1],
            self.fill_color[2],
            self.fill_color[3],
            self.border_color[0],
            self.border_color[1],
            self.border_color[2],
            self.border_color[3],
            self.corner_radii[0],
            self.corner_radii[1],
            self.corner_radii[2],
            self.corner_radii[3],
            self.shadow_color[0],
            self.shadow_color[1],
            self.shadow_color[2],
            self.shadow_color[3],
            self.half_size[0],
            self.half_size[1],
            self.border_size,
            self.shadow_spread,
            self.shadow_offset[0],
            self.shadow_offset[1],
            self.shadow_blur,
            0,
        ];
        assert(words@ =~= self.words());
        words
    }
}

/// Collects the fields of a record; what is not told stays zero.
#[derive(Clone, Copy, Debug)]
pub struct RectangleBuilder {
    record: Rectangle,
}

impl RectangleBuilder {
    /// The record as collected so far.
    pub closed spec fn record(self) -> Rectangle {
        self.record
    }

    pub fn mvp(self, value: [[u32; 4]; 4]) -> (builder: Self)
        ensures
            builder.record() == (Rectangle { mvp: value, ..self.record() }),
    {
        RectangleBuilder { record: Rectangle { mvp: value, ..self.record } }
    }

    pub fn half_size(self, value: [u32; 2]) -> (builder: Self)
        ensures
            builder.record() == (Rectangle { half_size: value, ..self.record() }),
    {
        RectangleBuilder { record: Rectangle { half_size: value, ..self.record } }
    }

    pub fn fill_color(self, value: [u32; 4]) -> (builder: Self)
        ensures
            builder.record() == (Rectangle { fill_color: value, ..self.record() }),
    {
        RectangleBuilder { record: Rectangle { fill_color: value, ..self.record } }
    }

    pub fn border_color(self, value: [u32; 4]) -> (builder: Self)
        ensures
            builder.record() == (Rectangle { border_color: value, ..self.record() }),
    {
        RectangleBuilder { record: Rectangle { border_color: value, ..self.record } }
    }

    pub fn corner_radii(self, value: [u32; 4]) -> (builder: Self)
        ensures
            builder.record() == (Rectangle { corner_radii: value, ..self.record() }),
    {
        RectangleBuilder { record: Rectangle { corner_radii: value, ..self.record } }
    }

    pub fn border_size(self, value: u32) -> (builder: Self)
        ensures
            builder.record() == (Rectangle { border_size: value, ..self.record() }),
    {
        RectangleBuilder { record: Rectangle { border_size: value, ..self.record } }
    }

    pub fn shadow_color(self, value: [u32; 4]) -> (builder: Self)
        ensures
            builder.record() == (Rectangle { shadow_color: value, ..self.record() }),
    {
        RectangleBuilder { record: Rectangle { shadow_color: value, ..self.record } }
    }

    pub fn shadow_offset(self, value: [u32; 2]) -> (builder: Self)
        ensures
            builder.record() == (Rectangle { shadow_offset: value, ..self.record() }),
    {
        RectangleBuilder { record: Rectangle { shadow_offset: value, ..self.record } }
    }

    pub fn shadow_blur(self, value: u32) -> (builder: Self)
        ensures
            builder.record() == (Rectangle { shadow_blur: value, ..self.record() }),
    {
        RectangleBuilder { record: Rectangle { shadow_blur: value, ..self.record } }
    }

    pub fn shadow_spread(self, value: u32) -> (builder: Self)
        ensures
            builder.record() == (Rectangle { shadow_spread: value, ..self.record() }),
    {
        RectangleBuilder { record: Rectangle { shadow_spread: value, ..self.record } }
    }

    /// The record that was collected.
    pub fn build(self) -> (record: Rectangle)
        ensures
            record == self.record(),
    {
        self.record
    }
}

/// The bytes of one record as they are uploaded.
pub open spec fn record_bytes(record: Rectangle) -> Seq<u8> {
    native_bytes(record.words())
}

/// The bytes of a run of records, one after the other.
pub open spec fn serialize(records: Seq<Rectangle>) -> Seq<u8>
    decreases records.len(),
{
    if records.len() == 0 {
        Seq::empty()
    } else {
        serialize(records.drop_last()) + record_bytes(records.last())
    }
}

/// One record takes `Rectangle::SIZE` bytes, a multiple of 16: its 40
/// words of four bytes each.
pub proof fn lemma_record_size(record: Rectangle)
    ensures
        record.words().len() == RECORD_WORDS,
        record_bytes(record).len() == Rectangle::SIZE,
        Rectangle::SIZE == 4 * RECORD_WORDS,
        Rectangle::SIZE % 16 == 0,
{
}

/// A run of records takes `Rectangle::SIZE` bytes for each of them.
pub proof fn lemma_serialize_len(records: Seq<Rectangle>)
    ensures
        serialize(records).len() == records.len() * Rectangle::SIZE,
    decreases records.len(),
{
    if records.len() > 0 {
        lemma_serialize_len(records.drop_last());
    }
}

/// Serializing one record more appends its bytes.
pub proof fn lemma_serialize_push(records: Seq<Rectangle>, record: Rectangle)
    ensures
        serialize(records.push(record)) == serialize(records) + record_bytes(record),
{
    assert(records.push(record).drop_last() =~= records);
}

/// Appends the bytes of one record to `bytes`.
pub fn append_record(bytes: &mut Vec<u8>, record: &Rectangle)
    ensures
        final(bytes)@ == old(bytes)@ + record_bytes(*record),
{
    let words = record.to_words();
    let new_bytes = bytes_of_words(&words);
    bytes.extend_from_slice(new_bytes);
    assert(bytes@ =~= old(bytes)@ + record_bytes(*record));
}

} // verus!
