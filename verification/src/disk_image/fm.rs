use vstd::prelude::*;

verus! {

/// One byte for frequency modulation: the data bits and the clock bits that are
/// written between them.
#[derive(Debug, Clone, Copy, PartialEq, Eq, Structural)]
pub struct FMByte {
    pub data: u8,
    pub clock: u8,
}

/// A run of bytes for frequency modulation.
#[derive(Debug, Clone)]
pub struct FMBytes {
    bytes: Vec<FMByte>,
}

/// Data bytes as bytes for frequency modulation, each with a full clock.
pub open spec fn spec_clocked(data: Seq<u8>) -> Seq<FMByte> {
    Seq::new(data.len(), |i: int| FMByte { data: data[i], clock: 0xFF })
}

/// The data of each byte of a run.
pub open spec fn spec_data_bytes(bytes: Seq<FMByte>) -> Seq<u8> {
    Seq::new(bytes.len(), |i: int| bytes[i].data)
}

/// Bit `index` of a byte, counted from the least significant.
pub open spec fn spec_bit(byte: u8, index: nat) -> int
    decreases index,
{
    if index == 0 {
        byte as int % 2
    } else {
        spec_bit(byte / 2, (index - 1) as nat)
    }
}

/// The first `count` cells of an encoded byte, as a number: each cell is a
/// clock bit followed by a data bit, and the most significant bits come first.
pub open spec fn spec_fm_cells(byte: FMByte, count: nat) -> int
    decreases count,
{
    if count == 0 || count > 8 {
        0
    } else {
        spec_fm_cells(byte, (count - 1) as nat) * 4 + spec_bit(byte.clock, (8 - count) as nat) * 2
            + spec_bit(byte.data, (8 - count) as nat)
    }
}

/// The 16 bits of an encoded byte.
pub open spec fn spec_fm_word(byte: FMByte) -> int {
    spec_fm_cells(byte, 8)
}

/// The encoded bytes of a run: two for each byte, most significant first.
pub open spec fn spec_fm_encode(bytes: Seq<FMByte>) -> Seq<u8> {
    Seq::new(
        2 * bytes.len(),
        |i: int|
            if i % 2 == 0 {
                (spec_fm_word(bytes[i / 2]) / 256) as u8
            } else {
                (spec_fm_word(bytes[i / 2]) % 256) as u8
            },
    )
}

proof fn lemma_fm_cells_bound(byte: FMByte, count: nat)
    requires
        count <= 8,
    ensures
        0 <= spec_fm_cells(byte, count),
        count == 0 ==> spec_fm_cells(byte, count) == 0,
        count == 1 ==> spec_fm_cells(byte, count) < 4,
        count == 2 ==> spec_fm_cells(byte, count) < 16,
        count == 3 ==> spec_fm_cells(byte, count) < 64,
        count == 4 ==> spec_fm_cells(byte, count) < 256,
        count == 5 ==> spec_fm_cells(byte, count) < 1024,
        count == 6 ==> spec_fm_cells(byte, count) < 4096,
        count == 7 ==> spec_fm_cells(byte, count) < 16384,
        count == 8 ==> spec_fm_cells(byte, count) < 65536,
    decreases count,
{
    if count > 0 {
        lemma_fm_cells_bound(byte, (count - 1) as nat);
        lemma_bit(byte.clock, (8 - count) as nat);
        lemma_bit(byte.data, (8 - count) as nat);
    }
}

proof fn lemma_bit(byte: u8, index: nat)
    ensures
        0 <= spec_bit(byte, index) <= 1,
    decreases index,
{
    if index > 0 {
        lemma_bit(byte / 2, (index - 1) as nat);
    }
}

/// Bit `index` of a byte, counted from the least significant.
pub fn bit_at(byte: u8, index: u8) -> (bit: u16)
    requires
        index < 8,
    ensures
        bit == spec_bit(byte, index as nat),
        bit <= 1,
{
    let mut rest = byte;
    let mut i: u8 = 0;
    while i < index
        invariant
            i <= index,
            spec_bit(byte, index as nat) == spec_bit(rest, (index - i) as nat),
        decreases index - i,
    {
        rest = rest / 2;
        i = i + 1;
    }
    (rest % 2) as u16
}

/// The 16 bits of an encoded byte.
pub fn fm_word(byte: &FMByte) -> (word: u16)
    ensures
        word == spec_fm_word(*byte),
{
    let mut word: u16 = 0;
    let mut count: u8 = 0;
    while count < 8
        invariant
            count <= 8,
            word == spec_fm_cells(*byte, count as nat),
        decreases 8 - count,
    {
        proof {
            lemma_fm_cells_bound(*byte, count as nat);
        }
        let clock_bit = bit_at(byte.clock, 7 - count);
        let data_bit = bit_at(byte.data, 7 - count);
        word = word * 4 + clock_bit * 2 + data_bit;
        count = count + 1;
    }
    word
}

impl View for FMBytes {
    type V = Seq<FMByte>;

    closed spec fn view(&self) -> Seq<FMByte> {
        self.bytes@
    }
}

impl FMBytes {
    /// An empty run.
    pub fn new() -> (run: Self)
        ensures
            run@ == Seq::<FMByte>::empty(),
    {
        Self { bytes: Vec::new() }
    }

    /// Adds data bytes, each with a full clock.
    pub fn add_bytes(&mut self, new_bytes: &[u8])
        ensures
            final(self)@ == old(self)@ + spec_clocked(new_bytes@),
    {
        let ghost before = self@;
        let mut i: usize = 0;
        assert(self@ =~= before + spec_clocked(new_bytes@.take(0)));
        while i < new_bytes.len()
            invariant
                i <= new_bytes.len(),
                self@ == before + spec_clocked(new_bytes@.take(i as int)),
            decreases new_bytes.len() - i,
        {
            self.bytes.push(FMByte { data: new_bytes[i], clock: 0xFF });
            assert(self@ =~= before + spec_clocked(new_bytes@.take(i + 1)));
            i = i + 1;
        }
        assert(new_bytes@.take(new_bytes@.len() as int) =~= new_bytes@);
    }

    /// Adds one byte with the clock it brings.
    pub fn add_fm_byte(&mut self, new_fm_byte: &FMByte)
        ensures
            final(self)@ == old(self)@.push(*new_fm_byte),
    {
        self.bytes.push(*new_fm_byte);
    }

    /// The data bytes, without their clocks.
    pub fn get_data_bytes(&self) -> (data_bytes: Vec<u8>)
        ensures
            data_bytes@ == spec_data_bytes(self@),
    {
        let mut data_bytes: Vec<u8> = Vec::new();
        let mut i: usize = 0;
        while i < self.bytes.len()
            invariant
                i <= self.bytes.len(),
                data_bytes.len() == i,
                forall|k: int| 0 <= k < i ==> data_bytes[k] == self.bytes[k].data,
            decreases self.bytes.len() - i,
        {
            data_bytes.push(self.bytes[i].data);
            i = i + 1;
        }
        assert(data_bytes@ =~= spec_data_bytes(self@));
        data_bytes
    }

    /// The bytes as they are written to the disk: clock and data bits in turn.
    pub fn encode(&self) -> (encoded_bytes: Vec<u8>)
        ensures
            encoded_bytes@ == spec_fm_encode(self@),
    {
        let mut encoded_bytes: Vec<u8> = Vec::new();
        let mut i: usize = 0;
        while i < self.bytes.len()
            invariant
                i <= self.bytes.len(),
                encoded_bytes.len() == 2 * i,
                forall|k: int|
                    0 <= k < encoded_bytes.len() ==> encoded_bytes[k] == spec_fm_encode(self@)[k],
            decreases self.bytes.len() - i,
        {
            let word = fm_word(&self.bytes[i]);
            encoded_bytes.push((word / 256) as u8);
            encoded_bytes.push((word % 256) as u8);
            i = i + 1;
        }
        assert(encoded_bytes@ =~= spec_fm_encode(self@));
        encoded_bytes
    }

    /// Moves the bytes of another run to the end of this one.
    pub fn append(&mut self, other: &mut FMBytes)
        ensures
            final(self)@ == old(self)@ + old(other)@,
            final(other)@ == Seq::<FMByte>::empty(),
    {
        self.bytes.append(&mut other.bytes);
    }

    /// Number of bytes on the disk: two for each byte of the run.
    pub fn fm_len(&self) -> (len: usize)
        requires
            2 * self@.len() <= usize::MAX,
        ensures
            len == 2 * self@.len(),
    {
        self.bytes.len() * 2  // FM length is double byte length
    }
}

} // verus!
