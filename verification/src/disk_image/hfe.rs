use vstd::prelude::*;
use vstd::string::*;
use crate::disk_image::conversion::{
    divide_data_image_sectors, sectors_view, spec_image_sector, spec_sector_count,
};
use crate::disk_image::disk_parameters::{DiskParameters, DiskTrackFormat};
use crate::disk_image::fm::{bit_at, fm_word, spec_bit, spec_fm_word, FMByte};
use crate::disk_image::ibm3470::{spec_repeat, track_result_view};
use crate::text::{decimal, spec_decimal};

verus! {

/// Size of a block of the file.
pub const HFE_BLOCK_SIZE: usize = 512;

/// Byte that stands for a side that is not there.
pub const HFE_PAD_VALUE: u8 = 0x00;

/// Most tracks that the list of tracks, two blocks long, can hold.
pub const HFE_MAX_TRACKS: usize = 256;

/// Longest track, in bytes, whose length the list of tracks can hold.
pub const HFE_MAX_TRACK_LEN: usize = 16383;

/// How the bits of a track are encoded.
#[derive(Debug, Clone, Copy, PartialEq, Eq, Structural)]
pub enum TrackEncoding {
    IsoIbmFmEncoding,
    UnknownEncoding,
}

/// The interface that the disk drive has.
#[derive(Debug, Clone, Copy, PartialEq, Eq, Structural)]
pub enum FloppyInterfaceMode {
    GenericShugartDD,
}

/// The first block of the file.
#[derive(Debug, Clone, Copy, PartialEq)]
pub struct HFEFileHeader {
    pub header_signature: [u8; 8],
    pub format_revision: u8,
    pub n_tracks: u8,
    pub n_sides: u8,
    pub track_encoding: TrackEncoding,
    pub bit_rate: u16,
    pub floppy_rpm: u16,
    pub floppy_interface_mode: FloppyInterfaceMode,
    pub dnu: u8,
    pub track_list_offset: u16,
    pub write_allowed: u8,
    pub single_step: u8,
    pub track0s0_altencoding: u8,
    pub track0s0_encoding: TrackEncoding,
    pub track0s1_altencoding: u8,
    pub track0s1_encoding: TrackEncoding,
}

/// One entry of the list of tracks: the block where a track starts and the
/// length of the track in bytes.
#[derive(Debug, Clone, Copy, PartialEq, Eq, Structural)]
pub struct HFETrackOffsetLUTEntry {
    pub offset: u16,
    pub track_len: u16,
}

/// The list of tracks.
#[derive(Debug, Clone)]
pub struct HFETrackOffsetLUT {
    entries: Vec<HFETrackOffsetLUTEntry>,
}

/// The byte that stands for a track encoding.
pub open spec fn spec_track_encoding_code(encoding: TrackEncoding) -> u8 {
    match encoding {
        TrackEncoding::IsoIbmFmEncoding => 0x02,
        TrackEncoding::UnknownEncoding => 0xFF,
    }
}

/// The byte that stands for an interface mode.
pub open spec fn spec_interface_mode_code(mode: FloppyInterfaceMode) -> u8 {
    match mode {
        FloppyInterfaceMode::GenericShugartDD => 0x07,
    }
}

/// The two bytes of a number, the less significant first.
pub open spec fn spec_u16_le(value: u16) -> Seq<u8> {
    seq![(value % 256) as u8, (value / 256) as u8]
}

/// The track encoding of a track format.
pub open spec fn spec_track_encoding_of(track_format: DiskTrackFormat) -> TrackEncoding {
    match track_format {
        DiskTrackFormat::IBM3470 => TrackEncoding::IsoIbmFmEncoding,
    }
}

/// The header of the file of a disk: its cylinders and sides in one byte
/// each, its cell rate and its turns per minute; writing is not allowed, and
/// the list of tracks starts in block 1.
pub open spec fn spec_make_header(disk_parameters: DiskParameters) -> HFEFileHeader {
    HFEFileHeader {
        header_signature: [0x48u8, 0x58u8, 0x43u8, 0x50u8, 0x49u8, 0x43u8, 0x46u8, 0x45u8],
        format_revision: 0,
        n_tracks: (disk_parameters.n_cylinders % 256) as u8,
        n_sides: (disk_parameters.n_sides % 256) as u8,
        track_encoding: spec_track_encoding_of(disk_parameters.track_format),
        bit_rate: disk_parameters.cell_rate,
        floppy_rpm: disk_parameters.rpm,
        floppy_interface_mode: FloppyInterfaceMode::GenericShugartDD,
        dnu: 0x01,
        track_list_offset: 1,
        write_allowed: 0xFF,
        single_step: 0xFF,
        track0s0_altencoding: 0xFF,
        track0s0_encoding: TrackEncoding::UnknownEncoding,
        track0s1_altencoding: 0xFF,
        track0s1_encoding: TrackEncoding::UnknownEncoding,
    }
}

/// The bytes of a header: its fields in order, numbers of two bytes with the
/// less significant byte first.
pub open spec fn spec_header_bytes(header: HFEFileHeader) -> Seq<u8> {
    header.header_signature@ + seq![
        header.format_revision,
        header.n_tracks,
        header.n_sides,
        spec_track_encoding_code(header.track_encoding),
    ] + spec_u16_le(header.bit_rate) + spec_u16_le(header.floppy_rpm) + seq![
        spec_interface_mode_code(header.floppy_interface_mode),
        header.dnu,
    ] + spec_u16_le(header.track_list_offset) + seq![
        header.write_allowed,
        header.single_step,
        header.track0s0_altencoding,
        spec_track_encoding_code(header.track0s0_encoding),
        header.track0s1_altencoding,
        spec_track_encoding_code(header.track0s1_encoding),
    ]
}

/// The bytes of an entry of the list of tracks.
pub open spec fn spec_entry_bytes(entry: HFETrackOffsetLUTEntry) -> Seq<u8> {
    spec_u16_le(entry.offset) + spec_u16_le(entry.track_len)
}

/// The bytes of the first `count` entries of a list of tracks.
pub open spec fn spec_entries_bytes(entries: Seq<HFETrackOffsetLUTEntry>, count: int) -> Seq<u8>
    decreases count,
{
    if count <= 0 || count > entries.len() {
        Seq::empty()
    } else {
        spec_entries_bytes(entries, count - 1) + spec_entry_bytes(entries[count - 1])
    }
}

/// A block: the data and, to the size of the block, bytes 0xFF.
pub open spec fn spec_pad_to_block(data: Seq<u8>, block_size: nat) -> Seq<u8> {
    data + spec_repeat(0xFF, (block_size - data.len()) as nat)
}

/// The lowest `count` bits of a byte, in reverse order, as a number.
pub open spec fn spec_reversed_bits(byte: u8, count: nat) -> int
    decreases count,
{
    if count == 0 || count > 8 {
        0
    } else {
        spec_reversed_bits(byte, (count - 1) as nat) * 2 + spec_bit(byte, (count - 1) as nat)
    }
}

/// A byte with its bits in reverse order.
pub open spec fn spec_reverse_byte(byte: u8) -> u8 {
    spec_reversed_bits(byte, 8) as u8
}

/// The bytes of a track as the file holds them: each bit of the track takes
/// two bits, a zero and the bit, and the bits of each byte are stored in
/// reverse order.
pub open spec fn spec_hfe_track_encoding(track: Seq<u8>) -> Seq<u8> {
    Seq::new(
        2 * track.len(),
        |i: int|
            if i % 2 == 0 {
                spec_reverse_byte((spec_fm_word(FMByte { data: track[i / 2], clock: 0 }) / 256) as u8)
            } else {
                spec_reverse_byte((spec_fm_word(FMByte { data: track[i / 2], clock: 0 }) % 256) as u8)
            },
    )
}

/// The parts of a track: half blocks, the last one filled up with zeros.
pub open spec fn spec_track_parts(track: Seq<u8>) -> Seq<Seq<u8>> {
    Seq::new(
        spec_sector_count(track.len(), (HFE_BLOCK_SIZE / 2) as nat),
        |k: int| spec_image_sector(track, (HFE_BLOCK_SIZE / 2) as nat, k),
    )
}

/// The first `count` blocks of a cylinder: in each block a part of side 0 and
/// the part of side 1 that goes with it, or the pad value where side 1 has no
/// such part.
pub open spec fn spec_packed_blocks(side0: Seq<Seq<u8>>, side1: Seq<Seq<u8>>, count: int) -> Seq<u8>
    decreases count,
{
    if count <= 0 || count > side0.len() {
        Seq::empty()
    } else {
        spec_packed_blocks(side0, side1, count - 1) + side0[count - 1] + (if count - 1
            < side1.len() {
            side1[count - 1]
        } else {
            spec_repeat(HFE_PAD_VALUE, (HFE_BLOCK_SIZE / 2) as nat)
        })
    }
}

/// The parts of the second side of a cylinder; none where the cylinder does
/// not have exactly two sides.
pub open spec fn spec_second_side_parts(cylinder: Seq<Seq<u8>>) -> Seq<Seq<u8>> {
    if cylinder.len() == 2 {
        spec_track_parts(spec_hfe_track_encoding(cylinder[1]))
    } else {
        Seq::empty()
    }
}

/// The blocks of a cylinder and their number.
pub open spec fn spec_pack_track(cylinder: Seq<Seq<u8>>) -> (Seq<u8>, int) {
    let side0 = spec_track_parts(spec_hfe_track_encoding(cylinder[0]));
    (
        spec_packed_blocks(side0, spec_second_side_parts(cylinder), side0.len() as int),
        side0.len() as int,
    )
}

/// What the file holds of the first `count` cylinders.
pub struct HfeTracks {
    pub entries: Seq<HFETrackOffsetLUTEntry>,
    pub data: Seq<u8>,
    pub used_blocks: int,
}

/// The list of tracks and the blocks of the first `count` cylinders. The first
/// track starts in block 3; the length that the list holds for a track is
/// four times that of its first side. A first side of more than
/// `HFE_MAX_TRACK_LEN` bytes is refused.
pub open spec fn spec_hfe_tracks(cylinders: Seq<Seq<Seq<u8>>>, count: int) -> Result<
    HfeTracks,
    Seq<char>,
>
    decreases count,
{
    if count <= 0 || count > cylinders.len() {
        Ok(HfeTracks { entries: Seq::empty(), data: Seq::empty(), used_blocks: 3 })
    } else {
        match spec_hfe_tracks(cylinders, count - 1) {
            Err(message) => Err(message),
            Ok(before) => {
                let cylinder = cylinders[count - 1];
                if cylinder[0].len() > HFE_MAX_TRACK_LEN {
                    Err("Track too big for HFE file"@)
                } else {
                    let (blocks, n_blocks) = spec_pack_track(cylinder);
                    Ok(
                        HfeTracks {
                            entries: before.entries.push(
                                HFETrackOffsetLUTEntry {
                                    offset: before.used_blocks as u16,
                                    track_len: (cylinder[0].len() * 4) as u16,
                                },
                            ),
                            data: before.data + blocks,
                            used_blocks: before.used_blocks + n_blocks,
                        },
                    )
                }
            },
        }
    }
}

/// The file of a disk: the header in one block, the list of tracks in two
/// blocks, and the blocks of the cylinders. A disk of more than two sides is
/// refused.
pub open spec fn spec_make_hfe_file(
    cylinders: Seq<Seq<Seq<u8>>>,
    disk_parameters: DiskParameters,
) -> Result<Seq<u8>, Seq<char>> {
    if disk_parameters.n_sides > 2 {
        Err("Too many sides for HFE file: "@ + spec_decimal(disk_parameters.n_sides as nat))
    } else {
        match spec_hfe_tracks(cylinders, cylinders.len() as int) {
            Err(message) => Err(message),
            Ok(tracks) => Ok(
                spec_pad_to_block(
                    spec_header_bytes(spec_make_header(disk_parameters)),
                    HFE_BLOCK_SIZE as nat,
                )
                    + spec_pad_to_block(
                    spec_entries_bytes(tracks.entries, tracks.entries.len() as int),
                    (HFE_BLOCK_SIZE * 2) as nat,
                ) + tracks.data,
            ),
        }
    }
}

impl TrackEncoding {
    /// The byte that stands for the encoding.
    pub fn code(&self) -> (code: u8)
        ensures
            code == spec_track_encoding_code(*self),
    {
        match self {
            TrackEncoding::IsoIbmFmEncoding => 0x02,
            TrackEncoding::UnknownEncoding => 0xFF,
        }
    }
}

impl FloppyInterfaceMode {
    /// The byte that stands for the mode.
    pub fn code(&self) -> (code: u8)
        ensures
            code == spec_interface_mode_code(*self),
    {
        match self {
            FloppyInterfaceMode::GenericShugartDD => 0x07,
        }
    }
}

/// The track encoding of a track format.
pub fn floppy_interface_mode_from_track_format(track_format: &DiskTrackFormat) -> (encoding:
    TrackEncoding)
    ensures
        encoding == spec_track_encoding_of(*track_format),
{
    match track_format {
        DiskTrackFormat::IBM3470 => TrackEncoding::IsoIbmFmEncoding,
    }
}

fn push_u16_le(bytes: &mut Vec<u8>, value: u16)
    ensures
        final(bytes)@ == old(bytes)@ + spec_u16_le(value),
{
    bytes.push((value % 256) as u8);
    bytes.push((value / 256) as u8);
    assert(bytes@ =~= old(bytes)@ + spec_u16_le(value));
}

impl HFEFileHeader {
    /// The header of the file of a disk.
    pub fn make(disk_parameters: &DiskParameters) -> (header: HFEFileHeader)
        ensures
            header == spec_make_header(*disk_parameters),
    {
        let header_signature: [u8; 8] = [0x48, 0x58, 0x43, 0x50, 0x49, 0x43, 0x46, 0x45];
        HFEFileHeader {
            header_signature,
            format_revision: 0,
            n_tracks: (disk_parameters.n_cylinders % 256) as u8,
            n_sides: (disk_parameters.n_sides % 256) as u8,
            track_encoding: floppy_interface_mode_from_track_format(&disk_parameters.track_format),
            bit_rate: disk_parameters.cell_rate,
            floppy_rpm: disk_parameters.rpm,
            floppy_interface_mode: FloppyInterfaceMode::GenericShugartDD,
            dnu: 0x01,  // Unused
            track_list_offset: 1,
            write_allowed: 0xFF,  // Not allowed
            single_step: 0xFF,  // Single step
            track0s0_altencoding: 0xFF,  // No alt encoding
            track0s0_encoding: TrackEncoding::UnknownEncoding,
            track0s1_altencoding: 0xFF,  // No alt encoding
            track0s1_encoding: TrackEncoding::UnknownEncoding,
        }
    }

    /// The bytes of the header.
    pub fn as_bytes(&self) -> (res: Vec<u8>)
        ensures
            res@ == spec_header_bytes(*self),
            res@.len() == 26,
    {
        let mut res: Vec<u8> = Vec::new();
        let mut i: usize = 0;
        while i < 8
            invariant
                i <= 8,
                res@ == self.header_signature@.take(i as int),
            decreases 8 - i,
        {
            res.push(self.header_signature[i]);
            assert(res@ =~= self.header_signature@.take(i + 1));
            i = i + 1;
        }
        assert(self.header_signature@.take(8) =~= self.header_signature@);
        res.push(self.format_revision);
        res.push(self.n_tracks);
        res.push(self.n_sides);
        res.push(self.track_encoding.code());
        push_u16_le(&mut res, self.bit_rate);
        push_u16_le(&mut res, self.floppy_rpm);
        res.push(self.floppy_interface_mode.code());
        res.push(self.dnu);
        push_u16_le(&mut res, self.track_list_offset);
        res.push(self.write_allowed);
        res.push(self.single_step);
        res.push(self.track0s0_altencoding);
        res.push(self.track0s0_encoding.code());
        res.push(self.track0s1_altencoding);
        res.push(self.track0s1_encoding.code());
        assert(res@ =~= spec_header_bytes(*self));
        res
    }
}

impl HFETrackOffsetLUTEntry {
    /// The bytes of the entry.
    pub fn as_bytes(&self) -> (data: Vec<u8>)
        ensures
            data@ == spec_entry_bytes(*self),
            data@.len() == 4,
    {
        let mut data: Vec<u8> = Vec::new();
        push_u16_le(&mut data, self.offset);
        push_u16_le(&mut data, self.track_len);
        data
    }
}

impl View for HFETrackOffsetLUT {
    type V = Seq<HFETrackOffsetLUTEntry>;

    closed spec fn view(&self) -> Seq<HFETrackOffsetLUTEntry> {
        self.entries@
    }
}

impl HFETrackOffsetLUT {
    /// An empty list.
    pub fn new() -> (lut: Self)
        ensures
            lut@ == Seq::<HFETrackOffsetLUTEntry>::empty(),
    {
        Self { entries: Vec::new() }
    }

    /// Adds a track that starts in block `offset` and is `track_len` bytes long.
    pub fn add_track(&mut self, offset: u16, track_len: u16)
        ensures
            final(self)@ == old(self)@.push(HFETrackOffsetLUTEntry { offset, track_len }),
    {
        self.entries.push(HFETrackOffsetLUTEntry { offset, track_len })
    }

    /// The bytes of the list: the entries one after the other.
    pub fn as_bytes(&self) -> (data: Vec<u8>)
        ensures
            data@ == spec_entries_bytes(self@, self@.len() as int),
            data@.len() == 4 * self@.len(),
    {
        let mut data: Vec<u8> = Vec::new();
        let mut i: usize = 0;
        while i < self.entries.len()
            invariant
                i <= self.entries.len(),
                data@ == spec_entries_bytes(self@, i as int),
                data@.len() == 4 * i,
            decreases self.entries.len() - i,
        {
            let mut bytes = self.entries[i].as_bytes();
            data.append(&mut bytes);
            i = i + 1;
        }
        data
    }
}

/// Pad array of u8 to block size
pub fn pad_to_block(data: &Vec<u8>, block_size: usize) -> (block: Vec<u8>)
    requires
        data@.len() <= block_size,
    ensures
        block@ == spec_pad_to_block(data@, block_size as nat),
        block@.len() == block_size,
{
    let mut block: Vec<u8> = data.clone();
    let mut i: usize = data.len();
    assert(block@ =~= data@ + spec_repeat(0xFF, 0));
    while i < block_size
        invariant
            data@.len() <= i <= block_size,
            block@ == data@ + spec_repeat(0xFF, (i - data@.len()) as nat),
        decreases block_size - i,
    {
        // Add padding
        block.push(0xFF);
        assert(block@ =~= data@ + spec_repeat(0xFF, (i + 1 - data@.len()) as nat));
        i = i + 1;
    }
    block
}

/// A byte with its bits in reverse order.
pub fn reverse_byte(byte: u8) -> (reversed: u8)
    ensures
        reversed == spec_reverse_byte(byte),
{
    let mut reversed: u16 = 0;
    let mut count: u8 = 0;
    while count < 8
        invariant
            count <= 8,
            reversed == spec_reversed_bits(byte, count as nat),
            reversed < 256,
            count < 8 ==> reversed < 128,
        decreases 8 - count,
    {
        proof {
            lemma_reversed_bound(byte, count as nat);
        }
        reversed = reversed * 2 + bit_at(byte, count);
        count = count + 1;
        proof {
            lemma_reversed_bound(byte, count as nat);
        }
    }
    reversed as u8
}

proof fn lemma_reversed_bound(byte: u8, count: nat)
    requires
        count <= 8,
    ensures
        0 <= spec_reversed_bits(byte, count),
        count == 0 ==> spec_reversed_bits(byte, count) < 1,
        count == 1 ==> spec_reversed_bits(byte, count) < 2,
        count == 2 ==> spec_reversed_bits(byte, count) < 4,
        count == 3 ==> spec_reversed_bits(byte, count) < 8,
        count == 4 ==> spec_reversed_bits(byte, count) < 16,
        count == 5 ==> spec_reversed_bits(byte, count) < 32,
        count == 6 ==> spec_reversed_bits(byte, count) < 64,
        count == 7 ==> spec_reversed_bits(byte, count) < 128,
        count == 8 ==> spec_reversed_bits(byte, count) < 256,
    decreases count,
{
    if count > 0 {
        lemma_reversed_bound(byte, (count - 1) as nat);
        lemma_bit_is_binary(byte, (count - 1) as nat);
    }
}

proof fn lemma_bit_is_binary(byte: u8, index: nat)
    ensures
        0 <= spec_bit(byte, index) <= 1,
    decreases index,
{
    if index > 0 {
        lemma_bit_is_binary(byte / 2, (index - 1) as nat);
    }
}

/// The bytes of a run with the bits of each byte in reverse order.
pub fn reverse_bits(track: &[u8]) -> (encoded: Vec<u8>)
    ensures
        encoded@ == Seq::new(track@.len(), |i: int| spec_reverse_byte(track@[i])),
{
    let mut encoded: Vec<u8> = Vec::new();
    let mut i: usize = 0;
    while i < track.len()
        invariant
            i <= track.len(),
            encoded.len() == i,
            forall|k: int| 0 <= k < i ==> encoded[k] == spec_reverse_byte(track@[k]),
        decreases track.len() - i,
    {
        // Add byte to result
        encoded.push(reverse_byte(track[i]));
        i = i + 1;
    }
    assert(encoded@ =~= Seq::new(track@.len(), |i: int| spec_reverse_byte(track@[i])));
    encoded
}

/// Encodes a track as the file holds it: every bit takes two bits, and the bits
/// of each byte are stored in reverse order.
pub fn do_weird_hfe_track_encoding(track: &Vec<u8>) -> (encoded: Vec<u8>)
    ensures
        encoded@ == spec_hfe_track_encoding(track@),
{
    let mut encoded: Vec<u8> = Vec::new();
    let mut i: usize = 0;
    while i < track.len()
        invariant
            i <= track.len(),
            encoded.len() == 2 * i,
            forall|k: int|
                0 <= k < encoded.len() ==> encoded[k] == spec_hfe_track_encoding(track@)[k],
        decreases track.len() - i,
    {
        let word = fm_word(&FMByte { data: track[i], clock: 0 });
        // Add byte to result
        encoded.push(reverse_byte((word / 256) as u8));
        encoded.push(reverse_byte((word % 256) as u8));
        i = i + 1;
    }
    assert(encoded@ =~= spec_hfe_track_encoding(track@));
    encoded
}

/// Divide a track into parts of 256 bytes, as the file format asks
pub fn track_to_parts(track: Vec<u8>) -> (parts: Vec<Vec<u8>>)
    ensures
        sectors_view(parts@) == spec_track_parts(track@),
{
    match divide_data_image_sectors(track, (HFE_BLOCK_SIZE / 2) as u16, true) {
        Ok(parts) => parts,
        Err(()) => Vec::new(),
    }
}

/// Interleave side 0 and side 1 of a cylinder, as the file format asks
pub fn pack_track(cylinder: &Vec<Vec<u8>>) -> (packed: (Vec<u8>, u16))
    requires
        cylinder@.len() >= 1,
        cylinder@[0]@.len() <= HFE_MAX_TRACK_LEN,
    ensures
        (packed.0@, packed.1 as int) == spec_pack_track(sectors_view(cylinder@)),
        packed.1 <= 128,
{
    let mut data: Vec<u8> = Vec::new();
    // Divide tracks to parts
    let side0_parts = track_to_parts(do_weird_hfe_track_encoding(&cylinder[0]));
    let side1_parts = if cylinder.len() == 2 {
        track_to_parts(do_weird_hfe_track_encoding(&cylinder[1]))
    } else {
        Vec::new()
    };
    proof {
        assert(sectors_view(cylinder@)[0] == cylinder@[0]@);
        if cylinder@.len() == 2 {
            assert(sectors_view(cylinder@)[1] == cylinder@[1]@);
        }
        assert(sectors_view(side1_parts@) =~= spec_second_side_parts(sectors_view(cylinder@)));
        assert(sectors_view(side0_parts@).len() == side0_parts@.len());
    }
    let ghost side0 = sectors_view(side0_parts@);
    let ghost side1 = sectors_view(side1_parts@);
    // Pack track data
    let mut used_blocks: u16 = 0;
    while (used_blocks as usize) < side0_parts.len()
        invariant
            used_blocks <= side0_parts@.len() <= 128,
            side0 == sectors_view(side0_parts@),
            side1 == sectors_view(side1_parts@),
            data@ == spec_packed_blocks(side0, side1, used_blocks as int),
        decreases side0_parts@.len() - used_blocks,
    {
        let ghost before = data@;
        // Get next side 0 part
        let mut part0 = side0_parts[used_blocks as usize].clone();
        assert(part0@ == side0[used_blocks as int]);
        data.append(&mut part0);
        // Get next side 1 part (if present)
        if (used_blocks as usize) < side1_parts.len() {
            // Add side 1 part
            let mut part1 = side1_parts[used_blocks as usize].clone();
            assert(part1@ == side1[used_blocks as int]);
            data.append(&mut part1);
        } else {
            // Add data fill
            let mut k: usize = 0;
            let ghost filled = data@;
            assert(data@ =~= filled + spec_repeat(HFE_PAD_VALUE, 0));
            while k < HFE_BLOCK_SIZE / 2
                invariant
                    k <= HFE_BLOCK_SIZE / 2,
                    data@ == filled + spec_repeat(HFE_PAD_VALUE, k as nat),
                decreases HFE_BLOCK_SIZE / 2 - k,
            {
                data.push(HFE_PAD_VALUE);
                assert(data@ =~= filled + spec_repeat(HFE_PAD_VALUE, (k + 1) as nat));
                k = k + 1;
            }
        }
        // Count number of blocks used by track
        used_blocks = used_blocks + 1;
    }
    (data, used_blocks)
}

/// The model of a list of cylinders.
pub open spec fn hfe_cylinders_view(cylinders: Seq<Vec<Vec<u8>>>) -> Seq<Seq<Seq<u8>>> {
    Seq::new(cylinders.len(), |i: int| sectors_view(cylinders[i]@))
}

/// Create HFE file from array of encoded cylinders
pub fn make_hfe_file(encoded_cylinders: &Vec<Vec<Vec<u8>>>, disk_parameters: &DiskParameters) -> (file:
    Result<Vec<u8>, String>)
    requires
        encoded_cylinders@.len() <= HFE_MAX_TRACKS,
        forall|i: int|
            0 <= i < encoded_cylinders@.len() ==> (#[trigger] encoded_cylinders@[i])@.len() >= 1,
    ensures
        track_result_view(file) == spec_make_hfe_file(
            hfe_cylinders_view(encoded_cylinders@),
            *disk_parameters,
        ),
{
    // Check number of sides
    if disk_parameters.n_sides > 2 {
        let mut message = String::from_str("Too many sides for HFE file: ");
        message.append(decimal(disk_parameters.n_sides as u128).as_str());
        return Err(message);
    }
    // Encode track data and track LUT
    let mut track_offset_lut = HFETrackOffsetLUT::new();
    let mut track_data: Vec<u8> = Vec::new();
    let ghost shown = hfe_cylinders_view(encoded_cylinders@);
    // For each cylinder
    let mut used_blocks: u16 = 3;  // File header (1 block) + Track offset lut (2 blocks)
    let mut i: usize = 0;
    while i < encoded_cylinders.len()
        invariant
            i <= encoded_cylinders.len() <= HFE_MAX_TRACKS,
            shown == hfe_cylinders_view(encoded_cylinders@),
            disk_parameters.n_sides <= 2,
            forall|k: int|
                0 <= k < encoded_cylinders@.len() ==> (#[trigger] encoded_cylinders@[k])@.len()
                    >= 1,
            used_blocks <= 3 + 128 * i,
            spec_hfe_tracks(shown, i as int) == Ok::<HfeTracks, Seq<char>>(
                HfeTracks {
                    entries: track_offset_lut@,
                    data: track_data@,
                    used_blocks: used_blocks as int,
                },
            ),
            track_offset_lut@.len() == i,
        decreases encoded_cylinders.len() - i,
    {
        let cylinder = &encoded_cylinders[i];
        assert(shown[i as int] == sectors_view(cylinder@));
        assert(sectors_view(cylinder@)[0] == cylinder@[0]@);
        // Check if track is too big to fit in HFE file
        let first_side_len = cylinder[0].len();
        if first_side_len > HFE_MAX_TRACK_LEN {
            proof {
                lemma_hfe_tracks_error(shown, i + 1, shown.len() as int);
            }
            return Err(String::from_str("Track too big for HFE file"));
        }
        // Add entry to track entries
        track_offset_lut.add_track(used_blocks, (first_side_len * 4) as u16);  // * 2 and * 2 again because the encoding keeps space for 2 sides
        // Add track to track data
        let (mut this_track, n_blocks) = pack_track(cylinder);
        track_data.append(&mut this_track);
        used_blocks = used_blocks + n_blocks;
        i = i + 1;
    }
    // Create HFE file header
    let header = HFEFileHeader::make(disk_parameters);
    // Construct final HFE file
    let mut hfe_data: Vec<u8> = Vec::new();
    let mut header_block = pad_to_block(&header.as_bytes(), HFE_BLOCK_SIZE);
    hfe_data.append(&mut header_block);
    let mut lut_block = pad_to_block(&track_offset_lut.as_bytes(), HFE_BLOCK_SIZE * 2);
    hfe_data.append(&mut lut_block);
    hfe_data.append(&mut track_data);
    Ok(hfe_data)
}

proof fn lemma_hfe_tracks_error(cylinders: Seq<Seq<Seq<u8>>>, failed: int, count: int)
    requires
        0 < failed <= count <= cylinders.len(),
        spec_hfe_tracks(cylinders, failed) is Err,
    ensures
        spec_hfe_tracks(cylinders, count) == spec_hfe_tracks(cylinders, failed),
    decreases count - failed,
{
    if failed < count {
        lemma_hfe_tracks_error(cylinders, failed, count - 1);
    }
}

} // verus!
