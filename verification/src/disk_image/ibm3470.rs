use vstd::prelude::*;
use vstd::string::*;
use crate::disk_image::conversion::sectors_view;
use crate::disk_image::crc16::{crc16_ibm_3740, spec_crc16_ibm_3740};
use crate::disk_image::disk_parameters::DiskParameters;
use crate::disk_image::encode::{calc_interleave_map, spec_interleave_map};
use crate::disk_image::fm::{spec_clocked, spec_fm_encode, FMByte, FMBytes};
use crate::text::{decimal, spec_decimal};

verus! {

/// Byte that fills the gaps of a track.
pub const FILL_BYTE: u8 = 0xFF;

/// Length of the gap before the index mark.
pub const GAP1_LEN: usize = 40;

/// Length of the gap after the index mark.
pub const GAP2_LEN: usize = 26;

/// Length of the gap between the identifier of a sector and its data.
pub const GAP3_LEN: usize = 11;

/// Length of the gap between two sectors.
pub const GAP4_LEN: usize = 27;

/// Length of a synchronisation field.
pub const SYNC_LEN: usize = 6;

/// The index address mark.
pub open spec fn spec_iam() -> FMByte {
    FMByte { data: 0xFC, clock: 0xD7 }
}

/// The address mark of a sector identifier.
pub open spec fn spec_idam() -> FMByte {
    FMByte { data: 0xFE, clock: 0xC7 }
}

/// The address mark of a data field.
pub open spec fn spec_dam() -> FMByte {
    FMByte { data: 0xFB, clock: 0xC7 }
}

/// A run of `count` equal bytes.
pub open spec fn spec_repeat(byte: u8, count: nat) -> Seq<u8> {
    Seq::new(count, |i: int| byte)
}

/// The two bytes of a checksum, the more significant first.
pub open spec fn spec_checksum_bytes(checksum: u16) -> Seq<u8> {
    seq![(checksum / 256) as u8, (checksum % 256) as u8]
}

/// A field with its checksum: an address mark, data bytes, and the checksum of
/// the mark's data and the data bytes.
pub open spec fn spec_checked_field(mark: FMByte, data: Seq<u8>) -> Seq<FMByte> {
    seq![mark] + spec_clocked(data) + spec_clocked(
        spec_checksum_bytes(spec_crc16_ibm_3740(seq![mark.data] + data)),
    )
}

/// The start of a track: the gap before the index, a synchronisation field,
/// the index address mark and the gap after it.
pub open spec fn spec_track_header() -> Seq<FMByte> {
    spec_clocked(spec_repeat(FILL_BYTE, GAP1_LEN as nat)) + spec_clocked(
        spec_repeat(0x00, SYNC_LEN as nat),
    ) + seq![spec_iam()] + spec_clocked(spec_repeat(FILL_BYTE, GAP2_LEN as nat))
}

/// The identifier of a sector: its address mark, the track, the side, the
/// sector and the length of the sector, and their checksum.
pub open spec fn spec_sector_header(sector_len: u8, track_n: u8, sector_n: u8, side_n: u8) -> Seq<
    FMByte,
> {
    spec_checked_field(spec_idam(), seq![track_n, side_n, sector_n, sector_len])
}

/// The data field of a sector: its address mark, the data, and their
/// checksum.
pub open spec fn spec_sector_data(sector: Seq<u8>) -> Seq<FMByte> {
    spec_checked_field(spec_dam(), sector)
}

/// A sector on the track: a synchronisation field, the identifier, a gap, a
/// synchronisation field, the data field and the gap to the next sector. The
/// identifier holds the length of the sector in one byte.
pub open spec fn spec_sector(sector: Seq<u8>, track_n: u8, sector_n: u8, side_n: u8) -> Seq<FMByte> {
    spec_clocked(spec_repeat(0x00, SYNC_LEN as nat)) + spec_sector_header(
        (sector.len() % 256) as u8,
        track_n,
        sector_n,
        side_n,
    ) + spec_clocked(spec_repeat(FILL_BYTE, GAP3_LEN as nat)) + spec_clocked(
        spec_repeat(0x00, SYNC_LEN as nat),
    ) + spec_sector_data(sector) + spec_clocked(spec_repeat(FILL_BYTE, GAP4_LEN as nat))
}

/// A run of `count` equal bytes.
pub fn repeat(byte: u8, count: usize) -> (run: Vec<u8>)
    ensures
        run@ == spec_repeat(byte, count as nat),
{
    let mut run: Vec<u8> = Vec::new();
    let mut i: usize = 0;
    while i < count
        invariant
            i <= count,
            run.len() == i,
            forall|k: int| 0 <= k < i ==> run[k] == byte,
        decreases count - i,
    {
        run.push(byte);
        i = i + 1;
    }
    assert(run@ =~= spec_repeat(byte, count as nat));
    run
}

fn checked_field(mark: &FMByte, data: &[u8]) -> (field: FMBytes)
    ensures
        field@ == spec_checked_field(*mark, data@),
{
    let mut field = FMBytes::new();
    field.add_fm_byte(mark);
    field.add_bytes(data);
    // Compute crc
    let covered = field.get_data_bytes();
    assert(covered@ =~= seq![mark.data] + data@);
    let checksum = crc16_ibm_3740(covered.as_slice());
    let edc = vec![(checksum / 256) as u8, (checksum % 256) as u8];
    assert(edc@ =~= spec_checksum_bytes(checksum));
    field.add_bytes(edc.as_slice());
    assert(field@ =~= spec_checked_field(*mark, data@));
    field
}

/// The start of a track.
pub fn encode_track_header() -> (data: FMBytes)
    ensures
        data@ == spec_track_header(),
{
    let mut data = FMBytes::new();
    // Pre-Index Gap (GAP1)
    data.add_bytes(repeat(FILL_BYTE, GAP1_LEN).as_slice());
    // AM4 Sync field (6 bytes)
    data.add_bytes(repeat(0x00, SYNC_LEN).as_slice());
    // Index address mark (AM4)
    data.add_fm_byte(&FMByte { data: 0xFC, clock: 0xD7 });
    // Post-Index address mark (GAP2)
    data.add_bytes(repeat(FILL_BYTE, GAP2_LEN).as_slice());
    assert(data@ =~= spec_track_header());
    data
}

/// The identifier of a sector, with its checksum.
pub fn encode_sector_header(sector_len: u8, track_n: u8, sector_n: u8, side_n: u8) -> (header:
    FMBytes)
    ensures
        header@ == spec_sector_header(sector_len, track_n, sector_n, side_n),
{
    // Sector ID fields
    // |-- TRACK_N --|--- RSU ---|- SECTOR_N -|--- RSU ---|
    // RSU: Reserved for software use
    let fields = vec![track_n, side_n, sector_n, sector_len];
    assert(fields@ =~= seq![track_n, side_n, sector_n, sector_len]);
    checked_field(&FMByte { data: 0xFE, clock: 0xC7 }, fields.as_slice())
}

/// The data field of a sector, with its checksum.
pub fn encode_sector_data(sector: &Vec<u8>) -> (data: FMBytes)
    ensures
        data@ == spec_sector_data(sector@),
{
    checked_field(&FMByte { data: 0xFB, clock: 0xC7 }, sector.as_slice())
}

/// A sector as it lies on the track.
pub fn encode_sector(sector: &Vec<u8>, track_n: u8, sector_n: u8, side_n: u8) -> (data: FMBytes)
    ensures
        data@ == spec_sector(sector@, track_n, sector_n, side_n),
{
    let mut data = FMBytes::new();
    // Sector ID Sync field (6 bytes)
    data.add_bytes(repeat(0x00, SYNC_LEN).as_slice());
    // Sector ID field
    let mut header = encode_sector_header((sector.len() % 256) as u8, track_n, sector_n, side_n);
    data.append(&mut header);
    // Identifier to Data Gap (GAP3)
    data.add_bytes(repeat(FILL_BYTE, GAP3_LEN).as_slice());
    // AM2 Sync field (6 bytes)
    data.add_bytes(repeat(0x00, SYNC_LEN).as_slice());
    // Sector data field
    let mut field = encode_sector_data(sector);
    data.append(&mut field);
    // Inter-sector Gap (GAP4)
    data.add_bytes(repeat(FILL_BYTE, GAP4_LEN).as_slice());
    assert(data@ =~= spec_sector(sector@, track_n, sector_n, side_n));
    data
}

/// Bytes of the last gap that are left out.
pub const GAP5_LESS: usize = 100;

/// What the layout cannot hold: a size or a count above 255 is refused, the
/// sector size before the sides, the cylinders and the sectors of a track.
pub open spec fn spec_check_disk_parameters(disk_parameters: DiskParameters) -> Result<
    (),
    Seq<char>,
> {
    if disk_parameters.bytes_per_sector > 255 {
        Err("Sector size too large: "@ + spec_decimal(disk_parameters.bytes_per_sector as nat))
    } else if disk_parameters.n_sides > 255 {
        Err("Too many heads: "@ + spec_decimal(disk_parameters.n_sides as nat))
    } else if disk_parameters.n_cylinders > 255 {
        Err("Too many cylinders: "@ + spec_decimal(disk_parameters.n_cylinders as nat))
    } else if disk_parameters.sectors_per_track > 255 {
        Err(
            "Too many sectors per track: "@ + spec_decimal(
                disk_parameters.sectors_per_track as nat,
            ),
        )
    } else {
        Ok(())
    }
}

/// The model of an outcome or a message.
pub open spec fn message_view<T>(r: Result<T, String>) -> Result<T, Seq<char>> {
    match r {
        Ok(value) => Ok(value),
        Err(message) => Err(message@),
    }
}

/// The model of a track or a message.
pub open spec fn track_result_view(r: Result<Vec<u8>, String>) -> Result<Seq<u8>, Seq<char>> {
    match r {
        Ok(track) => Ok(track@),
        Err(message) => Err(message@),
    }
}

fn too_many(what: &str, count: u16) -> (message: String)
    ensures
        message@ == what@ + spec_decimal(count as nat),
{
    let mut message = String::from_str(what);
    message.append(decimal(count as u128).as_str());
    message
}

/// Refuses parameters that the layout cannot hold.
pub fn check_disk_parameters(disk_parameters: &DiskParameters) -> (outcome: Result<(), String>)
    ensures
        message_view(outcome) == spec_check_disk_parameters(*disk_parameters),
{
    // Check sector size
    if disk_parameters.bytes_per_sector > 255 {
        return Err(too_many("Sector size too large: ", disk_parameters.bytes_per_sector));
    }
    // Check number of sides
    if disk_parameters.n_sides > 255 {
        return Err(too_many("Too many heads: ", disk_parameters.n_sides));
    }
    // Check number of cylinders
    if disk_parameters.n_cylinders > 255 {
        return Err(too_many("Too many cylinders: ", disk_parameters.n_cylinders));
    }
    // Check sectors per track
    if disk_parameters.sectors_per_track > 255 {
        return Err(too_many("Too many sectors per track: ", disk_parameters.sectors_per_track));
    }
    Ok(())
}

/// The sectors in the first `count` slots of a track, one after the other. The
/// sector in a slot is the one that the interleave map names; its number in
/// the identifier is counted from 1.
pub open spec fn spec_placed_sectors(
    sectors: Seq<Seq<u8>>,
    map: Seq<u16>,
    track_n: u8,
    side_n: u8,
    count: int,
) -> Seq<FMByte>
    decreases count,
{
    if count <= 0 || count > map.len() {
        Seq::empty()
    } else {
        spec_placed_sectors(sectors, map, track_n, side_n, count - 1) + spec_sector(
            sectors[map[count - 1] as int],
            track_n,
            ((map[count - 1] + 1) % 256) as u8,
            side_n,
        )
    }
}

/// Number of encoded bytes that pass the head in one turn of the disk.
pub open spec fn spec_track_capacity(disk_parameters: DiskParameters) -> int {
    (60000 * disk_parameters.cell_rate) / (disk_parameters.rpm * 8)
}

proof fn lemma_sector_len(sector: Seq<u8>, track_n: u8, sector_n: u8, side_n: u8)
    ensures
        spec_sector(sector, track_n, sector_n, side_n).len() == 60 + sector.len(),
{
}

/// The header of a track and its sectors, placed by the interleave map.
pub open spec fn spec_track_cells(
    sectors: Seq<Seq<u8>>,
    sectors_per_track: u16,
    sector_interleave: u16,
    track_n: u8,
    side_n: u8,
) -> Seq<FMByte> {
    spec_track_header() + spec_placed_sectors(
        sectors,
        spec_interleave_map(sectors_per_track, sector_interleave),
        track_n,
        side_n,
        sectors_per_track as int,
    )
}

/// Lays out the header of a track and its sectors.
pub fn encode_track_cells(
    sectors: &[Vec<u8>],
    sectors_per_track: u16,
    sector_interleave: u16,
    track_n: u8,
    side_n: u8,
) -> (track: FMBytes)
    requires
        sectors_per_track <= 255,
        sectors@.len() == sectors_per_track,
        forall|i: int| 0 <= i < sectors@.len() ==> (#[trigger] sectors@[i]).len() <= 0xFFFF,
    ensures
        track@ == spec_track_cells(
            sectors_view(sectors@),
            sectors_per_track,
            sector_interleave,
            track_n,
            side_n,
        ),
        track@.len() <= 73 + 255 * 65595,
{
    // Compute sector interleave map
    let interleave_map = calc_interleave_map(sectors_per_track, sector_interleave);
    // Track data buffer
    let mut track = FMBytes::new();
    // Encode track header
    let mut header = encode_track_header();
    track.append(&mut header);
    assert(track@ =~= spec_track_header() + spec_placed_sectors(
        sectors_view(sectors@),
        interleave_map@,
        track_n,
        side_n,
        0,
    ));
    // Encode sectors
    let mut phys_sec_n: u16 = 0;
    while phys_sec_n < sectors_per_track
        invariant
            phys_sec_n <= sectors_per_track,
            sectors_per_track <= 255,
            sectors@.len() == sectors_per_track,
            interleave_map@.len() == sectors_per_track,
            forall|p: int| 0 <= p < sectors_per_track ==> 0 <= #[trigger] interleave_map@[p]
                < sectors_per_track,
            forall|i: int| 0 <= i < sectors@.len() ==> (#[trigger] sectors@[i]).len() <= 0xFFFF,
            track@ == spec_track_header() + spec_placed_sectors(
                sectors_view(sectors@),
                interleave_map@,
                track_n,
                side_n,
                phys_sec_n as int,
            ),
            track@.len() <= 73 + phys_sec_n * 65595,
        decreases sectors_per_track - phys_sec_n,
    {
        // Compute interleave
        let logical_sec_n = interleave_map[phys_sec_n as usize];
        // Encode single sector
        let sector = &sectors[logical_sec_n as usize];
        assert(sectors_view(sectors@)[logical_sec_n as int] == sector@);
        let mut cells = encode_sector(
            sector,
            track_n,
            (logical_sec_n + 1) as u8,  // Sector numbers start from 1
            side_n,
        );
        proof {
            lemma_sector_len(sector@, track_n, (logical_sec_n + 1) as u8, side_n);
            let placed = spec_placed_sectors(
                sectors_view(sectors@),
                interleave_map@,
                track_n,
                side_n,
                phys_sec_n as int,
            );
            assert((spec_track_header() + placed) + cells@ =~= spec_track_header() + (placed
                + cells@));
        }
        track.append(&mut cells);
        phys_sec_n = phys_sec_n + 1;
    }
    track
}

/// A track as it is written to the disk: the header, the sectors in the
/// order of the interleave map, and a last gap that fills the turn but for
/// `GAP5_LESS` bytes. A track that does not fit in one turn is refused, and so
/// are parameters that the layout cannot hold.
pub open spec fn spec_encode_track(
    sectors: Seq<Seq<u8>>,
    disk_parameters: DiskParameters,
    cyl_n: u16,
    side_n: u16,
) -> Result<Seq<u8>, Seq<char>> {
    match spec_check_disk_parameters(disk_parameters) {
        Err(message) => Err(message),
        Ok(()) => {
            let cells = spec_track_cells(
                sectors,
                disk_parameters.sectors_per_track,
                disk_parameters.sector_interleave,
                (cyl_n % 256) as u8,
                (side_n % 256) as u8,
            );
            let remaining = spec_track_capacity(disk_parameters) - 2 * cells.len() - GAP5_LESS;
            if remaining < 0 {
                Err("Track too large"@)
            } else {
                Ok(
                    spec_fm_encode(
                        cells + spec_clocked(spec_repeat(FILL_BYTE, (remaining / 2) as nat)),
                    ),
                )
            }
        },
    }
}

/// Encode one track
pub fn encode_track(
    sectors: &[Vec<u8>],
    disk_parameters: &DiskParameters,
    cyl_n: u16,
    side_n: u16,
) -> (track: Result<Vec<u8>, String>)
    requires
        disk_parameters.rpm > 0,
        sectors@.len() == disk_parameters.sectors_per_track,
        forall|i: int|
            0 <= i < sectors@.len() ==> (#[trigger] sectors@[i]).len()
                == disk_parameters.bytes_per_sector,
    ensures
        track_result_view(track) == spec_encode_track(
            sectors_view(sectors@),
            *disk_parameters,
            cyl_n,
            side_n,
        ),
{
    // Validate disk parameters
    match check_disk_parameters(disk_parameters) {
        Ok(()) => {},
        Err(message) => {
            return Err(message);
        },
    }
    let mut track = encode_track_cells(
        sectors,
        disk_parameters.sectors_per_track,
        disk_parameters.sector_interleave,
        (cyl_n % 256) as u8,
        (side_n % 256) as u8,
    );
    // Fill remaining part of track
    let capacity: u64 = (60000 * disk_parameters.cell_rate as u64) / (disk_parameters.rpm as u64
        * 8);
    let taken: u64 = track.fm_len() as u64 + GAP5_LESS as u64;
    // Check if sectors can fit on disk
    if capacity < taken {
        return Err(String::from_str("Track too large"));
    }
    let remaining_bytes = capacity - taken;
    // GAP5
    track.add_bytes(repeat(FILL_BYTE, (remaining_bytes / 2) as usize).as_slice());  // divided by 2 because 1 data byte = 2 fm bytes
    Ok(track.encode())
}

} // verus!
