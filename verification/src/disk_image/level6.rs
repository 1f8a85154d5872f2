use vstd::prelude::*;
use crate::disk_image::conversion::sectors_view;
use crate::disk_image::disk_parameters::DiskParameters;
use crate::disk_image::fm::{spec_clocked, spec_fm_encode, FMByte, FMBytes};
use crate::disk_image::ibm3470::{
    encode_sector, encode_sector_data, encode_sector_header, encode_track_cells,
    encode_track_header, repeat, spec_repeat, spec_sector, spec_sector_data, spec_sector_header,
    spec_track_capacity, spec_track_cells, spec_track_header, FILL_BYTE, GAP5_LESS,
};

verus! {

/// The header, the sectors and the last gap of a track of a disk with one
/// side: the sectors lie as on any track, and the side in their identifiers
/// is 0.
pub open spec fn spec_level6_track_cells(
    sectors: Seq<Seq<u8>>,
    disk_parameters: DiskParameters,
    cyl_n: u16,
) -> Seq<FMByte> {
    spec_track_cells(
        sectors,
        disk_parameters.sectors_per_track,
        disk_parameters.sector_interleave,
        (cyl_n % 256) as u8,
        0,
    )
}

/// Number of encoded bytes of a turn that the header and the sectors of a
/// track leave free, after `GAP5_LESS` bytes are left out.
pub open spec fn spec_level6_remaining(
    sectors: Seq<Seq<u8>>,
    disk_parameters: DiskParameters,
    cyl_n: u16,
) -> int {
    spec_track_capacity(disk_parameters) - 2 * spec_level6_track_cells(
        sectors,
        disk_parameters,
        cyl_n,
    ).len() - GAP5_LESS
}

/// The start of a track.
pub fn level6_encode_track_header() -> (data: FMBytes)
    ensures
        data@ == spec_track_header(),
{
    encode_track_header()
}

/// The identifier of a sector, with its checksum; the side is 0.
pub fn level6_encode_sector_header(sector_len: u8, track_n: u8, sector_n: u8) -> (header: FMBytes)
    ensures
        header@ == spec_sector_header(sector_len, track_n, sector_n, 0),
{
    encode_sector_header(sector_len, track_n, sector_n, 0)
}

/// The data field of a sector, with its checksum.
pub fn level6_encode_sector_data(sector: &Vec<u8>) -> (data: FMBytes)
    ensures
        data@ == spec_sector_data(sector@),
{
    encode_sector_data(sector)
}

/// A sector as it lies on the track; the side is 0.
pub fn level6_encode_sector(sector: &Vec<u8>, track_n: u8, sector_n: u8) -> (data: FMBytes)
    ensures
        data@ == spec_sector(sector@, track_n, sector_n, 0),
{
    encode_sector(sector, track_n, sector_n, 0)
}

/// Encode one track to Level6 format
pub fn encode_track_level6(
    sectors: &[Vec<u8>],
    disk_parameters: &DiskParameters,
    cyl_n: u16,
    _side_n: u16,
) -> (track: Result<Vec<u8>, String>)
    requires
        disk_parameters.rpm > 0,
        disk_parameters.sectors_per_track <= 255,
        sectors@.len() == disk_parameters.sectors_per_track,
        forall|i: int| 0 <= i < sectors@.len() ==> (#[trigger] sectors@[i]).len() <= 0xFFFF,
        spec_level6_remaining(sectors_view(sectors@), *disk_parameters, cyl_n) >= 0,
    ensures
        track is Ok,
        track->Ok_0@ == spec_fm_encode(
            spec_level6_track_cells(sectors_view(sectors@), *disk_parameters, cyl_n)
                + spec_clocked(
                spec_repeat(
                    FILL_BYTE,
                    (spec_level6_remaining(sectors_view(sectors@), *disk_parameters, cyl_n)
                        / 2) as nat,
                ),
            ),
        ),
{
    let mut track = encode_track_cells(
        sectors,
        disk_parameters.sectors_per_track,
        disk_parameters.sector_interleave,
        (cyl_n % 256) as u8,
        0,
    );
    // Fill remaining part of track
    let capacity: u64 = (60000 * disk_parameters.cell_rate as u64) / (disk_parameters.rpm as u64
        * 8);
    let remaining_bytes: u64 = capacity - track.fm_len() as u64 - GAP5_LESS as u64;
    // GAP5
    track.add_bytes(repeat(FILL_BYTE, (remaining_bytes / 2) as usize).as_slice());  // divided by 2 because 1 data byte = 2 fm bytes
    Ok(track.encode())
}

} // verus!
