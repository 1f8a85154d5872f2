use vstd::prelude::*;

verus! {

/// How the tracks of a disk are laid out.
#[derive(Debug, Clone, Copy, PartialEq, Eq, Structural)]
pub enum DiskTrackFormat {
    IBM3470,
}

/// The geometry and the timing of a disk.
#[derive(Debug, Clone, Copy, PartialEq, Eq, Structural)]
pub struct DiskParameters {
    pub track_format: DiskTrackFormat,
    pub n_sides: u16,
    pub n_cylinders: u16,
    pub sectors_per_track: u16,
    pub bytes_per_sector: u16,
    pub cell_rate: u16,  // In kbps
    pub rpm: u16,
    pub sector_interleave: u16,
}

/// The disk formats that have a preset.
#[derive(Debug, Clone, Copy, PartialEq, Eq, Structural)]
pub enum DiskFormat {
    LEVEL6,
    IBM8DSSD,
}

/// The presets of the disk formats.
pub struct DiskFormatDefaults;

/// What the command line says of the disk: a preset, and a value of its own
/// for any parameter of the preset.
#[derive(Debug, Clone, PartialEq)]
pub struct Args {
    pub input: String,
    pub output: String,
    pub ignore_errors: bool,
    pub disk_format: DiskFormat,
    pub cylinders: Option<u16>,
    pub heads: Option<u16>,
    pub sectors: Option<u16>,
    pub sector_size: Option<u16>,
    pub cell_rate: Option<u16>,
    pub spindle_rpm: Option<u16>,
    pub interleave: Option<u16>,
}

/// The preset of a disk format: both are 77 cylinders of 26 sectors of 128
/// bytes at 500 kbps and 360 rpm, with one side or with two.
pub open spec fn spec_format_defaults(format: DiskFormat) -> DiskParameters {
    DiskParameters {
        track_format: DiskTrackFormat::IBM3470,
        n_sides: match format {
            DiskFormat::LEVEL6 => 1,
            DiskFormat::IBM8DSSD => 2,
        },
        n_cylinders: 77,
        sectors_per_track: 26,
        bytes_per_sector: 128,
        sector_interleave: 1,
        cell_rate: 500,
        rpm: 360,
    }
}

/// A value of the command line, or else that of the preset.
pub open spec fn spec_or_default(given: Option<u16>, default: u16) -> u16 {
    match given {
        Some(value) => value,
        None => default,
    }
}

/// The parameters that a command line asks for.
pub open spec fn spec_from_args(args: Args) -> DiskParameters {
    let defaults = spec_format_defaults(args.disk_format);
    DiskParameters {
        track_format: defaults.track_format,
        n_sides: spec_or_default(args.heads, defaults.n_sides),
        n_cylinders: spec_or_default(args.cylinders, defaults.n_cylinders),
        sectors_per_track: spec_or_default(args.sectors, defaults.sectors_per_track),
        bytes_per_sector: spec_or_default(args.sector_size, defaults.bytes_per_sector),
        cell_rate: spec_or_default(args.cell_rate, defaults.cell_rate),
        rpm: spec_or_default(args.spindle_rpm, defaults.rpm),
        sector_interleave: spec_or_default(args.interleave, defaults.sector_interleave),
    }
}

impl DiskFormatDefaults {
    /// Level6 format
    pub fn level6() -> (parameters: DiskParameters)
        ensures
            parameters == spec_format_defaults(DiskFormat::LEVEL6),
    {
        DiskParameters {
            track_format: DiskTrackFormat::IBM3470,
            n_sides: 1,
            n_cylinders: 77,
            sectors_per_track: 26,
            bytes_per_sector: 128,
            sector_interleave: 1,
            cell_rate: 500,
            rpm: 360,
        }
    }

    /// IBM 8 inch double sided - single density format
    pub fn ibm8dssd() -> (parameters: DiskParameters)
        ensures
            parameters == spec_format_defaults(DiskFormat::IBM8DSSD),
    {
        DiskParameters {
            track_format: DiskTrackFormat::IBM3470,
            n_sides: 2,
            n_cylinders: 77,
            sectors_per_track: 26,
            bytes_per_sector: 128,
            sector_interleave: 1,
            cell_rate: 500,
            rpm: 360,
        }
    }
}

impl DiskParameters {
    /// Construct DiskParameters based on CLI args
    pub fn from_args(args: &Args) -> (parameters: DiskParameters)
        ensures
            parameters == spec_from_args(*args),
    {
        // Get default parameters for specified format
        let mut disk_pars = match args.disk_format {
            DiskFormat::LEVEL6 => DiskFormatDefaults::level6(),
            DiskFormat::IBM8DSSD => DiskFormatDefaults::ibm8dssd(),
        };
        // Number of cylinders
        if let Some(cylinders) = args.cylinders {
            disk_pars.n_cylinders = cylinders;
        }
        // Number of heads
        if let Some(heads) = args.heads {
            disk_pars.n_sides = heads;
        }
        // Number of sectors
        if let Some(sectors) = args.sectors {
            disk_pars.sectors_per_track = sectors;
        }
        // Sector size
        if let Some(sector_size) = args.sector_size {
            disk_pars.bytes_per_sector = sector_size;
        }
        // Cell rate
        if let Some(cell_rate) = args.cell_rate {
            disk_pars.cell_rate = cell_rate;
        }
        // Spindle RPM
        if let Some(spindle_rpm) = args.spindle_rpm {
            disk_pars.rpm = spindle_rpm;
        }
        // Interleave
        if let Some(interleave) = args.interleave {
            disk_pars.sector_interleave = interleave;
        }
        disk_pars
    }
}

} // verus!
