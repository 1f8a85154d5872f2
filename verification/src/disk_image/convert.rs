use vstd::prelude::*;
use crate::disk_image::conversion::{
    divide_data_image_sectors, sectors_view, spec_divide_data_image_sectors,
};
use crate::disk_image::disk_parameters::DiskParameters;
use crate::disk_image::encode::{
    cylinders_view, encode_disk, spec_encode_cylinder, spec_encode_disk, spec_sectors_fit,
};
use crate::disk_image::errors::{ConvertError, ConvertErrorType};
use crate::disk_image::hfe::{hfe_cylinders_view, make_hfe_file, spec_make_hfe_file};
use crate::disk_image::ibm3470::{spec_check_disk_parameters, spec_repeat};

verus! {

/// The containers that a raw image can be written in.
#[derive(Debug, Clone, Copy, PartialEq, Eq, Structural)]
pub enum RawImageFormat {
    HFE,
}

/// Encoding options
#[derive(Debug, Clone, Copy, PartialEq, Eq, Structural)]
pub struct ConvertOpts {
    pub ignore_errors: bool,
    pub disk_parameters: DiskParameters,
    pub out_file_format: RawImageFormat,
}

/// Number of sectors of a disk.
pub open spec fn spec_expected_sectors(disk_parameters: DiskParameters) -> nat {
    (disk_parameters.sectors_per_track * disk_parameters.n_sides * disk_parameters.n_cylinders) as nat
}

/// The sectors of an image, brought to the number that the disk has: sectors
/// of zeros are added to too few, and of too many the first are kept.
pub open spec fn spec_fitted_sectors(sectors: Seq<Seq<u8>>, disk_parameters: DiskParameters) -> Seq<
    Seq<u8>,
> {
    Seq::new(
        spec_expected_sectors(disk_parameters),
        |i: int|
            if i < sectors.len() {
                sectors[i]
            } else {
                spec_repeat(0, disk_parameters.bytes_per_sector as nat)
            },
    )
}

/// The model of a fault of the conversion.
pub enum ConvertErrorView {
    SectorDivision,
    SectorNumber(usize, usize),
    DiskEncoding(Seq<char>),
    RawImageCreation(Seq<char>),
}

impl View for ConvertError {
    type V = ConvertErrorView;

    open spec fn view(&self) -> ConvertErrorView {
        match self.kind {
            ConvertErrorType::SectorDivision => ConvertErrorView::SectorDivision,
            ConvertErrorType::SectorNumber(should_be, is) => ConvertErrorView::SectorNumber(
                should_be,
                is,
            ),
            ConvertErrorType::DiskEncoding(msg) => ConvertErrorView::DiskEncoding(msg@),
            ConvertErrorType::RawImageCreation(msg) => ConvertErrorView::RawImageCreation(msg@),
        }
    }
}

/// The raw image of a data image.
///
/// The image is divided into sectors; their number must be that of the disk,
/// unless errors are to be ignored, in which case it is brought to that
/// number. The sectors are encoded track by track, and the tracks are put
/// into the container. Each step can refuse, with a fault of its own.
pub open spec fn spec_convert_to_raw(data_img: Seq<u8>, opts: ConvertOpts) -> Result<
    Seq<u8>,
    ConvertErrorView,
> {
    match spec_divide_data_image_sectors(
        data_img,
        opts.disk_parameters.bytes_per_sector as nat,
        opts.ignore_errors,
    ) {
        Err(()) => Err(ConvertErrorView::SectorDivision),
        Ok(sectors) => if sectors.len() != spec_expected_sectors(opts.disk_parameters)
            && !opts.ignore_errors {
            Err(
                ConvertErrorView::SectorNumber(
                    spec_expected_sectors(opts.disk_parameters) as usize,
                    sectors.len() as usize,
                ),
            )
        } else {
            match spec_encode_disk(
                spec_fitted_sectors(sectors, opts.disk_parameters),
                opts.disk_parameters,
                opts.disk_parameters.n_cylinders as int,
            ) {
                Err(message) => Err(ConvertErrorView::DiskEncoding(message)),
                Ok(disk) => match spec_make_hfe_file(disk, opts.disk_parameters) {
                    Err(message) => Err(ConvertErrorView::RawImageCreation(message)),
                    Ok(file) => Ok(file),
                },
            }
        },
    }
}

/// The model of a raw image or a fault.
pub open spec fn convert_result_view(r: Result<Vec<u8>, ConvertError>) -> Result<
    Seq<u8>,
    ConvertErrorView,
> {
    match r {
        Ok(file) => Ok(file@),
        Err(e) => Err(e@),
    }
}

proof fn lemma_encoded_cylinder_shape(
    sectors: Seq<Seq<u8>>,
    disk_parameters: DiskParameters,
    cyl_n: u16,
    sides: int,
)
    requires
        0 <= sides <= u16::MAX,
        spec_encode_cylinder(sectors, disk_parameters, cyl_n, sides) is Ok,
    ensures
        spec_encode_cylinder(sectors, disk_parameters, cyl_n, sides)->Ok_0.len() == sides,
        sides > 0 ==> spec_check_disk_parameters(disk_parameters) is Ok,
    decreases sides,
{
    if sides > 0 {
        lemma_encoded_cylinder_shape(sectors, disk_parameters, cyl_n, sides - 1);
    }
}

proof fn lemma_encoded_disk_shape(
    sectors: Seq<Seq<u8>>,
    disk_parameters: DiskParameters,
    cylinders: int,
)
    requires
        0 <= cylinders <= u16::MAX,
        disk_parameters.n_sides > 0,
        spec_encode_disk(sectors, disk_parameters, cylinders) is Ok,
    ensures
        spec_encode_disk(sectors, disk_parameters, cylinders)->Ok_0.len() == cylinders,
        forall|i: int|
            0 <= i < cylinders ==> (#[trigger] spec_encode_disk(
                sectors,
                disk_parameters,
                cylinders,
            )->Ok_0[i]).len() == disk_parameters.n_sides,
        cylinders > 0 ==> spec_check_disk_parameters(disk_parameters) is Ok,
    decreases cylinders,
{
    if cylinders > 0 {
        lemma_encoded_disk_shape(sectors, disk_parameters, cylinders - 1);
        lemma_encoded_cylinder_shape(
            sectors,
            disk_parameters,
            (cylinders - 1) as u16,
            disk_parameters.n_sides as int,
        );
    }
}

/// Convert data image to raw floppy image
pub fn convert_to_raw(data_img: Vec<u8>, opts: ConvertOpts) -> (file: Result<Vec<u8>, ConvertError>)
    requires
        opts.disk_parameters.bytes_per_sector > 0,
        opts.disk_parameters.rpm > 0,
        opts.disk_parameters.n_sides > 0,
        spec_expected_sectors(opts.disk_parameters) <= usize::MAX,
    ensures
        convert_result_view(file) == spec_convert_to_raw(data_img@, opts),
{
    let disk_parameters = opts.disk_parameters;
    // Divide disk image into sectors
    let mut sectors = match divide_data_image_sectors(
        data_img,
        disk_parameters.bytes_per_sector,
        opts.ignore_errors,
    ) {
        Ok(sectors) => sectors,
        Err(()) => {
            return Err(ConvertError::new(ConvertErrorType::SectorDivision));
        },
    };
    let ghost divided = sectors_view(sectors@);
    // Check number of sectors
    assert(disk_parameters.sectors_per_track * disk_parameters.n_sides <= 0xFFFF * 0xFFFF)
        by (nonlinear_arith)
        requires
            disk_parameters.sectors_per_track <= 0xFFFF,
            disk_parameters.n_sides <= 0xFFFF,
    ;
    let wide: u64 = disk_parameters.sectors_per_track as u64 * disk_parameters.n_sides as u64;
    assert(wide * disk_parameters.n_cylinders <= 0xFFFF * 0xFFFF * 0xFFFF) by (nonlinear_arith)
        requires
            wide <= 0xFFFF * 0xFFFF,
            disk_parameters.n_cylinders <= 0xFFFF,
    ;
    let expected_wide: u64 = wide * disk_parameters.n_cylinders as u64;
    let expected_sectors: usize = expected_wide as usize;
    if sectors.len() != expected_sectors {
        // Wrong number of sectors
        if opts.ignore_errors {
            // Add sectors to fill remaining tracks
            while sectors.len() < expected_sectors
                invariant
                    sectors@.len() <= expected_sectors || sectors@.len() == divided.len(),
                    divided.len() <= sectors@.len(),
                    forall|i: int|
                        0 <= i < sectors@.len() ==> (#[trigger] sectors@[i])@ == (if i
                            < divided.len() {
                            divided[i]
                        } else {
                            spec_repeat(0, disk_parameters.bytes_per_sector as nat)
                        }),
                decreases expected_sectors - sectors@.len(),
            {
                let filler: Vec<u8> = vec![0; disk_parameters.bytes_per_sector as usize];
                assert(filler@ =~= spec_repeat(0, disk_parameters.bytes_per_sector as nat));
                sectors.push(filler);
            }
            sectors.truncate(expected_sectors);
        } else {
            return Err(
                ConvertError::new(ConvertErrorType::SectorNumber(expected_sectors, sectors.len())),
            );
        }
    }
    proof {
        assert(sectors_view(sectors@) =~= spec_fitted_sectors(divided, disk_parameters));
        assert forall|i: int| 0 <= i < sectors_view(sectors@).len() implies (#[trigger] sectors_view(
            sectors@,
        )[i]).len() == disk_parameters.bytes_per_sector by {
            if i < divided.len() {
                assert(divided[i].len() == disk_parameters.bytes_per_sector);
            }
        }
        assert(spec_sectors_fit(sectors_view(sectors@), disk_parameters));
    }
    // Encode disk image to correct format
    let encoded_disk = match encode_disk(&sectors, &disk_parameters) {
        Ok(disk) => disk,
        Err(msg) => {
            return Err(ConvertError::new(ConvertErrorType::DiskEncoding(msg)));
        },
    };
    proof {
        lemma_encoded_disk_shape(
            sectors_view(sectors@),
            disk_parameters,
            disk_parameters.n_cylinders as int,
        );
        assert(hfe_cylinders_view(encoded_disk@) =~= cylinders_view(encoded_disk@));
        assert forall|i: int| 0 <= i < encoded_disk@.len() implies (#[trigger] encoded_disk@[i])@.len()
            >= 1 by {
            assert(cylinders_view(encoded_disk@)[i].len() == disk_parameters.n_sides);
        }
    }
    match opts.out_file_format {
        RawImageFormat::HFE => match make_hfe_file(&encoded_disk, &disk_parameters) {
            Ok(file) => Ok(file),
            Err(msg) => Err(ConvertError::new(ConvertErrorType::RawImageCreation(msg))),
        },
    }
}

} // verus!
