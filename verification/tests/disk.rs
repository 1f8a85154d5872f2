use level6::disk_image::conversion::divide_data_image_sectors;
use level6::disk_image::disk_parameters::{
    Args, DiskFormat, DiskFormatDefaults, DiskParameters, DiskTrackFormat,
};
use level6::disk_image::encode::{calc_interleave_map, encode_cylinder, encode_disk};
use level6::disk_image::errors::{ConvertError, ConvertErrorType};
use level6::disk_image::fm::{FMByte, FMBytes};
use level6::disk_image::level6::{
    encode_track_level6, level6_encode_sector, level6_encode_sector_data,
    level6_encode_sector_header, level6_encode_track_header,
};
use level6::disk_image::ibm3470::{
    check_disk_parameters, encode_sector, encode_sector_data, encode_sector_header,
    encode_track, encode_track_header,
};

// CRC-16/IBM-3740, bit by bit: polynomial 0x1021, start value 0xFFFF
fn reference_crc(data: &[u8]) -> u16 {
    let mut crc: u16 = 0xFFFF;
    for byte in data {
        crc ^= (*byte as u16) << 8;
        for _ in 0..8 {
            crc = if crc & 0x8000 != 0 {
                (crc << 1) ^ 0x1021
            } else {
                crc << 1
            };
        }
    }
    crc
}

// the placement rule, slot by slot
fn reference_interleave(n_sectors: u16, interleave: u16) -> Vec<u16> {
    let n = n_sectors as usize;
    let mut res: Vec<u16> = vec![0; n];
    let mut used: Vec<bool> = vec![false; n];
    let mut curs: usize = 0;
    let mut skip: u32 = interleave as u32;
    for log_sec in 0..n_sectors {
        while used[curs] || skip < interleave as u32 {
            skip += 1;
            curs += 1;
            if curs >= res.len() {
                curs = 0;
            }
        }
        res[curs] = log_sec;
        used[curs] = true;
        skip = 1;
        curs += 1;
        if curs >= res.len() {
            curs = 0;
        }
    }
    res
}

fn level6() -> DiskParameters {
    DiskFormatDefaults::level6()
}

#[test]
fn fm_cells_interleave_clock_and_data() {
    let mut run = FMBytes::new();
    run.add_bytes(&[0x00, 0xFF, 0xA5]);
    run.add_fm_byte(&FMByte {
        data: 0xFE,
        clock: 0xC7,
    });
    assert_eq!(run.get_data_bytes(), vec![0x00, 0xFF, 0xA5, 0xFE]);
    assert_eq!(run.fm_len(), 8);
    assert_eq!(
        run.encode(),
        vec![0xAA, 0xAA, 0xFF, 0xFF, 0xEE, 0xBB, 0xF5, 0x7E]
    );
    let mut other = FMBytes::new();
    other.add_bytes(&[0x01]);
    run.append(&mut other);
    assert_eq!(run.get_data_bytes(), vec![0x00, 0xFF, 0xA5, 0xFE, 0x01]);
    assert_eq!(other.get_data_bytes(), Vec::<u8>::new());
    assert_eq!(FMBytes::new().encode(), Vec::<u8>::new());
}

#[test]
fn checksum_of_the_check_string() {
    assert_eq!(reference_crc(b"123456789"), 0x29B1);
    // the data field covers its address mark and the data
    let field = encode_sector_data(&b"23456789".to_vec()).get_data_bytes();
    let mut covered = vec![0xFB];
    covered.extend_from_slice(b"23456789");
    let crc = reference_crc(&covered);
    let mut expected = covered.clone();
    expected.extend_from_slice(&crc.to_be_bytes());
    assert_eq!(field, expected);
}

#[test]
fn sector_header_fields_and_checksum() {
    let header = encode_sector_header(128, 3, 7, 1);
    let crc = reference_crc(&[0xFE, 3, 1, 7, 128]);
    assert_eq!(
        header.get_data_bytes(),
        vec![0xFE, 3, 1, 7, 128, (crc >> 8) as u8, (crc & 0xFF) as u8]
    );
    // the address mark keeps its own clock, the other bytes have a full one
    let encoded = header.encode();
    assert_eq!(encoded.len(), 14);
    assert_eq!(&encoded[0..2], &[0xF5, 0x7E]);
}

#[test]
fn sector_and_track_header_layout() {
    let sector = vec![0x11u8; 128];
    let cells = encode_sector(&sector, 2, 5, 0).get_data_bytes();
    assert_eq!(cells.len(), 6 + 7 + 11 + 6 + 131 + 27);
    assert_eq!(&cells[0..6], &[0u8; 6]);
    assert_eq!(&cells[6..11], &[0xFE, 2, 0, 5, 128]);
    assert_eq!(&cells[13..24], &[0xFFu8; 11]);
    assert_eq!(&cells[24..30], &[0u8; 6]);
    assert_eq!(cells[30], 0xFB);
    assert_eq!(&cells[31..159], &sector[..]);
    assert_eq!(&cells[161..188], &[0xFFu8; 27]);
    let header = encode_track_header().get_data_bytes();
    assert_eq!(header.len(), 40 + 6 + 1 + 26);
    assert_eq!(header[46], 0xFC);
    assert_eq!(&encode_track_header().encode()[92..94], &[0xF7, 0x7A]);
}

#[test]
fn interleave_maps() {
    assert_eq!(calc_interleave_map(0, 1), Vec::<u16>::new());
    assert_eq!(calc_interleave_map(1, 5), vec![0]);
    assert_eq!(calc_interleave_map(5, 1), vec![0, 1, 2, 3, 4]);
    assert_eq!(calc_interleave_map(5, 0), vec![0, 1, 2, 3, 4]);
    assert_eq!(calc_interleave_map(6, 2), vec![0, 3, 1, 4, 2, 5]);
    assert_eq!(calc_interleave_map(5, 2), vec![0, 3, 1, 4, 2]);
    assert_eq!(
        calc_interleave_map(26, 2),
        vec![
            0, 13, 1, 14, 2, 15, 3, 16, 4, 17, 5, 18, 6, 19, 7, 20, 8, 21, 9, 22, 10, 23, 11, 24,
            12, 25
        ]
    );
    for n in 0..30u16 {
        for interleave in 0..70u16 {
            assert_eq!(
                calc_interleave_map(n, interleave),
                reference_interleave(n, interleave),
                "{} sectors, interleave {}",
                n,
                interleave
            );
        }
    }
    let mut wide = calc_interleave_map(300, 65535);
    wide.sort();
    assert_eq!(wide, (0..300).collect::<Vec<u16>>());
}

#[test]
fn image_is_divided_into_sectors() {
    let image: Vec<u8> = (1..=10).collect();
    assert_eq!(
        divide_data_image_sectors(image.clone(), 5, false),
        Ok(vec![vec![1, 2, 3, 4, 5], vec![6, 7, 8, 9, 10]])
    );
    assert_eq!(divide_data_image_sectors(image.clone(), 4, false), Err(()));
    assert_eq!(
        divide_data_image_sectors(image.clone(), 4, true),
        Ok(vec![vec![1, 2, 3, 4], vec![5, 6, 7, 8], vec![9, 10, 0, 0]])
    );
    assert_eq!(
        divide_data_image_sectors(image.clone(), 16, true),
        Ok(vec![vec![1, 2, 3, 4, 5, 6, 7, 8, 9, 10, 0, 0, 0, 0, 0, 0]])
    );
    assert_eq!(divide_data_image_sectors(vec![], 4, false), Ok(vec![]));
    assert_eq!(divide_data_image_sectors(vec![], 4, true), Ok(vec![]));
}

#[test]
fn parameters_from_the_command_line() {
    let mut args = Args {
        input: "in.img".to_owned(),
        output: "out.hfe".to_owned(),
        ignore_errors: false,
        disk_format: DiskFormat::LEVEL6,
        cylinders: None,
        heads: None,
        sectors: None,
        sector_size: None,
        cell_rate: None,
        spindle_rpm: None,
        interleave: None,
    };
    assert_eq!(
        DiskParameters::from_args(&args),
        DiskParameters {
            track_format: DiskTrackFormat::IBM3470,
            n_sides: 1,
            n_cylinders: 77,
            sectors_per_track: 26,
            bytes_per_sector: 128,
            cell_rate: 500,
            rpm: 360,
            sector_interleave: 1,
        }
    );
    args.disk_format = DiskFormat::IBM8DSSD;
    assert_eq!(DiskParameters::from_args(&args), DiskFormatDefaults::ibm8dssd());
    assert_eq!(DiskFormatDefaults::ibm8dssd().n_sides, 2);
    args.cylinders = Some(40);
    args.heads = Some(1);
    args.sectors = Some(8);
    args.sector_size = Some(255);
    args.cell_rate = Some(250);
    args.spindle_rpm = Some(300);
    args.interleave = Some(3);
    assert_eq!(
        DiskParameters::from_args(&args),
        DiskParameters {
            track_format: DiskTrackFormat::IBM3470,
            n_sides: 1,
            n_cylinders: 40,
            sectors_per_track: 8,
            bytes_per_sector: 255,
            cell_rate: 250,
            rpm: 300,
            sector_interleave: 3,
        }
    );
}

#[test]
fn parameters_that_the_layout_cannot_hold() {
    assert_eq!(check_disk_parameters(&level6()), Ok(()));
    let mut parameters = level6();
    parameters.sectors_per_track = 256;
    assert_eq!(
        check_disk_parameters(&parameters),
        Err("Too many sectors per track: 256".to_owned())
    );
    parameters.n_cylinders = 300;
    assert_eq!(
        check_disk_parameters(&parameters),
        Err("Too many cylinders: 300".to_owned())
    );
    parameters.n_sides = 256;
    assert_eq!(
        check_disk_parameters(&parameters),
        Err("Too many heads: 256".to_owned())
    );
    parameters.bytes_per_sector = 512;
    assert_eq!(
        check_disk_parameters(&parameters),
        Err("Sector size too large: 512".to_owned())
    );
}

#[test]
fn track_fills_one_turn() {
    let parameters = level6();
    let sectors: Vec<Vec<u8>> = (0..26).map(|i| vec![i as u8; 128]).collect();
    let track = encode_track(&sectors, &parameters, 5, 0).unwrap();
    // 60000 * 500 / (360 * 8) = 10416 bytes in a turn, of which 100 are left out
    assert_eq!(track.len(), 10316);
    let mut cells = FMBytes::new();
    cells.append(&mut encode_track_header());
    for logical in 0..26u8 {
        cells.append(&mut encode_sector(&sectors[logical as usize], 5, logical + 1, 0));
    }
    let start = cells.encode();
    assert_eq!(&track[..start.len()], &start[..]);
    assert!(track[start.len()..].iter().all(|byte| *byte == 0xFF));

    let mut interleaved = parameters;
    interleaved.sector_interleave = 2;
    let track = encode_track(&sectors, &interleaved, 5, 0).unwrap();
    let second_slot = 2 * (73 + 188);
    let expected = encode_sector(&sectors[13], 5, 14, 0).encode();
    assert_eq!(&track[second_slot..second_slot + expected.len()], &expected[..]);

    let mut slow = parameters;
    slow.cell_rate = 100;
    assert_eq!(
        encode_track(&sectors, &slow, 0, 0),
        Err("Track too large".to_owned())
    );
    let mut wide = parameters;
    wide.n_cylinders = 256;
    assert_eq!(
        encode_track(&sectors, &wide, 0, 0),
        Err("Too many cylinders: 256".to_owned())
    );
}

#[test]
fn disk_is_encoded_cylinder_by_cylinder() {
    let mut parameters = level6();
    parameters.n_sides = 2;
    parameters.n_cylinders = 3;
    parameters.sectors_per_track = 4;
    let sectors: Vec<Vec<u8>> = (0..24).map(|i| vec![i as u8; 128]).collect();
    let disk = encode_disk(&sectors, &parameters).unwrap();
    assert_eq!(disk.len(), 3);
    for (cyl_n, cylinder) in disk.iter().enumerate() {
        assert_eq!(cylinder.len(), 2);
        assert_eq!(cylinder, &encode_cylinder(&sectors, &parameters, cyl_n as u16).unwrap());
        for (side_n, track) in cylinder.iter().enumerate() {
            let start = 4 * (side_n + 2 * cyl_n);
            assert_eq!(
                track,
                &encode_track(
                    &sectors[start..start + 4],
                    &parameters,
                    cyl_n as u16,
                    side_n as u16
                )
                .unwrap()
            );
        }
    }
    parameters.cell_rate = 1;
    assert_eq!(
        encode_disk(&sectors, &parameters),
        Err("Track too large".to_owned())
    );
}

#[test]
fn conversion_error_messages() {
    assert_eq!(
        ConvertError::new(ConvertErrorType::SectorDivision).message(),
        "Unable to divide input image into sectors"
    );
    assert_eq!(
        ConvertError::new(ConvertErrorType::SectorNumber(2002, 17)).message(),
        "Wrong number of sectors in input image (should be 2002, is 17)"
    );
    assert_eq!(
        ConvertError::new(ConvertErrorType::DiskEncoding("Track too large".to_owned())).message(),
        "Disk encoding error: Track too large"
    );
    assert_eq!(
        ConvertError::new(ConvertErrorType::RawImageCreation("x".to_owned())).message(),
        "Raw image creation error: x"
    );
}

#[test]
fn one_sided_track_has_side_zero() {
    let parameters = level6();
    let sectors: Vec<Vec<u8>> = (0..26).map(|i| vec![i as u8; 128]).collect();
    assert_eq!(
        encode_track_level6(&sectors, &parameters, 9, 1),
        encode_track(&sectors, &parameters, 9, 0)
    );
    assert_eq!(
        level6_encode_track_header().encode(),
        encode_track_header().encode()
    );
    assert_eq!(
        level6_encode_sector_header(128, 3, 7).encode(),
        encode_sector_header(128, 3, 7, 0).encode()
    );
    assert_eq!(
        level6_encode_sector_data(&sectors[3]).encode(),
        encode_sector_data(&sectors[3]).encode()
    );
    assert_eq!(
        level6_encode_sector(&sectors[3], 1, 4).encode(),
        encode_sector(&sectors[3], 1, 4, 0).encode()
    );
}
