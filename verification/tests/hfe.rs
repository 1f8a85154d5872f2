use level6::disk_image::convert::{convert_to_raw, ConvertOpts, RawImageFormat};
use level6::disk_image::disk_parameters::{DiskFormatDefaults, DiskParameters, DiskTrackFormat};
use level6::disk_image::encode::encode_disk;
use level6::disk_image::errors::{ConvertError, ConvertErrorType};
use level6::disk_image::hfe::{
    do_weird_hfe_track_encoding, floppy_interface_mode_from_track_format, make_hfe_file,
    pack_track, pad_to_block, reverse_bits, reverse_byte, track_to_parts, FloppyInterfaceMode,
    HFEFileHeader, HFETrackOffsetLUT, HFETrackOffsetLUTEntry, TrackEncoding,
};

fn small_disk() -> DiskParameters {
    DiskParameters {
        track_format: DiskTrackFormat::IBM3470,
        n_sides: 2,
        n_cylinders: 3,
        sectors_per_track: 4,
        bytes_per_sector: 16,
        cell_rate: 250,
        rpm: 1500,
        sector_interleave: 1,
    }
}

#[test]
fn bits_are_reversed() {
    for byte in 0..=255u8 {
        assert_eq!(reverse_byte(byte), byte.reverse_bits());
    }
    assert_eq!(reverse_bits(&[0x01, 0x80, 0xA0, 0xFF]), vec![0x80, 0x01, 0x05, 0xFF]);
    assert_eq!(reverse_bits(&[]), Vec::<u8>::new());
}

#[test]
fn track_bits_are_spread_and_reversed() {
    // 1011 0000 -> 0100 0101 0000 0000, and each byte with its bits reversed
    assert_eq!(do_weird_hfe_track_encoding(&vec![0xB0]), vec![0xA2, 0x00]);
    assert_eq!(
        do_weird_hfe_track_encoding(&vec![0xFF, 0x00, 0x01]),
        vec![0xAA, 0xAA, 0x00, 0x00, 0x00, 0x80]
    );
    assert_eq!(do_weird_hfe_track_encoding(&vec![]), Vec::<u8>::new());
}

#[test]
fn header_bytes() {
    let header = HFEFileHeader::make(&DiskFormatDefaults::ibm8dssd());
    assert_eq!(header.header_signature, *b"HXCPICFE");
    assert_eq!(header.n_tracks, 77);
    assert_eq!(header.n_sides, 2);
    assert_eq!(header.track_encoding, TrackEncoding::IsoIbmFmEncoding);
    assert_eq!(
        header.as_bytes(),
        vec![
            b'H', b'X', b'C', b'P', b'I', b'C', b'F', b'E', 0, 77, 2, 0x02, 0xF4, 0x01, 0x68,
            0x01, 0x07, 0x01, 0x01, 0x00, 0xFF, 0xFF, 0xFF, 0xFF, 0xFF, 0xFF
        ]
    );
    assert_eq!(TrackEncoding::UnknownEncoding.code(), 0xFF);
    assert_eq!(FloppyInterfaceMode::GenericShugartDD.code(), 0x07);
    assert_eq!(
        floppy_interface_mode_from_track_format(&DiskTrackFormat::IBM3470),
        TrackEncoding::IsoIbmFmEncoding
    );
    let mut wide = DiskFormatDefaults::level6();
    wide.n_cylinders = 0x1234;
    assert_eq!(HFEFileHeader::make(&wide).n_tracks, 0x34);
}

#[test]
fn list_of_tracks() {
    let mut lut = HFETrackOffsetLUT::new();
    assert_eq!(lut.as_bytes(), Vec::<u8>::new());
    lut.add_track(3, 0x1234);
    lut.add_track(0x0102, 4);
    assert_eq!(
        lut.as_bytes(),
        vec![0x03, 0x00, 0x34, 0x12, 0x02, 0x01, 0x04, 0x00]
    );
    assert_eq!(
        HFETrackOffsetLUTEntry {
            offset: 0xABCD,
            track_len: 1
        }
        .as_bytes(),
        vec![0xCD, 0xAB, 0x01, 0x00]
    );
}

#[test]
fn blocks_are_padded() {
    assert_eq!(pad_to_block(&vec![1, 2], 4), vec![1, 2, 0xFF, 0xFF]);
    assert_eq!(pad_to_block(&vec![1, 2], 2), vec![1, 2]);
    assert_eq!(pad_to_block(&vec![], 3), vec![0xFF; 3]);
    let parts = track_to_parts(vec![7; 300]);
    assert_eq!(parts.len(), 2);
    assert_eq!(parts[0], vec![7; 256]);
    let mut last = vec![7; 44];
    last.extend_from_slice(&[0; 212]);
    assert_eq!(parts[1], last);
    assert_eq!(track_to_parts(vec![]), Vec::<Vec<u8>>::new());
}

#[test]
fn sides_alternate_in_the_blocks() {
    let side0 = vec![0xFFu8; 200];
    let side1 = vec![0x00u8; 100];
    let (data, blocks) = pack_track(&vec![side0.clone(), side1.clone()]);
    assert_eq!(blocks, 2);
    assert_eq!(data.len(), 1024);
    assert_eq!(&data[0..256], &[0xAAu8; 256][..]);
    assert_eq!(&data[256..456], &[0x00u8; 200][..]);
    assert_eq!(&data[512..656], &[0xAAu8; 144][..]);
    assert_eq!(&data[656..768], &[0x00u8; 112][..]);
    // side 1 has no second part: the pad value stands there
    assert_eq!(&data[768..1024], &[0x00u8; 256][..]);
    let (data, blocks) = pack_track(&vec![side0]);
    assert_eq!(blocks, 2);
    assert_eq!(&data[256..512], &[0x00u8; 256][..]);
    assert_eq!(pack_track(&vec![vec![]]), (vec![], 0));
}

#[test]
fn file_of_a_small_disk() {
    let parameters = small_disk();
    let sectors: Vec<Vec<u8>> = (0..24).map(|i| vec![i as u8; 16]).collect();
    let disk = encode_disk(&sectors, &parameters).unwrap();
    let track_len = disk[0][0].len();
    // 60000 * 250 / (1500 * 8) = 1250 bytes in a turn, of which 100 are left out
    assert_eq!(track_len, 1150);
    let file = make_hfe_file(&disk, &parameters).unwrap();
    let blocks_per_track = (2 * track_len + 255) / 256;
    assert_eq!(file.len(), 512 + 1024 + 3 * blocks_per_track * 512);
    assert_eq!(&file[0..26], &HFEFileHeader::make(&parameters).as_bytes()[..]);
    assert!(file[26..512].iter().all(|byte| *byte == 0xFF));
    let mut lut = HFETrackOffsetLUT::new();
    for cylinder in 0..3u16 {
        lut.add_track(3 + cylinder * blocks_per_track as u16, 4 * track_len as u16);
    }
    assert_eq!(&file[512..524], &lut.as_bytes()[..]);
    assert!(file[524..1536].iter().all(|byte| *byte == 0xFF));
    let mut tracks = vec![];
    for cylinder in &disk {
        tracks.extend_from_slice(&pack_track(cylinder).0);
    }
    assert_eq!(&file[1536..], &tracks[..]);

    let mut three_sides = parameters;
    three_sides.n_sides = 3;
    assert_eq!(
        make_hfe_file(&disk, &three_sides),
        Err("Too many sides for HFE file: 3".to_owned())
    );
    assert_eq!(
        make_hfe_file(&vec![vec![vec![0; 16384]]], &parameters),
        Err("Track too big for HFE file".to_owned())
    );
    assert_eq!(make_hfe_file(&vec![], &parameters).unwrap().len(), 1536);
}

#[test]
fn image_is_converted() {
    let parameters = small_disk();
    let opts = ConvertOpts {
        ignore_errors: false,
        disk_parameters: parameters,
        out_file_format: RawImageFormat::HFE,
    };
    let image: Vec<u8> = (0..24 * 16).map(|i| (i % 251) as u8).collect();
    let sectors: Vec<Vec<u8>> = image.chunks(16).map(|c| c.to_vec()).collect();
    let expected = make_hfe_file(&encode_disk(&sectors, &parameters).unwrap(), &parameters);
    assert_eq!(convert_to_raw(image.clone(), opts), Ok(expected.clone().unwrap()));

    let mut short = image.clone();
    short.truncate(23 * 16 + 5);
    assert_eq!(
        convert_to_raw(short.clone(), opts),
        Err(ConvertError::new(ConvertErrorType::SectorDivision))
    );
    short.truncate(23 * 16);
    assert_eq!(
        convert_to_raw(short.clone(), opts),
        Err(ConvertError::new(ConvertErrorType::SectorNumber(24, 23)))
    );
    let lenient = ConvertOpts {
        ignore_errors: true,
        ..opts
    };
    let mut padded = short.clone();
    padded.extend_from_slice(&[0; 16]);
    assert_eq!(
        convert_to_raw(short, lenient),
        convert_to_raw(padded, opts)
    );
    let mut long = image.clone();
    long.extend_from_slice(&[9; 40]);
    assert_eq!(convert_to_raw(long, lenient), Ok(expected.unwrap()));

    let mut slow = opts;
    slow.disk_parameters.cell_rate = 1;
    assert_eq!(
        convert_to_raw(image.clone(), slow),
        Err(ConvertError::new(ConvertErrorType::DiskEncoding(
            "Track too large".to_owned()
        )))
    );
    let mut fast = opts;
    fast.disk_parameters.rpm = 1;
    fast.disk_parameters.cell_rate = 500;
    assert_eq!(
        convert_to_raw(image, fast),
        Err(ConvertError::new(ConvertErrorType::RawImageCreation(
            "Track too big for HFE file".to_owned()
        )))
    );
}
