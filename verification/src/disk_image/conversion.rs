use vstd::prelude::*;

verus! {

/// Number of sectors that an image fills: the last one may be filled in part.
pub open spec fn spec_sector_count(image_len: nat, sector_size: nat) -> nat {
    if sector_size == 0 {
        0
    } else if image_len % sector_size == 0 {
        image_len / sector_size
    } else {
        image_len / sector_size + 1
    }
}

/// Sector `index` of an image: its bytes, and zeros where the image ends
/// before the sector does.
pub open spec fn spec_image_sector(image: Seq<u8>, sector_size: nat, index: int) -> Seq<u8> {
    Seq::new(
        sector_size,
        |i: int|
            if index * sector_size + i < image.len() {
                image[index * sector_size + i]
            } else {
                0u8
            },
    )
}

/// The sectors of an image. An image that does not end at the end of a sector
/// is refused, unless errors are to be ignored.
pub open spec fn spec_divide_data_image_sectors(
    image: Seq<u8>,
    sector_size: nat,
    ignore_errors: bool,
) -> Result<Seq<Seq<u8>>, ()> {
    if sector_size > 0 && image.len() % sector_size != 0 && !ignore_errors {
        Err(())
    } else {
        Ok(
            Seq::new(
                spec_sector_count(image.len(), sector_size),
                |k: int| spec_image_sector(image, sector_size, k),
            ),
        )
    }
}

/// The model of a list of sectors.
pub open spec fn sectors_view(sectors: Seq<Vec<u8>>) -> Seq<Seq<u8>> {
    Seq::new(sectors.len(), |i: int| sectors[i]@)
}

/// The model of the sectors of an image or a refusal.
pub open spec fn sectors_result_view(r: Result<Vec<Vec<u8>>, ()>) -> Result<Seq<Seq<u8>>, ()> {
    match r {
        Ok(sectors) => Ok(sectors_view(sectors@)),
        Err(e) => Err(e),
    }
}

/// Divide data image into vector of sectors with given size
pub fn divide_data_image_sectors(data_img: Vec<u8>, sector_size: u16, ignore_errors: bool) -> (sectors:
    Result<Vec<Vec<u8>>, ()>)
    requires
        sector_size > 0,
    ensures
        sectors_result_view(sectors) == spec_divide_data_image_sectors(
            data_img@,
            sector_size as nat,
            ignore_errors,
        ),
{
    let size = sector_size as usize;
    let len = data_img.len();
    let full = len / size;
    let remaining_bytes = len % size;
    proof {
        vstd::arithmetic::div_mod::lemma_fundamental_div_mod(len as int, size as int);
    }
    if remaining_bytes != 0 && !ignore_errors {
        // Sector boundary error
        return Err(());
    }
    let mut sectors: Vec<Vec<u8>> = Vec::new();
    // Convert image to sectors
    let mut k: usize = 0;
    let mut bytes_consumed: usize = 0;
    while k < full
        invariant
            k <= full,
            size == sector_size,
            size > 0,
            len == data_img@.len(),
            len == size * full + remaining_bytes,
            bytes_consumed == k * size,
            sectors.len() == k,
            forall|j: int|
                0 <= j < k ==> (#[trigger] sectors[j])@ == spec_image_sector(
                    data_img@,
                    size as nat,
                    j,
                ),
        decreases full - k,
    {
        assert(bytes_consumed + size <= len) by (nonlinear_arith)
            requires
                bytes_consumed == k * size,
                k < full,
                len == size * full + remaining_bytes,
                size > 0,
        ;
        // Valid sector boundary
        let mut this_sector: Vec<u8> = Vec::new();
        let mut i: usize = 0;
        while i < size
            invariant
                i <= size,
                bytes_consumed + size <= len,
                len == data_img@.len(),
                this_sector.len() == i,
                forall|m: int| 0 <= m < i ==> this_sector[m] == data_img@[bytes_consumed + m],
            decreases size - i,
        {
            this_sector.push(data_img[bytes_consumed + i]);
            i = i + 1;
        }
        assert(this_sector@ =~= spec_image_sector(data_img@, size as nat, k as int));
        sectors.push(this_sector);
        assert(bytes_consumed + size == (k + 1) * size) by (nonlinear_arith)
            requires
                bytes_consumed == k * size,
        ;
        bytes_consumed = bytes_consumed + size;
        k = k + 1;
    }
    assert(bytes_consumed + remaining_bytes == len) by (nonlinear_arith)
        requires
            bytes_consumed == full * size,
            len == size * full + remaining_bytes,
    ;
    if remaining_bytes != 0 {
        // Invalid sector boundary but we ignore errors: fill with zeroes
        let mut this_sector: Vec<u8> = Vec::new();
        let mut i: usize = 0;
        while i < size
            invariant
                i <= size,
                bytes_consumed + remaining_bytes == len,
                len == data_img@.len(),
                this_sector.len() == i,
                forall|m: int|
                    0 <= m < i ==> this_sector[m] == (if bytes_consumed + m < len {
                        data_img@[bytes_consumed + m]
                    } else {
                        0u8
                    }),
            decreases size - i,
        {
            if i < remaining_bytes {
                this_sector.push(data_img[bytes_consumed + i]);
            } else {
                this_sector.push(0);
            }
            i = i + 1;
        }
        assert(this_sector@ =~= spec_image_sector(data_img@, size as nat, full as int));
        sectors.push(this_sector);
    }
    assert(sectors_view(sectors@) =~= Seq::new(
        spec_sector_count(data_img@.len(), sector_size as nat),
        |k: int| spec_image_sector(data_img@, sector_size as nat, k),
    ));
    Ok(sectors)
}

} // verus!
