use vstd::prelude::*;
use vstd::slice::slice_subrange;
use crate::disk_image::conversion::sectors_view;
use crate::disk_image::disk_parameters::{DiskParameters, DiskTrackFormat};
use crate::disk_image::ibm3470::{spec_encode_track, track_result_view};

verus! {

/// Number of slots of a track that are taken.
pub open spec fn spec_count_used(used: Seq<bool>) -> nat
    decreases used.len(),
{
    if used.len() == 0 {
        0
    } else {
        spec_count_used(used.drop_last()) + (if used.last() {
            1nat
        } else {
            0nat
        })
    }
}

/// The slot after `slot` on a track of `n` slots, which is a circle.
pub open spec fn spec_next_slot(slot: int, n: int) -> int {
    if slot + 1 >= n {
        0
    } else {
        slot + 1
    }
}

/// The slot that lies `steps` slots after `start` on a track of `n` slots, for
/// less than `n` steps.
pub open spec fn spec_slot_after(start: int, steps: int, n: int) -> int {
    if start + steps >= n {
        start + steps - n
    } else {
        start + steps
    }
}

/// The first free slot at or after `from`, going around the track at most
/// `fuel` slots far.
pub open spec fn spec_first_free(used: Seq<bool>, from: int, fuel: nat) -> int
    decreases fuel,
{
    if fuel == 0 || from < 0 || from >= used.len() || !used[from] {
        from
    } else {
        spec_first_free(used, spec_next_slot(from, used.len() as int), (fuel - 1) as nat)
    }
}

/// Which slots of a track of `n` slots are taken by the sectors placed so far.
pub open spec fn spec_used_slots(positions: Seq<int>, n: nat) -> Seq<bool> {
    Seq::new(n, |p: int| positions.contains(p))
}

/// Distance between two sectors that follow each other: the interleave, and at
/// least one slot.
pub open spec fn spec_stride(interleave: u16) -> int {
    if interleave > 1 {
        interleave as int
    } else {
        1
    }
}

/// The slots of the first `count` logical sectors on a track of `n` slots.
///
/// The first sector lies in slot 0. Each other sector lies in the first free
/// slot that is at least the stride behind the sector before it, where the
/// track is a circle.
pub open spec fn spec_interleave_positions(n: nat, interleave: u16, count: nat) -> Seq<int>
    decreases count,
{
    if count == 0 || n == 0 {
        Seq::empty()
    } else if count == 1 {
        seq![0int]
    } else {
        let before = spec_interleave_positions(n, interleave, (count - 1) as nat);
        before.push(
            spec_first_free(
                spec_used_slots(before, n),
                (before.last() + spec_stride(interleave)) % (n as int),
                n,
            ),
        )
    }
}

/// The interleave map after the first `count` logical sectors were placed:
/// for each slot of the track the logical sector that lies there, and 0 for a
/// slot that is still free.
pub open spec fn spec_partial_interleave_map(n: nat, interleave: u16, count: nat) -> Seq<u16>
    decreases count,
{
    if count == 0 || count > n {
        Seq::new(n, |p: int| 0u16)
    } else {
        spec_partial_interleave_map(n, interleave, (count - 1) as nat).update(
            spec_interleave_positions(n, interleave, count)[count - 1],
            (count - 1) as u16,
        )
    }
}

/// The interleave map of a track: for each slot the logical sector that lies
/// there.
pub open spec fn spec_interleave_map(n_sectors: u16, interleave: u16) -> Seq<u16> {
    spec_partial_interleave_map(n_sectors as nat, interleave, n_sectors as nat)
}

proof fn lemma_count_bound(used: Seq<bool>)
    ensures
        spec_count_used(used) <= used.len(),
        spec_count_used(used) < used.len() ==> exists|i: int| 0 <= i < used.len() && !used[i],
        spec_count_used(used) == used.len() ==> forall|i: int| 0 <= i < used.len() ==> used[i],
    decreases used.len(),
{
    if used.len() > 0 {
        lemma_count_bound(used.drop_last());
        if spec_count_used(used) < used.len() {
            if !used.last() {
                assert(!used[used.len() - 1]);
            } else {
                let i = choose|i: int| 0 <= i < used.drop_last().len() && !used.drop_last()[i];
                assert(!used[i]);
            }
        }
        if spec_count_used(used) == used.len() {
            assert forall|i: int| 0 <= i < used.len() implies used[i] by {
                if i < used.len() - 1 {
                    assert(used.drop_last()[i]);
                }
            }
        }
    }
}

proof fn lemma_count_all_used(used: Seq<bool>)
    requires
        forall|i: int| 0 <= i < used.len() ==> used[i],
    ensures
        spec_count_used(used) == used.len(),
    decreases used.len(),
{
    if used.len() > 0 {
        assert forall|i: int| 0 <= i < used.drop_last().len() implies used.drop_last()[i] by {
            assert(used[i]);
        }
        lemma_count_all_used(used.drop_last());
    }
}

proof fn lemma_count_take(used: Seq<bool>, slot: int)
    requires
        0 <= slot < used.len(),
        !used[slot],
    ensures
        spec_count_used(used.update(slot, true)) == spec_count_used(used) + 1,
    decreases used.len(),
{
    let after = used.update(slot, true);
    if slot == used.len() - 1 {
        assert(after.drop_last() =~= used.drop_last());
    } else {
        assert(after.drop_last() =~= used.drop_last().update(slot, true));
        lemma_count_take(used.drop_last(), slot);
    }
}

/// Computes for each slot of a track the logical sector that lies there.
pub fn calc_interleave_map(n_sectors: u16, interleave: u16) -> (map: Vec<u16>)
    ensures
        map@ == spec_interleave_map(n_sectors, interleave),
        map@.len() == n_sectors,
        forall|p: int| 0 <= p < n_sectors ==> 0 <= #[trigger] map@[p] < n_sectors,
        forall|k: int|
            0 <= k < n_sectors ==> 0 <= (#[trigger] spec_interleave_positions(
                n_sectors as nat,
                interleave,
                n_sectors as nat,
            )[k]) < n_sectors && map@[spec_interleave_positions(
                n_sectors as nat,
                interleave,
                n_sectors as nat,
            )[k]] == k,
{
    let n = n_sectors as usize;
    let mut res: Vec<u16> = vec![0; n];
    let mut used: Vec<bool> = vec![false; n];
    let stride: u32 = if interleave > 1 {
        interleave as u32
    } else {
        1
    };
    let ghost mut positions: Seq<int> = Seq::empty();
    let mut last: usize = 0;
    let mut log_sec: u16 = 0;
    proof {
        assert forall|i: int| 0 <= i < used@.len() implies !used@[i] by {}
        assert(used@ =~= spec_used_slots(positions, n as nat));
        lemma_count_zero(used@);
        assert(res@ =~= spec_partial_interleave_map(n as nat, interleave, 0));
    }
    // Place all the physical sectors
    while log_sec < n_sectors
        invariant
            n == n_sectors,
            log_sec <= n_sectors,
            stride == spec_stride(interleave),
            res.len() == n,
            used.len() == n,
            positions == spec_interleave_positions(n as nat, interleave, log_sec as nat),
            positions.len() == log_sec,
            res@ == spec_partial_interleave_map(n as nat, interleave, log_sec as nat),
            forall|p: int| 0 <= p < n ==> (#[trigger] res@[p]) < n_sectors || n_sectors == 0,
            used@ == spec_used_slots(positions, n as nat),
            spec_count_used(used@) == log_sec,
            log_sec > 0 ==> last == positions.last(),
            forall|k: int|
                0 <= k < log_sec ==> 0 <= (#[trigger] positions[k]) < n && res@[positions[k]]
                    == k,
        decreases n_sectors - log_sec,
    {
        // Find the slot where the search starts
        let start: usize = if log_sec == 0 {
            0
        } else {
            ((last as u32 + stride) % (n as u32)) as usize
        };
        // Find non used sector
        let mut curs = start;
        let mut steps: usize = 0;
        proof {
            lemma_count_bound(used@);
        }
        while used[curs]
            invariant
                n == n_sectors,
                used.len() == n,
                0 <= start < n,
                0 <= curs < n,
                steps < n,
                spec_count_used(used@) < n,
                curs == spec_slot_after(start as int, steps as int, n as int),
                forall|j: int|
                    0 <= j < steps ==> used@[#[trigger] spec_slot_after(
                        start as int,
                        j,
                        n as int,
                    )],
                spec_first_free(used@, start as int, n as nat) == spec_first_free(
                    used@,
                    curs as int,
                    (n - steps) as nat,
                ),
            decreases n - steps,
        {
            proof {
                if steps + 1 == n {
                    assert forall|u: int| 0 <= u < n implies used@[u] by {
                        let j = if u >= start {
                            u - start
                        } else {
                            u - start + n
                        };
                        assert(spec_slot_after(start as int, j, n as int) == u);
                        if j < steps {
                            assert(used@[spec_slot_after(start as int, j, n as int)]);
                        }
                    }
                    lemma_count_all_used(used@);
                }
            }
            // Move cursor to next sector
            curs = curs + 1;
            if curs >= n {
                curs = 0;
            }
            steps = steps + 1;
        }
        // Place logical sector in interleave map
        proof {
            let before = positions;
            positions = positions.push(curs as int);
            lemma_count_take(used@, curs as int);
            assert(!before.contains(curs as int));
            assert(spec_used_slots(positions, n as nat) =~= used@.update(curs as int, true)) by {
                assert forall|p: int| 0 <= p < n implies positions.contains(p) == (p == curs
                    || before.contains(p)) by {
                    if before.contains(p) {
                        let i = choose|i: int| 0 <= i < before.len() && before[i] == p;
                        assert(positions[i] == p);
                    }
                    if p == curs {
                        assert(positions[positions.len() - 1] == p);
                    }
                    if positions.contains(p) {
                        let i = choose|i: int| 0 <= i < positions.len() && positions[i] == p;
                        if i < before.len() {
                            assert(before[i] == p);
                        }
                    }
                }
            }
            assert forall|k: int| 0 <= k < log_sec implies before[k] != curs by {
                assert(before.contains(before[k]));
            }
            if log_sec > 0 {
                assert(positions.drop_last() =~= before);
            }
        }
        res.set(curs, log_sec);
        used.set(curs, true);
        last = curs;
        log_sec = log_sec + 1;
    }
    res
}

proof fn lemma_count_zero(used: Seq<bool>)
    requires
        forall|i: int| 0 <= i < used.len() ==> !used[i],
    ensures
        spec_count_used(used) == 0,
    decreases used.len(),
{
    if used.len() > 0 {
        assert forall|i: int| 0 <= i < used.drop_last().len() implies !used.drop_last()[i] by {
            assert(!used[i]);
        }
        lemma_count_zero(used.drop_last());
    }
}

/// Whether a list of sectors is that of a disk: as many sectors as the disk
/// has, each of the size of the disk's sectors.
pub open spec fn spec_sectors_fit(sectors: Seq<Seq<u8>>, disk_parameters: DiskParameters) -> bool {
    &&& sectors.len() == disk_parameters.sectors_per_track * disk_parameters.n_sides
        * disk_parameters.n_cylinders
    &&& forall|i: int|
        0 <= i < sectors.len() ==> (#[trigger] sectors[i]).len()
            == disk_parameters.bytes_per_sector
}

/// Index of the first sector of a track in the list of sectors: the tracks
/// follow each other cylinder by cylinder, and side by side in a cylinder.
pub open spec fn spec_track_start(disk_parameters: DiskParameters, cyl_n: int, side_n: int) -> int {
    disk_parameters.sectors_per_track * (side_n + disk_parameters.n_sides * cyl_n)
}

/// The sectors of a track.
pub open spec fn spec_track_sectors(
    sectors: Seq<Seq<u8>>,
    disk_parameters: DiskParameters,
    cyl_n: int,
    side_n: int,
) -> Seq<Seq<u8>> {
    sectors.subrange(
        spec_track_start(disk_parameters, cyl_n, side_n),
        spec_track_start(disk_parameters, cyl_n, side_n) + disk_parameters.sectors_per_track,
    )
}

/// A track of a disk in the layout that the parameters name.
pub open spec fn spec_encode_disk_track(
    sectors: Seq<Seq<u8>>,
    disk_parameters: DiskParameters,
    cyl_n: u16,
    side_n: u16,
) -> Result<Seq<u8>, Seq<char>> {
    match disk_parameters.track_format {
        DiskTrackFormat::IBM3470 => spec_encode_track(
            spec_track_sectors(sectors, disk_parameters, cyl_n as int, side_n as int),
            disk_parameters,
            cyl_n,
            side_n,
        ),
    }
}

/// The tracks of the first `sides` sides of a cylinder, or the message of the
/// first track that could not be encoded.
pub open spec fn spec_encode_cylinder(
    sectors: Seq<Seq<u8>>,
    disk_parameters: DiskParameters,
    cyl_n: u16,
    sides: int,
) -> Result<Seq<Seq<u8>>, Seq<char>>
    decreases sides,
{
    if sides <= 0 || sides > u16::MAX {
        Ok(Seq::empty())
    } else {
        match spec_encode_cylinder(sectors, disk_parameters, cyl_n, sides - 1) {
            Err(message) => Err(message),
            Ok(tracks) => match spec_encode_disk_track(
                sectors,
                disk_parameters,
                cyl_n,
                (sides - 1) as u16,
            ) {
                Err(message) => Err(message),
                Ok(track) => Ok(tracks.push(track)),
            },
        }
    }
}

/// The first `cylinders` cylinders of a disk, or the message of the first
/// track that could not be encoded.
pub open spec fn spec_encode_disk(
    sectors: Seq<Seq<u8>>,
    disk_parameters: DiskParameters,
    cylinders: int,
) -> Result<Seq<Seq<Seq<u8>>>, Seq<char>>
    decreases cylinders,
{
    if cylinders <= 0 || cylinders > u16::MAX {
        Ok(Seq::empty())
    } else {
        match spec_encode_disk(sectors, disk_parameters, cylinders - 1) {
            Err(message) => Err(message),
            Ok(disk) => match spec_encode_cylinder(
                sectors,
                disk_parameters,
                (cylinders - 1) as u16,
                disk_parameters.n_sides as int,
            ) {
                Err(message) => Err(message),
                Ok(cylinder) => Ok(disk.push(cylinder)),
            },
        }
    }
}

/// The model of a list of cylinders.
pub open spec fn cylinders_view(cylinders: Seq<Vec<Vec<u8>>>) -> Seq<Seq<Seq<u8>>> {
    Seq::new(cylinders.len(), |i: int| sectors_view(cylinders[i]@))
}

/// The model of a cylinder or a message.
pub open spec fn cylinder_result_view(r: Result<Vec<Vec<u8>>, String>) -> Result<
    Seq<Seq<u8>>,
    Seq<char>,
> {
    match r {
        Ok(tracks) => Ok(sectors_view(tracks@)),
        Err(message) => Err(message@),
    }
}

/// The model of a disk or a message.
pub open spec fn disk_result_view(r: Result<Vec<Vec<Vec<u8>>>, String>) -> Result<
    Seq<Seq<Seq<u8>>>,
    Seq<char>,
> {
    match r {
        Ok(cylinders) => Ok(cylinders_view(cylinders@)),
        Err(message) => Err(message@),
    }
}

proof fn lemma_track_in_range(disk_parameters: DiskParameters, cyl_n: int, side_n: int)
    requires
        0 <= cyl_n < disk_parameters.n_cylinders,
        0 <= side_n < disk_parameters.n_sides,
    ensures
        0 <= spec_track_start(disk_parameters, cyl_n, side_n),
        spec_track_start(disk_parameters, cyl_n, side_n) + disk_parameters.sectors_per_track
            <= disk_parameters.sectors_per_track * disk_parameters.n_sides
            * disk_parameters.n_cylinders,
        side_n + disk_parameters.n_sides * cyl_n <= 0xFFFF * 0x1_0000,
        spec_track_start(disk_parameters, cyl_n, side_n) <= 0xFFFF * 0xFFFF * 0x1_0000,
{
    let spt = disk_parameters.sectors_per_track as int;
    let sides = disk_parameters.n_sides as int;
    let cyls = disk_parameters.n_cylinders as int;
    assert(side_n + sides * cyl_n + 1 <= sides * cyls) by (nonlinear_arith)
        requires
            0 <= cyl_n < cyls,
            0 <= side_n < sides,
    ;
    assert(spt * (side_n + sides * cyl_n) + spt <= spt * sides * cyls) by (nonlinear_arith)
        requires
            side_n + sides * cyl_n + 1 <= sides * cyls,
            0 <= spt,
    ;
    assert(0 <= spt * (side_n + sides * cyl_n)) by (nonlinear_arith)
        requires
            0 <= spt,
            0 <= side_n,
            0 <= sides,
            0 <= cyl_n,
    ;
    assert(side_n + sides * cyl_n <= 0xFFFF * 0x1_0000) by (nonlinear_arith)
        requires
            0 <= cyl_n <= 0xFFFF,
            0 <= side_n <= 0xFFFF,
            0 <= sides <= 0xFFFF,
    ;
    assert(spt * (side_n + sides * cyl_n) <= 0xFFFF * 0xFFFF * 0x1_0000) by (nonlinear_arith)
        requires
            0 <= spt <= 0xFFFF,
            0 <= side_n + sides * cyl_n <= 0xFFFF * 0x1_0000,
    ;
}

/// Encode one track
fn encode_track(
    sectors: &Vec<Vec<u8>>,
    disk_parameters: &DiskParameters,
    cyl_n: u16,
    side_n: u16,
) -> (track: Result<Vec<u8>, String>)
    requires
        disk_parameters.rpm > 0,
        cyl_n < disk_parameters.n_cylinders,
        side_n < disk_parameters.n_sides,
        spec_sectors_fit(sectors_view(sectors@), *disk_parameters),
    ensures
        track_result_view(track) == spec_encode_disk_track(
            sectors_view(sectors@),
            *disk_parameters,
            cyl_n,
            side_n,
        ),
{
    proof {
        lemma_track_in_range(*disk_parameters, cyl_n as int, side_n as int);
    }
    // Compute start and end sector of this track
    let track_index: u64 = side_n as u64 + disk_parameters.n_sides as u64 * cyl_n as u64;
    let start_sector_wide: u64 = disk_parameters.sectors_per_track as u64 * track_index;
    assert(start_sector_wide == spec_track_start(*disk_parameters, cyl_n as int, side_n as int));
    let total = sectors.len();
    assert(sectors_view(sectors@).len() == total);
    assert(start_sector_wide + disk_parameters.sectors_per_track <= total);
    let start_sector: usize = start_sector_wide as usize;
    let end_sector: usize = start_sector + disk_parameters.sectors_per_track as usize;
    let track_sectors = slice_subrange(sectors.as_slice(), start_sector, end_sector);
    proof {
        assert(sectors_view(track_sectors@) =~= spec_track_sectors(
            sectors_view(sectors@),
            *disk_parameters,
            cyl_n as int,
            side_n as int,
        ));
        assert forall|i: int| 0 <= i < track_sectors@.len() implies (#[trigger] track_sectors@[i]).len()
            == disk_parameters.bytes_per_sector by {
            assert(track_sectors@[i]@ == sectors_view(sectors@)[start_sector + i]);
        }
    }
    // Encode track to appropriate format
    match disk_parameters.track_format {
        DiskTrackFormat::IBM3470 => crate::disk_image::ibm3470::encode_track(
            track_sectors,
            disk_parameters,
            cyl_n,
            side_n,
        ),
    }
}

/// Encode one cylinder in the disk
pub fn encode_cylinder(sectors: &Vec<Vec<u8>>, disk_parameters: &DiskParameters, cyl_n: u16) -> (cylinder:
    Result<Vec<Vec<u8>>, String>)
    requires
        disk_parameters.rpm > 0,
        cyl_n < disk_parameters.n_cylinders,
        spec_sectors_fit(sectors_view(sectors@), *disk_parameters),
    ensures
        cylinder_result_view(cylinder) == spec_encode_cylinder(
            sectors_view(sectors@),
            *disk_parameters,
            cyl_n,
            disk_parameters.n_sides as int,
        ),
{
    let mut cylinder: Vec<Vec<u8>> = Vec::new();
    let mut side_n: u16 = 0;
    assert(sectors_view(cylinder@) =~= Seq::<Seq<u8>>::empty());
    // Encode each side of this cylinder
    while side_n < disk_parameters.n_sides
        invariant
            side_n <= disk_parameters.n_sides,
            disk_parameters.rpm > 0,
            cyl_n < disk_parameters.n_cylinders,
            spec_sectors_fit(sectors_view(sectors@), *disk_parameters),
            spec_encode_cylinder(sectors_view(sectors@), *disk_parameters, cyl_n, side_n as int)
                == Ok::<Seq<Seq<u8>>, Seq<char>>(sectors_view(cylinder@)),
        decreases disk_parameters.n_sides - side_n,
    {
        // Encode this side
        let track = match encode_track(sectors, disk_parameters, cyl_n, side_n) {
            Ok(track) => track,
            Err(msg) => {
                proof {
                    lemma_cylinder_error(
                        sectors_view(sectors@),
                        *disk_parameters,
                        cyl_n,
                        side_n + 1,
                        disk_parameters.n_sides as int,
                    );
                }
                return Err(msg);
            },
        };
        // Add track to cylinder
        let ghost before = sectors_view(cylinder@);
        let ghost shown = track@;
        cylinder.push(track);
        assert(sectors_view(cylinder@) =~= before.push(shown));
        side_n = side_n + 1;
    }
    Ok(cylinder)
}

proof fn lemma_cylinder_error(
    sectors: Seq<Seq<u8>>,
    disk_parameters: DiskParameters,
    cyl_n: u16,
    failed: int,
    sides: int,
)
    requires
        0 < failed <= sides <= u16::MAX,
        spec_encode_cylinder(sectors, disk_parameters, cyl_n, failed) is Err,
    ensures
        spec_encode_cylinder(sectors, disk_parameters, cyl_n, sides) == spec_encode_cylinder(
            sectors,
            disk_parameters,
            cyl_n,
            failed,
        ),
    decreases sides - failed,
{
    if failed < sides {
        lemma_cylinder_error(sectors, disk_parameters, cyl_n, failed, sides - 1);
    }
}

proof fn lemma_disk_error(
    sectors: Seq<Seq<u8>>,
    disk_parameters: DiskParameters,
    failed: int,
    cylinders: int,
)
    requires
        0 < failed <= cylinders <= u16::MAX,
        spec_encode_disk(sectors, disk_parameters, failed) is Err,
    ensures
        spec_encode_disk(sectors, disk_parameters, cylinders) == spec_encode_disk(
            sectors,
            disk_parameters,
            failed,
        ),
    decreases cylinders - failed,
{
    if failed < cylinders {
        lemma_disk_error(sectors, disk_parameters, failed, cylinders - 1);
    }
}

/// Encode all cylinders in the disk
pub fn encode_disk(sectors: &Vec<Vec<u8>>, disk_parameters: &DiskParameters) -> (disk: Result<
    Vec<Vec<Vec<u8>>>,
    String,
>)
    requires
        disk_parameters.rpm > 0,
        spec_sectors_fit(sectors_view(sectors@), *disk_parameters),
    ensures
        disk_result_view(disk) == spec_encode_disk(
            sectors_view(sectors@),
            *disk_parameters,
            disk_parameters.n_cylinders as int,
        ),
{
    let mut cylinders: Vec<Vec<Vec<u8>>> = Vec::new();
    let mut cyl_n: u16 = 0;
    assert(cylinders_view(cylinders@) =~= Seq::<Seq<Seq<u8>>>::empty());
    // Encode each cylinder of the disk
    while cyl_n < disk_parameters.n_cylinders
        invariant
            cyl_n <= disk_parameters.n_cylinders,
            disk_parameters.rpm > 0,
            spec_sectors_fit(sectors_view(sectors@), *disk_parameters),
            spec_encode_disk(sectors_view(sectors@), *disk_parameters, cyl_n as int) == Ok::<
                Seq<Seq<Seq<u8>>>,
                Seq<char>,
            >(cylinders_view(cylinders@)),
        decreases disk_parameters.n_cylinders - cyl_n,
    {
        // Encode cylinder
        let cylinder = match encode_cylinder(sectors, disk_parameters, cyl_n) {
            Ok(cylinder) => cylinder,
            Err(msg) => {
                proof {
                    lemma_disk_error(
                        sectors_view(sectors@),
                        *disk_parameters,
                        cyl_n + 1,
                        disk_parameters.n_cylinders as int,
                    );
                }
                return Err(msg);
            },
        };
        let ghost before = cylinders_view(cylinders@);
        let ghost shown = sectors_view(cylinder@);
        cylinders.push(cylinder);
        assert(cylinders_view(cylinders@) =~= before.push(shown));
        cyl_n = cyl_n + 1;
    }
    Ok(cylinders)
}

} // verus!
