use vstd::prelude::*;

verus! {

/// Smallest size, in bytes, that a generated file aims at.
pub const MIN_FILE_TARGET: usize = 2048;

/// Largest size, in bytes, that a generated file aims at.
pub const MAX_FILE_TARGET: usize = 16384;

/// Average byte budget of one folder: the total budget split evenly.
pub open spec fn avg_folder_size_of(num_folders: nat, disk_size: nat) -> nat
    recommends
        num_folders > 0,
{
    disk_size / num_folders
}

/// The "average file size" used to derive the file count: the mean of the
/// folder budget divided by the largest and by the smallest file target,
/// each step rounded down.
pub open spec fn size_divisor(avg: nat) -> nat {
    (avg / 16384 + avg / 2048) / 2
}

/// Files per folder for a folder budget. When the divisor rounds down to
/// zero the count is unbounded (the largest `usize`), and the folder's byte
/// budget alone ends its file loop.
pub open spec fn files_per_folder_of(avg: nat) -> nat {
    if size_divisor(avg) == 0 {
        usize::MAX as nat
    } else {
        avg / size_divisor(avg)
    }
}

/// The folder plan `(avg_folder_size, files_per_folder)` of a request.
pub open spec fn folder_plan(num_folders: nat, disk_size: nat) -> (nat, nat)
    recommends
        num_folders > 0,
{
    let avg = avg_folder_size_of(num_folders, disk_size);
    (avg, files_per_folder_of(avg))
}

/// Computes the folder plan: the average byte budget of a folder and the
/// number of files to create in each folder.
///
/// A folder budget under 4096 bytes makes the divisor zero; rather than
/// fault, the file count is then the largest `usize`, and the run relies on
/// the folder's byte budget to end each file loop.
pub fn calculate_num_files(num_folders: usize, disk_size: &usize) -> (r: (usize, usize))
    requires
        num_folders > 0,
    ensures
        (r.0 as nat, r.1 as nat) == folder_plan(num_folders as nat, *disk_size as nat),
        r.0 <= *disk_size,
{
    let avg_folder_size: usize = *disk_size / num_folders;
    let max_file_size: usize = avg_folder_size / MAX_FILE_TARGET;
    let min_file_size: usize = avg_folder_size / MIN_FILE_TARGET;
    assert(max_file_size <= min_file_size) by (nonlinear_arith)
        requires
            max_file_size == avg_folder_size / 16384,
            min_file_size == avg_folder_size / 2048,
    ;
    let divisor: usize = (max_file_size + min_file_size) / 2;
    let num_files: usize = if divisor == 0 {
        usize::MAX
    } else {
        avg_folder_size / divisor
    };
    (avg_folder_size, num_files)
}

/// The folder plan depends on the request alone: two requests with the same
/// folder count and the same budget get the same plan.
pub proof fn lemma_plan_deterministic(
    num_folders_a: nat,
    disk_size_a: nat,
    num_folders_b: nat,
    disk_size_b: nat,
)
    requires
        num_folders_a > 0,
        num_folders_a == num_folders_b,
        disk_size_a == disk_size_b,
    ensures
        folder_plan(num_folders_a, disk_size_a) == folder_plan(num_folders_b, disk_size_b),
{
}

} // verus!
