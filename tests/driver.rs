use file_craft::driver::{Action, Driver, RunCounters};

// Runs a driver to the end, writing every file with `size` bytes, and
// returns the number of files created in each folder.
fn run_with_size(d: &mut Driver, size: usize, max_steps: usize) -> Vec<usize> {
    let mut folders: Vec<usize> = Vec::new();
    for _ in 0..max_steps {
        match d.next_action() {
            Action::CreateFolder => {
                d.folder_created();
                folders.push(0);
            }
            Action::CreateFile { index } => {
                let last = folders.len() - 1;
                assert_eq!(index, folders[last]);
                assert!(d.can_record(size));
                d.file_written(size);
                folders[last] += 1;
            }
            Action::Finished => return folders,
        }
    }
    panic!("run did not finish");
}

#[test]
fn single_folder_first_file_over_budget() {
    let mut d = Driver::new(1, 100);
    assert_eq!(d.next_action(), Action::CreateFolder);
    d.folder_created();
    assert_eq!(d.next_action(), Action::CreateFile { index: 0 });
    d.file_written(3000);
    assert_eq!(d.next_action(), Action::Finished);
    assert_eq!(
        d.counters(),
        RunCounters { files_count: 1, bytes_written: 3000, complete_folder_size: 3000 }
    );
}

#[test]
fn new_driver_starts_empty() {
    let d = Driver::new(4, 40960);
    assert_eq!(d.plan(), (10240, 5120));
    assert_eq!(
        d.counters(),
        RunCounters { files_count: 0, bytes_written: 0, complete_folder_size: 0 }
    );
}

#[test]
fn no_folder_after_budget_exceeded() {
    // avg 2000 per folder; each folder takes one 5000-byte file
    let mut d = Driver::new(5, 10_000);
    let folders = run_with_size(&mut d, 5000, 100);
    assert_eq!(folders, vec![1, 1, 1]);
    assert_eq!(d.counters().complete_folder_size, 15_000);
    assert_eq!(d.next_action(), Action::Finished);
}

#[test]
fn never_more_folders_than_asked() {
    let mut d = Driver::new(3, 1_000_000_000);
    let folders = run_with_size(&mut d, 16384, 1_000_000);
    assert_eq!(folders.len(), 3);
}

#[test]
fn never_more_files_than_planned_per_folder() {
    let mut d = Driver::new(1, 2_000_000);
    let (_, per_folder) = d.plan();
    assert_eq!(per_folder, 2_000_000 / ((122 + 976) / 2));
    let folders = run_with_size(&mut d, 1, 1_000_000);
    assert_eq!(folders, vec![per_folder]);
}

#[test]
fn folder_stops_once_its_budget_is_reached() {
    // avg 10240 per folder: three files of 4000 bytes reach it
    let mut d = Driver::new(4, 40960);
    let folders = run_with_size(&mut d, 4000, 1000);
    assert_eq!(folders, vec![3, 3, 3, 3]);
    assert_eq!(d.counters().files_count, 12);
    assert_eq!(d.counters().bytes_written, 48_000);
}

#[test]
fn counters_track_exact_sizes() {
    let mut d = Driver::new(2, 1_000_000);
    let sizes = [2048usize, 3000, 16384, 7];
    let mut sum: usize = 0;
    assert_eq!(d.next_action(), Action::CreateFolder);
    d.folder_created();
    for (i, s) in sizes.iter().enumerate() {
        assert_eq!(d.next_action(), Action::CreateFile { index: i });
        d.file_written(*s);
        sum += *s;
        assert_eq!(d.counters().files_count, (i + 1) as u64);
        assert_eq!(d.counters().bytes_written, sum);
    }
    assert_eq!(d.counters().complete_folder_size, 0);
}

#[test]
fn counters_refuse_overflow() {
    let mut d = Driver::new(1, usize::MAX);
    assert_eq!(d.next_action(), Action::CreateFolder);
    d.folder_created();
    assert!(d.can_record(usize::MAX));
    d.file_written(usize::MAX - 1);
    assert!(d.can_record(1));
    assert!(!d.can_record(2));
}
