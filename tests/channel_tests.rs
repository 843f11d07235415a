use eegui::chaninfo::{chunk_rows, ChanInfo};
use eegui::display::{adjust_samples, min_max_finder, palette_index};

#[test]
fn new_chan_info() {
    let c = ChanInfo::new();
    assert_eq!(c.description, "");
    assert!(c.eeg_checked && !c.marker_checked && !c.battery_checked);
    assert!(c.eeg_indices.is_empty());
    assert_eq!((c.marker_index, c.battery_index), (0, 0));
}

#[test]
fn default_chan_info() {
    let c = ChanInfo::default();
    assert_eq!(c.description, "");
    assert!(c.eeg_checked && !c.marker_checked && !c.battery_checked);
    assert!(c.eeg_indices.is_empty());
    assert_eq!((c.marker_index, c.battery_index), (0, 0));
}

#[test]
fn collect_records_board() {
    let mut c = ChanInfo::new();
    c.collect("Synthetic".to_string(), vec![5, 1, 3, 1], 9, 3);
    assert_eq!(c.description, "Synthetic");
    assert_eq!(c.eeg_indices, vec![5, 1, 3, 1]);
    assert_eq!((c.marker_index, c.battery_index), (9, 3));
    assert!(c.eeg_checked);
}

#[test]
fn selected_channels_sorted_and_unique() {
    let mut c = ChanInfo::new();
    c.collect("b".to_string(), vec![5, 1, 3, 1], 9, 3);
    assert_eq!(c.selected_channels(), vec![1, 3, 5]);
    c.marker_checked = true;
    assert_eq!(c.selected_channels(), vec![1, 3, 5, 9]);
    c.battery_checked = true;
    assert_eq!(c.selected_channels(), vec![1, 3, 5, 9]);
    c.eeg_checked = false;
    assert_eq!(c.selected_channels(), vec![3, 9]);
    c.marker_checked = false;
    c.battery_checked = false;
    assert_eq!(c.selected_channels(), Vec::<usize>::new());
}

#[test]
fn rows_of_two() {
    assert_eq!(chunk_rows(&vec![1, 3, 5, 9, 11], 2), vec![vec![1, 3], vec![5, 9], vec![11]]);
    assert_eq!(chunk_rows(&vec![1, 3, 5, 9], 2), vec![vec![1, 3], vec![5, 9]]);
    assert_eq!(chunk_rows(&vec![], 2), Vec::<Vec<usize>>::new());
    assert_eq!(chunk_rows(&vec![4, 2], 5), vec![vec![4, 2]]);
}

#[test]
fn fit_range_widens_by_five_percent() {
    assert_eq!(min_max_finder(&vec![5, -3, 17]), (-4, 18));
    assert_eq!(min_max_finder(&vec![0, 1000]), (-50, 1050));
    assert_eq!(min_max_finder(&vec![0, 1001]), (-51, 1052));
}

#[test]
fn fit_range_of_equal_values() {
    assert_eq!(min_max_finder(&vec![7]), (6, 8));
    assert_eq!(min_max_finder(&vec![-2, -2, -2]), (-3, -1));
}

#[test]
fn sample_keys() {
    assert_eq!(adjust_samples(1000, true), 1010);
    assert_eq!(adjust_samples(1995, true), 2000);
    assert_eq!(adjust_samples(2000, true), 2000);
    assert_eq!(adjust_samples(1000, false), 990);
    assert_eq!(adjust_samples(105, false), 100);
    assert_eq!(adjust_samples(100, false), 100);
}

#[test]
fn palette_cycles() {
    assert_eq!(palette_index(1), 0);
    assert_eq!(palette_index(16), 15);
    assert_eq!(palette_index(17), 0);
    assert_eq!(palette_index(34), 1);
}
