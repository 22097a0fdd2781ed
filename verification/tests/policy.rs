use omd_transfer::policy::{keep_newer, sort_by_date};
use omd_transfer::{
    Config, ErrorStrategy, IncrementalTransfer, OrderTransfer, OverwriteStrategy, Source,
    Timestamp, Transfer, TransferItem,
};

fn config(download: Option<&str>, order: Option<&str>) -> Config {
    Config {
        download_dir: download.map(String::from),
        transfer_order_dir: order.map(String::from),
        error_strategy: ErrorStrategy::Abort,
        overwrite_strategy: OverwriteStrategy::Skip,
        power_off: false,
        wifi: None,
    }
}

fn entry(name: &str, time: u16) -> TransferItem {
    TransferItem::from_row(&format!("/DCIM/100OLYMP,{},1,0,18587,{}", name, time)).unwrap()
}

fn names(items: &[TransferItem]) -> Vec<&str> {
    items.iter().map(|i| i.filename.as_str()).collect()
}

// 40165 is 19:39:10, 40167 is 19:39:14, 40192 is 19:40:00.

#[test]
fn incremental_transfer_fetches_only_what_is_newer_than_the_state() {
    let transfer = IncrementalTransfer::from_config(&config(Some("/tmp/camera"), None)).unwrap();
    let catalog = vec![entry("A.ORF", 40165), entry("B.ORF", 40192)];
    assert_eq!(catalog[1].date, Timestamp::new(2016, 4, 27, 19, 40, 0).unwrap());
    let state = Timestamp::new(2016, 4, 27, 19, 39, 10).unwrap();
    let chosen = transfer.items(catalog, Some(state));
    assert_eq!(names(&chosen), vec!["B.ORF"]);
    assert_eq!(chosen[0].date, Timestamp::new(2016, 4, 27, 19, 40, 0).unwrap());
}

#[test]
fn incremental_transfer_without_state_fetches_everything_oldest_first() {
    let transfer = IncrementalTransfer::from_config(&config(Some("/tmp/camera"), None)).unwrap();
    let catalog = vec![entry("C.ORF", 40192), entry("A.ORF", 40165), entry("B.ORF", 40167)];
    let chosen = transfer.items(catalog, None);
    assert_eq!(names(&chosen), vec!["A.ORF", "B.ORF", "C.ORF"]);
}

#[test]
fn incremental_transfer_sorts_before_it_filters() {
    let transfer = IncrementalTransfer::from_config(&config(Some("/tmp/camera"), None)).unwrap();
    let catalog = vec![
        entry("E.ORF", 40192),
        entry("A.ORF", 40165),
        entry("D.ORF", 40167),
        entry("B.ORF", 40165),
        entry("C.ORF", 40167),
    ];
    let state = Timestamp::new(2016, 4, 27, 19, 39, 12).unwrap();
    let chosen = transfer.items(catalog, Some(state));
    assert_eq!(names(&chosen), vec!["D.ORF", "C.ORF", "E.ORF"]);
}

#[test]
fn incremental_transfer_with_everything_fetched_has_nothing_to_do() {
    let transfer = IncrementalTransfer::from_config(&config(Some("/tmp/camera"), None)).unwrap();
    let catalog = vec![entry("A.ORF", 40165), entry("B.ORF", 40192)];
    let state = Timestamp::new(2016, 4, 27, 19, 40, 0).unwrap();
    assert_eq!(transfer.items(catalog, Some(state)).len(), 0);
    assert_eq!(transfer.items(Vec::new(), None).len(), 0);
}

#[test]
fn sorting_is_by_date_and_keeps_ties_in_order() {
    let sorted = sort_by_date(&vec![
        entry("3", 40192),
        entry("1a", 40165),
        entry("2", 40167),
        entry("1b", 40165),
        entry("1c", 40165),
    ]);
    assert_eq!(names(&sorted), vec!["1a", "1b", "1c", "2", "3"]);
    assert_eq!(sort_by_date(&Vec::new()).len(), 0);
}

#[test]
fn filtering_keeps_what_is_strictly_newer() {
    let items = vec![entry("A", 40165), entry("B", 40167), entry("C", 40165)];
    let state = Timestamp::new(2016, 4, 27, 19, 39, 10).unwrap();
    assert_eq!(names(&keep_newer(&items, Some(state))), vec!["B"]);
    assert_eq!(names(&keep_newer(&items, None)), vec!["A", "B", "C"]);
}

#[test]
fn incremental_transfer_records_the_date_of_each_entry() {
    let transfer = IncrementalTransfer::from_config(&config(Some("/tmp/camera"), None)).unwrap();
    let item = entry("A.ORF", 40192);
    assert_eq!(transfer.item_downloaded(&item), Some(Timestamp::new(2016, 4, 27, 19, 40, 0).unwrap()));
    assert_eq!(transfer.state_file(), Some("omd-downloader.state"));
    assert_eq!(transfer.source(), Source::Directories);
    assert_eq!(transfer.download_directory(), "/tmp/camera");
}

#[test]
fn order_transfer_takes_the_list_as_it_is() {
    let transfer = OrderTransfer::from_config(&config(None, Some("/tmp/order"))).unwrap();
    let catalog = vec![entry("C.ORF", 40192), entry("A.ORF", 40165), entry("B.ORF", 40167)];
    let state = Timestamp::new(2016, 4, 27, 19, 39, 14).unwrap();
    let chosen = transfer.items(catalog, Some(state));
    assert_eq!(names(&chosen), vec!["C.ORF", "A.ORF", "B.ORF"]);
    assert_eq!(transfer.item_downloaded(&chosen[0]), None);
    assert_eq!(transfer.state_file(), None);
    assert_eq!(transfer.source(), Source::TransferOrder);
    assert_eq!(transfer.download_directory(), "/tmp/order");
}

#[test]
fn a_transfer_is_there_when_its_directory_is_configured() {
    assert!(IncrementalTransfer::from_config(&config(None, Some("/tmp/order"))).is_none());
    assert!(OrderTransfer::from_config(&config(Some("/tmp/camera"), None)).is_none());
    assert!(IncrementalTransfer::from_config(&config(Some("/tmp/camera"), None)).is_some());
    assert!(OrderTransfer::from_config(&config(None, Some("/tmp/order"))).is_some());
}
