use sedecim::sedecim_file_info::{MoveValues, SedecimFileInfo};
use sedecim::sedecim_file_page::{SedecimFilePage, BUFFER_SIZE, BUFFER_SIZE_U64, LINE_SIZE};

fn sample(len: usize) -> Vec<u8> {
    (0..len).map(|i| (i % 256) as u8).collect()
}

fn page_of(file: &[u8], start: u64) -> &[u8] {
    let from = (start as usize).min(file.len());
    let to = (from + 256).min(file.len());
    &file[from..to]
}

fn opened(file: &[u8]) -> SedecimFileInfo {
    let mut info = SedecimFileInfo::new(String::from("sample.bin"));
    info.insert_page(0, page_of(file, 0), file.len() as u64);
    info
}

#[test]
fn get_page_zero() {
    let page = SedecimFilePage::get_page(0);

    assert_eq!(page, 0);
}

#[test]
fn get_page_one() {
    let page = SedecimFilePage::get_page(256);

    assert_eq!(page, 1);
}

#[test]
fn get_page_ten() {
    let page = SedecimFilePage::get_page(2560);

    assert_eq!(page, 10);
}

#[test]
fn page_constants() {
    assert_eq!(BUFFER_SIZE, 256);
    assert_eq!(BUFFER_SIZE_U64, 256);
    assert_eq!(LINE_SIZE, 10);
}

#[test]
fn get_page_last_byte_of_a_page() {
    assert_eq!(SedecimFilePage::get_page(255), 0);
    assert_eq!(SedecimFilePage::get_page(511), 1);
    assert_eq!(SedecimFilePage::get_page(u64::MAX), u64::MAX / 256);
}

#[test]
fn new_page_is_empty_and_not_loaded() {
    let page = SedecimFilePage::new();
    assert_eq!(page.page_id, 0);
    assert_eq!(page.page_start, 0);
    assert!(!page.loaded);
    assert_eq!(page.buffer.len(), 256);
    assert!(page.buffer.iter().all(|b| *b == 0));
}

#[test]
fn load_keeps_the_bytes_read() {
    let file = sample(1024);
    let page = SedecimFilePage::load(700, page_of(&file, 512));
    assert_eq!(page.page_id, 2);
    assert_eq!(page.page_start, 512);
    assert!(page.loaded);
    assert_eq!(page.buffer.len(), 256);
    for i in 0..256 {
        assert_eq!(page.buffer[i], i as u8);
    }
}

#[test]
fn load_pads_a_short_read_with_zeroes() {
    let page = SedecimFilePage::load(0, &[7, 8, 9]);
    assert_eq!(&page.buffer[..3], &[7, 8, 9]);
    assert!(page.buffer[3..].iter().all(|b| *b == 0));
}

#[test]
fn load_drops_bytes_beyond_the_page() {
    let data = vec![0xabu8; 300];
    let page = SedecimFilePage::load(256, &data);
    assert_eq!(page.page_id, 1);
    assert!(page.buffer.iter().all(|b| *b == 0xab));
}

#[test]
fn load_of_nothing_is_all_zero() {
    let page = SedecimFilePage::load(1024, &[]);
    assert_eq!(page.page_id, 4);
    assert_eq!(page.page_start, 1024);
    assert!(page.buffer.iter().all(|b| *b == 0));
}

#[test]
fn new_window_is_unopened() {
    let info = SedecimFileInfo::new(String::from("a/b.bin"));
    assert_eq!(info.file_name(), "a/b.bin");
    assert_eq!(info.file_offset(), 0);
    assert_eq!(info.file_size(), 0);
    assert!(info.get_page(0).is_none());
    assert_eq!(info.page_request(0), Some(0));
}

#[test]
fn insert_page_sets_size_and_caches() {
    let file = sample(1024);
    let info = opened(&file);
    assert_eq!(info.file_size(), 1024);
    assert_eq!(info.page_request(0), None);
    assert_eq!(info.page_request(255), None);
    assert_eq!(info.page_request(256), Some(256));
    assert_eq!(info.page_request(700), Some(512));
}

#[test]
fn returned_page_starts_at_its_identifier_times_page_size() {
    let file = sample(4096);
    let mut info = opened(&file);
    for address in [0u64, 1, 255, 256, 257, 1000, 2560, 4095] {
        let start = address / 256 * 256;
        info.insert_page(address, page_of(&file, start), 4096);
        let page = info.get_page(address).unwrap();
        assert_eq!(page.page_id, address / 256);
        assert_eq!(page.page_start, address / 256 * 256);
        assert_eq!(page.buffer.len(), 256);
        assert!(page.loaded);
    }
}

#[test]
fn cached_page_is_not_replaced() {
    let file = sample(1024);
    let mut info = opened(&file);
    info.insert_page(10, &[0xff; 256], 5000);
    assert_eq!(info.file_size(), 1024);
    assert_eq!(info.byte_at(10), 10);
}

#[test]
fn byte_at_reads_through_the_cache() {
    let file = sample(1024);
    let mut info = opened(&file);
    assert_eq!(info.byte_at(0), 0);
    assert_eq!(info.byte_at(200), 200);
    assert_eq!(info.byte_at(300), 0);
    info.insert_page(300, page_of(&file, 256), 1024);
    assert_eq!(info.byte_at(300), 44);
    assert_eq!(info.byte_at(511), 255);
}

#[test]
fn trailing_partial_page_is_zero_filled() {
    let file = vec![0x41u8; 300];
    let mut info = opened(&file);
    info.insert_page(256, page_of(&file, 256), 300);
    assert_eq!(info.byte_at(299), 0x41);
    assert_eq!(info.byte_at(300), 0);
    assert_eq!(info.byte_at(511), 0);
}

#[test]
fn set_address_clamps_to_the_file_size() {
    let file = sample(1024);
    let mut info = opened(&file);
    assert_eq!(info.set_address(100), None);
    assert_eq!(info.file_offset(), 100);
    assert_eq!(info.set_address(5000), Some(1024));
    assert_eq!(info.file_offset(), 1024);
    assert_eq!(info.set_address(1024), Some(1024));
    assert_eq!(info.file_offset(), 1024);
}

#[test]
fn set_address_does_not_align() {
    let file = sample(1024);
    let mut info = opened(&file);
    info.set_address(7);
    assert_eq!(info.file_offset(), 7);
}

#[test]
fn scroll_lines() {
    let file = sample(1024);
    let mut info = opened(&file);
    assert_eq!(info.scroll(MoveValues::DownLine), None);
    assert_eq!(info.file_offset(), 10);
    assert_eq!(info.scroll(MoveValues::DownLine), None);
    assert_eq!(info.file_offset(), 20);
    assert_eq!(info.scroll(MoveValues::UpLine), None);
    assert_eq!(info.file_offset(), 10);
    info.scroll(MoveValues::UpLine);
    info.scroll(MoveValues::UpLine);
    assert_eq!(info.file_offset(), 0);
}

#[test]
fn scroll_up_from_inside_the_first_line_goes_to_zero() {
    let file = sample(1024);
    let mut info = opened(&file);
    info.set_address(7);
    info.scroll(MoveValues::UpLine);
    assert_eq!(info.file_offset(), 0);
    info.set_address(200);
    info.scroll(MoveValues::UpPage);
    assert_eq!(info.file_offset(), 0);
}

#[test]
fn scroll_pages() {
    let file = sample(1024);
    let mut info = opened(&file);
    assert_eq!(info.scroll(MoveValues::DownPage), Some(256));
    assert_eq!(info.file_offset(), 256);
    info.insert_page(256, page_of(&file, 256), 1024);
    assert_eq!(info.scroll(MoveValues::DownPage), Some(512));
    assert_eq!(info.file_offset(), 512);
    assert_eq!(info.scroll(MoveValues::UpPage), None);
    assert_eq!(info.file_offset(), 256);
    assert_eq!(info.scroll(MoveValues::UpPage), None);
    assert_eq!(info.file_offset(), 0);
}

#[test]
fn scroll_down_stops_at_the_file_size() {
    let file = sample(1024);
    let mut info = opened(&file);
    info.set_address(1020);
    info.scroll(MoveValues::DownLine);
    assert_eq!(info.file_offset(), 1020);
    info.set_address(1014);
    info.scroll(MoveValues::DownLine);
    assert_eq!(info.file_offset(), 1024);
    info.set_address(768);
    info.scroll(MoveValues::DownPage);
    assert_eq!(info.file_offset(), 1024);
    info.scroll(MoveValues::DownPage);
    assert_eq!(info.file_offset(), 1024);
    info.set_address(769);
    info.scroll(MoveValues::DownPage);
    assert_eq!(info.file_offset(), 769);
}

#[test]
fn file_shorter_than_the_step_does_not_scroll() {
    let file = sample(5);
    let mut info = opened(&file);
    assert_eq!(info.scroll(MoveValues::DownLine), None);
    assert_eq!(info.file_offset(), 0);
    assert_eq!(info.scroll(MoveValues::DownPage), None);
    assert_eq!(info.file_offset(), 0);
    let file = sample(100);
    let mut info = opened(&file);
    info.scroll(MoveValues::DownPage);
    assert_eq!(info.file_offset(), 0);
    info.scroll(MoveValues::DownLine);
    assert_eq!(info.file_offset(), 10);
}

#[test]
fn empty_file_does_not_scroll() {
    let mut info = opened(&[]);
    assert_eq!(info.file_size(), 0);
    info.scroll(MoveValues::DownLine);
    info.scroll(MoveValues::DownPage);
    info.scroll(MoveValues::UpLine);
    info.scroll(MoveValues::UpPage);
    assert_eq!(info.file_offset(), 0);
}

#[test]
fn missing_page_names_the_first_gap() {
    let file = sample(1024);
    let mut info = SedecimFileInfo::new(String::from("sample.bin"));
    assert_eq!(info.missing_page(0, 200), Some(0));
    assert_eq!(info.missing_page(0, 0), None);
    info.insert_page(0, page_of(&file, 0), 1024);
    assert_eq!(info.missing_page(0, 200), None);
    assert_eq!(info.missing_page(0, 256), None);
    assert_eq!(info.missing_page(0, 257), Some(256));
    assert_eq!(info.missing_page(100, 200), Some(256));
    assert_eq!(info.missing_page(600, 10), Some(512));
    info.insert_page(512, page_of(&file, 512), 1024);
    assert_eq!(info.missing_page(100, 600), Some(256));
    info.insert_page(256, page_of(&file, 256), 1024);
    assert_eq!(info.missing_page(100, 600), None);
    assert_eq!(info.missing_page(100, 700), Some(768));
}

#[test]
fn missing_page_at_the_end_of_the_address_space() {
    let info = SedecimFileInfo::new(String::from("sample.bin"));
    assert_eq!(info.missing_page(u64::MAX - 5, 200), Some(u64::MAX - 255));
    assert_eq!(info.missing_page(u64::MAX, u64::MAX), Some(u64::MAX - 255));
}
