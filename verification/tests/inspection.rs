use popsicle::{apply_selection, inspect_result, is_windows_iso, InspectError, SelectedImage};

const DESCRIPTORS_START: usize = 32768;
const SECTOR_SIZE: usize = 2048;

fn write_descriptor(data: &mut Vec<u8>, off: usize, dtype: u8, publisher: &[u8]) {
    data[off] = dtype;
    data[off + 1..off + 6].copy_from_slice(b"CD001");
    data[off + 6] = 1;
    let field = &mut data[off + 318..off + 446];
    for b in field.iter_mut() {
        *b = b' ';
    }
    field[..publisher.len()].copy_from_slice(publisher);
}

fn volume_with_publisher(publisher: &[u8]) -> Vec<u8> {
    let mut data = vec![0u8; DESCRIPTORS_START + 2 * SECTOR_SIZE];
    write_descriptor(&mut data, DESCRIPTORS_START, 1, publisher);
    let term = DESCRIPTORS_START + SECTOR_SIZE;
    data[term] = 255;
    data[term + 1..term + 6].copy_from_slice(b"CD001");
    data[term + 6] = 1;
    data
}

#[test]
fn microsoft_publisher_is_detected() {
    let data = volume_with_publisher(b"MICROSOFT CORPORATION");
    assert!(is_windows_iso(&data));
}

#[test]
fn other_publisher_is_not_detected() {
    let data = volume_with_publisher(b"SOME OTHER PUBLISHER");
    assert!(!is_windows_iso(&data));
}

#[test]
fn longer_publisher_is_not_detected() {
    let data = volume_with_publisher(b"MICROSOFT CORPORATIONS");
    assert!(!is_windows_iso(&data));
}

#[test]
fn empty_data_is_not_an_iso() {
    assert!(!is_windows_iso(&Vec::new()));
}

#[test]
fn arbitrary_bytes_are_not_an_iso() {
    let data = vec![7u8; DESCRIPTORS_START + 4 * SECTOR_SIZE];
    assert!(!is_windows_iso(&data));
}

#[test]
fn truncated_volume_is_not_an_iso() {
    let mut data = volume_with_publisher(b"MICROSOFT CORPORATION");
    data.truncate(DESCRIPTORS_START + 100);
    assert!(!is_windows_iso(&data));
}

#[test]
fn missing_signature_is_not_an_iso() {
    let mut data = volume_with_publisher(b"MICROSOFT CORPORATION");
    data[DESCRIPTORS_START + 1] = b'X';
    assert!(!is_windows_iso(&data));
}

#[test]
fn terminator_before_primary_descriptor() {
    let mut data = vec![0u8; DESCRIPTORS_START + 2 * SECTOR_SIZE];
    data[DESCRIPTORS_START] = 255;
    data[DESCRIPTORS_START + 1..DESCRIPTORS_START + 6].copy_from_slice(b"CD001");
    write_descriptor(&mut data, DESCRIPTORS_START + SECTOR_SIZE, 1, b"MICROSOFT CORPORATION");
    assert!(!is_windows_iso(&data));
}

#[test]
fn earlier_descriptors_are_walked_past() {
    let mut data = vec![0u8; DESCRIPTORS_START + 3 * SECTOR_SIZE];
    write_descriptor(&mut data, DESCRIPTORS_START, 0, b"EL TORITO SPECIFICATION");
    write_descriptor(&mut data, DESCRIPTORS_START + SECTOR_SIZE, 1, b"MICROSOFT CORPORATION");
    let term = DESCRIPTORS_START + 2 * SECTOR_SIZE;
    data[term] = 255;
    data[term + 1..term + 6].copy_from_slice(b"CD001");
    assert!(!is_windows_iso(&data[..DESCRIPTORS_START].to_vec()));
    assert!(is_windows_iso(&data));
}

#[test]
fn inspection_fills_every_field() {
    let header = volume_with_publisher(b"MICROSOFT CORPORATION");
    let img = inspect_result("/home/user/win.iso", Some((Some(5_368_709_120), header)))
        .expect("an opened file is always described");
    assert_eq!(img.path, "/home/user/win.iso");
    assert_eq!(img.display_name, Some("win.iso".to_string()));
    assert_eq!(img.size_bytes, 5_368_709_120);
    assert_eq!(img.size_display, "5.0 GiB");
    assert!(img.is_windows_installer_image);
}

#[test]
fn non_iso_file_still_succeeds() {
    let img = inspect_result("/tmp/image.iso", Some((Some(42), Vec::new())))
        .expect("a failed ISO parse is absorbed, not surfaced");
    assert_eq!(img.display_name, Some("image.iso".to_string()));
    assert_eq!(img.size_bytes, 42);
    assert_eq!(img.size_display, "42 B");
    assert!(!img.is_windows_installer_image);
}

#[test]
fn metadata_failure_degrades_to_zero() {
    let img = inspect_result("/tmp/image.img", Some((None, Vec::new()))).unwrap();
    assert_eq!(img.size_bytes, 0);
    assert_eq!(img.size_display, "0 B");
}

#[test]
fn nameless_path_still_succeeds() {
    let img = inspect_result("/", Some((Some(7), Vec::new()))).unwrap();
    assert_eq!(img.display_name, None);
    assert_eq!(img.size_bytes, 7);
}

#[test]
fn open_failure_is_the_only_error() {
    let prior: SelectedImage =
        inspect_result("/home/user/image.iso", Some((Some(1024), Vec::new()))).unwrap();
    let kept = prior.clone();
    let first = inspect_result("/home/user/missing.iso", None);
    let second = inspect_result("/home/user/missing.iso", None);
    assert_eq!(first, Err(InspectError::FileAccessError));
    assert_eq!(second, Err(InspectError::FileAccessError));
    // The failure leaks no partial state: the previously selected image is intact.
    assert_eq!(prior, kept);
}

#[test]
fn failed_selection_is_retained() {
    let prior = inspect_result("/home/user/image.iso", Some((Some(1024), Vec::new()))).unwrap();
    let after = apply_selection(Some(prior.clone()), Err(InspectError::FileAccessError));
    assert_eq!(after, Some(prior.clone()));
    let replaced = inspect_result("/home/user/other.img", Some((Some(2048), Vec::new()))).unwrap();
    let after = apply_selection(Some(prior), Ok(replaced.clone()));
    assert_eq!(after, Some(replaced));
}

#[test]
fn inspection_is_deterministic() {
    let header = volume_with_publisher(b"MICROSOFT CORPORATION");
    let a = inspect_result("/mnt/win.iso", Some((Some(4_700_000_000), header.clone())));
    let b = inspect_result("/mnt/win.iso", Some((Some(4_700_000_000), header)));
    assert_eq!(a, b);
}
