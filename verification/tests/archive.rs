use converto::archive::{create_zip, PackError};
use std::io::Read;

fn entries_of(bytes: Vec<u8>) -> Vec<(String, Vec<u8>)> {
    let mut archive = zip::ZipArchive::new(std::io::Cursor::new(bytes)).unwrap();
    let mut out = Vec::new();
    for i in 0..archive.len() {
        let mut file = archive.by_index(i).unwrap();
        let mut content = Vec::new();
        file.read_to_end(&mut content).unwrap();
        out.push((file.name().to_string(), content));
    }
    out
}

#[test]
fn packs_files_under_their_names_in_order() {
    let bytes = create_zip(
        vec![b"first".to_vec(), b"second one".to_vec(), Vec::new()],
        vec!["b.pdf".to_string(), "a.pdf".to_string(), "empty.pdf".to_string()],
    )
    .unwrap();
    assert_eq!(
        entries_of(bytes),
        vec![
            ("b.pdf".to_string(), b"first".to_vec()),
            ("a.pdf".to_string(), b"second one".to_vec()),
            ("empty.pdf".to_string(), Vec::new()),
        ]
    );
}

#[test]
fn entries_are_stored_as_they_are() {
    let content = vec![7u8; 1000];
    let bytes = create_zip(vec![content.clone()], vec!["x.bin".to_string()]).unwrap();
    assert!(bytes.len() > 1000);
    assert!(bytes.windows(1000).any(|w| w == &content[..]));
    let archive = zip::ZipArchive::new(std::io::Cursor::new(bytes)).unwrap();
    assert_eq!(archive.len(), 1);
}

#[test]
fn same_input_gives_the_same_archive() {
    let make = || {
        create_zip(
            vec![b"one".to_vec(), b"two".to_vec()],
            vec!["1.pdf".to_string(), "2.pdf".to_string()],
        )
        .unwrap()
    };
    assert_eq!(make(), make());
}

#[test]
fn what_one_list_has_more_is_left_out() {
    let bytes = create_zip(
        vec![b"one".to_vec(), b"two".to_vec(), b"three".to_vec()],
        vec!["1.pdf".to_string(), "2.pdf".to_string()],
    )
    .unwrap();
    assert_eq!(
        entries_of(bytes),
        vec![("1.pdf".to_string(), b"one".to_vec()), ("2.pdf".to_string(), b"two".to_vec())]
    );
    let bytes = create_zip(
        vec![b"one".to_vec()],
        vec!["1.pdf".to_string(), "2.pdf".to_string(), "2.pdf".to_string()],
    )
    .unwrap();
    assert_eq!(entries_of(bytes), vec![("1.pdf".to_string(), b"one".to_vec())]);
}

#[test]
fn an_archive_of_nothing_is_an_archive() {
    let bytes = create_zip(Vec::new(), Vec::new()).unwrap();
    assert!(entries_of(bytes).is_empty());
}

#[test]
fn a_name_may_not_occur_twice() {
    assert_eq!(
        create_zip(
            vec![b"one".to_vec(), b"two".to_vec(), b"three".to_vec()],
            vec!["same.pdf".to_string(), "other.pdf".to_string(), "same.pdf".to_string()],
        ),
        Err(PackError::DuplicateName)
    );
}

#[test]
fn a_name_may_not_be_longer_than_an_archive_holds() {
    let long = "n".repeat(65536);
    assert_eq!(create_zip(vec![b"x".to_vec()], vec![long]), Err(PackError::NameTooLong));
    let longest = "n".repeat(65535);
    let bytes = create_zip(vec![b"x".to_vec()], vec![longest.clone()]).unwrap();
    assert_eq!(entries_of(bytes), vec![(longest, b"x".to_vec())]);
}

#[test]
fn the_length_of_a_name_is_counted_in_bytes() {
    let long = "é".repeat(32768);
    assert_eq!(long.chars().count(), 32768);
    assert_eq!(create_zip(vec![b"x".to_vec()], vec![long]), Err(PackError::NameTooLong));
}

#[test]
fn a_long_name_is_reported_before_a_double_one() {
    let long = "n".repeat(70000);
    assert_eq!(
        create_zip(
            vec![b"1".to_vec(), b"2".to_vec(), b"3".to_vec()],
            vec!["a".to_string(), "a".to_string(), long],
        ),
        Err(PackError::NameTooLong)
    );
}

#[test]
fn the_writer_takes_what_fits_and_differs() {
    for count in [1usize, 2, 5, 40] {
        let files: Vec<Vec<u8>> = (0..count).map(|i| vec![i as u8; i * 7]).collect();
        let names: Vec<String> = (0..count).map(|i| format!("file-{}.pdf", i)).collect();
        let bytes = create_zip(files.clone(), names.clone()).unwrap();
        let expected: Vec<(String, Vec<u8>)> = names.into_iter().zip(files.into_iter()).collect();
        assert_eq!(entries_of(bytes), expected);
    }
}
