use converto::level::CompressionLevel;
use converto::status::Status;

#[test]
fn level_is_read_whatever_the_case() {
    assert_eq!(CompressionLevel::from("low"), CompressionLevel::Low);
    assert_eq!(CompressionLevel::from("LOW"), CompressionLevel::Low);
    assert_eq!(CompressionLevel::from("Low"), CompressionLevel::Low);
    assert_eq!(CompressionLevel::from("high"), CompressionLevel::High);
    assert_eq!(CompressionLevel::from("HiGh"), CompressionLevel::High);
}

#[test]
fn unknown_level_means_medium() {
    assert_eq!(CompressionLevel::from("medium"), CompressionLevel::Medium);
    assert_eq!(CompressionLevel::from(""), CompressionLevel::Medium);
    assert_eq!(CompressionLevel::from("lowest"), CompressionLevel::Medium);
    assert_eq!(CompressionLevel::from(" low"), CompressionLevel::Medium);
}

#[test]
fn lowercase_reader_takes_words_as_they_are() {
    assert_eq!(CompressionLevel::from_lowercase("low"), CompressionLevel::Low);
    assert_eq!(CompressionLevel::from_lowercase("high"), CompressionLevel::High);
    assert_eq!(CompressionLevel::from_lowercase("LOW"), CompressionLevel::Medium);
    assert_eq!(CompressionLevel::from_lowercase("HIGH"), CompressionLevel::Medium);
}

#[test]
fn level_wire_names() {
    assert_eq!(CompressionLevel::Low.as_str(), "Low");
    assert_eq!(CompressionLevel::Medium.as_str(), "Medium");
    assert_eq!(CompressionLevel::High.as_str(), "High");
}

#[test]
fn status_wire_names() {
    assert_eq!(Status::Connecting.as_str(), "Connecting");
    assert_eq!(Status::Connected.as_str(), "Connected");
    assert_eq!(Status::InProgress.as_str(), "InProgress");
    assert_eq!(Status::Completed.as_str(), "Completed");
    assert_eq!(Status::Failed.as_str(), "Failed");
    assert_eq!(Status::Disconnected.as_str(), "Disconnected");
}

#[test]
fn final_states() {
    assert!(!Status::Connecting.is_terminal());
    assert!(!Status::Connected.is_terminal());
    assert!(!Status::InProgress.is_terminal());
    assert!(Status::Completed.is_terminal());
    assert!(Status::Failed.is_terminal());
    assert!(Status::Disconnected.is_terminal());
}
