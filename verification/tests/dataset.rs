use classifier::data::{
    compose_sample_text, DatasetError, FineTypeDataset, FineTypeItem, Split,
    TextClassificationDataset, TextClassificationItem, NUM_CLASSES,
};

fn record(title: &str, content: &str, label: usize) -> FineTypeItem {
    FineTypeItem { title: title.to_owned(), content: content.to_owned(), label }
}

#[test]
fn item_bundles_text_and_label() {
    let item = TextClassificationItem::new("Title: A - Content: B".to_owned(), 5);
    assert_eq!(item.text, "Title: A - Content: B");
    assert_eq!(item.label, 5);
}

#[test]
fn sample_text_has_the_fixed_literal_shape() {
    assert_eq!(compose_sample_text("Rust", "A language"), "Title: Rust - Content: A language");
    assert_eq!(compose_sample_text("", ""), "Title:  - Content: ");
}

#[test]
fn get_adapts_the_record_in_range() {
    let records = vec![record("A", "B", 3), record("C", "D", 0)];
    let dataset = FineTypeDataset::new("train", records).unwrap();
    let sample = dataset.get(0).unwrap();
    assert_eq!(sample.text, "Title: A - Content: B");
    assert_eq!(sample.label, 3);
    let sample = dataset.get(1).unwrap();
    assert_eq!(sample.text, "Title: C - Content: D");
    assert_eq!(sample.label, 0);
}

#[test]
fn get_past_the_end_is_empty_not_fatal() {
    let dataset = FineTypeDataset::new("test", vec![record("A", "B", 1)]).unwrap();
    assert!(dataset.get(1).is_none());
    assert!(dataset.get(2).is_none());
    assert!(dataset.get(usize::MAX).is_none());
    let empty = FineTypeDataset::new("test", vec![]).unwrap();
    assert_eq!(empty.len(), 0);
    assert!(empty.get(0).is_none());
}

#[test]
fn len_counts_the_records() {
    let dataset = FineTypeDataset::train(vec![record("A", "B", 1), record("C", "D", 2)]).unwrap();
    assert_eq!(dataset.len(), 2);
}

#[test]
fn num_classes_is_fourteen() {
    assert_eq!(FineTypeDataset::num_classes(), 14);
    assert_eq!(NUM_CLASSES, 14);
}

#[test]
fn class_names_are_the_fourteen_literals() {
    let expected = [
        "Company",
        "EducationalInstitution",
        "Artist",
        "Athlete",
        "OfficeHolder",
        "MeanOfTransportation",
        "Building",
        "NaturalPlace",
        "Village",
        "Animal",
        "Plant",
        "Album",
        "Film",
        "WrittenWork",
    ];
    assert_eq!(expected.len(), FineTypeDataset::num_classes());
    for (label, want) in expected.iter().enumerate() {
        let name = FineTypeDataset::class_name(label);
        assert!(!name.is_empty());
        assert_eq!(&name, want);
    }
}

#[test]
fn class_name_of_two_is_artist() {
    assert_eq!(FineTypeDataset::class_name(2), "Artist");
}

#[test]
fn unknown_split_is_refused() {
    let err = FineTypeDataset::new("validation", vec![]).unwrap_err();
    assert_eq!(err, DatasetError::UnknownSplit);
}

#[test]
fn out_of_range_label_is_refused() {
    let err = FineTypeDataset::new("train", vec![record("A", "B", 14)]).unwrap_err();
    assert_eq!(err, DatasetError::LabelOutOfRange);
    let err = FineTypeDataset::test(vec![record("A", "B", usize::MAX)]).unwrap_err();
    assert_eq!(err, DatasetError::LabelOutOfRange);
}

#[test]
fn boundary_label_is_accepted() {
    let dataset = FineTypeDataset::train(vec![record("A", "B", 13)]).unwrap();
    assert_eq!(dataset.get(0).unwrap().label, 13);
}

#[test]
fn train_and_test_are_distinct_splits_of_one_source() {
    let train = FineTypeDataset::train(vec![]).unwrap();
    let test = FineTypeDataset::test(vec![]).unwrap();
    assert_eq!(train.split(), Split::Train);
    assert_eq!(test.split(), Split::Test);
    assert_ne!(train.split().tag(), test.split().tag());
    assert_eq!(FineTypeDataset::source_name(), "FineType_01");
}

#[test]
fn split_tags_round_trip() {
    assert_eq!(Split::from_tag("train"), Some(Split::Train));
    assert_eq!(Split::from_tag("test"), Some(Split::Test));
    assert_eq!(Split::from_tag("dev"), None);
    assert_eq!(Split::from_tag(""), None);
    assert_eq!(Split::Train.tag(), "train");
    assert_eq!(Split::Test.tag(), "test");
}

#[test]
fn first_training_sample_is_present_and_adapted() {
    let records = vec![
        record("Anarchism", "A political philosophy", 0),
        record("Joan Miro", "A painter and sculptor", 2),
    ];
    let dataset = FineTypeDataset::train(records).unwrap();
    let sample = dataset.get(0).expect("first sample is present");
    assert!(sample.label < FineTypeDataset::num_classes());
    assert!(sample.text.starts_with("Title: "));
}
