//! Dataset abstraction: the generic text-classification sample, the
//! capability contract every concrete dataset satisfies, and the FineType
//! dataset family that adapts its native records into samples.

use vstd::prelude::*;
use vstd::string::*;

verus! {

/// Number of distinct label values the FineType dataset family produces.
pub const NUM_CLASSES: usize = 14;

/// A generic sample for text classification: the text to classify and the
/// index of its class. Every concrete dataset adapts its own record shape
/// into this one; the trainer only ever sees samples.
#[derive(Clone, Debug)]
pub struct TextClassificationItem {
    /// The text for classification.
    pub text: String,
    /// The label of the text (classification category).
    pub label: usize,
}

impl TextClassificationItem {
    /// Bundles a text and its label into a sample.
    pub fn new(text: String, label: usize) -> (item: TextClassificationItem)
        ensures
            item.text@ == text@,
            item.label == label,
    {
        TextClassificationItem { text, label }
    }
}

/// A native record of the FineType dataset family: a title, a body of
/// content, and the index of its class. Records exist only inside the
/// adapter; the trainer never sees them.
#[derive(Clone, Debug)]
pub struct FineTypeItem {
    /// The title of the item.
    pub title: String,
    /// The content of the item.
    pub content: String,
    /// The label of the item (classification category).
    pub label: usize,
}

/// The text of the sample adapted from a native record: the title and the
/// content joined by the fixed separators that downstream tokenization
/// depends on.
pub open spec fn spec_sample_text(title: Seq<char>, content: Seq<char>) -> Seq<char> {
    "Title: "@ + title + " - Content: "@ + content
}

/// Composes the sample text for a native record: the exact literal shape
/// `Title: {title} - Content: {content}`.
pub fn compose_sample_text(title: &str, content: &str) -> (text: String)
    ensures
        text@ == spec_sample_text(title@, content@),
{
    let mut text = "Title: ".to_owned();
    text.append(title);
    text.append(" - Content: ");
    text.append(content);
    text
}

/// The capability contract for text-classification datasets: random access
/// to adapted samples, a stable length, and the family's class metadata.
/// The model of a dataset is the sequence of its samples, each a pair of
/// the sample text and its label.
pub trait TextClassificationDataset: Sized {
    /// The samples this dataset holds, in index order.
    spec fn spec_samples(&self) -> Seq<(Seq<char>, usize)>;

    /// The number of distinct label values of this dataset family.
    spec fn spec_num_classes() -> nat;

    /// The name of the class behind each valid label value.
    spec fn spec_class_name(label: nat) -> Seq<char>;

    /// Returns the sample at `index`, or an empty result if `index` is past
    /// the end. Absence is the signal for end-of-dataset, never a failure.
    fn get(&self, index: usize) -> (sample: Option<TextClassificationItem>)
        ensures
            index < self.spec_samples().len() ==> (sample matches Some(s)
                && s.text@ == self.spec_samples()[index as int].0
                && s.label == self.spec_samples()[index as int].1),
            index >= self.spec_samples().len() ==> sample is None,
    ;

    /// Total number of samples in this split; stable for the lifetime of
    /// the dataset handle.
    fn len(&self) -> (n: usize)
        ensures
            n == self.spec_samples().len(),
    ;

    /// The number of unique classes of this dataset family; a family-level
    /// constant, not a property of one handle.
    fn num_classes() -> (n: usize)
        ensures
            n == Self::spec_num_classes(),
    ;

    /// The name of the class behind `label`. A label at or past the class
    /// count is a programming defect, ruled out by the precondition; every
    /// valid label maps to a non-empty name.
    fn class_name(label: usize) -> (name: String)
        requires
            label < Self::spec_num_classes(),
        ensures
            name@ == Self::spec_class_name(label as nat),
            name@.len() > 0,
    ;
}

/// The named, disjoint partitions of a dataset.
#[derive(Clone, Copy, Debug, PartialEq, Eq, Structural)]
pub enum Split {
    /// The training portion.
    Train,
    /// The testing portion.
    Test,
}

impl Split {
    /// The string tag under which the cache layer stores this split.
    pub open spec fn spec_tag(self) -> Seq<char> {
        match self {
            Split::Train => "train"@,
            Split::Test => "test"@,
        }
    }

    /// Returns the string tag of this split.
    pub fn tag(self) -> (tag: &'static str)
        ensures
            tag@ == self.spec_tag(),
    {
        match self {
            Split::Train => "train",
            Split::Test => "test",
        }
    }

    /// Parses a split from its string tag; tags outside the closed set of
    /// splits have no parse.
    pub fn from_tag(tag: &str) -> (split: Option<Split>)
        ensures
            split matches Some(s) ==> s.spec_tag() == tag@,
            split is None ==> tag@ != Split::Train.spec_tag() && tag@ != Split::Test.spec_tag(),
    {
        if str_eq(tag, "train") {
            Some(Split::Train)
        } else if str_eq(tag, "test") {
            Some(Split::Test)
        } else {
            None
        }
    }
}

/// Why dataset construction is refused: the fatal conditions of the
/// dataset layer, surfaced to the caller rather than swallowed.
#[derive(Clone, Copy, Debug, PartialEq, Eq, Structural)]
pub enum DatasetError {
    /// The split tag names no split of this dataset.
    UnknownSplit,
    /// A record carries a label at or past the family's class count:
    /// a corrupt entry in the cached store.
    LabelOutOfRange,
}

/// Whether a split tag names a split of the FineType dataset.
pub open spec fn valid_split_tag(tag: Seq<char>) -> bool {
    tag == Split::Train.spec_tag() || tag == Split::Test.spec_tag()
}

/// Whether every record's label is a valid class index of the family.
pub open spec fn all_labels_valid(records: Seq<FineTypeItem>) -> bool {
    forall|i: int| 0 <= i < records.len() ==> records[i].label < NUM_CLASSES
}

/// The name under which the FineType dataset is resolved against the
/// remote source and the local cache.
pub open spec fn spec_source_name() -> Seq<char> {
    "FineType_01"@
}

/// One split of the FineType dataset: an immutable, fixed-length, indexed
/// store of native records, adapted sample by sample on access. The store
/// is materialized by the cache layer before construction; the handle
/// itself never performs input or output.
#[derive(Debug)]
pub struct FineTypeDataset {
    split: Split,
    records: Vec<FineTypeItem>,
}

impl View for FineTypeDataset {
    type V = Seq<FineTypeItem>;

    /// A dataset is modelled by the sequence of its native records.
    closed spec fn view(&self) -> Seq<FineTypeItem> {
        self.records@
    }
}

impl FineTypeDataset {
    /// The split this handle was constructed for.
    pub closed spec fn spec_split(&self) -> Split {
        self.split
    }

    /// Every handle of this family draws on the one named dataset.
    pub open spec fn spec_source(&self) -> Seq<char> {
        spec_source_name()
    }

    /// The well-formedness invariant: every stored record carries a valid
    /// class label. Constructors establish it; the handle is read-only, so
    /// it holds for the handle's lifetime.
    pub open spec fn wf(&self) -> bool {
        all_labels_valid(self@)
    }

    /// Returns the name of the remote dataset this family resolves.
    pub fn source_name() -> (name: &'static str)
        ensures
            name@ == spec_source_name(),
    {
        "FineType_01"
    }

    /// Returns the split this handle was constructed for.
    pub fn split(&self) -> (split: Split)
        ensures
            split == self.spec_split(),
    {
        self.split
    }

    /// Constructs the dataset for a split from the records the cache layer
    /// materialized for that split. Construction is refused, never silently
    /// degraded, when the split tag is unknown or a record carries a label
    /// outside the family's class set.
    pub fn new(split: &str, records: Vec<FineTypeItem>) -> (result: Result<
        FineTypeDataset,
        DatasetError,
    >)
        ensures
            result is Ok <==> valid_split_tag(split@) && all_labels_valid(records@),
            result matches Ok(d) ==> d@ == records@ && d.spec_split().spec_tag() == split@
                && d.wf(),
            result matches Err(e) ==> (e is UnknownSplit <==> !valid_split_tag(split@)),
    {
        let split_kind = match Split::from_tag(split) {
            Some(s) => s,
            None => {
                return Err(DatasetError::UnknownSplit);
            },
        };
        let mut i: usize = 0;
        while i < records.len()
            invariant
                i <= records@.len(),
                valid_split_tag(split@),
                forall|j: int| 0 <= j < i ==> records@[j].label < NUM_CLASSES,
            decreases records@.len() - i,
        {
            if records[i].label >= NUM_CLASSES {
                return Err(DatasetError::LabelOutOfRange);
            }
            i += 1;
        }
        Ok(FineTypeDataset { split: split_kind, records })
    }

    /// Constructs the training portion of the dataset.
    pub fn train(records: Vec<FineTypeItem>) -> (result: Result<FineTypeDataset, DatasetError>)
        ensures
            result is Ok <==> all_labels_valid(records@),
            result matches Ok(d) ==> d@ == records@ && d.spec_split() == Split::Train && d.wf(),
            result matches Err(e) ==> e is LabelOutOfRange,
    {
        let result = Self::new("train", records);
        proof {
            lemma_split_tags_distinct();
        }
        result
    }

    /// Constructs the testing portion of the dataset.
    pub fn test(records: Vec<FineTypeItem>) -> (result: Result<FineTypeDataset, DatasetError>)
        ensures
            result is Ok <==> all_labels_valid(records@),
            result matches Ok(d) ==> d@ == records@ && d.spec_split() == Split::Test && d.wf(),
            result matches Err(e) ==> e is LabelOutOfRange,
    {
        let result = Self::new("test", records);
        proof {
            lemma_split_tags_distinct();
        }
        result
    }
}

impl TextClassificationDataset for FineTypeDataset {
    /// The samples are the records in store order, each adapted to the
    /// fixed sample-text shape with its label carried over unchanged.
    open spec fn spec_samples(&self) -> Seq<(Seq<char>, usize)> {
        Seq::new(
            self@.len(),
            |i: int| (spec_sample_text(self@[i].title@, self@[i].content@), self@[i].label),
        )
    }

    open spec fn spec_num_classes() -> nat {
        NUM_CLASSES as nat
    }

    open spec fn spec_class_name(label: nat) -> Seq<char> {
        if label == 0 {
            "Company"@
        } else if label == 1 {
            "EducationalInstitution"@
        } else if label == 2 {
            "Artist"@
        } else if label == 3 {
            "Athlete"@
        } else if label == 4 {
            "OfficeHolder"@
        } else if label == 5 {
            "MeanOfTransportation"@
        } else if label == 6 {
            "Building"@
        } else if label == 7 {
            "NaturalPlace"@
        } else if label == 8 {
            "Village"@
        } else if label == 9 {
            "Animal"@
        } else if label == 10 {
            "Plant"@
        } else if label == 11 {
            "Album"@
        } else if label == 12 {
            "Film"@
        } else if label == 13 {
            "WrittenWork"@
        } else {
            Seq::<char>::empty()
        }
    }

    /// Returns the adapted sample at `index`: a pure, total transform of
    /// the stored record, with no side effects.
    fn get(&self, index: usize) -> (sample: Option<TextClassificationItem>) {
        if index < self.records.len() {
            let record = &self.records[index];
            let text = compose_sample_text(record.title.as_str(), record.content.as_str());
            Some(TextClassificationItem::new(text, record.label))
        } else {
            None
        }
    }

    /// Delegates to the underlying store's record count for this split.
    fn len(&self) -> (n: usize) {
        self.records.len()
    }

    fn num_classes() -> (n: usize) {
        NUM_CLASSES
    }

    fn class_name(label: usize) -> (name: String) {
        let name: &str = match label {
            0 => "Company",
            1 => "EducationalInstitution",
            2 => "Artist",
            3 => "Athlete",
            4 => "OfficeHolder",
            5 => "MeanOfTransportation",
            6 => "Building",
            7 => "NaturalPlace",
            8 => "Village",
            9 => "Animal",
            10 => "Plant",
            11 => "Album",
            12 => "Film",
            _ => "WrittenWork",
        };
        proof {
            reveal_class_name_literals();
            assert(FineTypeDataset::spec_class_name(label as nat).len() > 0);
        }
        name.to_owned()
    }
}

/// Reveals the fourteen class-name literals, so that their lengths are
/// known to proofs about the class mapping.
proof fn reveal_class_name_literals()
    ensures
        forall|label: nat| label < NUM_CLASSES ==> (#[trigger] FineTypeDataset::spec_class_name(
            label,
        )).len() > 0,
{
    reveal_strlit("Company");
    reveal_strlit("EducationalInstitution");
    reveal_strlit("Artist");
    reveal_strlit("Athlete");
    reveal_strlit("OfficeHolder");
    reveal_strlit("MeanOfTransportation");
    reveal_strlit("Building");
    reveal_strlit("NaturalPlace");
    reveal_strlit("Village");
    reveal_strlit("Animal");
    reveal_strlit("Plant");
    reveal_strlit("Album");
    reveal_strlit("Film");
    reveal_strlit("WrittenWork");
}

/// Law: the class metadata of the FineType family is a dataset-level
/// constant — fourteen classes, whatever the handle — and a total mapping:
/// every label below the class count names a non-empty class.
pub proof fn lemma_class_metadata_total()
    ensures
        FineTypeDataset::spec_num_classes() == 14,
        forall|label: nat| label < FineTypeDataset::spec_num_classes() ==> (
        #[trigger] FineTypeDataset::spec_class_name(label)).len() > 0,
{
    reveal_class_name_literals();
}

/// Law: a well-formed dataset yields only samples whose label lies below
/// the family's class count.
pub proof fn lemma_wf_labels_in_range(d: FineTypeDataset)
    requires
        d.wf(),
    ensures
        forall|i: int| 0 <= i < d.spec_samples().len() ==> (#[trigger] d.spec_samples()[i]).1
            < NUM_CLASSES,
{
}

/// Law: the tags of the two splits differ, so the training and testing
/// portions are disjoint partitions of the store.
pub proof fn lemma_split_tags_distinct()
    ensures
        Split::Train.spec_tag() != Split::Test.spec_tag(),
{
    reveal_strlit("train");
    reveal_strlit("test");
    assert(Split::Train.spec_tag().len() == 5);
    assert(Split::Test.spec_tag().len() == 4);
}

/// Law: the training and testing constructions address the same named
/// dataset through distinct split tags — two non-overlapping views of one
/// source, whatever records each split holds.
pub proof fn lemma_train_test_splits_distinct(train: FineTypeDataset, test: FineTypeDataset)
    requires
        train.spec_split() == Split::Train,
        test.spec_split() == Split::Test,
    ensures
        train.spec_source() == test.spec_source(),
        train.spec_split().spec_tag() != test.spec_split().spec_tag(),
{
    lemma_split_tags_distinct();
}

/// Compares two string slices character by character.
fn str_eq(a: &str, b: &str) -> (eq: bool)
    ensures
        eq == (a@ == b@),
{
    let a_len = a.unicode_len();
    let b_len = b.unicode_len();
    if a_len != b_len {
        return false;
    }
    let mut i: usize = 0;
    while i < a_len
        invariant
            i <= a_len,
            a_len == a@.len(),
            a_len == b@.len(),
            forall|j: int| 0 <= j < i ==> a@[j] == b@[j],
        decreases a_len - i,
    {
        if a.get_char(i) != b.get_char(i) {
            return false;
        }
        i += 1;
    }
    proof {
        assert(a@ =~= b@);
    }
    true
}

} // verus!
