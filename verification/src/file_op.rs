//! The image corpus, the renaming of images and the result sink.
//!
//! Nothing here touches the filesystem. The scanner turns what a walk over
//! the image root found into buckets, the renamer says which file is to get
//! which name, and the sink says what is to be appended to the result log
//! and which image is to be copied where. The caller does the walking, the
//! renaming, the appending and the copying.

use vstd::prelude::*;
use vstd::string::*;
use crate::error::InferError;
use crate::extract::{extract_fenced_json, extraction, text_is};
use crate::outside::{
    extension_of,
    file_name_of,
    insert_text,
    join_path,
    json_object,
    member_bool,
    members,
    object_into_text,
    object_text,
    parse_object,
    path_extension,
    path_file_name,
    path_join,
    Member,
};
use crate::text::{copy_string, zero_padded, zero_padded_string};

verus! {

/// The directory that holds the result log and the copies of the images
/// with a positive verdict.
pub const RESULT_DIR: &'static str = "result";

/// The result log. It is only ever appended to.
pub const RESULT_LOG: &'static str = "result/result.txt";

/// The number of digits to which the index of a renamed image is filled.
pub const INDEX_WIDTH: usize = 6;

/// The key under which a record names its algorithm.
pub const ALGORITHM_KEY: &'static str = "algorithm";

/// The key under which a record names its image.
pub const IMAGE_KEY: &'static str = "image";

/// The key of the boolean verdict.
pub const RESULT_KEY: &'static str = "result";

/// One entry that a recursive walk below a directory came across.
#[derive(Clone, Debug, PartialEq, Eq)]
pub struct WalkedEntry {
    pub path: String,
    pub is_file: bool,
}

/// The mathematical value of a [`WalkedEntry`].
pub struct WalkedEntryView {
    pub path: Seq<char>,
    pub is_file: bool,
}

impl View for WalkedEntry {
    type V = WalkedEntryView;

    open spec fn view(&self) -> WalkedEntryView {
        WalkedEntryView { path: self.path@, is_file: self.is_file }
    }
}

impl DeepView for WalkedEntry {
    type V = WalkedEntryView;

    open spec fn deep_view(&self) -> WalkedEntryView {
        self@
    }
}

/// One direct child of the image root: its name, whether it is a directory
/// and, if it is, what a recursive walk below it came across, in the order
/// of the walk.
#[derive(Clone, Debug, PartialEq, Eq)]
pub struct RootEntry {
    pub name: String,
    pub is_dir: bool,
    pub walked: Vec<WalkedEntry>,
}

/// The mathematical value of a [`RootEntry`].
pub struct RootEntryView {
    pub name: Seq<char>,
    pub is_dir: bool,
    pub walked: Seq<WalkedEntryView>,
}

impl View for RootEntry {
    type V = RootEntryView;

    open spec fn view(&self) -> RootEntryView {
        RootEntryView { name: self.name@, is_dir: self.is_dir, walked: self.walked.deep_view() }
    }
}

impl DeepView for RootEntry {
    type V = RootEntryView;

    open spec fn deep_view(&self) -> RootEntryView {
        self@
    }
}

/// What a look at the image root found: whether it is a directory at all
/// and, if it is, its direct children in the order of enumeration.
#[derive(Clone, Debug, PartialEq, Eq)]
pub struct RootListing {
    pub is_dir: bool,
    pub entries: Vec<RootEntry>,
}

/// The mathematical value of a [`RootListing`].
pub struct RootListingView {
    pub is_dir: bool,
    pub entries: Seq<RootEntryView>,
}

impl View for RootListing {
    type V = RootListingView;

    open spec fn view(&self) -> RootListingView {
        RootListingView { is_dir: self.is_dir, entries: self.entries.deep_view() }
    }
}

/// The images of one algorithm: the regular files found below the
/// directory that bears the algorithm's name, in the order of the walk.
#[derive(Clone, Debug, PartialEq, Eq)]
pub struct ImageBucket {
    pub algorithm_name: String,
    pub image_paths: Vec<String>,
}

/// The mathematical value of an [`ImageBucket`].
pub struct ImageBucketView {
    pub algorithm_name: Seq<char>,
    pub image_paths: Seq<Seq<char>>,
}

impl View for ImageBucket {
    type V = ImageBucketView;

    open spec fn view(&self) -> ImageBucketView {
        ImageBucketView {
            algorithm_name: self.algorithm_name@,
            image_paths: self.image_paths.deep_view(),
        }
    }
}

impl DeepView for ImageBucket {
    type V = ImageBucketView;

    open spec fn deep_view(&self) -> ImageBucketView {
        self@
    }
}

/// One renaming: the file at `from` is to be moved to `to`, where it bears
/// the name `name`.
#[derive(Clone, Debug, PartialEq, Eq)]
pub struct Rename {
    pub from: String,
    pub name: String,
    pub to: String,
}

/// The mathematical value of a [`Rename`].
pub struct RenameView {
    pub from: Seq<char>,
    pub name: Seq<char>,
    pub to: Seq<char>,
}

impl View for Rename {
    type V = RenameView;

    open spec fn view(&self) -> RenameView {
        RenameView { from: self.from@, name: self.name@, to: self.to@ }
    }
}

impl DeepView for Rename {
    type V = RenameView;

    open spec fn deep_view(&self) -> RenameView {
        self@
    }
}

/// One copy: the file at `from` is to be copied to `to`. What is at `to`
/// is overwritten.
#[derive(Clone, Debug, PartialEq, Eq)]
pub struct ImageCopy {
    pub from: String,
    pub to: String,
}

/// The mathematical value of an [`ImageCopy`].
pub struct ImageCopyView {
    pub from: Seq<char>,
    pub to: Seq<char>,
}

impl View for ImageCopy {
    type V = ImageCopyView;

    open spec fn view(&self) -> ImageCopyView {
        ImageCopyView { from: self.from@, to: self.to@ }
    }
}

impl DeepView for ImageCopy {
    type V = ImageCopyView;

    open spec fn deep_view(&self) -> ImageCopyView {
        self@
    }
}

/// What recording one result amounts to: the text to append to the result
/// log, line break included, and the copy to make first, if any.
#[derive(Clone, Debug, PartialEq, Eq)]
pub struct ResultRecord {
    pub entry: String,
    pub copy: Option<ImageCopy>,
}

/// The mathematical value of a [`ResultRecord`].
pub struct ResultRecordView {
    pub entry: Seq<char>,
    pub copy: Option<ImageCopyView>,
}

impl View for ResultRecord {
    type V = ResultRecordView;

    open spec fn view(&self) -> ResultRecordView {
        ResultRecordView { entry: self.entry@, copy: self.copy.deep_view() }
    }
}

/// The path of a walked entry that is a regular file.
pub open spec fn regular_file(entry: WalkedEntryView) -> Option<Seq<char>> {
    if entry.is_file {
        Some(entry.path)
    } else {
        None
    }
}

/// The paths of the regular files among `walked`, in order.
pub open spec fn regular_files(walked: Seq<WalkedEntryView>) -> Seq<Seq<char>> {
    walked.filter_map(|entry: WalkedEntryView| regular_file(entry))
}

/// The bucket of a child of the image root that is a directory: it bears
/// the name of the directory and holds the regular files below it.
pub open spec fn bucket_of(entry: RootEntryView) -> Option<ImageBucketView> {
    if entry.is_dir {
        Some(
            ImageBucketView { algorithm_name: entry.name, image_paths: regular_files(entry.walked) },
        )
    } else {
        None
    }
}

/// One bucket for each directory among `entries`, in order. Children that
/// are no directories are passed over.
pub open spec fn buckets_of(entries: Seq<RootEntryView>) -> Seq<ImageBucketView> {
    entries.filter_map(|entry: RootEntryView| bucket_of(entry))
}

/// The buckets of an image root. A root that is no directory has none.
pub open spec fn image_list(listing: RootListingView) -> Seq<ImageBucketView> {
    if listing.is_dir {
        buckets_of(listing.entries)
    } else {
        Seq::empty()
    }
}

/// The name of the image with the index `index` after renaming: the index
/// in six digits, a dot and the extension that the image had.
pub open spec fn numbered_name(index: nat, extension: Seq<char>) -> Seq<char> {
    zero_padded(index, INDEX_WIDTH as nat) + "."@ + extension
}

/// The renaming of the image at `path`, with the extension `extension`,
/// that is the `index`-th of its bucket. The image moves into the image
/// root itself.
pub open spec fn rename_to(
    root: Seq<char>,
    index: nat,
    path: Seq<char>,
    extension: Seq<char>,
) -> RenameView {
    RenameView {
        from: path,
        name: numbered_name(index, extension),
        to: path_join(root, numbered_name(index, extension)),
    }
}

/// The renaming of the `index`-th image of a bucket, absent where the
/// path has no extension.
pub open spec fn rename_of(root: Seq<char>, index: nat, path: Seq<char>) -> Option<RenameView> {
    match path_extension(path) {
        Some(extension) => Some(rename_to(root, index, path, extension)),
        None => None,
    }
}

/// The renamings of the images of one bucket. The index counts from zero
/// within the bucket.
pub open spec fn bucket_renames(root: Seq<char>, paths: Seq<Seq<char>>) -> Seq<Option<RenameView>> {
    paths.map(|i: int, path: Seq<char>| rename_of(root, i as nat, path))
}

/// The renamings of the images of all buckets, bucket after bucket.
pub open spec fn renames(root: Seq<char>, buckets: Seq<ImageBucketView>) -> Seq<
    Option<RenameView>,
> {
    buckets.map_values(|bucket: ImageBucketView| bucket_renames(root, bucket.image_paths)).flatten()
}

/// The record of a result that is kept as it came: a readable block with
/// the algorithm, the image and the raw answer, closed by a line break.
pub open spec fn plain_entry(algorithm: Seq<char>, image: Seq<char>, raw: Seq<char>) -> Seq<char> {
    "algorithm: "@ + algorithm + " image: "@ + image + " result:\n"@ + raw + "\n"@
}

/// The verdict with its provenance: `algorithm` and `image` are set as
/// strings, over whatever these keys held before.
pub open spec fn annotated(
    verdict: Map<Seq<char>, Member>,
    algorithm: Seq<char>,
    image: Seq<char>,
) -> Map<Seq<char>, Member> {
    verdict.insert(ALGORITHM_KEY@, Member::Text(algorithm)).insert(IMAGE_KEY@, Member::Text(image))
}

/// Whether a verdict signals a match: its `result` is the boolean `true`.
pub open spec fn is_positive(verdict: Map<Seq<char>, Member>) -> bool {
    verdict.get(RESULT_KEY@) == Some(Member::Bool(true))
}

/// The name of the copy of an image with a positive verdict.
pub open spec fn copy_name(algorithm: Seq<char>, file_name: Seq<char>) -> Seq<char> {
    algorithm + "_"@ + file_name
}

/// The copy of the image at `image`, whose file name is `file_name`, into
/// the result directory.
pub open spec fn copy_into_results(
    algorithm: Seq<char>,
    image: Seq<char>,
    file_name: Seq<char>,
) -> ImageCopyView {
    ImageCopyView { from: image, to: path_join(RESULT_DIR@, copy_name(algorithm, file_name)) }
}

/// The line of a structured record: the compact JSON text of the annotated
/// verdict and a line break.
pub open spec fn verdict_entry(
    verdict: Map<Seq<char>, Member>,
    algorithm: Seq<char>,
    image: Seq<char>,
) -> Seq<char> {
    object_text(annotated(verdict, algorithm, image)) + "\n"@
}

/// The record with the log entry `entry`. Where `positive` is set the image
/// is copied into the result directory; that fails with `FilesystemError`
/// where the path of the image names no file.
pub open spec fn record_for(
    entry: Seq<char>,
    positive: bool,
    algorithm: Seq<char>,
    image: Seq<char>,
) -> Result<ResultRecordView, InferError> {
    if positive {
        match path_file_name(image) {
            Some(file_name) => Ok(
                ResultRecordView {
                    entry,
                    copy: Some(copy_into_results(algorithm, image, file_name)),
                },
            ),
            None => Err(InferError::FilesystemError),
        }
    } else {
        Ok(ResultRecordView { entry, copy: None })
    }
}

/// The record of a parsed verdict. The annotated verdict is the entry of
/// the log, and the image is copied where the annotated verdict is
/// positive.
pub open spec fn verdict_record(
    verdict: Map<Seq<char>, Member>,
    algorithm: Seq<char>,
    image: Seq<char>,
) -> Result<ResultRecordView, InferError> {
    record_for(
        verdict_entry(verdict, algorithm, image),
        is_positive(annotated(verdict, algorithm, image)),
        algorithm,
        image,
    )
}

/// The record of a result.
///
/// Unstructured, the answer is kept as it came and nothing is copied.
/// Structured, the JSON embedded in the answer has to be an object, else
/// the recording fails with `ExtractionParseError`; the object is
/// annotated and recorded as [`verdict_record`] says.
pub open spec fn recorded(
    algorithm: Seq<char>,
    image: Seq<char>,
    raw: Seq<char>,
    structured: bool,
) -> Result<ResultRecordView, InferError> {
    if !structured {
        Ok(ResultRecordView { entry: plain_entry(algorithm, image, raw), copy: None })
    } else {
        match extraction(raw) {
            Err(e) => Err(e),
            Ok(text) => match json_object(text) {
                None => Err(InferError::ExtractionParseError),
                Some(verdict) => verdict_record(verdict, algorithm, image),
            },
        }
    }
}

/// Whether `outcome` is what `expected` says: the same error, or a record
/// of the expected value.
pub open spec fn record_is(
    outcome: Result<ResultRecord, InferError>,
    expected: Result<ResultRecordView, InferError>,
) -> bool {
    match outcome {
        Ok(record) => expected == Ok::<ResultRecordView, InferError>(record@),
        Err(e) => expected == Err::<ResultRecordView, InferError>(e),
    }
}

/// Collects the paths of the regular files among `walked`, in order.
pub fn collect_regular_files(walked: &Vec<WalkedEntry>) -> (paths: Vec<String>)
    ensures
        paths.deep_view() == regular_files(walked.deep_view()),
{
    let mut paths: Vec<String> = Vec::new();
    let mut i: usize = 0;
    assert(paths.deep_view() =~= regular_files(walked.deep_view().take(0)));
    while i < walked.len()
        invariant
            i <= walked.len(),
            paths.deep_view() == regular_files(walked.deep_view().take(i as int)),
        decreases walked.len() - i,
    {
        proof {
            walked.deep_view().lemma_filter_map_take_succ(
                |entry: WalkedEntryView| regular_file(entry),
                i as int,
            );
        }
        if walked[i].is_file {
            let ghost before = paths.deep_view();
            paths.push(copy_string(&walked[i].path));
            assert(paths.deep_view() =~= before + seq![walked@[i as int].path@]);
        } else {
            assert(paths.deep_view() + Seq::<Seq<char>>::empty() =~= paths.deep_view());
        }
        i = i + 1;
    }
    assert(walked.deep_view().take(i as int) =~= walked.deep_view());
    paths
}

/// Writes the name of a renamed image.
pub fn numbered_file_name(index: usize, extension: &str) -> (name: String)
    ensures
        name@ == numbered_name(index as nat, extension@),
{
    let mut name = zero_padded_string(index, INDEX_WIDTH);
    name.append(".");
    name.append(extension);
    name
}

/// Says how the `index`-th image of a bucket, at `path` and with the
/// extension `extension`, is renamed below `root`.
pub fn rename_with_extension(root: &str, index: usize, path: &str, extension: &str) -> (rename:
    Rename)
    ensures
        rename@ == rename_to(root@, index as nat, path@, extension@),
{
    let name = numbered_file_name(index, extension);
    let to = join_path(root, name.as_str());
    Rename { from: path.to_owned(), name, to }
}

/// Writes the name of the copy of an image with a positive verdict.
pub fn copy_file_name(algorithm: &str, file_name: &str) -> (name: String)
    ensures
        name@ == copy_name(algorithm@, file_name@),
{
    let mut name = algorithm.to_owned();
    name.append("_");
    name.append(file_name);
    name
}

/// Says where the image at `image`, whose file name is `file_name`, is
/// copied to.
pub fn copy_with_file_name(algorithm: &str, image: &str, file_name: &str) -> (copy: ImageCopy)
    ensures
        copy@ == copy_into_results(algorithm@, image@, file_name@),
{
    let name = copy_file_name(algorithm, file_name);
    ImageCopy { from: image.to_owned(), to: join_path(RESULT_DIR, name.as_str()) }
}

/// Writes the record of a result that is kept as it came.
pub fn plain_record(algorithm: &str, image: &str, raw: &str) -> (record: ResultRecord)
    ensures
        record@ == (ResultRecordView {
            entry: plain_entry(algorithm@, image@, raw@),
            copy: None,
        }),
{
    let mut entry = "algorithm: ".to_owned();
    entry.append(algorithm);
    entry.append(" image: ");
    entry.append(image);
    entry.append(" result:\n");
    entry.append(raw);
    entry.append("\n");
    ResultRecord { entry, copy: None }
}

/// Puts a record together from its log entry and from whether the verdict
/// was positive.
///
/// Fails with `FilesystemError`, and only so, where the verdict was
/// positive and the path of the image names no file.
pub fn record_entry(entry: String, positive: bool, algorithm: &str, image: &str) -> (outcome:
    Result<ResultRecord, InferError>)
    ensures
        record_is(outcome, record_for(entry@, positive, algorithm@, image@)),
{
    if !positive {
        return Ok(ResultRecord { entry, copy: None });
    }
    match file_name_of(image) {
        Some(file_name) => Ok(
            ResultRecord {
                entry,
                copy: Some(copy_with_file_name(algorithm, image, file_name.as_str())),
            },
        ),
        None => Err(InferError::FilesystemError),
    }
}

/// Annotates a parsed verdict with its provenance and says what recording
/// it amounts to.
///
/// Fails with `FilesystemError`, and only so, where the verdict is
/// positive and the path of the image names no file.
pub fn record_verdict(
    verdict: serde_json::Map<String, serde_json::Value>,
    algorithm: &str,
    image: &str,
) -> (outcome: Result<ResultRecord, InferError>)
    ensures
        record_is(outcome, verdict_record(members(verdict), algorithm@, image@)),
{
    let mut verdict = verdict;
    insert_text(&mut verdict, ALGORITHM_KEY, algorithm);
    insert_text(&mut verdict, IMAGE_KEY, image);
    let positive = match member_bool(&verdict, RESULT_KEY) {
        Some(value) => value,
        None => false,
    };
    let mut entry = object_into_text(verdict);
    entry.append("\n");
    record_entry(entry, positive, algorithm, image)
}

/// The paths of a run: the two configuration files and the image root.
#[derive(Clone, Debug, PartialEq, Eq)]
pub struct FileOp {
    pub config_path: String,
    pub algorithm_config_path: String,
    pub image_path: String,
}

impl FileOp {
    /// Keeps the three paths.
    pub fn new(config_path: String, algorithm_config_path: String, image_path: String) -> (file_op:
        FileOp)
        ensures
            file_op.config_path == config_path,
            file_op.algorithm_config_path == algorithm_config_path,
            file_op.image_path == image_path,
    {
        FileOp { config_path, algorithm_config_path, image_path }
    }

    /// Says how the images of the buckets are renamed: each image gets its
    /// index within its bucket, in six digits, as its name, keeps its
    /// extension and moves into the image root. The renamings come in the
    /// order of the buckets and of their images; an image without an
    /// extension has none.
    pub fn rename_image(&self, image_list: &Vec<ImageBucket>) -> (plan: Vec<Option<Rename>>)
        ensures
            plan.deep_view() == renames(self.image_path@, image_list.deep_view()),
    {
        let mut plan: Vec<Option<Rename>> = Vec::new();
        let mut b: usize = 0;
        assert(plan.deep_view() =~= renames(self.image_path@, image_list.deep_view().take(0)));
        while b < image_list.len()
            invariant
                b <= image_list.len(),
                plan.deep_view() == renames(self.image_path@, image_list.deep_view().take(b as int)),
            decreases image_list.len() - b,
        {
            let paths = &image_list[b].image_paths;
            let ghost done = plan.deep_view();
            let mut i: usize = 0;
            assert(plan.deep_view() =~= done + bucket_renames(
                self.image_path@,
                paths.deep_view().take(0),
            ));
            while i < paths.len()
                invariant
                    i <= paths.len(),
                    plan.deep_view() == done + bucket_renames(
                        self.image_path@,
                        paths.deep_view().take(i as int),
                    ),
                decreases paths.len() - i,
            {
                let ghost before = plan.deep_view();
                let step = match extension_of(paths[i].as_str()) {
                    Some(extension) => Some(
                        rename_with_extension(
                            self.image_path.as_str(),
                            i,
                            paths[i].as_str(),
                            extension.as_str(),
                        ),
                    ),
                    None => None,
                };
                assert(step.deep_view() == rename_of(
                    self.image_path@,
                    i as nat,
                    paths.deep_view()[i as int],
                ));
                plan.push(step);
                assert(plan.deep_view() =~= before.push(step.deep_view()));
                assert(bucket_renames(self.image_path@, paths.deep_view().take(i + 1))
                    =~= bucket_renames(self.image_path@, paths.deep_view().take(i as int)).push(
                    step.deep_view(),
                ));
                i = i + 1;
            }
            proof {
                assert(paths.deep_view().take(i as int) =~= paths.deep_view());
                lemma_renames_push(
                    self.image_path@,
                    image_list.deep_view().take(b as int),
                    image_list@[b as int]@,
                );
                assert(image_list.deep_view().take(b + 1) =~= image_list.deep_view().take(
                    b as int,
                ).push(image_list@[b as int]@));
            }
            b = b + 1;
        }
        assert(image_list.deep_view().take(b as int) =~= image_list.deep_view());
        plan
    }

    /// Turns what a look at the image root found into buckets: one for each
    /// direct child that is a directory, named after it, with the regular
    /// files found below it in the order of the walk. A root that is no
    /// directory gives no bucket.
    pub fn get_image_list(&self, listing: &RootListing) -> (buckets: Vec<ImageBucket>)
        ensures
            buckets.deep_view() == image_list(listing@),
    {
        let mut buckets: Vec<ImageBucket> = Vec::new();
        if !listing.is_dir {
            assert(buckets.deep_view() =~= Seq::<ImageBucketView>::empty());
            return buckets;
        }
        let entries = &listing.entries;
        let mut i: usize = 0;
        assert(buckets.deep_view() =~= buckets_of(entries.deep_view().take(0)));
        while i < entries.len()
            invariant
                i <= entries.len(),
                buckets.deep_view() == buckets_of(entries.deep_view().take(i as int)),
            decreases entries.len() - i,
        {
            proof {
                entries.deep_view().lemma_filter_map_take_succ(
                    |entry: RootEntryView| bucket_of(entry),
                    i as int,
                );
            }
            if entries[i].is_dir {
                let ghost before = buckets.deep_view();
                let bucket = ImageBucket {
                    algorithm_name: copy_string(&entries[i].name),
                    image_paths: collect_regular_files(&entries[i].walked),
                };
                assert(Some(bucket@) == bucket_of(entries@[i as int]@));
                buckets.push(bucket);
                assert(buckets.deep_view() =~= before + seq![bucket@]);
            } else {
                assert(buckets.deep_view() + Seq::<ImageBucketView>::empty()
                    =~= buckets.deep_view());
            }
            i = i + 1;
        }
        assert(entries.deep_view().take(i as int) =~= entries.deep_view());
        buckets
    }

    /// Says what recording the answer `result` for `image` under
    /// `algorithm` amounts to.
    ///
    /// With `parse_json` unset the answer is kept as it came, nothing is
    /// parsed and nothing is copied. With `parse_json` set the JSON embedded
    /// in the answer is taken out and parsed as an object, annotated with
    /// the algorithm and the image, and written as one line; the image is
    /// copied where the verdict is positive.
    pub fn save_inference_result(
        &self,
        algorithm: &str,
        image: &str,
        result: &str,
        parse_json: bool,
    ) -> (outcome: Result<ResultRecord, InferError>)
        ensures
            record_is(outcome, recorded(algorithm@, image@, result@, parse_json)),
    {
        if !parse_json {
            return Ok(plain_record(algorithm, image, result));
        }
        let text = match extract_fenced_json(result) {
            Ok(text) => text,
            Err(e) => {
                return Err(e);
            },
        };
        match parse_object(text.as_str()) {
            Some(verdict) => record_verdict(verdict, algorithm, image),
            None => Err(InferError::ExtractionParseError),
        }
    }

    /// Takes the JSON text out of the model's answer `markdown`.
    pub fn parse_json_from_markdown(&self, markdown: &str) -> (extracted: Result<
        String,
        InferError,
    >)
        ensures
            text_is(extracted, extraction(markdown@)),
    {
        extract_fenced_json(markdown)
    }
}

/// One more bucket adds its renamings at the end.
pub proof fn lemma_renames_push(
    root: Seq<char>,
    buckets: Seq<ImageBucketView>,
    bucket: ImageBucketView,
)
    ensures
        renames(root, buckets.push(bucket)) == renames(root, buckets) + bucket_renames(
            root,
            bucket.image_paths,
        ),
{
    let of_bucket = |bucket: ImageBucketView| bucket_renames(root, bucket.image_paths);
    assert(buckets.push(bucket).map_values(of_bucket) =~= buckets.map_values(of_bucket).push(
        bucket_renames(root, bucket.image_paths),
    ));
    buckets.map_values(of_bucket).lemma_flatten_push(bucket_renames(root, bucket.image_paths));
}

/// Annotating a verdict leaves its `result` alone: the annotated verdict is
/// positive exactly where the verdict itself is.
pub proof fn lemma_annotation_keeps_verdict(
    verdict: Map<Seq<char>, Member>,
    algorithm: Seq<char>,
    image: Seq<char>,
)
    ensures
        is_positive(annotated(verdict, algorithm, image)) == is_positive(verdict),
{
    reveal_strlit("algorithm");
    reveal_strlit("image");
    reveal_strlit("result");
    assert(ALGORITHM_KEY@.len() != RESULT_KEY@.len());
    assert(IMAGE_KEY@.len() != RESULT_KEY@.len());
}

/// The annotated verdict names its algorithm and its image as strings,
/// whatever the verdict held under these keys, and keeps every other
/// member.
pub proof fn lemma_annotation_sets_provenance(
    verdict: Map<Seq<char>, Member>,
    algorithm: Seq<char>,
    image: Seq<char>,
)
    ensures
        annotated(verdict, algorithm, image).get(ALGORITHM_KEY@) == Some(Member::Text(algorithm)),
        annotated(verdict, algorithm, image).get(IMAGE_KEY@) == Some(Member::Text(image)),
        forall|key: Seq<char>|
            key != ALGORITHM_KEY@ && key != IMAGE_KEY@ ==> annotated(verdict, algorithm, image).get(
                key,
            ) == verdict.get(key),
{
    reveal_strlit("algorithm");
    reveal_strlit("image");
    assert(ALGORITHM_KEY@.len() != IMAGE_KEY@.len());
}

/// A verdict that is positive, for an image whose path names a file, is
/// recorded as one line and has the image copied into the result directory
/// under the name of the algorithm, an underscore and the file name.
pub proof fn lemma_positive_verdict_is_copied(
    verdict: Map<Seq<char>, Member>,
    algorithm: Seq<char>,
    image: Seq<char>,
    file_name: Seq<char>,
)
    requires
        is_positive(verdict),
        path_file_name(image) == Some(file_name),
    ensures
        verdict_record(verdict, algorithm, image) == Ok::<ResultRecordView, InferError>(
            ResultRecordView {
                entry: verdict_entry(verdict, algorithm, image),
                copy: Some(
                    ImageCopyView {
                        from: image,
                        to: path_join(RESULT_DIR@, algorithm + "_"@ + file_name),
                    },
                ),
            },
        ),
{
    lemma_annotation_keeps_verdict(verdict, algorithm, image);
}

/// A verdict that is not positive is recorded as one line, and no image is
/// copied: not where `result` is `false`, not where it is absent, not where
/// it is no boolean.
pub proof fn lemma_negative_verdict_is_not_copied(
    verdict: Map<Seq<char>, Member>,
    algorithm: Seq<char>,
    image: Seq<char>,
)
    requires
        !is_positive(verdict),
    ensures
        verdict_record(verdict, algorithm, image) == Ok::<ResultRecordView, InferError>(
            ResultRecordView { entry: verdict_entry(verdict, algorithm, image), copy: None },
        ),
{
    lemma_annotation_keeps_verdict(verdict, algorithm, image);
}

/// An unstructured recording never fails and never copies, and its record
/// is the same whatever JSON the answer embeds: the answer is not looked
/// into.
pub proof fn lemma_unstructured_never_copies(
    algorithm: Seq<char>,
    image: Seq<char>,
    raw: Seq<char>,
)
    ensures
        recorded(algorithm, image, raw, false) == Ok::<ResultRecordView, InferError>(
            ResultRecordView { entry: plain_entry(algorithm, image, raw), copy: None },
        ),
{
}

/// The copy of an image goes where its algorithm and its file name say, and
/// nowhere else: two images of one file name, recorded under one algorithm
/// with positive verdicts, are copied to the same place, whatever their
/// directories and whatever else their verdicts hold.
pub proof fn lemma_copy_target_is_deterministic(
    first_verdict: Map<Seq<char>, Member>,
    second_verdict: Map<Seq<char>, Member>,
    algorithm: Seq<char>,
    first_image: Seq<char>,
    second_image: Seq<char>,
)
    requires
        is_positive(first_verdict),
        is_positive(second_verdict),
        path_file_name(first_image) is Some,
        path_file_name(first_image) == path_file_name(second_image),
    ensures
        verdict_record(first_verdict, algorithm, first_image) matches Ok(first) && verdict_record(
            second_verdict,
            algorithm,
            second_image,
        ) matches Ok(second) && first.copy matches Some(one) && second.copy matches Some(other)
            && one.to == other.to,
{
    lemma_annotation_keeps_verdict(first_verdict, algorithm, first_image);
    lemma_annotation_keeps_verdict(second_verdict, algorithm, second_image);
}

} // verus!
