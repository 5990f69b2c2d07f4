//! The snapshot of a directory: a manifest with one entry for each regular
//! file, holding the file's relative path and its content, compressed and
//! encoded as text. Restoring a manifest yields the files to write, and
//! refuses any entry whose path leads out of the destination: an absolute
//! path, or one with a `..` segment.

use crate::codec::{
    base64_len, compress_to_base64, compress_to_base64_spec, decoded, decompress_from_base64,
    decompress_from_base64_spec, deflated, is_base64_char, CodecError,
};
use crate::path::{leaves_root, leaves_root_dir};
use vstd::prelude::*;

verus! {

/// A regular file: its path relative to the root of the snapshot, with `/`
/// between the segments, and its content.
#[derive(Debug, PartialEq, Eq)]
pub struct FileData {
    pub path: String,
    pub data: Vec<u8>,
}

/// A file as contracts speak of it.
pub struct FileDataView {
    pub path: Seq<char>,
    pub data: Seq<u8>,
}

impl View for FileData {
    type V = FileDataView;

    open spec fn view(&self) -> FileDataView {
        FileDataView { path: self.path@, data: self.data@ }
    }
}

/// One entry of a manifest: the relative path of a file and its content,
/// compressed and encoded as unpadded base64.
#[derive(Debug, PartialEq, Eq)]
pub struct FsImageEntry {
    pub path: String,
    pub data_base64: String,
}

/// A manifest entry as contracts speak of it.
pub struct FsImageEntryView {
    pub path: Seq<char>,
    pub data_base64: Seq<char>,
}

impl View for FsImageEntry {
    type V = FsImageEntryView;

    open spec fn view(&self) -> FsImageEntryView {
        FsImageEntryView { path: self.path@, data_base64: self.data_base64@ }
    }
}

/// A manifest: the entries in the order in which the files were walked.
pub type FsImage = Vec<FsImageEntry>;

/// Why a snapshot could not be made.
#[derive(Debug, Clone, Copy, PartialEq, Eq, Structural)]
pub enum SnapshotError {
    /// The file at `index` compresses to a stream whose text would not fit
    /// in memory.
    TooLarge { index: usize },
}

/// Why an entry of a manifest was refused.
#[derive(Debug, Clone, Copy, PartialEq, Eq, Structural)]
pub enum RestoreError {
    /// The entry's path leads out of the destination: it is absolute, or a
    /// segment of it is `..`.
    PathTraversal,
    /// The entry's content could not be decoded.
    Codec(CodecError),
}

/// A restore that stopped: the entry at `index` was refused with `error`,
/// and `written` holds the files of the entries before it.
#[derive(Debug, PartialEq, Eq)]
pub struct RestoreFailure {
    pub index: usize,
    pub error: RestoreError,
    pub written: Vec<FileData>,
}

/// A stopped restore as contracts speak of it.
pub struct RestoreFailureView {
    pub index: int,
    pub error: RestoreError,
    pub written: Seq<FileDataView>,
}

impl View for RestoreFailure {
    type V = RestoreFailureView;

    open spec fn view(&self) -> RestoreFailureView {
        RestoreFailureView {
            index: self.index as int,
            error: self.error,
            written: files_view(self.written@),
        }
    }
}

/// Files as contracts speak of them.
pub open spec fn files_view(files: Seq<FileData>) -> Seq<FileDataView> {
    files.map_values(|f: FileData| f@)
}

/// A manifest as contracts speak of it.
pub open spec fn image_view(image: Seq<FsImageEntry>) -> Seq<FsImageEntryView> {
    image.map_values(|e: FsImageEntry| e@)
}

/// The outcome of a snapshot as contracts speak of it.
pub open spec fn snapshot_view(out: Result<FsImage, SnapshotError>) -> Result<
    Seq<FsImageEntryView>,
    SnapshotError,
> {
    match out {
        Ok(image) => Ok(image_view(image@)),
        Err(e) => Err(e),
    }
}

/// The outcome of a restore as contracts speak of it.
pub open spec fn restore_view(out: Result<Vec<FileData>, RestoreFailure>) -> Result<
    Seq<FileDataView>,
    RestoreFailureView,
> {
    match out {
        Ok(files) => Ok(files_view(files@)),
        Err(failure) => Err(failure@),
    }
}

/// The manifest entry of `file`, or `None` where its compressed content is
/// too long to be encoded.
pub open spec fn entry_of(file: FileDataView) -> Option<FsImageEntryView> {
    match compress_to_base64_spec(file.data) {
        Some(text) => Some(FsImageEntryView { path: file.path, data_base64: text }),
        None => None,
    }
}

/// What `create_fs_image` returns for the first `n` of `files`: their
/// entries in order, or the index of the first file that has none.
pub open spec fn create_spec(files: Seq<FileDataView>, n: int) -> Result<
    Seq<FsImageEntryView>,
    SnapshotError,
>
    decreases n,
{
    if n <= 0 || n > files.len() {
        Ok(Seq::empty())
    } else {
        match create_spec(files, n - 1) {
            Err(e) => Err(e),
            Ok(image) => match entry_of(files[n - 1]) {
                Some(entry) => Ok(image.push(entry)),
                None => Err(SnapshotError::TooLarge { index: (n - 1) as usize }),
            },
        }
    }
}

/// What an entry with path `path` gives once its content has been decoded
/// with outcome `content`: the file to write, or the reason why the entry is
/// refused. A path that is absolute or has a `..` segment is refused
/// whatever the content is.
pub open spec fn restore_file_spec(path: Seq<char>, content: Result<Seq<u8>, CodecError>) -> Result<
    FileDataView,
    RestoreError,
> {
    if leaves_root(path) {
        Err(RestoreError::PathTraversal)
    } else {
        match content {
            Ok(data) => Ok(FileDataView { path, data }),
            Err(e) => Err(RestoreError::Codec(e)),
        }
    }
}

/// What restoring one entry gives: the outcome for its path and its
/// content, decoded and decompressed.
pub open spec fn restore_entry(entry: FsImageEntryView) -> Result<FileDataView, RestoreError> {
    restore_file_spec(entry.path, decompress_from_base64_spec(entry.data_base64))
}

/// The outcome for one file as contracts speak of it.
pub open spec fn file_view(out: Result<FileData, RestoreError>) -> Result<
    FileDataView,
    RestoreError,
> {
    match out {
        Ok(file) => Ok(file@),
        Err(e) => Err(e),
    }
}

/// Judges one entry whose content has been decoded with outcome `content`:
/// a path that is absolute or has a `..` segment is refused with
/// `PathTraversal`, whatever the content; else a content that could not be decoded is refused with the
/// decoder's error; else the file to write has the path and the content.
pub fn restore_file(path: &str, content: Result<Vec<u8>, CodecError>) -> (out: Result<
    FileData,
    RestoreError,
>)
    ensures
        file_view(out) == restore_file_spec(path@, decoded(content)),
{
    if leaves_root_dir(path) {
        return Err(RestoreError::PathTraversal);
    }
    match content {
        Ok(data) => Ok(FileData { path: path.to_owned(), data }),
        Err(e) => Err(RestoreError::Codec(e)),
    }
}

/// What `import_fs_image` returns for the first `n` entries of `image`:
/// their files in order, or the first entry that is refused together with
/// the files of the entries before it.
pub open spec fn restore_spec(image: Seq<FsImageEntryView>, n: int) -> Result<
    Seq<FileDataView>,
    RestoreFailureView,
>
    decreases n,
{
    if n <= 0 || n > image.len() {
        Ok(Seq::empty())
    } else {
        match restore_spec(image, n - 1) {
            Err(failure) => Err(failure),
            Ok(written) => match restore_entry(image[n - 1]) {
                Ok(file) => Ok(written.push(file)),
                Err(error) => Err(RestoreFailureView { index: n - 1, error, written }),
            },
        }
    }
}

/// Whether no path among `files` leads out of the directory the files are
/// written under: none is absolute, and none has a `..` segment.
pub open spec fn paths_stay_inside(files: Seq<FileDataView>) -> bool {
    forall|i: int| 0 <= i < files.len() ==> !leaves_root(#[trigger] files[i].path)
}

/// Builds the manifest of `files`: one entry for each, in the same order,
/// with the same path and the content compressed and encoded as text. The
/// text has the length that unpadded base64 needs for the compressed
/// content, and holds no character outside the base64 alphabet.
///
/// Fails only where the compressed content of a file is too long to be
/// encoded on this machine, and names the first such file.
///
/// The text of each entry decodes and decompresses to the content of its
/// file. Restoring the manifest gives the files back, as long as no path
/// among them is absolute or has a `..` segment.
pub fn create_fs_image(files: &Vec<FileData>) -> (out: Result<FsImage, SnapshotError>)
    ensures
        snapshot_view(out) == create_spec(files_view(files@), files@.len() as int),
        out matches Ok(image) ==> forall|i: int, j: int|
            0 <= i < image@.len() && 0 <= j < image@[i].data_base64@.len() ==> is_base64_char(
                #[trigger] image@[i].data_base64@[j],
            ),
        out matches Ok(image) ==> image@.len() == files@.len() && forall|i: int|
            0 <= i < image@.len() ==> (#[trigger] image@[i]).data_base64@.len() == base64_len(
                deflated(files@[i].data@).len(),
            ),
        out matches Ok(image) ==> forall|i: int|
            0 <= i < image@.len() ==> decompress_from_base64_spec(
                (#[trigger] image@[i]).data_base64@,
            ) == Ok::<Seq<u8>, CodecError>(files@[i].data@),
        out matches Ok(image) ==> paths_stay_inside(files_view(files@)) ==> restore_spec(
            image_view(image@),
            image@.len() as int,
        ) == Ok::<Seq<FileDataView>, RestoreFailureView>(files_view(files@)),
{
    let mut image: Vec<FsImageEntry> = Vec::new();
    let mut i: usize = 0;
    proof {
        assert(image_view(image@) =~= Seq::empty());
        assert(files_view(files@).take(0) =~= Seq::empty());
    }
    while i < files.len()
        invariant
            i <= files.len(),
            image@.len() == i,
            create_spec(files_view(files@), i as int) == Ok::<Seq<FsImageEntryView>, SnapshotError>(
                image_view(image@),
            ),
            forall|k: int, j: int|
                0 <= k < image@.len() && 0 <= j < image@[k].data_base64@.len() ==> is_base64_char(
                    #[trigger] image@[k].data_base64@[j],
                ),
            forall|k: int|
                0 <= k < image@.len() ==> (#[trigger] image@[k]).data_base64@.len() == base64_len(
                    deflated(files@[k].data@).len(),
                ),
            forall|k: int|
                0 <= k < image@.len() ==> decompress_from_base64_spec(
                    (#[trigger] image@[k]).data_base64@,
                ) == Ok::<Seq<u8>, CodecError>(files@[k].data@),
            paths_stay_inside(files_view(files@)) ==> restore_spec(image_view(image@), i as int)
                == Ok::<Seq<FileDataView>, RestoreFailureView>(files_view(files@).take(i as int)),
        decreases files.len() - i,
    {
        let file = &files[i];
        let ghost before = image@;
        match compress_to_base64(file.data.as_slice()) {
            Some(text) => {
                image.push(FsImageEntry { path: file.path.clone(), data_base64: text });
                proof {
                    let fv = files_view(files@);
                    let entry = image@[i as int]@;
                    assert(image_view(image@) =~= image_view(before).push(entry));
                    if paths_stay_inside(fv) {
                        assert(restore_entry(entry) == Ok::<FileDataView, RestoreError>(
                            fv[i as int],
                        ));
                        lemma_restore_ignores_later(image_view(before), image_view(image@), i as int);
                        assert(fv.take(i + 1) =~= fv.take(i as int).push(fv[i as int]));
                    }
                }
            },
            None => {
                proof {
                    lemma_create_failure_stays(
                        files_view(files@),
                        i as int + 1,
                        files@.len() as int,
                    );
                }
                return Err(SnapshotError::TooLarge { index: i });
            },
        }
        i += 1;
    }
    proof {
        assert(files_view(files@).take(i as int) =~= files_view(files@));
    }
    Ok(image)
}

/// The outcome of a snapshot, file by file: on success the manifest has
/// the entry of each file at the file's place; on failure the file named is
/// the first that has no entry.
pub proof fn lemma_create_outcome(files: Seq<FileDataView>, n: int)
    requires
        0 <= n <= files.len() <= usize::MAX,
    ensures
        match create_spec(files, n) {
            Ok(image) => {
                &&& image.len() == n
                &&& forall|i: int| 0 <= i < n ==> #[trigger] entry_of(files[i]) == Some(image[i])
            },
            Err(SnapshotError::TooLarge { index }) => {
                &&& index < n
                &&& entry_of(files[index as int]) is None
                &&& forall|i: int| 0 <= i < index ==> #[trigger] entry_of(files[i]) is Some
            },
        },
    decreases n,
{
    if n > 0 {
        lemma_create_outcome(files, n - 1);
    }
}

/// Once a file has no entry, no later file changes the outcome.
pub proof fn lemma_create_failure_stays(files: Seq<FileDataView>, n: int, m: int)
    requires
        0 <= n <= m <= files.len(),
        create_spec(files, n) is Err,
    ensures
        create_spec(files, m) == create_spec(files, n),
    decreases m - n,
{
    if n < m {
        lemma_create_failure_stays(files, n, m - 1);
    }
}

/// Once an entry is refused, no later entry changes the outcome.
pub proof fn lemma_restore_failure_stays(image: Seq<FsImageEntryView>, n: int, m: int)
    requires
        0 <= n <= m <= image.len(),
        restore_spec(image, n) is Err,
    ensures
        restore_spec(image, m) == restore_spec(image, n),
    decreases m - n,
{
    if n < m {
        lemma_restore_failure_stays(image, n, m - 1);
    }
}

/// Restoring the first `n` entries of a manifest looks at those entries
/// alone.
pub proof fn lemma_restore_ignores_later(
    a: Seq<FsImageEntryView>,
    b: Seq<FsImageEntryView>,
    n: int,
)
    requires
        0 <= n <= a.len(),
        n <= b.len(),
        forall|i: int| 0 <= i < n ==> a[i] == b[i],
    ensures
        restore_spec(a, n) == restore_spec(b, n),
    decreases n,
{
    if n > 0 {
        lemma_restore_ignores_later(a, b, n - 1);
    }
}

/// Restores a manifest: gives, for each entry in order, the file to write
/// under the destination, with the entry's path and the decoded,
/// decompressed content.
///
/// Stops at the first entry that is refused: one whose path is absolute or
/// has a `..` segment (`PathTraversal`, whatever its content), else one
/// whose content is no base64 text or no DEFLATE stream (`Codec`). The
/// failure names that entry and holds the files of the entries before it,
/// which are all that may be written.
pub fn import_fs_image(image: &FsImage) -> (out: Result<Vec<FileData>, RestoreFailure>)
    ensures
        restore_view(out) == restore_spec(image_view(image@), image@.len() as int),
{
    let mut written: Vec<FileData> = Vec::new();
    let mut i: usize = 0;
    proof {
        assert(files_view(written@) =~= Seq::empty());
    }
    while i < image.len()
        invariant
            i <= image.len(),
            written@.len() == i,
            restore_spec(image_view(image@), i as int) == Ok::<
                Seq<FileDataView>,
                RestoreFailureView,
            >(files_view(written@)),
        decreases image.len() - i,
    {
        let entry = &image[i];
        let ghost before = written@;
        let content = decompress_from_base64(entry.data_base64.as_str());
        match restore_file(entry.path.as_str(), content) {
            Ok(file) => {
                written.push(file);
                assert(files_view(written@) =~= files_view(before).push(written@[i as int]@));
            },
            Err(error) => {
                proof {
                    lemma_restore_failure_stays(
                        image_view(image@),
                        i as int + 1,
                        image@.len() as int,
                    );
                }
                return Err(RestoreFailure { index: i, error, written });
            },
        }
        i += 1;
    }
    Ok(written)
}

/// The outcome of a restore, entry by entry: on success each entry gave
/// its file; on failure the refused entry is the first that gives none, its
/// error is the one reported, and the files before it are those written.
pub proof fn lemma_restore_outcome(image: Seq<FsImageEntryView>, n: int)
    requires
        0 <= n <= image.len(),
    ensures
        match restore_spec(image, n) {
            Ok(files) => {
                &&& files.len() == n
                &&& forall|i: int|
                    0 <= i < n ==> restore_entry(image[i]) == Ok::<FileDataView, RestoreError>(
                        #[trigger] files[i],
                    )
            },
            Err(failure) => {
                &&& 0 <= failure.index < n
                &&& restore_entry(image[failure.index]) == Err::<FileDataView, RestoreError>(
                    failure.error,
                )
                &&& failure.written.len() == failure.index
                &&& forall|i: int|
                    0 <= i < failure.index ==> restore_entry(image[i]) == Ok::<
                        FileDataView,
                        RestoreError,
                    >(#[trigger] failure.written[i])
            },
        },
    decreases n,
{
    if n > 0 {
        lemma_restore_outcome(image, n - 1);
    }
}

/// An entry whose path is absolute or has a `..` segment makes the restore
/// fail, at that entry or before it; where the entries before it are all
/// restored, it fails at that entry with `PathTraversal`.
pub proof fn lemma_traversal_is_refused(image: Seq<FsImageEntryView>, k: int)
    requires
        0 <= k < image.len(),
        leaves_root(image[k].path),
    ensures
        restore_spec(image, image.len() as int) matches Err(failure) && failure.index <= k && (
        failure.index == k ==> failure.error == RestoreError::PathTraversal),
        restore_spec(image, k) matches Ok(written) ==> restore_spec(image, image.len() as int)
            == Err::<Seq<FileDataView>, RestoreFailureView>(
            RestoreFailureView { index: k, error: RestoreError::PathTraversal, written },
        ),
{
    lemma_restore_outcome(image, k + 1);
    lemma_restore_failure_stays(image, k + 1, image.len() as int);
}

/// No file that a restore gives, whether it succeeds or stops, has a path
/// that leads out of the destination: none is absolute, and none has a
/// `..` segment.
pub proof fn lemma_restored_paths_stay_inside(image: Seq<FsImageEntryView>)
    ensures
        match restore_spec(image, image.len() as int) {
            Ok(files) => paths_stay_inside(files),
            Err(failure) => paths_stay_inside(failure.written),
        },
{
    lemma_restore_outcome(image, image.len() as int);
}

} // verus!
