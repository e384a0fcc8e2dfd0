//! From the files of a results directory to the measurements they hold.

use crate::discovery::{Listing, ListingView};
use crate::errors::{IOError, IOErrorView, RunnerError, RunnerErrorView};
use crate::text::{clone_text, deep_result, ends_with, is_suffix};
use vstd::prelude::*;
use vstd::string::*;

verus! {

/// A file of a results directory: its path, the stem of its name, and the
/// extension of its name where it has one that is valid Unicode.
#[derive(Debug, Clone, PartialEq, Eq)]
pub struct ResultFile {
    pub path: String,
    pub stem: String,
    pub extension: Option<String>,
}

/// The mathematical view of [`ResultFile`]: every text as its sequence of characters.
pub struct ResultFileView {
    pub path: Seq<char>,
    pub stem: Seq<char>,
    pub extension: Option<Seq<char>>,
}

impl View for ResultFile {
    type V = ResultFileView;

    open spec fn view(&self) -> ResultFileView {
        ResultFileView {
            path: self.path@,
            stem: self.stem@,
            extension: self.extension.deep_view(),
        }
    }
}

impl DeepView for ResultFile {
    type V = ResultFileView;

    open spec fn deep_view(&self) -> ResultFileView {
        self.view()
    }
}

/// What was learned of one entry of a results directory.
#[derive(Debug, Clone, PartialEq, Eq)]
pub enum ResultEntry {
    /// The entry could not be read; the cause, if known.
    Unreadable(Option<String>),
    File(ResultFile),
}

/// The mathematical view of [`ResultEntry`]: every text as its sequence of characters.
pub enum ResultEntryView {
    Unreadable(Option<Seq<char>>),
    File(ResultFileView),
}

impl View for ResultEntry {
    type V = ResultEntryView;

    open spec fn view(&self) -> ResultEntryView {
        match self {
            ResultEntry::Unreadable(cause) => ResultEntryView::Unreadable(cause.deep_view()),
            ResultEntry::File(file) => ResultEntryView::File(file@),
        }
    }
}

impl DeepView for ResultEntry {
    type V = ResultEntryView;

    open spec fn deep_view(&self) -> ResultEntryView {
        self.view()
    }
}

/// What came of reading one file and decoding its text.
#[derive(Debug, Clone, PartialEq, Eq)]
pub enum Decoded<T> {
    /// The file could not be read as text; the cause, if known.
    Unreadable(Option<String>),
    /// The text is not a document of the expected shape; the diagnostic.
    Malformed(Option<String>),
    Parsed(T),
}

/// The mathematical view of [`Decoded`]: every text as its sequence of characters.
pub enum DecodedView<V> {
    Unreadable(Option<Seq<char>>),
    Malformed(Option<Seq<char>>),
    Parsed(V),
}

impl<T> View for Decoded<T> {
    type V = DecodedView<T>;

    /// The texts as sequences of characters, the value as it is.
    open spec fn view(&self) -> DecodedView<T> {
        match self {
            Decoded::Unreadable(cause) => DecodedView::Unreadable(cause.deep_view()),
            Decoded::Malformed(diagnostic) => DecodedView::Malformed(diagnostic.deep_view()),
            Decoded::Parsed(value) => DecodedView::Parsed(*value),
        }
    }
}

impl<T: DeepView> DeepView for Decoded<T> {
    type V = DecodedView<T::V>;

    /// The texts as sequences of characters, the value by its view.
    open spec fn deep_view(&self) -> DecodedView<T::V> {
        match self {
            Decoded::Unreadable(cause) => DecodedView::Unreadable(cause.deep_view()),
            Decoded::Malformed(diagnostic) => DecodedView::Malformed(diagnostic.deep_view()),
            Decoded::Parsed(value) => DecodedView::Parsed(value.deep_view()),
        }
    }
}

/// The file is taken for a report: its extension ends with `json`.
pub open spec fn is_json_file(file: ResultFileView) -> bool {
    match file.extension {
        Some(extension) => is_suffix("json"@, extension),
        None => false,
    }
}

/// The reports among `entries`, in order; or the error of the first entry
/// that could not be read.
pub open spec fn json_entries(dir: Seq<char>, entries: Seq<ResultEntryView>) -> Result<
    Seq<ResultFileView>,
    RunnerErrorView,
>
    decreases entries.len(),
{
    if entries.len() == 0 {
        Ok(Seq::empty())
    } else {
        match json_entries(dir, entries.drop_last()) {
            Err(e) => Err(e),
            Ok(files) => match entries.last() {
                ResultEntryView::Unreadable(cause) => Err(
                    RunnerErrorView::RunnerIOError(IOErrorView::ReadErr(dir, cause)),
                ),
                ResultEntryView::File(file) => if is_json_file(file) {
                    Ok(files.push(file))
                } else {
                    Ok(files)
                },
            },
        }
    }
}

/// The reports of a listed results directory.
pub open spec fn json_listing(dir: Seq<char>, listing: ListingView<ResultEntryView>) -> Result<
    Seq<ResultFileView>,
    RunnerErrorView,
> {
    match listing {
        ListingView::Failed(cause) => Err(
            RunnerErrorView::RunnerIOError(IOErrorView::ReadErr(dir, cause)),
        ),
        ListingView::Entries(entries) => json_entries(dir, entries),
    }
}

/// The error that a file which gave no value ends the ingestion with.
pub open spec fn decode_failure<V>(file: ResultFileView, decoded: DecodedView<V>) -> Option<
    RunnerErrorView,
> {
    match decoded {
        DecodedView::Unreadable(cause) => Some(
            RunnerErrorView::RunnerIOError(IOErrorView::BadFileContentsErr(file.path, cause)),
        ),
        DecodedView::Malformed(diagnostic) => Some(
            RunnerErrorView::BadJSONErr(file.path, diagnostic),
        ),
        DecodedView::Parsed(_) => None,
    }
}

/// Every file with the value decoded from it, in order; or the error of the
/// first file that gave none.
pub open spec fn ingest<V>(read: Seq<(ResultFileView, DecodedView<V>)>) -> Result<
    Seq<(ResultFileView, V)>,
    RunnerErrorView,
>
    decreases read.len(),
{
    if read.len() == 0 {
        Ok(Seq::empty())
    } else {
        match ingest(read.drop_last()) {
            Err(e) => Err(e),
            Ok(values) => match read.last().1 {
                DecodedView::Parsed(value) => Ok(values.push((read.last().0, value))),
                _ => Err(decode_failure(read.last().0, read.last().1)->Some_0),
            },
        }
    }
}

/// The files that were read, each by its view, with what was decoded from
/// it: the decoded value as it is.
pub open spec fn files_read<T>(read: Seq<(ResultFile, Decoded<T>)>) -> Seq<
    (ResultFileView, DecodedView<T>),
> {
    Seq::new(read.len(), |i: int| (read[i].0@, read[i].1@))
}

/// The files that were kept, each by its view, with its value as it is.
pub open spec fn files_kept<T>(kept: Seq<(ResultFile, T)>) -> Seq<(ResultFileView, T)> {
    Seq::new(kept.len(), |i: int| (kept[i].0@, kept[i].1))
}

/// Every decoded value by its view.
pub open spec fn decoded_views<T: DeepView>(read: Seq<(ResultFileView, DecodedView<T>)>) -> Seq<
    (ResultFileView, DecodedView<T::V>),
> {
    Seq::new(
        read.len(),
        |i: int|
            (
                read[i].0,
                match read[i].1 {
                    DecodedView::Unreadable(cause) => DecodedView::Unreadable(cause),
                    DecodedView::Malformed(diagnostic) => DecodedView::Malformed(diagnostic),
                    DecodedView::Parsed(value) => DecodedView::Parsed(value.deep_view()),
                },
            ),
    )
}

/// Every kept value by its view.
pub open spec fn kept_views<T: DeepView>(kept: Seq<(ResultFileView, T)>) -> Seq<
    (ResultFileView, T::V),
> {
    Seq::new(kept.len(), |i: int| (kept[i].0, kept[i].1.deep_view()))
}

/// Ingestion does not look into the values: taking every value by its view
/// before the ingestion and after it comes to the same.
pub proof fn lemma_ingest_of_views<T: DeepView>(read: Seq<(ResultFileView, DecodedView<T>)>)
    ensures
        ingest(decoded_views(read)) == match ingest(read) {
            Ok(kept) => Ok::<Seq<(ResultFileView, T::V)>, RunnerErrorView>(kept_views(kept)),
            Err(e) => Err(e),
        },
    decreases read.len(),
{
    if read.len() > 0 {
        let front = read.drop_last();
        lemma_ingest_of_views(front);
        assert(decoded_views(read).drop_last() =~= decoded_views(front));
        assert(decoded_views(read).last() == decoded_views(read)[read.len() - 1]);
        match ingest(front) {
            Ok(kept) => {
                match read.last().1 {
                    DecodedView::Parsed(value) => {
                        assert(kept_views(kept.push((read.last().0, value))) =~= kept_views(
                            kept,
                        ).push((read.last().0, value.deep_view())));
                    },
                    _ => {},
                }
            },
            Err(_) => {},
        }
    } else {
        assert(decoded_views(read) =~= Seq::empty());
        assert(kept_views(Seq::<(ResultFileView, T)>::empty()) =~= Seq::empty());
    }
}

proof fn lemma_listing_error_stays(dir: Seq<char>, entries: Seq<ResultEntryView>, k: int)
    requires
        0 <= k <= entries.len(),
        json_entries(dir, entries.take(k)) is Err,
    ensures
        json_entries(dir, entries) == json_entries(dir, entries.take(k)),
    decreases entries.len() - k,
{
    if k == entries.len() {
        assert(entries.take(k) =~= entries);
    } else {
        assert(entries.take(k + 1).drop_last() =~= entries.take(k));
        lemma_listing_error_stays(dir, entries, k + 1);
    }
}

/// Once a file has failed, what follows it changes nothing.
pub proof fn lemma_ingest_error_stays<V>(read: Seq<(ResultFileView, DecodedView<V>)>, k: int)
    requires
        0 <= k <= read.len(),
        ingest(read.take(k)) is Err,
    ensures
        ingest(read) == ingest(read.take(k)),
    decreases read.len() - k,
{
    if k == read.len() {
        assert(read.take(k) =~= read);
    } else {
        assert(read.take(k + 1).drop_last() =~= read.take(k));
        lemma_ingest_error_stays(read, k + 1);
    }
}

/// One file that gives no value fails the whole ingestion: no file is
/// passed over.
pub proof fn lemma_one_bad_file_fails_all<V>(read: Seq<(ResultFileView, DecodedView<V>)>, k: int)
    requires
        0 <= k < read.len(),
        !(read[k].1 is Parsed),
    ensures
        ingest(read) is Err,
{
    assert(read.take(k + 1).drop_last() =~= read.take(k));
    assert(read.take(k + 1).last() == read[k]);
    assert(ingest(read.take(k + 1)) is Err);
    lemma_ingest_error_stays(read, k + 1);
}

/// Ingestion succeeds exactly when every file gave a value, and then keeps
/// every file, in order, with its value.
pub proof fn lemma_ingest_keeps_all<V>(read: Seq<(ResultFileView, DecodedView<V>)>)
    requires
        forall|k: int| 0 <= k < read.len() ==> (#[trigger] read[k]).1 is Parsed,
    ensures
        ingest(read) is Ok,
        ingest(read)->Ok_0.len() == read.len(),
        forall|k: int|
            0 <= k < read.len() ==> #[trigger] ingest(read)->Ok_0[k] == (
                read[k].0,
                read[k].1->Parsed_0,
            ),
    decreases read.len(),
{
    if read.len() > 0 {
        let front = read.drop_last();
        assert forall|k: int| 0 <= k < front.len() implies (#[trigger] front[k]).1 is Parsed by {
            assert(front[k] == read[k]);
        }
        lemma_ingest_keeps_all(front);
        assert(read.last() == read[read.len() - 1]);
        assert forall|k: int| 0 <= k < read.len() implies #[trigger] ingest(read)->Ok_0[k] == (
            read[k].0,
            read[k].1->Parsed_0,
        ) by {
            if k < front.len() {
                assert(front[k] == read[k]);
                assert(ingest(read)->Ok_0[k] == ingest(front)->Ok_0[k]);
            }
        }
    }
}

fn clone_file(file: &ResultFile) -> (r: ResultFile)
    ensures
        r@ == file@,
{
    ResultFile {
        path: file.path.clone(),
        stem: file.stem.clone(),
        extension: clone_text(&file.extension),
    }
}

/// Whether a file is taken for a report: its extension ends with `json`.
pub fn has_json_extension(file: &ResultFile) -> (b: bool)
    ensures
        b == is_json_file(file@),
{
    match &file.extension {
        Some(extension) => ends_with(extension.as_str(), "json"),
        None => false,
    }
}

/// The reports of a listed results directory: the files whose extension
/// ends with `json`, in the order of the listing.
///
/// Fails where the directory could not be listed, or one of its entries
/// could not be read, whatever its name.
pub fn json_files(dir: &str, listing: &Listing<ResultEntry>) -> (r: Result<
    Vec<ResultFile>,
    RunnerError,
>)
    ensures
        deep_result(r) == json_listing(dir@, listing.deep_view()),
{
    match listing {
        Listing::Failed(cause) => Err(
            RunnerError::RunnerIOError(
                IOError::ReadErr(String::from_str(dir), clone_text(cause)),
            ),
        ),
        Listing::Entries(entries) => {
            let ghost all = entries.deep_view();
            let mut files: Vec<ResultFile> = Vec::new();
            assert(all.take(0) =~= Seq::empty());
            assert(files.deep_view() =~= Seq::empty());
            let mut i: usize = 0;
            while i < entries.len()
                invariant
                    all == entries.deep_view(),
                    listing.deep_view() == ListingView::Entries(all),
                    i <= entries.len(),
                    json_entries(dir@, all.take(i as int)) == Ok::<
                        Seq<ResultFileView>,
                        RunnerErrorView,
                    >(files.deep_view()),
                decreases entries.len() - i,
            {
                proof {
                    assert(all.take(i + 1).drop_last() =~= all.take(i as int));
                    assert(all.take(i + 1).last() == entries[i as int]@);
                }
                match &entries[i] {
                    ResultEntry::Unreadable(cause) => {
                        proof {
                            lemma_listing_error_stays(dir@, all, i + 1);
                        }
                        return Err(
                            RunnerError::RunnerIOError(
                                IOError::ReadErr(String::from_str(dir), clone_text(cause)),
                            ),
                        );
                    },
                    ResultEntry::File(file) => {
                        if has_json_extension(file) {
                            let ghost before = files.deep_view();
                            files.push(clone_file(file));
                            assert(files.deep_view() =~= before.push(file@));
                        }
                    },
                }
                i += 1;
            }
            assert(all.take(i as int) =~= all);
            Ok(files)
        },
    }
}

/// Keeps every file with the value decoded from it, in order.
///
/// Fails with the error of the first file that gave no value: no file is
/// passed over. A file that could not be read as text fails with
/// `BadFileContentsErr`, one whose text is not a document of the expected
/// shape with `BadJSONErr`; both carry the file's path.
pub fn from_json_files<T>(read: Vec<(ResultFile, Decoded<T>)>) -> (r: Result<
    Vec<(ResultFile, T)>,
    RunnerError,
>)
    ensures
        match ingest(files_read(read@)) {
            Ok(kept) => r is Ok && files_kept(r->Ok_0@) == kept,
            Err(e) => r is Err && r->Err_0@ == e,
        },
{
    let ghost all = files_read(read@);
    let mut values: Vec<(ResultFile, T)> = Vec::new();
    assert(all.take(0) =~= Seq::empty());
    assert(files_kept(values@) =~= Seq::empty());
    for entry in it: read.into_iter()
        invariant
            all == files_read(read@),
            it.seq() == read@,
            ingest(all.take(it.index() as int)) == Ok::<Seq<(ResultFileView, T)>, RunnerErrorView>(
                files_kept(values@),
            ),
    {
        proof {
            let i = it.index() as int;
            assert(all.take(i + 1).drop_last() =~= all.take(i));
            assert(all.take(i + 1).last() == (entry.0@, entry.1@));
        }
        let (file, decoded) = entry;
        match decoded {
            Decoded::Unreadable(cause) => {
                proof {
                    lemma_ingest_error_stays(all, it.index() + 1);
                }
                return Err(RunnerError::RunnerIOError(IOError::BadFileContentsErr(file.path, cause)));
            },
            Decoded::Malformed(diagnostic) => {
                proof {
                    lemma_ingest_error_stays(all, it.index() + 1);
                }
                return Err(RunnerError::BadJSONErr(file.path, diagnostic));
            },
            Decoded::Parsed(value) => {
                let ghost before = files_kept(values@);
                values.push((file, value));
                assert(files_kept(values@) =~= before.push((file@, value)));
            },
        }
    }
    assert(all.take(all.len() as int) =~= all);
    Ok(values)
}

} // verus!
