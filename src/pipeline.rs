use vstd::prelude::*;
use crate::extract::{attribute_values_of, extracted, first_inner_html_of, ExtractionError, VideoInformation};
use crate::mega::{sanitized, Mega};
use crate::storage::UploadError;
use vstd::string::StringExecFns;

verus! {

/// The chrono pattern of the time stamps in file names: `YYYYMMDDhhmmss`.
pub const STAMP_PATTERN: &'static str = "%Y%m%d%H%M%S";

/// Relies on chrono's `Local::now` and `DateTime::format`: the local time now,
/// written with `pattern`, whose items are all valid. Nothing is known of the
/// time it reads.
#[verifier::external_body]
fn local_time_text(pattern: &str) -> (r: String)
    requires
        pattern@ == STAMP_PATTERN@,
{
    chrono::Local::now().format(pattern).to_string()
}

/// The name of the scratch file that a download is written to.
pub open spec fn scratch_name(stamp: Seq<char>, extension: Seq<char>) -> Seq<char> {
    stamp + "."@ + extension
}

/// The remote name of an upload: `{author} - {category} - {stamp}.{extension}`
/// without the characters that remote names may not hold.
pub open spec fn remote_name(
    author: Seq<char>,
    category: Seq<char>,
    stamp: Seq<char>,
    extension: Seq<char>,
) -> Seq<char> {
    sanitized(author + " - "@ + category + " - "@ + stamp + "."@ + extension)
}

/// What a fetched page gives: its video information or why there is none.
pub open spec fn page_outcome(page: Seq<char>) -> Result<
    (Seq<char>, Seq<char>, Seq<char>),
    ExtractionError,
> {
    extracted(first_inner_html_of(page, "title"@), attribute_values_of(page, "video"@, "src"@))
}

/// The scratch file name for a download taken at `stamp`.
pub fn temporary_file_name(stamp: &str, extension: &str) -> (r: String)
    ensures
        r@ == scratch_name(stamp@, extension@),
{
    let mut r = String::new();
    r.append(stamp);
    r.append(".");
    r.append(extension);
    assert(r@ =~= scratch_name(stamp@, extension@));
    r
}

/// The remote file name for an upload by `author` taken at `stamp`.
pub fn upload_file_name(author: &str, category: &str, stamp: &str, extension: &str) -> (r: String)
    ensures
        r@ == remote_name(author@, category@, stamp@, extension@),
{
    let mut r = String::new();
    r.append(author);
    r.append(" - ");
    r.append(category);
    r.append(" - ");
    r.append(stamp);
    r.append(".");
    r.append(extension);
    Mega::remove_invalid_characters(r)
}

/// Why an item of a batch was not archived.
#[derive(Debug, PartialEq, Eq)]
pub enum SkipReason {
    /// The page could not be fetched.
    Fetch(String),
    /// The page held no usable video.
    Extraction(ExtractionError),
    /// The video could not be downloaded.
    Download(String),
    /// The video could not be uploaded.
    Upload(UploadError),
}

/// What became of one item of a batch.
#[derive(Debug, PartialEq, Eq)]
pub enum ItemResult {
    /// Stored remotely under this name.
    Uploaded(String),
    /// Not stored.
    Skipped(SkipReason),
}

/// Where the current item of a batch stands.
pub enum Stage {
    /// Its page is to be fetched.
    Fetching,
    /// Its video is to be downloaded into the scratch file `scratch`.
    Downloading { info: VideoInformation, scratch: String },
    /// The scratch file `scratch` is to be uploaded as `remote`.
    Uploading { scratch: String, remote: String },
}

/// What the caller is to do next for a batch.
pub enum Action {
    /// Fetch the page at this address as text, then call `on_page`.
    FetchPage(String),
    /// Download `asset_url` into the scratch file `scratch`, then call `on_downloaded`.
    Download { asset_url: String, scratch: String },
    /// Upload the scratch file `scratch` as `remote` into the node `destination`,
    /// then call `on_uploaded`.
    Upload { scratch: String, remote: String, destination: String },
    /// Every item has its result.
    Finish,
}

/// The working set of one triggering message: its URLs, processed strictly in
/// order, and the result of each item done so far.
pub struct Batch {
    pub urls: Vec<String>,
    pub author: String,
    pub destination: String,
    pub results: Vec<ItemResult>,
    pub stage: Stage,
}

impl Batch {
    /// Every item before the current one has a result, and a current item
    /// exists while one is under way.
    pub open spec fn wf(&self) -> bool {
        &&& self.results@.len() <= self.urls@.len()
        &&& !(self.stage is Fetching) ==> self.results@.len() < self.urls@.len()
    }

    /// Whether every item has its result.
    pub open spec fn finished(&self) -> bool {
        self.results@.len() == self.urls@.len()
    }

    /// The URL whose page is to be fetched next, if that is the next step.
    pub open spec fn pending(&self) -> Option<String> {
        if self.stage is Fetching && self.results@.len() < self.urls@.len() {
            Some(self.urls@[self.results@.len() as int])
        } else {
            None
        }
    }

    pub fn new(urls: Vec<String>, author: String, destination: String) -> (r: Batch)
        ensures
            r.wf(),
            r.urls == urls,
            r.author == author,
            r.destination == destination,
            r.results@.len() == 0,
            r.stage is Fetching,
    {
        Batch { urls, author, destination, results: Vec::new(), stage: Stage::Fetching }
    }

    /// Whether every item has its result.
    pub fn is_finished(&self) -> (r: bool)
        requires
            self.wf(),
        ensures
            r == self.finished(),
    {
        self.results.len() == self.urls.len()
    }

    /// What to do next: fetch the next page, download or upload the current
    /// item, or finish once every item has its result.
    pub fn next_action(&self) -> (r: Action)
        requires
            self.wf(),
        ensures
            self.finished() <==> r is Finish,
            r is FetchPage <==> self.pending() is Some,
            self.pending() matches Some(u) ==> r == Action::FetchPage(u),
            self.stage matches Stage::Downloading { info, scratch } ==> r == (Action::Download {
                asset_url: info.asset_url,
                scratch,
            }),
            self.stage matches Stage::Uploading { scratch, remote } ==> r == (Action::Upload {
                scratch,
                remote,
                destination: self.destination,
            }),
    {
        match &self.stage {
            Stage::Fetching => {
                if self.results.len() == self.urls.len() {
                    Action::Finish
                } else {
                    let u = self.urls[self.results.len()].clone();
                    Action::FetchPage(u)
                }
            },
            Stage::Downloading { info, scratch } => Action::Download {
                asset_url: info.asset_url.clone(),
                scratch: scratch.clone(),
            },
            Stage::Uploading { scratch, remote } => Action::Upload {
                scratch: scratch.clone(),
                remote: remote.clone(),
                destination: self.destination.clone(),
            },
        }
    }

    /// Takes the fetched page of the current item (or why it could not be
    /// fetched), read at local time `stamp`: the item is skipped, or its video
    /// is next to be downloaded.
    pub fn on_page_at(&mut self, page: Result<String, String>, stamp: &str)
        requires
            old(self).wf(),
            !old(self).finished(),
            old(self).stage is Fetching,
        ensures
            final(self).wf(),
            final(self).urls == old(self).urls,
            final(self).author == old(self).author,
            final(self).destination == old(self).destination,
            page matches Err(m) ==> final(self).stage is Fetching && final(self).results@
                == old(self).results@.push(ItemResult::Skipped(SkipReason::Fetch(m))),
            page matches Ok(p) ==> match page_outcome(p@) {
                Err(e) => final(self).stage is Fetching && final(self).results@
                    == old(self).results@.push(ItemResult::Skipped(SkipReason::Extraction(e))),
                Ok(v) => {
                    &&& final(self).stage matches Stage::Downloading { info, scratch }
                    &&& info@ == v
                    &&& scratch@ == scratch_name(stamp@, v.2)
                    &&& final(self).results@ == old(self).results@
                },
            },
    {
        match page {
            Err(m) => {
                self.results.push(ItemResult::Skipped(SkipReason::Fetch(m)));
            },
            Ok(p) => match VideoInformation::from_page(p.as_str()) {
                Err(e) => {
                    self.results.push(ItemResult::Skipped(SkipReason::Extraction(e)));
                },
                Ok(info) => {
                    let scratch = temporary_file_name(stamp, info.extension.as_str());
                    self.stage = Stage::Downloading { info, scratch };
                },
            },
        }
    }

    /// As `on_page_at`, at the local time now.
    pub fn on_page(&mut self, page: Result<String, String>)
        requires
            old(self).wf(),
            !old(self).finished(),
            old(self).stage is Fetching,
        ensures
            final(self).wf(),
            final(self).urls == old(self).urls,
            final(self).author == old(self).author,
            final(self).destination == old(self).destination,
            page matches Err(m) ==> final(self).stage is Fetching && final(self).results@
                == old(self).results@.push(ItemResult::Skipped(SkipReason::Fetch(m))),
            page matches Ok(p) ==> match page_outcome(p@) {
                Err(e) => final(self).stage is Fetching && final(self).results@
                    == old(self).results@.push(ItemResult::Skipped(SkipReason::Extraction(e))),
                Ok(v) => {
                    &&& final(self).stage matches Stage::Downloading { info, scratch }
                    &&& info@ == v
                    &&& exists|s: Seq<char>| scratch@ == scratch_name(s, v.2)
                    &&& final(self).results@ == old(self).results@
                },
            },
    {
        let stamp = local_time_text(STAMP_PATTERN);
        self.on_page_at(page, stamp.as_str());
    }

    /// Takes the outcome of the current item's download, at local time
    /// `stamp`: the item is skipped, or its upload is next, under its remote
    /// name.
    pub fn on_downloaded_at(&mut self, outcome: Result<(), String>, stamp: &str)
        requires
            old(self).wf(),
            old(self).stage is Downloading,
        ensures
            final(self).wf(),
            final(self).urls == old(self).urls,
            final(self).author == old(self).author,
            final(self).destination == old(self).destination,
            outcome matches Err(m) ==> final(self).stage is Fetching && final(self).results@
                == old(self).results@.push(ItemResult::Skipped(SkipReason::Download(m))),
            outcome is Ok ==> ({
                &&& old(self).stage matches Stage::Downloading { info, scratch }
                &&& final(self).stage matches Stage::Uploading { scratch: s, remote }
                &&& s == scratch
                &&& remote@ == remote_name(old(self).author@, info.category@, stamp@, info.extension@)
                &&& final(self).results@ == old(self).results@
            }),
    {
        let next = match &self.stage {
            Stage::Downloading { info, scratch } => match outcome {
                Err(m) => {
                    self.results.push(ItemResult::Skipped(SkipReason::Download(m)));
                    Stage::Fetching
                },
                Ok(()) => {
                    let remote = upload_file_name(
                        self.author.as_str(),
                        info.category.as_str(),
                        stamp,
                        info.extension.as_str(),
                    );
                    Stage::Uploading { scratch: scratch.clone(), remote }
                },
            },
            _ => Stage::Fetching,
        };
        self.stage = next;
    }

    /// As `on_downloaded_at`, at the local time now.
    pub fn on_downloaded(&mut self, outcome: Result<(), String>)
        requires
            old(self).wf(),
            old(self).stage is Downloading,
        ensures
            final(self).wf(),
            final(self).urls == old(self).urls,
            final(self).author == old(self).author,
            final(self).destination == old(self).destination,
            outcome matches Err(m) ==> final(self).stage is Fetching && final(self).results@
                == old(self).results@.push(ItemResult::Skipped(SkipReason::Download(m))),
            outcome is Ok ==> ({
                &&& old(self).stage matches Stage::Downloading { info, scratch }
                &&& final(self).stage matches Stage::Uploading { scratch: s, remote }
                &&& s == scratch
                &&& exists|t: Seq<char>| remote@ == remote_name(old(self).author@, info.category@, t, info.extension@)
                &&& final(self).results@ == old(self).results@
            }),
    {
        let stamp = local_time_text(STAMP_PATTERN);
        self.on_downloaded_at(outcome, stamp.as_str());
    }

    /// Takes the outcome of the current item's upload and closes the item.
    /// Returns the scratch file to delete: only after a confirmed upload.
    pub fn on_uploaded(&mut self, outcome: Result<(), UploadError>) -> (r: Option<String>)
        requires
            old(self).wf(),
            old(self).stage is Uploading,
        ensures
            final(self).wf(),
            final(self).urls == old(self).urls,
            final(self).author == old(self).author,
            final(self).destination == old(self).destination,
            final(self).stage is Fetching,
            outcome matches Err(e) ==> r is None && final(self).results@
                == old(self).results@.push(ItemResult::Skipped(SkipReason::Upload(e))),
            outcome is Ok ==> ({
                &&& old(self).stage matches Stage::Uploading { scratch, remote }
                &&& r == Some(scratch)
                &&& final(self).results@ == old(self).results@.push(ItemResult::Uploaded(remote))
            }),
    {
        let r = match &self.stage {
            Stage::Uploading { scratch, remote } => match outcome {
                Err(e) => {
                    self.results.push(ItemResult::Skipped(SkipReason::Upload(e)));
                    None
                },
                Ok(()) => {
                    self.results.push(ItemResult::Uploaded(remote.clone()));
                    Some(scratch.clone())
                },
            },
            _ => None,
        };
        self.stage = Stage::Fetching;
        r
    }
}

/// One item's result, whatever it is, never ends the batch early: once it is
/// recorded, earlier results are unchanged, the new one is last, and the batch
/// asks for the next URL in input order, or is finished after the last one.
pub proof fn lemma_item_result_moves_on(before: Batch, after: Batch, result: ItemResult)
    requires
        before.wf(),
        !before.finished(),
        after.urls == before.urls,
        after.stage is Fetching,
        after.results@ == before.results@.push(result),
    ensures
        after.wf(),
        after.results@.len() == before.results@.len() + 1,
        after.results@.subrange(0, before.results@.len() as int) == before.results@,
        after.results@.last() == result,
        after.finished() <==> before.results@.len() + 1 == before.urls@.len(),
        !after.finished() ==> after.pending() == Some(after.urls@[before.results@.len() + 1 as int]),
{
    assert(after.results@.subrange(0, before.results@.len() as int) =~= before.results@);
}

} // verus!
