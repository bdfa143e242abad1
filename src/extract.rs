use vstd::prelude::*;
use crate::text::{
    chars_of, find_first, find_last, first_pos, last_pos, string_of, trimmed, trimmed_range,
};

verus! {

/// What an HTML page gives for the archive: the category tag of its title,
/// the address of its single video and that address's file extension.
pub struct VideoInformation {
    pub category: String,
    pub asset_url: String,
    pub extension: String,
}

impl View for VideoInformation {
    type V = (Seq<char>, Seq<char>, Seq<char>);

    open spec fn view(&self) -> Self::V {
        (self.category@, self.asset_url@, self.extension@)
    }
}

/// Why a page gives no video information.
#[derive(Debug, Clone, Copy, PartialEq, Eq, Structural)]
pub enum ExtractionError {
    NoTitle,
    NoTagMarker,
    NoSeparator,
    NoVideo,
    AmbiguousVideo,
    NoAssetUrl,
}

/// The sentence that goes with each failure.
pub open spec fn failure_text(e: ExtractionError) -> Seq<char> {
    match e {
        ExtractionError::NoTitle => "Error formatting video title. No title found"@,
        ExtractionError::NoTagMarker => "Error formatting video title. No hashtag found"@,
        ExtractionError::NoSeparator => "Error formatting video title. No pipe found"@,
        ExtractionError::NoVideo => "No video found"@,
        ExtractionError::AmbiguousVideo => "More than one video found"@,
        ExtractionError::NoAssetUrl => "No video url found"@,
    }
}

impl ExtractionError {
    /// A sentence that says what is missing from the page.
    pub fn message(&self) -> (r: &'static str)
        ensures
            r@ == failure_text(*self),
    {
        match self {
            ExtractionError::NoTitle => "Error formatting video title. No title found",
            ExtractionError::NoTagMarker => "Error formatting video title. No hashtag found",
            ExtractionError::NoSeparator => "Error formatting video title. No pipe found",
            ExtractionError::NoVideo => "No video found",
            ExtractionError::AmbiguousVideo => "More than one video found",
            ExtractionError::NoAssetUrl => "No video url found",
        }
    }
}

/// The character that opens the category in a page title.
pub const TAG_MARKER: char = '#';

/// The character that closes the category in a page title.
pub const SEPARATOR: char = '|';

pub open spec fn opt_view(o: Option<String>) -> Option<Seq<char>> {
    match o {
        Some(s) => Some(s@),
        None => None,
    }
}

pub open spec fn opts_view(v: Seq<Option<String>>) -> Seq<Option<Seq<char>>> {
    v.map_values(|o: Option<String>| opt_view(o))
}

pub open spec fn info_result_view(r: Result<VideoInformation, ExtractionError>) -> Result<
    (Seq<char>, Seq<char>, Seq<char>),
    ExtractionError,
> {
    match r {
        Ok(v) => Ok(v@),
        Err(e) => Err(e),
    }
}

/// The text strictly between the first tag marker and the first separator of
/// `title`, trimmed; empty where the separator comes first.
pub open spec fn category_of(title: Seq<char>) -> Seq<char> {
    let lo = first_pos(title, TAG_MARKER) + 1;
    let hi = first_pos(title, SEPARATOR);
    if lo <= hi {
        trimmed(title.subrange(lo, hi))
    } else {
        Seq::empty()
    }
}

/// The text after the last `.` of `url`; empty where it holds none.
pub open spec fn extension_of(url: Seq<char>) -> Seq<char> {
    if url.contains('.') {
        url.subrange(last_pos(url, '.') + 1, url.len() as int)
    } else {
        Seq::empty()
    }
}

/// What a page with title `title` (if any) and video elements whose `src`
/// attributes are `sources` gives: the information, or the first failure.
pub open spec fn extracted(title: Option<Seq<char>>, sources: Seq<Option<Seq<char>>>) -> Result<
    (Seq<char>, Seq<char>, Seq<char>),
    ExtractionError,
> {
    match title {
        None => Err(ExtractionError::NoTitle),
        Some(t) => if !t.contains(TAG_MARKER) {
            Err(ExtractionError::NoTagMarker)
        } else if !t.contains(SEPARATOR) {
            Err(ExtractionError::NoSeparator)
        } else if sources.len() == 0 {
            Err(ExtractionError::NoVideo)
        } else if sources.len() > 1 {
            Err(ExtractionError::AmbiguousVideo)
        } else {
            match sources[0] {
                None => Err(ExtractionError::NoAssetUrl),
                Some(u) => Ok((category_of(t), u, extension_of(u))),
            }
        },
    }
}

/// The inner HTML of the first element of `page` that `selector` matches;
/// none where nothing matches.
pub uninterp spec fn first_inner_html_of(page: Seq<char>, selector: Seq<char>) -> Option<Seq<char>>;

/// For each element of `page` that `selector` matches, in document order, the
/// value of its attribute `attr`.
pub uninterp spec fn attribute_values_of(
    page: Seq<char>,
    selector: Seq<char>,
    attr: Seq<char>,
) -> Seq<Option<Seq<char>>>;

/// Relies on scraper's `Html::parse_document`, `Html::select` and
/// `ElementRef::inner_html`: the inner HTML of the first match.
#[verifier::external_body]
fn first_inner_html(page: &str, selector: &str) -> (r: Option<String>)
    ensures
        opt_view(r) == first_inner_html_of(page@, selector@),
{
    let document = scraper::Html::parse_document(page);
    let selector = scraper::Selector::parse(selector).ok()?;
    let first = document.select(&selector).next();
    first.map(|element| element.inner_html())
}

/// Relies on scraper's `Html::parse_document`, `Html::select` and
/// `ElementRef::attr`: one entry per match, in document order.
#[verifier::external_body]
fn attribute_values(page: &str, selector: &str, attr: &str) -> (r: Vec<Option<String>>)
    ensures
        opts_view(r@) == attribute_values_of(page@, selector@, attr@),
{
    let document = scraper::Html::parse_document(page);
    match scraper::Selector::parse(selector) {
        Ok(selector) => document.select(&selector).map(|e| e.attr(attr).map(|v| v.to_string())).collect(),
        Err(_) => Vec::new(),
    }
}

impl VideoInformation {
    /// Builds the information from a page's title and the `src` attributes of
    /// its video elements, or says what is missing.
    pub fn from_parts(title: Option<String>, sources: Vec<Option<String>>) -> (r: Result<
        VideoInformation,
        ExtractionError,
    >)
        ensures
            info_result_view(r) == extracted(opt_view(title), opts_view(sources@)),
    {
        let title = match title {
            None => return Err(ExtractionError::NoTitle),
            Some(t) => t,
        };
        let cs = chars_of(title.as_str());
        let hash = match find_first(&cs, TAG_MARKER) {
            None => return Err(ExtractionError::NoTagMarker),
            Some(p) => p,
        };
        let pipe = match find_first(&cs, SEPARATOR) {
            None => return Err(ExtractionError::NoSeparator),
            Some(p) => p,
        };
        if sources.len() == 0 {
            return Err(ExtractionError::NoVideo);
        }
        if sources.len() > 1 {
            return Err(ExtractionError::AmbiguousVideo);
        }
        let asset_url = match &sources[0] {
            None => return Err(ExtractionError::NoAssetUrl),
            Some(u) => u.clone(),
        };
        let category = if hash < pipe {
            string_of(&trimmed_range(&cs, hash + 1, pipe))
        } else {
            String::new()
        };
        let extension = Self::extension_from(&asset_url);
        Ok(VideoInformation { category, asset_url, extension })
    }

    /// The text after the last `.` of `url`, or an empty string.
    pub fn extension_from(url: &String) -> (r: String)
        ensures
            r@ == extension_of(url@),
    {
        let cs = chars_of(url.as_str());
        match find_last(&cs, '.') {
            None => String::new(),
            Some(p) => {
                let n = cs.len();
                assert(p < n);
                let mut tail: Vec<char> = Vec::new();
                let mut k: usize = p + 1;
                while k < cs.len()
                    invariant
                        p + 1 <= k <= cs@.len(),
                        tail@ == cs@.subrange(p + 1, k as int),
                    decreases cs@.len() - k,
                {
                    tail.push(cs[k]);
                    k += 1;
                    assert(tail@ =~= cs@.subrange(p + 1, k as int));
                }
                string_of(&tail)
            },
        }
    }

    /// Reads the video information out of an HTML page.
    pub fn from_page(page: &str) -> (r: Result<VideoInformation, ExtractionError>)
        ensures
            info_result_view(r) == extracted(
                first_inner_html_of(page@, "title"@),
                attribute_values_of(page@, "video"@, "src"@),
            ),
    {
        let title = first_inner_html(page, "title");
        let sources = attribute_values(page, "video", "src");
        Self::from_parts(title, sources)
    }
}

/// A page whose title holds both delimiters and that has exactly one video
/// element with a source gives the information, with the trimmed text between
/// the delimiters as its category.
pub proof fn lemma_single_video_extracts(title: Seq<char>, sources: Seq<Option<Seq<char>>>)
    requires
        title.contains(TAG_MARKER),
        title.contains(SEPARATOR),
        sources.len() == 1,
        sources[0] is Some,
    ensures
        extracted(Some(title), sources) matches Ok(v) && v.0 == category_of(title) && v.1
            == sources[0]->0 && v.2 == extension_of(sources[0]->0),
{
}

/// A page whose title holds both delimiters and that has no video element, or
/// more than one, gives no information: `NoVideo` or `AmbiguousVideo`.
pub proof fn lemma_video_count_decides(title: Seq<char>, sources: Seq<Option<Seq<char>>>)
    requires
        title.contains(TAG_MARKER),
        title.contains(SEPARATOR),
        sources.len() != 1,
    ensures
        sources.len() == 0 ==> extracted(Some(title), sources) == Err::<
            (Seq<char>, Seq<char>, Seq<char>),
            ExtractionError,
        >(ExtractionError::NoVideo),
        sources.len() > 1 ==> extracted(Some(title), sources) == Err::<
            (Seq<char>, Seq<char>, Seq<char>),
            ExtractionError,
        >(ExtractionError::AmbiguousVideo),
{
}

} // verus!
