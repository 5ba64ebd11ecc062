//! Chapters: their metadata, the addresses of their pages, and the names
//! under which the pages are stored.
use vstd::prelude::*;
use crate::mime::{guessed_extensions, known_extensions, string_views};
use crate::requester::RequesterError;
use crate::text::{decimal, decimal_of, opt_view};

verus! {

/// Why the download information of a chapter could not be had.
#[derive(Debug, Clone, PartialEq, Eq)]
pub enum ChapterError {
    Decode(String),
    Requester(RequesterError),
}

/// Why a page or cover could not be stored.
#[derive(Debug, Clone, PartialEq, Eq)]
pub enum ChapterDownloadError {
    Requester(RequesterError),
    Decode(String),
    /// The response named no content type.
    NoContentType,
    /// The content type was not legible text.
    IllegibleMime,
    /// No file extension is known for the content type.
    Mime,
    IO(String),
}

/// The fields of one chapter listing entry that matter here.
#[derive(Debug, Clone)]
pub struct ChapterData {
    pub id: String,
    pub volume: String,
    pub chapter: String,
    pub language: String,
}

/// A chapter ready for download: its labels, the host that serves its pages
/// and the page addresses relative to that host.
#[derive(Debug)]
pub struct Chapter {
    volume: String,
    chapter: String,
    language: String,
    base_url: String,
    urls: Vec<String>,
}

/// A label: `word` and the canonical number where the raw text reads as a
/// number, else the raw text.
pub open spec fn labelled(word: Seq<char>, raw: Seq<char>, number: Option<Seq<char>>) -> Seq<char> {
    match number {
        Some(n) => word + n,
        None => raw,
    }
}

pub(crate) fn label(word: &str, raw: &String, number: Option<String>) -> (r: String)
    ensures
        r@ == labelled(word@, raw@, opt_view(number)),
{
    match number {
        Some(n) => String::from_str(word).concat(n.as_str()),
        None => raw.clone(),
    }
}

/// The address of page file `file` of the chapter whose content hash is
/// `hash`, relative to the serving host.
pub open spec fn page_url(hash: Seq<char>, file: Seq<char>) -> Seq<char> {
    "/data/"@ + hash + "/"@ + file
}

/// The positions of the entries of `data` before `n` that are in `language`.
pub open spec fn in_language(data: Seq<ChapterData>, language: Seq<char>, n: int) -> Seq<usize>
    decreases n,
{
    if n <= 0 {
        Seq::empty()
    } else {
        let rest = in_language(data, language, n - 1);
        if data[n - 1].language@ == language {
            rest.push((n - 1) as usize)
        } else {
            rest
        }
    }
}

/// The extension under which a page served with a type whose known
/// extensions are `extensions` is stored: the first one.
pub open spec fn first_extension_of(extensions: Option<Seq<Seq<char>>>) -> Option<Seq<char>> {
    match extensions {
        Some(e) => if e.len() > 0 {
            Some(e[0])
        } else {
            None
        },
        None => None,
    }
}

impl Chapter {
    pub closed spec fn spec_volume(&self) -> Seq<char> {
        self.volume@
    }

    pub closed spec fn spec_chapter(&self) -> Seq<char> {
        self.chapter@
    }

    pub closed spec fn spec_language(&self) -> Seq<char> {
        self.language@
    }

    pub closed spec fn spec_base_url(&self) -> Seq<char> {
        self.base_url@
    }

    pub closed spec fn spec_urls(&self) -> Seq<Seq<char>> {
        string_views(self.urls@)
    }

    /// The chapter of listing entry `raw`, served from `base_url`, whose
    /// pages are the files `files` under content hash `hash`.
    pub fn new(raw: &ChapterData, base_url: String, hash: &str, files: &Vec<String>) -> (r: Chapter)
        ensures
            r.spec_volume() == raw.volume@,
            r.spec_chapter() == raw.chapter@,
            r.spec_language() == raw.language@,
            r.spec_base_url() == base_url@,
            r.spec_urls().len() == files@.len(),
            forall|i: int| 0 <= i < files@.len() ==> #[trigger] r.spec_urls()[i] == page_url(hash@, files@[i]@),
    {
        let mut urls: Vec<String> = Vec::new();
        let mut i: usize = 0;
        while i < files.len()
            invariant
                i <= files@.len(),
                urls@.len() == i,
                forall|k: int| 0 <= k < i ==> #[trigger] urls@[k]@ == page_url(hash@, files@[k]@),
            decreases files@.len() - i,
        {
            let u = String::from_str("/data/").concat(hash).concat("/").concat(files[i].as_str());
            urls.push(u);
            i = i + 1;
        }
        Chapter {
            volume: raw.volume.clone(),
            chapter: raw.chapter.clone(),
            language: raw.language.clone(),
            base_url,
            urls,
        }
    }

    /// The positions of the listing entries in `language`, in listing order.
    pub fn positions_in_language(data: &Vec<ChapterData>, language: &str) -> (r: Vec<usize>)
        ensures
            r@ == in_language(data@, language@, data@.len() as int),
    {
        let wanted = String::from_str(language);
        let mut r: Vec<usize> = Vec::new();
        let mut i: usize = 0;
        while i < data.len()
            invariant
                i <= data@.len(),
                wanted@ == language@,
                r@ == in_language(data@, language@, i as int),
            decreases data@.len() - i,
        {
            if data[i].language == wanted {
                r.push(i);
            }
            i = i + 1;
        }
        r
    }

    pub fn volume(&self) -> (r: &String)
        ensures
            r@ == self.spec_volume(),
    {
        &self.volume
    }

    pub fn chapter(&self) -> (r: &String)
        ensures
            r@ == self.spec_chapter(),
    {
        &self.chapter
    }

    pub fn language(&self) -> (r: &String)
        ensures
            r@ == self.spec_language(),
    {
        &self.language
    }

    pub fn base_url(&self) -> (r: &String)
        ensures
            r@ == self.spec_base_url(),
    {
        &self.base_url
    }

    pub fn urls(&self) -> (r: &Vec<String>)
        ensures
            string_views(r@) == self.spec_urls(),
    {
        &self.urls
    }

    /// The volume as a label: "Volume " and `number` where the volume reads
    /// as a number whose canonical text is `number`, else the volume as it
    /// stands.
    pub fn get_volume(&self, number: Option<String>) -> (r: String)
        ensures
            r@ == labelled("Volume "@, self.spec_volume(), opt_view(number)),
    {
        label("Volume ", &self.volume, number)
    }

    /// The chapter as a label, in the way of `get_volume`.
    pub fn get_chapter(&self, number: Option<String>) -> (r: String)
        ensures
            r@ == labelled("Chapter "@, self.spec_chapter(), opt_view(number)),
    {
        label("Chapter ", &self.chapter, number)
    }

    /// The name of the file that stores page `number` (counted from one),
    /// served with `content_type`: the number, a dot and the first extension
    /// known for the type.
    pub fn page_file_name(number: u64, content_type: Option<&str>) -> (r: Result<String, ChapterDownloadError>)
        ensures
            content_type is None ==> r == Err::<String, ChapterDownloadError>(ChapterDownloadError::NoContentType),
            content_type matches Some(ct) ==> match first_extension_of(guessed_extensions(ct@)) {
                Some(e) => r matches Ok(f) && f@ == decimal_of(number as nat) + "."@ + e,
                None => r == Err::<String, ChapterDownloadError>(ChapterDownloadError::Mime),
            },
    {
        match content_type {
            None => Err(ChapterDownloadError::NoContentType),
            Some(ct) => Chapter::page_file_name_for(number, known_extensions(ct)),
        }
    }

    /// The name of the file that stores page `number` (counted from one),
    /// where `extensions` are the extensions known for its type.
    pub fn page_file_name_for(number: u64, extensions: Option<Vec<String>>) -> (r: Result<String, ChapterDownloadError>)
        ensures
            match first_extension_of(match extensions { Some(v) => Some(string_views(v@)), None => None }) {
                Some(e) => r matches Ok(f) && f@ == decimal_of(number as nat) + "."@ + e,
                None => r == Err::<String, ChapterDownloadError>(ChapterDownloadError::Mime),
            },
    {
        match extensions {
            None => Err(ChapterDownloadError::Mime),
            Some(v) => {
                if v.len() == 0 {
                    Err(ChapterDownloadError::Mime)
                } else {
                    Ok(decimal(number).concat(".").concat(v[0].as_str()))
                }
            },
        }
    }
}

} // verus!
