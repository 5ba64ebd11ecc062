//! Cover art: which covers of a listing can be fetched, and where they go.
use vstd::prelude::*;
use crate::chapter::{labelled, ChapterDownloadError};
use crate::mime::{mime2ext_extension, mime_extension};
use crate::text::opt_view;

verus! {

/// The fields of one cover listing entry that matter here.
pub struct CoverArtData {
    pub volume: Option<String>,
    pub file_name: String,
}

/// A cover that belongs to a volume, with its address relative to the
/// covers endpoint.
#[derive(Debug, Clone)]
pub struct CoverArt {
    pub volume: String,
    pub url: String,
}

impl CoverArt {
    /// The volume and the relative address.
    pub open spec fn view(&self) -> (Seq<char>, Seq<char>) {
        (self.volume@, self.url@)
    }
}

/// The cover made of entry `d` of manga `id`, if the entry names a volume.
pub open spec fn cover_of(id: Seq<char>, d: CoverArtData) -> Option<(Seq<char>, Seq<char>)> {
    match d.volume {
        Some(v) => Some((v@, id + "/"@ + d.file_name@)),
        None => None,
    }
}

/// The covers made of the entries of `raw`, in order, skipping those without
/// a volume.
pub open spec fn covers_of(id: Seq<char>, raw: Seq<CoverArtData>) -> Seq<(Seq<char>, Seq<char>)>
    decreases raw.len(),
{
    if raw.len() == 0 {
        Seq::empty()
    } else {
        let rest = covers_of(id, raw.drop_last());
        match cover_of(id, raw.last()) {
            Some(c) => rest.push(c),
            None => rest,
        }
    }
}

fn cover_from(id: &str, data: &CoverArtData) -> (r: Option<CoverArt>)
    ensures
        r matches Some(c) ==> cover_of(id@, *data) == Some(c@),
        r is None ==> cover_of(id@, *data) is None,
{
    match &data.volume {
        Some(v) => Some(
            CoverArt {
                volume: v.clone(),
                url: String::from_str(id).concat("/").concat(data.file_name.as_str()),
            },
        ),
        None => None,
    }
}

impl CoverArt {
    /// The cover of a listing entry of manga `id`; `None` where the entry
    /// names no volume.
    pub fn from_data(id: &str, data: CoverArtData) -> (r: Option<CoverArt>)
        ensures
            r matches Some(c) ==> cover_of(id@, data) == Some(c@),
            r is None ==> cover_of(id@, data) is None,
    {
        cover_from(id, &data)
    }

    /// The covers of all listing entries of manga `id` that name a volume,
    /// in listing order.
    pub fn from_response(id: &str, raw: Vec<CoverArtData>) -> (r: Vec<CoverArt>)
        ensures
            r@.map_values(|c: CoverArt| c@) == covers_of(id@, raw@),
    {
        let mut r: Vec<CoverArt> = Vec::new();
        let mut i: usize = 0;
        while i < raw.len()
            invariant
                i <= raw@.len(),
                r@.map_values(|c: CoverArt| c@) == covers_of(id@, raw@.take(i as int)),
            decreases raw@.len() - i,
        {
            let ghost before = r@;
            let c = cover_from(id, &raw[i]);
            assert(raw@.take(i + 1).drop_last() =~= raw@.take(i as int));
            assert(raw@.take(i + 1).last() == raw@[i as int]);
            match c {
                Some(c) => {
                    r.push(c);
                    assert(r@.map_values(|c: CoverArt| c@) =~= before.map_values(|c: CoverArt| c@).push(c@));
                },
                None => {},
            }
            i = i + 1;
        }
        assert(raw@.take(raw@.len() as int) =~= raw@);
        r
    }

    /// The volume as a label: "Volume " and `number` where the volume reads
    /// as a number whose canonical text is `number`, else the volume as it
    /// stands.
    pub fn get_volume(&self, number: Option<String>) -> (r: String)
        ensures
            r@ == labelled("Volume "@, self.volume@, opt_view(number)),
    {
        crate::chapter::label("Volume ", &self.volume, number)
    }

    /// The path, below the cover's directory, of the file that holds a cover
    /// served with `content_type`.
    pub fn file_name(content_type: Option<&str>) -> (r: Result<String, ChapterDownloadError>)
        ensures
            content_type is None ==> r == Err::<String, ChapterDownloadError>(ChapterDownloadError::NoContentType),
            content_type matches Some(ct) ==> match mime2ext_extension(ct@) {
                Some(e) => r matches Ok(f) && f@ == "cover."@ + e,
                None => r == Err::<String, ChapterDownloadError>(ChapterDownloadError::Mime),
            },
    {
        match content_type {
            None => Err(ChapterDownloadError::NoContentType),
            Some(ct) => CoverArt::file_name_for(mime_extension(ct)),
        }
    }

    /// The name of the file that holds a cover whose extension is `extension`;
    /// without an extension the type is unknown.
    pub fn file_name_for(extension: Option<String>) -> (r: Result<String, ChapterDownloadError>)
        ensures
            match extension {
                Some(e) => r matches Ok(f) && f@ == "cover."@ + e@,
                None => r == Err::<String, ChapterDownloadError>(ChapterDownloadError::Mime),
            },
    {
        match extension {
            Some(e) => Ok(String::from_str("cover.").concat(e.as_str())),
            None => Err(ChapterDownloadError::Mime),
        }
    }
}

} // verus!
