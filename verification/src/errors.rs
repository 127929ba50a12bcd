use vstd::prelude::*;

verus! {

/// Mathematical view of a conversion error: the failure kind together with
/// the name of the entry or page it concerns.
pub enum ErrV {
    /// The container could not be opened or parsed at all.
    ArchiveOpen,
    /// The manifest entry is absent: `None` when no content entry exists,
    /// `Some(name)` when the named metadata or content entry is missing.
    MissingManifest(Option<Seq<char>>),
    /// The named metadata or index entry cannot be parsed into the expected
    /// shape.
    MalformedIndex(Seq<char>),
    /// The named page has no data entry in the archive.
    MissingPageData(Seq<char>),
    /// The decoder rejected the named page's bytes.
    CorruptPageData(Seq<char>),
    /// The renderer could not produce an image for the named page.
    RenderFailure(Seq<char>),
    /// The final package cannot be persisted.
    PackageWrite,
}

/// One conversion failure, fatal to the notebook (or, for
/// `PackageWriteError`, to the run) that produced it.
#[derive(Debug)]
pub enum ConvertError {
    ArchiveOpenError,
    MissingManifest(Option<String>),
    MalformedIndex(String),
    MissingPageData(String),
    CorruptPageData(String),
    RenderFailure(String),
    PackageWriteError,
}

impl View for ConvertError {
    type V = ErrV;

    open spec fn view(&self) -> ErrV {
        match self {
            ConvertError::ArchiveOpenError => ErrV::ArchiveOpen,
            ConvertError::MissingManifest(o) => ErrV::MissingManifest(
                match o {
                    Option::None => Option::None,
                    Option::Some(s) => Option::Some(s@),
                },
            ),
            ConvertError::MalformedIndex(s) => ErrV::MalformedIndex(s@),
            ConvertError::MissingPageData(s) => ErrV::MissingPageData(s@),
            ConvertError::CorruptPageData(s) => ErrV::CorruptPageData(s@),
            ConvertError::RenderFailure(s) => ErrV::RenderFailure(s@),
            ConvertError::PackageWriteError => ErrV::PackageWrite,
        }
    }
}

/// The operator-facing message for each failure.
pub open spec fn spec_message(e: ErrV) -> Seq<char> {
    match e {
        ErrV::ArchiveOpen => "Failed to read zip file"@,
        ErrV::MissingManifest(o) => match o {
            Option::None => "Could not find content file"@,
            Option::Some(name) => "Could not find notebook entry "@ + name,
        },
        ErrV::MalformedIndex(name) => "Could not parse notebook entry "@ + name,
        ErrV::MissingPageData(page) => "Missing page data for page "@ + page,
        ErrV::CorruptPageData(page) => "Failed to parse line data for page "@ + page,
        ErrV::RenderFailure(page) => "Rendering failed for page "@ + page,
        ErrV::PackageWrite => "Could not create Anki package"@,
    }
}

impl ConvertError {
    /// A human-readable message for the operator, in place of `Display`.
    pub fn message(&self) -> (r: String)
        ensures
            r@ == spec_message(self@),
    {
        match self {
            ConvertError::ArchiveOpenError => "Failed to read zip file".to_owned(),
            ConvertError::MissingManifest(o) => {
                match o {
                    Option::None => "Could not find content file".to_owned(),
                    Option::Some(name) => {
                        let mut m = "Could not find notebook entry ".to_owned();
                        m.append(name.as_str());
                        m
                    },
                }
            },
            ConvertError::MalformedIndex(name) => {
                let mut m = "Could not parse notebook entry ".to_owned();
                m.append(name.as_str());
                m
            },
            ConvertError::MissingPageData(page) => {
                let mut m = "Missing page data for page ".to_owned();
                m.append(page.as_str());
                m
            },
            ConvertError::CorruptPageData(page) => {
                let mut m = "Failed to parse line data for page ".to_owned();
                m.append(page.as_str());
                m
            },
            ConvertError::RenderFailure(page) => {
                let mut m = "Rendering failed for page ".to_owned();
                m.append(page.as_str());
                m
            },
            ConvertError::PackageWriteError => "Could not create Anki package".to_owned(),
        }
    }
}

} // verus!
