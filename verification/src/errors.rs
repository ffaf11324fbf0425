use vstd::prelude::*;

verus! {

/// The ways processing a site or one of its documents can fail. Each
/// variant carries the paths or names involved as plain bytes.
#[derive(Debug)]
pub enum Error {
    /// Reading an asset to embed failed, with the asset path.
    ReadBase64Asset(Vec<u8>),
    /// Waiting on a spawned per-site task failed.
    WebsiteJoin,
    /// Reading a site configuration file failed.
    ConfigRead(Vec<u8>),
    /// Parsing a site configuration file failed.
    ConfigParse(Vec<u8>),
    /// A document path did not lie under the content root.
    StripPrefix(Vec<u8>),
    /// A directive block named a handler that is not registered: the
    /// document path, then the unresolved handler name.
    MissingHandler(Vec<u8>, Vec<u8>),
    /// Loading an additional syntax definition failed.
    LoadSyntax,
    /// Creating the output directory failed.
    CreateOutputDir(Vec<u8>),
    /// Reading a directory listing failed.
    ReadDirectory(Vec<u8>),
    /// Reading a markup input document failed.
    ReadMarkdownInput(Vec<u8>),
    /// Reading the stylesheet named by a document failed: the document
    /// path, then the stylesheet path.
    ReadStyle(Vec<u8>, Vec<u8>),
    /// Reading the page skeleton named by a document failed: the document
    /// path, then the skeleton path.
    ReadTemplate(Vec<u8>, Vec<u8>),
    /// The metadata block of a document did not parse as expected.
    ParseTemplateInfo(Vec<u8>),
    /// Writing the generated page failed.
    WriteOutput(Vec<u8>),
    /// A document had no metadata block.
    TemplateInfoMissing(Vec<u8>),
}

/// The mathematical shape of an [`Error`]: the same variants over byte
/// sequences.
pub enum ErrorSpec {
    ReadBase64Asset(Seq<u8>),
    WebsiteJoin,
    ConfigRead(Seq<u8>),
    ConfigParse(Seq<u8>),
    StripPrefix(Seq<u8>),
    MissingHandler(Seq<u8>, Seq<u8>),
    LoadSyntax,
    CreateOutputDir(Seq<u8>),
    ReadDirectory(Seq<u8>),
    ReadMarkdownInput(Seq<u8>),
    ReadStyle(Seq<u8>, Seq<u8>),
    ReadTemplate(Seq<u8>, Seq<u8>),
    ParseTemplateInfo(Seq<u8>),
    WriteOutput(Seq<u8>),
    TemplateInfoMissing(Seq<u8>),
}

impl View for Error {
    type V = ErrorSpec;

    open spec fn view(&self) -> ErrorSpec {
        match self {
            Error::ReadBase64Asset(p) => ErrorSpec::ReadBase64Asset(p@),
            Error::WebsiteJoin => ErrorSpec::WebsiteJoin,
            Error::ConfigRead(p) => ErrorSpec::ConfigRead(p@),
            Error::ConfigParse(p) => ErrorSpec::ConfigParse(p@),
            Error::StripPrefix(p) => ErrorSpec::StripPrefix(p@),
            Error::MissingHandler(d, n) => ErrorSpec::MissingHandler(d@, n@),
            Error::LoadSyntax => ErrorSpec::LoadSyntax,
            Error::CreateOutputDir(p) => ErrorSpec::CreateOutputDir(p@),
            Error::ReadDirectory(p) => ErrorSpec::ReadDirectory(p@),
            Error::ReadMarkdownInput(p) => ErrorSpec::ReadMarkdownInput(p@),
            Error::ReadStyle(d, s) => ErrorSpec::ReadStyle(d@, s@),
            Error::ReadTemplate(d, t) => ErrorSpec::ReadTemplate(d@, t@),
            Error::ParseTemplateInfo(p) => ErrorSpec::ParseTemplateInfo(p@),
            Error::WriteOutput(p) => ErrorSpec::WriteOutput(p@),
            Error::TemplateInfoMissing(p) => ErrorSpec::TemplateInfoMissing(p@),
        }
    }
}

} // verus!
