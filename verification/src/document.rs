//! The packaged document: what goes into it, and in which order.
//!
//! The container itself is written by the `epub-builder` crate. A `Document`
//! holds that crate's builder, which is treated as a collection that is
//! filled: what it holds is named by `document_title`, `document_authors` and
//! `document_entries`, and the contracts of this module are stated over those
//! names.

use vstd::prelude::*;
use vstd::string::StrSliceExecFns;
use vstd::string::StringExecFns;
use vstd::utf8::encode_utf8;
use epub_builder::EpubBuilder;
use epub_builder::EpubContent;
use epub_builder::ReferenceType;
use epub_builder::ZipLibrary;
use image::io::Reader;
use image::ImageError;
use image::ImageFormat;
use std::io::Cursor;
use crate::article::Article;
use crate::article::Essentials;
use crate::failure::Failure;

verus! {

#[verifier::external_type_specification]
#[verifier::external_body]
pub struct ExEpubError(epub_builder::Error);

#[verifier::external_type_specification]
#[verifier::external_body]
pub struct ExImageError(ImageError);

/// One file of a document, as the manifest lists it.
pub struct Entry {
    /// Where the file stands in the document.
    pub path: Seq<char>,
    /// The media type that the manifest declares for it.
    pub media_type: Seq<char>,
    /// What the file holds.
    pub body: Seq<u8>,
    /// Whether the file is part of the reading order.
    pub linear: bool,
    /// Whether the guide marks the file as the title page.
    pub title_page: bool,
    /// The title under which the guide lists the file.
    pub title: Seq<char>,
}

/// A document that is being put together.
///
/// It holds an `EpubBuilder` over a `ZipLibrary`, which the verifier cannot
/// look into; what the builder holds is known through the three names below.
#[verifier::external_body]
pub struct Document {
    builder: EpubBuilder<ZipLibrary>,
}

/// The title in the builder's metadata.
pub uninterp spec fn document_title(document: Document) -> Seq<char>;

/// The authors in the builder's metadata, in the order they were given.
pub uninterp spec fn document_authors(document: Document) -> Seq<Seq<char>>;

/// The files that were added to the builder, in the order they were added.
pub uninterp spec fn document_entries(document: Document) -> Seq<Entry>;

/// Whether `archive` is what `EpubBuilder::generate` wrote for a builder that
/// held this title, these authors and these files. Besides them the archive
/// holds what the builder adds of its own (an empty stylesheet, the package
/// file, the tables of contents), an identifier that is made afresh and the
/// time of writing, so many archives pack the same document.
pub uninterp spec fn packs(
    title: Seq<char>,
    authors: Seq<Seq<char>>,
    entries: Seq<Entry>,
    archive: Seq<u8>,
) -> bool;

/// Whether the `image` crate decodes the file `bytes` in the format that the
/// name `file_name` stands for.
pub uninterp spec fn image_decodes(file_name: Seq<char>, bytes: Seq<u8>) -> bool;

/// The media type of every content page.
pub open spec fn page_media_type() -> Seq<char> {
    "application/xhtml+xml"@
}

/// Calls `ZipLibrary::new` and hands the archive to `EpubBuilder::new`.
///
/// Trusted: a new builder has an empty title, no author and no file added.
#[verifier::external_body]
fn new_document() -> (outcome: Result<Document, epub_builder::Error>)
    ensures
        outcome matches Ok(document) ==> {
            &&& document_title(document) == Seq::<char>::empty()
            &&& document_authors(document) == Seq::<Seq<char>>::empty()
            &&& document_entries(document) == Seq::<Entry>::empty()
        },
{
    Ok(Document { builder: EpubBuilder::new(ZipLibrary::new()?)? })
}

/// Calls `EpubBuilder::metadata` with the key `title` or `author`.
///
/// Trusted: on success `title` replaces the title; `author` adds an author,
/// except that the empty text removes all authors. Nothing else changes.
#[verifier::external_body]
fn set_metadata(document: &mut Document, key: &str, value: &str) -> (outcome: Result<
    (),
    epub_builder::Error,
>)
    requires
        key@ == "title"@ || key@ == "author"@,
    ensures
        outcome is Ok ==> document_entries(*final(document)) == document_entries(*old(document)),
        outcome is Ok && key@ == "title"@ ==> document_title(*final(document)) == value@
            && document_authors(*final(document)) == document_authors(*old(document)),
        outcome is Ok && key@ == "author"@ ==> document_title(*final(document)) == document_title(
            *old(document),
        ) && document_authors(*final(document)) == (if value@.len() == 0 {
            Seq::<Seq<char>>::empty()
        } else {
            document_authors(*old(document)).push(value@)
        }),
{
    document.builder.metadata(key, value).map(|_| ())
}

/// Calls `EpubBuilder::add_resource`.
///
/// Trusted: on success the file is added behind those already there, out of
/// the reading order, with the path, the bytes and the media type as given.
#[verifier::external_body]
fn add_resource(
    document: &mut Document,
    path: &str,
    content: &[u8],
    media_type: &str,
) -> (outcome: Result<(), epub_builder::Error>)
    ensures
        outcome is Ok ==> {
            &&& document_title(*final(document)) == document_title(*old(document))
            &&& document_authors(*final(document)) == document_authors(*old(document))
            &&& document_entries(*final(document)) == document_entries(*old(document)).push(
                Entry {
                    path: path@,
                    media_type: media_type@,
                    body: content@,
                    linear: false,
                    title_page: false,
                    title: Seq::empty(),
                },
            )
        },
{
    document.builder.add_resource(path, content, media_type).map(|_| ())
}

/// Calls `EpubBuilder::add_content` with a page made by `EpubContent::new`
/// and `EpubContent::title`, marked as the title page where `title_page` says so.
///
/// Trusted: on success the page is added behind the files already there, in
/// the reading order, with the path and the bytes as given. The guide lists
/// it, under `title`, only where it is the title page.
#[verifier::external_body]
fn add_content(
    document: &mut Document,
    path: &str,
    content: &[u8],
    title: &str,
    title_page: bool,
) -> (outcome: Result<(), epub_builder::Error>)
    ensures
        outcome is Ok ==> {
            &&& document_title(*final(document)) == document_title(*old(document))
            &&& document_authors(*final(document)) == document_authors(*old(document))
            &&& document_entries(*final(document)) == document_entries(*old(document)).push(
                Entry {
                    path: path@,
                    media_type: page_media_type(),
                    body: content@,
                    linear: true,
                    title_page,
                    title: if title_page {
                        title@
                    } else {
                        Seq::empty()
                    },
                },
            )
        },
{
    let mut page = EpubContent::new(path, content).title(title);
    page.reftype = title_page.then_some(ReferenceType::TitlePage);
    document.builder.add_content(page).map(|_| ())
}

/// Whether `archive` opens the way an EPUB container does: with a ZIP entry
/// that is named `mimetype`, has no extra field, is stored uncompressed and
/// holds the container's media type. The entry's header takes the first 30
/// bytes, of which the first four are the signature, the ninth and tenth the
/// method of compression, and the last four the lengths of name and extra
/// field; the name and the entry's content follow at once.
pub open spec fn opens_as_epub(archive: Seq<u8>) -> bool {
    &&& archive.len() >= 58
    &&& archive.subrange(0, 4) == seq![0x50u8, 0x4bu8, 0x03u8, 0x04u8]
    &&& archive.subrange(8, 10) == seq![0u8, 0u8]
    &&& archive.subrange(26, 30) == seq![8u8, 0u8, 0u8, 0u8]
    &&& archive.subrange(30, 38) == encode_utf8("mimetype"@)
    &&& archive.subrange(38, 58) == encode_utf8("application/epub+zip"@)
}

/// Calls `EpubBuilder::generate` and collects what it writes.
///
/// Trusted: the archive is one that `packs` what the builder held, and it
/// opens as `opens_as_epub` says. `ZipLibrary::new` starts every archive with
/// the entry `mimetype`, stored, and writes the media type into it; the `zip`
/// crate writes an entry as a header of 30 bytes, the name and the content,
/// and `generate` hands out the archive from its first byte. The archive
/// carries a fresh identifier and the time of writing, so no two calls need
/// agree and the archive is given no name of its own.
#[verifier::external_body]
fn generate_archive(document: Document) -> (outcome: Result<Vec<u8>, epub_builder::Error>)
    ensures
        outcome matches Ok(archive) ==> opens_as_epub(archive@) && packs(
            document_title(document),
            document_authors(document),
            document_entries(document),
            archive@,
        ),
{
    let mut document = document;
    let mut archive: Vec<u8> = Vec::new();
    document.builder.generate(&mut archive).map(|_| archive)
}

/// Decodes an image file with `Reader::with_format` and `Reader::decode`, in
/// the format that `ImageFormat::from_path` reads off the file's name, and
/// copies out the pixels with `DynamicImage::as_bytes`.
///
/// Trusted: whether the call succeeds is what `image_decodes` names; it rests
/// on the name and the bytes alone. Of the pixels nothing is claimed.
#[verifier::external_body]
fn decode_pixels(file_name: &str, encoded: &[u8]) -> (outcome: Result<Vec<u8>, ImageError>)
    ensures
        outcome is Ok == image_decodes(file_name@, encoded@),
{
    let format = ImageFormat::from_path(file_name)?;
    let image = Reader::with_format(Cursor::new(encoded), format).decode()?;
    Ok(image.as_bytes().to_vec())
}

/// The place of the last `.` in `name`, or -1 where it has none.
pub open spec fn last_dot(name: Seq<char>) -> int
    decreases name.len(),
{
    if name.len() == 0 {
        -1
    } else if name.last() == '.' {
        name.len() - 1
    } else {
        last_dot(name.drop_last())
    }
}

/// The extension of a file name: what follows its last `.`, provided that
/// there is one and that it is not the first character. The name `..` has none.
pub open spec fn extension_of(name: Seq<char>) -> Option<Seq<char>> {
    if last_dot(name) <= 0 || name == seq!['.', '.'] {
        None
    } else {
        Some(name.skip(last_dot(name) + 1))
    }
}

/// The media type declared for an image file: `image/` and the extension of
/// its name, as the name spells it.
pub open spec fn media_type_of(name: Seq<char>) -> Option<Seq<char>> {
    match extension_of(name) {
        Some(extension) => Some("image/"@ + extension),
        None => None,
    }
}

/// The place of the last `.` is the one place that holds a `.` with none
/// behind it, or -1 where the name holds none at all.
pub proof fn lemma_last_dot(name: Seq<char>, place: int)
    ensures
        last_dot(name) == place <==> {
            &&& -1 <= place < name.len()
            &&& place >= 0 ==> name[place] == '.'
            &&& forall|i: int| place < i < name.len() ==> name[i] != '.'
        },
    decreases name.len(),
{
    if name.len() > 0 && name.last() != '.' {
        let front = name.drop_last();
        lemma_last_dot(front, place);
        assert forall|i: int| 0 <= i < front.len() implies front[i] == name[i] by {}
        if last_dot(name) == place {
            assert forall|i: int| place < i < name.len() implies name[i] != '.' by {
                if i < front.len() {
                    assert(front[i] == name[i]);
                }
            }
        }
        if -1 <= place < name.len() && (place >= 0 ==> name[place] == '.') && (forall|i: int|
            place < i < name.len() ==> name[i] != '.') {
            assert(place < front.len());
            assert forall|i: int| place < i < front.len() implies front[i] != '.' by {
                assert(front[i] == name[i]);
            }
            if place >= 0 {
                assert(front[place] == name[place]);
            }
        }
    }
}

/// The extension of a file name.
pub fn extension_for(file_name: &str) -> (extension: Option<String>)
    ensures
        match extension {
            Some(text) => extension_of(file_name@) == Some(text@),
            None => extension_of(file_name@) is None,
        },
{
    let length = file_name.unicode_len();
    let mut place: usize = length;
    while place > 0 && file_name.get_char(place - 1) != '.'
        invariant
            place <= length,
            length == file_name@.len(),
            forall|i: int| place <= i < length ==> file_name@[i] != '.',
        decreases place,
    {
        place -= 1;
    }
    proof {
        lemma_last_dot(file_name@, place - 1);
    }
    if place <= 1 {
        return None;
    }
    if length == 2 && file_name.get_char(0) == '.' {
        proof {
            assert(file_name@ == seq!['.', '.']);
        }
        return None;
    }
    proof {
        assert(file_name@.skip(place as int) == file_name@.subrange(place as int, length as int));
        if file_name@ == seq!['.', '.'] {
            assert(seq!['.', '.'].len() == 2);
            assert(seq!['.', '.'][0] == '.');
        }
    }
    Some(file_name.substring_char(place, length).to_owned())
}

/// The media type declared for an image file of this name.
pub fn media_type_for(file_name: &str) -> (media_type: Option<String>)
    ensures
        match media_type {
            Some(text) => media_type_of(file_name@) == Some(text@),
            None => media_type_of(file_name@) is None,
        },
{
    match extension_for(file_name) {
        Some(extension) => Some("image/".to_owned().concat(extension.as_str())),
        None => None,
    }
}

/// An image as it lies in the working directory.
#[derive(Clone, Debug, PartialEq, Eq)]
pub struct StoredImage {
    /// The name of the file, without any directory.
    pub file_name: String,
    /// What the file holds.
    pub bytes: Vec<u8>,
}

/// The mathematical content of a `StoredImage`.
pub struct ImageView {
    /// The name of the file.
    pub file_name: Seq<char>,
    /// What the file holds.
    pub bytes: Seq<u8>,
}

impl View for StoredImage {
    type V = ImageView;

    open spec fn view(&self) -> ImageView {
        ImageView { file_name: self.file_name@, bytes: self.bytes@ }
    }
}

/// The views of a list of stored images.
pub open spec fn image_views(images: Seq<StoredImage>) -> Seq<ImageView> {
    images.map_values(|image: StoredImage| image@)
}

/// Whether an image can be embedded: its name gives a media type and its
/// bytes decode.
pub open spec fn embeddable(image: ImageView) -> bool {
    media_type_of(image.file_name) is Some && image_decodes(image.file_name, image.bytes)
}

/// A file that is embedded in a document.
#[derive(Clone, Debug, PartialEq, Eq)]
pub struct Resource {
    /// Where the file stands in the document.
    pub path: String,
    /// The media type declared for it.
    pub media_type: String,
    /// What the file holds.
    pub body: Vec<u8>,
}

/// Decides what is embedded for the stored image at place `index`, once the
/// decoder has said what it makes of the file: the decoded pixels, under the
/// file's own name and the media type that the name gives. An image that did
/// not decode, or whose name gives no media type, is a failure.
pub fn embedded_resource(index: usize, file_name: &str, decoded: Option<Vec<u8>>) -> (outcome: Result<
    Resource,
    Failure,
>)
    ensures
        match outcome {
            Ok(resource) => {
                &&& decoded is Some
                &&& resource.body@ == decoded->Some_0@
                &&& resource.path@ == file_name@
                &&& media_type_of(file_name@) == Some(resource.media_type@)
            },
            Err(failure) => {
                &&& decoded is None || media_type_of(file_name@) is None
                &&& failure == Failure::ImageDecode { index }
            },
        },
{
    match (media_type_for(file_name), decoded) {
        (Some(media_type), Some(body)) => Ok(
            Resource { path: file_name.to_owned(), media_type, body },
        ),
        _ => Err(Failure::ImageDecode { index }),
    }
}

/// The authors that a byline gives: the byline itself, or none where it is empty.
pub open spec fn authors_of(byline: Seq<char>) -> Seq<Seq<char>> {
    if byline.len() == 0 {
        Seq::empty()
    } else {
        seq![byline]
    }
}

/// The title page: the title as the whole body, listed in the guide under that title.
pub open spec fn title_page_entry(title: Seq<char>) -> Entry {
    Entry {
        path: "title.xhtml"@,
        media_type: page_media_type(),
        body: encode_utf8(title),
        linear: true,
        title_page: true,
        title,
    }
}

/// The one chapter: the article's markup as it is.
pub open spec fn chapter_entry(content: Seq<char>) -> Entry {
    Entry {
        path: "article.xhtml"@,
        media_type: page_media_type(),
        body: encode_utf8(content),
        linear: true,
        title_page: false,
        title: Seq::empty(),
    }
}

/// Whether `entry` embeds `image`: under the image's name, with the media
/// type that the name gives, outside the reading order, and the image decodes.
pub open spec fn embeds(entry: Entry, image: ImageView) -> bool {
    &&& embeddable(image)
    &&& entry.path == image.file_name
    &&& media_type_of(image.file_name) == Some(entry.media_type)
    &&& !entry.linear
    &&& !entry.title_page
    &&& entry.title.len() == 0
}

/// Whether a document with this metadata and these files is the one that is
/// built from `article` and `images`: the byline as author, the title as
/// title, one embedded file for each image in their order, then the title
/// page, then the chapter.
pub open spec fn is_document_of(
    title: Seq<char>,
    authors: Seq<Seq<char>>,
    entries: Seq<Entry>,
    article: Article,
    images: Seq<ImageView>,
) -> bool {
    &&& article.missing_field() is None
    &&& title == article.title->Some_0@
    &&& authors == authors_of(article.byline->Some_0@)
    &&& entries.len() == images.len() + 2
    &&& forall|i: int| 0 <= i < images.len() ==> embeds(#[trigger] entries[i], images[i])
    &&& entries[images.len() as int] == title_page_entry(article.title->Some_0@)
    &&& entries[images.len() as int + 1] == chapter_entry(article.content->Some_0@)
}

/// Whether building the document may be refused for this reason. A record
/// that lacks a required field is refused for the first such field, and
/// nothing else is refused for that reason. An image is blamed only if it is
/// the first that cannot be embedded. The container is blamed only for a
/// complete record.
pub open spec fn assembly_refuses(
    article: Article,
    images: Seq<ImageView>,
    failure: Failure,
) -> bool {
    match failure {
        Failure::MissingRequiredField(field) => article.missing_field() == Some(field),
        Failure::ImageDecode { index } => {
            &&& article.missing_field() is None
            &&& index < images.len()
            &&& !embeddable(images[index as int])
            &&& forall|i: int| 0 <= i < index ==> embeddable(#[trigger] images[i])
        },
        Failure::ContainerBuild => article.missing_field() is None,
        _ => false,
    }
}

/// What building a document may come to, given that the decoder and the
/// container have their say: an archive that opens as an EPUB container does
/// and packs the document of `article` and `images`, or a refusal that
/// `assembly_refuses` admits.
pub open spec fn assembly_allows(
    article: Article,
    images: Seq<ImageView>,
    outcome: Result<Seq<u8>, Failure>,
) -> bool {
    match outcome {
        Ok(archive) => {
            &&& opens_as_epub(archive)
            &&& exists|title: Seq<char>, authors: Seq<Seq<char>>, entries: Seq<Entry>|
                is_document_of(title, authors, entries, article, images) && #[trigger] packs(
                    title,
                    authors,
                    entries,
                    archive,
                )
        },
        Err(failure) => assembly_refuses(article, images, failure),
    }
}

/// The view of an outcome that carries bytes.
pub open spec fn bytes_outcome(outcome: Result<Vec<u8>, Failure>) -> Result<Seq<u8>, Failure> {
    match outcome {
        Ok(bytes) => Ok(bytes@),
        Err(failure) => Err(failure),
    }
}

impl Document {
    /// Puts the document for `article` together, with `images` embedded.
    ///
    /// A record without title, byline or content is refused before anything
    /// is built. An image whose name has no extension, or whose bytes the
    /// decoder refuses, fails the whole document, and so does any refusal of
    /// the container.
    pub fn compose(article: &Article, images: &Vec<StoredImage>) -> (outcome: Result<
        Document,
        Failure,
    >)
        ensures
            match outcome {
                Ok(document) => is_document_of(
                    document_title(document),
                    document_authors(document),
                    document_entries(document),
                    *article,
                    image_views(images@),
                ),
                Err(failure) => assembly_refuses(*article, image_views(images@), failure),
            },
    {
        let Essentials { title, byline, content } = match article.essentials() {
            Ok(essentials) => essentials,
            Err(failure) => return Err(failure),
        };
        let mut document = match new_document() {
            Ok(document) => document,
            Err(_) => return Err(Failure::ContainerBuild),
        };
        if set_metadata(&mut document, "author", byline).is_err() {
            return Err(Failure::ContainerBuild);
        }
        if set_metadata(&mut document, "title", title).is_err() {
            return Err(Failure::ContainerBuild);
        }
        proof {
            reveal_strlit("author");
            reveal_strlit("title");
            assert(document_authors(document) == authors_of(byline@));
        }
        let ghost views = image_views(images@);
        let mut index: usize = 0;
        while index < images.len()
            invariant
                index <= images.len(),
                views == image_views(images@),
                article.missing_field() is None,
                document_title(document) == title@,
                document_authors(document) == authors_of(byline@),
                document_entries(document).len() == index,
                forall|i: int|
                    0 <= i < index ==> embeds(#[trigger] document_entries(document)[i], views[i]),
            decreases images.len() - index,
        {
            let image = &images[index];
            proof {
                assert(views[index as int] == image@);
            }
            let decoded = match decode_pixels(image.file_name.as_str(), image.bytes.as_slice()) {
                Ok(pixels) => Some(pixels),
                Err(_) => None,
            };
            let resource = match embedded_resource(index, image.file_name.as_str(), decoded) {
                Ok(resource) => resource,
                Err(failure) => {
                    proof {
                        assert forall|i: int| 0 <= i < index implies embeddable(
                            #[trigger] views[i],
                        ) by {
                            assert(embeds(document_entries(document)[i], views[i]));
                        }
                    }
                    return Err(failure);
                },
            };
            let ghost before = document_entries(document);
            if add_resource(
                &mut document,
                resource.path.as_str(),
                resource.body.as_slice(),
                resource.media_type.as_str(),
            ).is_err() {
                return Err(Failure::ContainerBuild);
            }
            proof {
                assert forall|i: int| 0 <= i < index + 1 implies embeds(
                    #[trigger] document_entries(document)[i],
                    views[i],
                ) by {
                    if i < index {
                        assert(document_entries(document)[i] == before[i]);
                    }
                }
            }
            index += 1;
        }
        let ghost embedded = document_entries(document);
        if add_content(&mut document, "title.xhtml", title.as_bytes(), title, true).is_err() {
            return Err(Failure::ContainerBuild);
        }
        if add_content(&mut document, "article.xhtml", content.as_bytes(), "", false).is_err() {
            return Err(Failure::ContainerBuild);
        }
        proof {
            let entries = document_entries(document);
            assert forall|i: int| 0 <= i < views.len() implies embeds(
                #[trigger] entries[i],
                views[i],
            ) by {
                assert(entries[i] == embedded[i]);
            }
        }
        Ok(document)
    }

    /// Writes the document out as one archive: an EPUB container that packs
    /// the document's title, authors and files, and opens with its media
    /// type. A refusal of the container is the only failure.
    pub fn generate(self) -> (outcome: Result<Vec<u8>, Failure>)
        ensures
            match outcome {
                Ok(archive) => opens_as_epub(archive@) && packs(
                    document_title(self),
                    document_authors(self),
                    document_entries(self),
                    archive@,
                ),
                Err(failure) => failure == Failure::ContainerBuild,
            },
    {
        match generate_archive(self) {
            Ok(archive) => Ok(archive),
            Err(_) => Err(Failure::ContainerBuild),
        }
    }
}

/// Builds the packaged document for `article`, with `images` embedded.
///
/// Whether the images decode and the container accepts everything is for the
/// outside crates to say; what is certain whatever they say is stated by
/// `assembly_allows`.
pub fn assemble(article: &Article, images: &Vec<StoredImage>) -> (outcome: Result<Vec<u8>, Failure>)
    ensures
        assembly_allows(*article, image_views(images@), bytes_outcome(outcome)),
{
    match Document::compose(article, images) {
        Ok(document) => {
            let ghost title = document_title(document);
            let ghost authors = document_authors(document);
            let ghost entries = document_entries(document);
            let outcome = document.generate();
            proof {
                if outcome is Ok {
                    let archive = outcome->Ok_0@;
                    let views = image_views(images@);
                    assert(is_document_of(title, authors, entries, *article, views) && packs(
                        title,
                        authors,
                        entries,
                        archive,
                    ));
                    assert(exists|t: Seq<char>, a: Seq<Seq<char>>, e: Seq<Entry>|
                        is_document_of(t, a, e, *article, views) && #[trigger] packs(
                            t,
                            a,
                            e,
                            archive,
                        ));
                }
            }
            outcome
        },
        Err(failure) => Err(failure),
    }
}

} // verus!
