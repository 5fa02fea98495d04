//! The order of a conversion.
//!
//! A conversion alternates between deciding and outside work. The deciding is
//! done here: `Article::epub_from_url` opens a conversion and names the first
//! piece of outside work, and `Conversion::advance` takes the report of what
//! happened and names the next. The caller does the work and reports back,
//! until it is told to finish.

use vstd::prelude::*;
use vstd::slice::slice_to_vec;
use crate::article::Article;
use crate::document::assemble;
use crate::document::assembly_allows;
use crate::document::bytes_outcome;
use crate::document::image_views;
use crate::document::ImageView;
use crate::document::StoredImage;
use crate::failure::Failure;
use crate::failure::ReferenceFault;
use crate::failure::RequiredField;
use crate::fetcher::file_name_of;
use crate::fetcher::Downloader;
use crate::fetcher::FetchMode;
use crate::fetcher::Payload;
use crate::resolver::fits_parser;
use crate::resolver::image_sources;
use crate::resolver::resolution;
use crate::resolver::resolve_all;
use crate::resolver::resolve_reference;
use crate::resolver::lemma_resolve_all_by_reference;
use crate::resolver::resolve_images;
use crate::web_url::texts;
use crate::web_url::url_parse;
use crate::web_url::PageUrl;
use crate::web_url::UrlRejection;

verus! {

/// How a conversion ended.
#[derive(Clone, Copy, Debug, PartialEq, Eq, Structural)]
pub enum Outcome {
    /// The document was written and the working directory removed.
    Written,
    /// The input was no address: nothing was created and nothing written.
    InvalidInputUrl(UrlRejection),
    /// The conversion was given up.
    Failed(Failure),
}

/// Where a conversion stands: what it is waiting for.
#[derive(Clone, Copy, Debug, PartialEq, Eq, Structural)]
pub enum Stage {
    /// Waiting for the working directory.
    CreatingWorkDir,
    /// Waiting for the page.
    FetchingPage,
    /// Waiting for the page to be stored.
    StoringPage,
    /// Waiting for the extractor's record.
    Extracting,
    /// Waiting for the next image.
    FetchingImage,
    /// Waiting for that image to be stored.
    StoringImage,
    /// Waiting for the stored images to be read back.
    LoadingImages,
    /// Waiting for the document to be written.
    WritingOutput,
    /// Waiting for the working directory to be removed.
    Cleaning,
    /// Over.
    Done,
}

/// A piece of outside work that the caller is asked to do.
#[derive(Clone, Debug, PartialEq, Eq)]
pub enum Action {
    /// Create a fresh working directory whose name starts with `prefix`.
    CreateWorkDir { prefix: String },
    /// Fetch `url` and read the body in `mode`.
    Fetch { url: String, mode: FetchMode },
    /// Write `bytes` to the file `file_name` in the working directory,
    /// replacing what may be there.
    Store { file_name: String, bytes: Vec<u8> },
    /// Run the extractor on the file at `html_path` and read the record that
    /// it writes to `record_name` in the working directory.
    Extract { html_path: String, record_name: String },
    /// Read the files at `paths`.
    LoadImages { paths: Vec<String> },
    /// Write `bytes` to `file_name` in the current directory.
    WriteOutput { file_name: String, bytes: Vec<u8> },
    /// Remove the working directory at `path` with all that is in it.
    RemoveWorkDir { path: String },
    /// Stop: the conversion is over.
    Finish(Outcome),
}

/// What the caller reports.
#[derive(Clone, Debug, PartialEq, Eq)]
pub enum Event {
    /// The working directory exists, at `path`.
    WorkDirCreated { path: String },
    /// The fetch was answered, in the end by `final_url`, with `payload`.
    Fetched { final_url: String, payload: Payload },
    /// The file was written; `path` is its absolute path.
    Stored { path: String },
    /// The extractor's record was read.
    Extracted { article: Article },
    /// The files were read; `contents` holds them in the order asked for.
    ImagesLoaded { contents: Vec<Vec<u8>> },
    /// The document was written.
    OutputWritten,
    /// The working directory is gone.
    WorkDirRemoved,
    /// The work asked for could not be done.
    Failed(Failure),
}

/// The mathematical content of an `Action`: the same variants, with texts
/// and bytes as sequences.
pub enum ActionView {
    /// Create a fresh working directory.
    CreateWorkDir { prefix: Seq<char> },
    /// Fetch an address.
    Fetch { url: Seq<char>, mode: FetchMode },
    /// Write a file into the working directory.
    Store { file_name: Seq<char>, bytes: Seq<u8> },
    /// Run the extractor and read its record.
    Extract { html_path: Seq<char>, record_name: Seq<char> },
    /// Read the stored images back.
    LoadImages { paths: Seq<Seq<char>> },
    /// Write the document.
    WriteOutput { file_name: Seq<char>, bytes: Seq<u8> },
    /// Remove the working directory.
    RemoveWorkDir { path: Seq<char> },
    /// Stop.
    Finish(Outcome),
}

impl View for Action {
    type V = ActionView;

    open spec fn view(&self) -> ActionView {
        match *self {
            Action::CreateWorkDir { prefix } => ActionView::CreateWorkDir { prefix: prefix@ },
            Action::Fetch { url, mode } => ActionView::Fetch { url: url@, mode },
            Action::Store { file_name, bytes } => ActionView::Store {
                file_name: file_name@,
                bytes: bytes@,
            },
            Action::Extract { html_path, record_name } => ActionView::Extract {
                html_path: html_path@,
                record_name: record_name@,
            },
            Action::LoadImages { paths } => ActionView::LoadImages { paths: texts(paths@) },
            Action::WriteOutput { file_name, bytes } => ActionView::WriteOutput {
                file_name: file_name@,
                bytes: bytes@,
            },
            Action::RemoveWorkDir { path } => ActionView::RemoveWorkDir { path: path@ },
            Action::Finish(outcome) => ActionView::Finish(outcome),
        }
    }
}

/// The mathematical content of a `Conversion`.
pub struct ConversionView {
    /// What the conversion is waiting for.
    pub stage: Stage,
    /// The page's address as it was given, where the input was an address.
    pub target: Option<Seq<char>>,
    /// The working directory.
    pub dir: Seq<char>,
    /// The mode of the fetch that is under way, or of the last one.
    pub mode: FetchMode,
    /// The name of the file that is being stored.
    pub pending_name: Seq<char>,
    /// The extractor's record, once it has passed its check.
    pub article: Option<Article>,
    /// The addresses of the article's images.
    pub image_urls: Seq<Seq<char>>,
    /// The names under which the images fetched so far were stored.
    pub image_names: Seq<Seq<char>>,
    /// The paths at which they were stored.
    pub image_paths: Seq<Seq<char>>,
    /// How the conversion ends once the working directory is gone.
    pub outcome: Outcome,
}

/// A conversion under way.
pub struct Conversion {
    stage: Stage,
    target: Option<PageUrl>,
    downloader: Downloader,
    pending_name: String,
    article: Option<Article>,
    image_urls: Vec<String>,
    image_names: Vec<String>,
    image_paths: Vec<String>,
    outcome: Outcome,
}

impl View for Conversion {
    type V = ConversionView;

    closed spec fn view(&self) -> ConversionView {
        ConversionView {
            stage: self.stage,
            target: match self.target {
                Some(page) => Some(page@),
                None => None,
            },
            dir: self.downloader.path@,
            mode: self.downloader.file_type,
            pending_name: self.pending_name@,
            article: self.article,
            image_urls: texts(self.image_urls@),
            image_names: texts(self.image_names@),
            image_paths: texts(self.image_paths@),
            outcome: self.outcome,
        }
    }
}

/// The start of the name of every working directory.
pub open spec fn work_dir_prefix() -> Seq<char> {
    "kindle-pult_"@
}

/// The name of the file that the extractor writes its record to.
pub open spec fn record_name() -> Seq<char> {
    "article.json"@
}

/// The name of the file that the document is written to.
pub open spec fn output_name() -> Seq<char> {
    "book.epub"@
}

/// A conversion of which nothing is known yet but its stage, its target and
/// how it ends.
pub open spec fn blank(stage: Stage, target: Option<Seq<char>>, outcome: Outcome) -> ConversionView {
    ConversionView {
        stage,
        target,
        dir: Seq::empty(),
        mode: FetchMode::Text,
        pending_name: Seq::empty(),
        article: None,
        image_urls: Seq::empty(),
        image_names: Seq::empty(),
        image_paths: Seq::empty(),
        outcome,
    }
}

/// How a conversion of `target` opens. An input that is an address asks for a
/// working directory; any other input ends the conversion at once.
pub open spec fn opening(target: Seq<char>) -> (ConversionView, ActionView) {
    match url_parse(target) {
        Ok(_) => (
            blank(Stage::CreatingWorkDir, Some(target), Outcome::Written),
            ActionView::CreateWorkDir { prefix: work_dir_prefix() },
        ),
        Err(rejection) => (
            blank(Stage::Done, None, Outcome::InvalidInputUrl(rejection)),
            ActionView::Finish(Outcome::InvalidInputUrl(rejection)),
        ),
    }
}

/// Giving up a conversion that has a working directory: the directory is
/// removed first, and the failure is reported after that.
pub open spec fn abandon(pre: ConversionView, failure: Failure) -> (ConversionView, ActionView) {
    (
        ConversionView { stage: Stage::Cleaning, outcome: Outcome::Failed(failure), ..pre },
        ActionView::RemoveWorkDir { path: pre.dir },
    )
}

/// The end of a conversion whose working directory could not be removed, or
/// was never made: an earlier failure stands, else this one is reported.
pub open spec fn close(pre: ConversionView, failure: Failure) -> (ConversionView, ActionView) {
    let outcome = match pre.outcome {
        Outcome::Written => Outcome::Failed(failure),
        earlier => earlier,
    };
    (ConversionView { stage: Stage::Done, outcome, ..pre }, ActionView::Finish(outcome))
}

/// Storing what a fetch brought, provided that it was read in the mode asked for.
pub open spec fn store(pre: ConversionView, storing: Stage, final_url: Seq<char>, payload: Payload) -> (
    ConversionView,
    ActionView,
) {
    if payload.mode() == pre.mode {
        (
            ConversionView { stage: storing, pending_name: file_name_of(final_url), ..pre },
            ActionView::Store { file_name: file_name_of(final_url), bytes: payload.bytes() },
        )
    } else {
        abandon(pre, Failure::UnexpectedEvent)
    }
}

/// The body of a record, as a sequence.
pub open spec fn content_of(article: Article) -> Option<Seq<char>> {
    match article.content {
        Some(markup) => Some(markup@),
        None => None,
    }
}

/// The failure for which a record is refused as it arrives, if it is refused.
///
/// The images are resolved first, against the page's address, and a fault
/// among the references is the failure. Only then is the record held to its
/// required fields. Both come before any image is fetched.
pub open spec fn refusal(target: Option<Seq<char>>, article: Article) -> Option<Failure> {
    match target {
        None => Some(Failure::UnexpectedEvent),
        Some(page) => match resolution(content_of(article), page) {
            Err(failure) => Some(failure),
            Ok(_) => match article.missing_field() {
                Some(field) => Some(Failure::MissingRequiredField(field)),
                None => None,
            },
        },
    }
}

/// What follows the extractor's record: the conversion is abandoned for a
/// record that is refused; else the first of the record's images is fetched,
/// in binary mode. Without images the conversion goes on to the document at
/// once.
pub open spec fn extracted(pre: ConversionView, article: Article) -> (ConversionView, ActionView) {
    match refusal(pre.target, article) {
        Some(failure) => abandon(pre, failure),
        None => {
            let urls = resolution(content_of(article), pre.target->Some_0)->Ok_0;
            let post = ConversionView {
                article: Some(article),
                image_urls: urls,
                mode: FetchMode::Binary,
                ..pre
            };
            if urls.len() == 0 {
                (
                    ConversionView { stage: Stage::LoadingImages, ..post },
                    ActionView::LoadImages { paths: post.image_paths },
                )
            } else {
                (
                    ConversionView { stage: Stage::FetchingImage, ..post },
                    ActionView::Fetch { url: urls[0], mode: FetchMode::Binary },
                )
            }
        },
    }
}

/// What follows the storing of an image: the next image is fetched, or, after
/// the last, the stored images are read back.
pub open spec fn image_stored(pre: ConversionView, path: Seq<char>) -> (ConversionView, ActionView) {
    let post = ConversionView {
        image_names: pre.image_names.push(pre.pending_name),
        image_paths: pre.image_paths.push(path),
        ..pre
    };
    if post.image_paths.len() < post.image_urls.len() {
        (
            ConversionView { stage: Stage::FetchingImage, ..post },
            ActionView::Fetch {
                url: post.image_urls[post.image_paths.len() as int],
                mode: FetchMode::Binary,
            },
        )
    } else {
        (
            ConversionView { stage: Stage::LoadingImages, ..post },
            ActionView::LoadImages { paths: post.image_paths },
        )
    }
}

/// Whether the report `event`, at the stage of `pre`, hands over the images
/// from which the document is built.
pub open spec fn brings_images(pre: ConversionView, event: Event) -> bool {
    &&& pre.stage == Stage::LoadingImages
    &&& pre.article is Some
    &&& event matches Event::ImagesLoaded { contents }
    &&& contents.len() == pre.image_names.len()
}

/// The step that `event` causes, wherever the step rests on the library's own
/// decisions alone (everywhere but in `brings_images`).
pub open spec fn step(pre: ConversionView, event: Event) -> (ConversionView, ActionView) {
    match pre.stage {
        Stage::Done => (pre, ActionView::Finish(pre.outcome)),
        Stage::CreatingWorkDir => match event {
            Event::WorkDirCreated { path } => match pre.target {
                Some(target) => (
                    ConversionView {
                        stage: Stage::FetchingPage,
                        dir: path@,
                        mode: FetchMode::Text,
                        ..pre
                    },
                    ActionView::Fetch { url: url_parse(target)->Ok_0, mode: FetchMode::Text },
                ),
                None => abandon(
                    ConversionView { dir: path@, mode: FetchMode::Text, ..pre },
                    Failure::UnexpectedEvent,
                ),
            },
            Event::Failed(failure) => close(pre, failure),
            _ => close(pre, Failure::UnexpectedEvent),
        },
        Stage::Cleaning => match event {
            Event::WorkDirRemoved => (
                ConversionView { stage: Stage::Done, ..pre },
                ActionView::Finish(pre.outcome),
            ),
            Event::Failed(failure) => close(pre, failure),
            _ => close(pre, Failure::UnexpectedEvent),
        },
        Stage::FetchingPage => match event {
            Event::Fetched { final_url, payload } => store(
                pre,
                Stage::StoringPage,
                final_url@,
                payload,
            ),
            Event::Failed(failure) => abandon(pre, failure),
            _ => abandon(pre, Failure::UnexpectedEvent),
        },
        Stage::StoringPage => match event {
            Event::Stored { path } => (
                ConversionView { stage: Stage::Extracting, ..pre },
                ActionView::Extract { html_path: path@, record_name: record_name() },
            ),
            Event::Failed(failure) => abandon(pre, failure),
            _ => abandon(pre, Failure::UnexpectedEvent),
        },
        Stage::Extracting => match event {
            Event::Extracted { article } => extracted(pre, article),
            Event::Failed(failure) => abandon(pre, failure),
            _ => abandon(pre, Failure::UnexpectedEvent),
        },
        Stage::FetchingImage => match event {
            Event::Fetched { final_url, payload } => store(
                pre,
                Stage::StoringImage,
                final_url@,
                payload,
            ),
            Event::Failed(failure) => abandon(pre, failure),
            _ => abandon(pre, Failure::UnexpectedEvent),
        },
        Stage::StoringImage => match event {
            Event::Stored { path } => image_stored(pre, path@),
            Event::Failed(failure) => abandon(pre, failure),
            _ => abandon(pre, Failure::UnexpectedEvent),
        },
        Stage::LoadingImages => match event {
            Event::Failed(failure) => abandon(pre, failure),
            _ => abandon(pre, Failure::UnexpectedEvent),
        },
        Stage::WritingOutput => match event {
            Event::OutputWritten => (
                ConversionView { stage: Stage::Cleaning, outcome: Outcome::Written, ..pre },
                ActionView::RemoveWorkDir { path: pre.dir },
            ),
            Event::Failed(failure) => abandon(pre, failure),
            _ => abandon(pre, Failure::UnexpectedEvent),
        },
    }
}

/// What follows the building of the document: it is written out under the
/// fixed output name, or the conversion is abandoned for the reason given.
pub open spec fn assembled(pre: ConversionView, outcome: Result<Seq<u8>, Failure>) -> (
    ConversionView,
    ActionView,
) {
    match outcome {
        Ok(bytes) => (
            ConversionView { stage: Stage::WritingOutput, ..pre },
            ActionView::WriteOutput { file_name: output_name(), bytes },
        ),
        Err(failure) => abandon(pre, failure),
    }
}

/// The stored images as they were read back: each name with its file's bytes.
pub open spec fn loaded(names: Seq<Seq<char>>, contents: Seq<Vec<u8>>) -> Seq<ImageView> {
    Seq::new(names.len(), |i: int| ImageView { file_name: names[i], bytes: contents[i]@ })
}

/// Whether `post` and `action` may follow when `event` is reported to `pre`.
///
/// All steps but one are fixed by `step`. Where the images are handed over,
/// the document is built by outside crates that may refuse it: the step is
/// then what `assembled` gives for some outcome that `assembly_allows`.
pub open spec fn follows(
    pre: ConversionView,
    event: Event,
    post: ConversionView,
    action: ActionView,
) -> bool {
    if brings_images(pre, event) {
        exists|outcome: Result<Seq<u8>, Failure>|
            assembly_allows(
                pre.article->Some_0,
                loaded(pre.image_names, event->ImagesLoaded_contents@),
                outcome,
            ) && (post, action) == #[trigger] assembled(pre, outcome)
    } else {
        (post, action) == step(pre, event)
    }
}

impl Article {
    /// Opens the conversion of the page at `target` into an e-book.
    ///
    /// The result is the conversion and the first thing to do for it. Where
    /// `target` is no address, that is to stop: no working directory is asked
    /// for and nothing is written.
    pub fn epub_from_url(target: String) -> (opened: (Conversion, Action))
        ensures
            (opened.0@, opened.1@) == opening(target@),
    {
        match PageUrl::parse(target.as_str()) {
            Ok(page) => (
                Conversion::blank(Stage::CreatingWorkDir, Some(page), Outcome::Written),
                Action::CreateWorkDir { prefix: "kindle-pult_".to_owned() },
            ),
            Err(rejection) => (
                Conversion::blank(Stage::Done, None, Outcome::InvalidInputUrl(rejection)),
                Action::Finish(Outcome::InvalidInputUrl(rejection)),
            ),
        }
    }
}

impl Conversion {
    fn blank(stage: Stage, target: Option<PageUrl>, outcome: Outcome) -> (conversion: Conversion)
        ensures
            conversion@ == blank(
                stage,
                match target {
                    Some(page) => Some(page@),
                    None => None,
                },
                outcome,
            ),
    {
        let conversion = Conversion {
            stage,
            target,
            downloader: Downloader::new(String::new(), FetchMode::Text),
            pending_name: String::new(),
            article: None,
            image_urls: Vec::new(),
            image_names: Vec::new(),
            image_paths: Vec::new(),
            outcome,
        };
        proof {
            assert(texts(conversion.image_urls@) == Seq::<Seq<char>>::empty());
            assert(texts(conversion.image_names@) == Seq::<Seq<char>>::empty());
            assert(texts(conversion.image_paths@) == Seq::<Seq<char>>::empty());
        }
        conversion
    }

    /// What the conversion is waiting for.
    pub fn stage(&self) -> (stage: Stage)
        ensures
            stage == self@.stage,
    {
        self.stage
    }

    /// Whether the conversion is over.
    pub fn is_done(&self) -> (done: bool)
        ensures
            done == (self@.stage == Stage::Done),
    {
        match self.stage {
            Stage::Done => true,
            _ => false,
        }
    }

    fn abandon(self, failure: Failure) -> (next: (Conversion, Action))
        ensures
            (next.0@, next.1@) == abandon(self@, failure),
    {
        let path = self.downloader.path.clone();
        (
            Conversion { stage: Stage::Cleaning, outcome: Outcome::Failed(failure), ..self },
            Action::RemoveWorkDir { path },
        )
    }

    fn close(self, failure: Failure) -> (next: (Conversion, Action))
        ensures
            (next.0@, next.1@) == close(self@, failure),
    {
        let outcome = match self.outcome {
            Outcome::Written => Outcome::Failed(failure),
            earlier => earlier,
        };
        (Conversion { stage: Stage::Done, outcome, ..self }, Action::Finish(outcome))
    }

    fn store(self, storing: Stage, final_url: String, payload: Payload) -> (next: (
        Conversion,
        Action,
    ))
        ensures
            (next.0@, next.1@) == store(self@, storing, final_url@, payload),
    {
        match self.downloader.place(final_url.as_str(), payload) {
            Ok(order) => (
                Conversion { stage: storing, pending_name: order.file_name.clone(), ..self },
                Action::Store { file_name: order.file_name, bytes: order.bytes },
            ),
            Err(_) => self.abandon(Failure::UnexpectedEvent),
        }
    }

    fn extracted(self, article: Article) -> (next: (Conversion, Action))
        ensures
            (next.0@, next.1@) == extracted(self@, article),
    {
        let content = match &article.content {
            Some(markup) => Some(markup.as_str()),
            None => None,
        };
        let resolved = match &self.target {
            Some(target) => resolve_images(content, target),
            None => return self.abandon(Failure::UnexpectedEvent),
        };
        let urls = match resolved {
            Ok(urls) => urls,
            Err(failure) => return self.abandon(failure),
        };
        if let Err(failure) = article.check_required() {
            return self.abandon(failure);
        }
        let downloader = Downloader::new(self.downloader.path, FetchMode::Binary);
        if urls.len() == 0 {
            let paths = self.image_paths.clone();
            proof {
                lemma_same_texts(self.image_paths@, paths@);
            }
            (
                Conversion {
                    stage: Stage::LoadingImages,
                    article: Some(article),
                    image_urls: urls,
                    downloader,
                    ..self
                },
                Action::LoadImages { paths },
            )
        } else {
            let url = urls[0].clone();
            (
                Conversion {
                    stage: Stage::FetchingImage,
                    article: Some(article),
                    image_urls: urls,
                    downloader,
                    ..self
                },
                Action::Fetch { url, mode: FetchMode::Binary },
            )
        }
    }

    fn image_stored(self, path: String) -> (next: (Conversion, Action))
        ensures
            (next.0@, next.1@) == image_stored(self@, path@),
    {
        let mut image_names = self.image_names;
        let mut image_paths = self.image_paths;
        proof {
            assert(texts(image_names@.push(self.pending_name)) == texts(image_names@).push(
                self.pending_name@,
            ));
            assert(texts(image_paths@.push(path)) == texts(image_paths@).push(path@));
        }
        image_names.push(self.pending_name.clone());
        image_paths.push(path);
        if image_paths.len() < self.image_urls.len() {
            let url = self.image_urls[image_paths.len()].clone();
            (
                Conversion {
                    stage: Stage::FetchingImage,
                    target: self.target,
                    downloader: self.downloader,
                    pending_name: self.pending_name,
                    article: self.article,
                    image_urls: self.image_urls,
                    image_names,
                    image_paths,
                    outcome: self.outcome,
                },
                Action::Fetch { url, mode: FetchMode::Binary },
            )
        } else {
            let paths = image_paths.clone();
            proof {
                lemma_same_texts(image_paths@, paths@);
            }
            (
                Conversion {
                    stage: Stage::LoadingImages,
                    target: self.target,
                    downloader: self.downloader,
                    pending_name: self.pending_name,
                    article: self.article,
                    image_urls: self.image_urls,
                    image_names,
                    image_paths,
                    outcome: self.outcome,
                },
                Action::LoadImages { paths },
            )
        }
    }

    fn images_loaded(self, contents: Vec<Vec<u8>>) -> (next: (Conversion, Action))
        requires
            brings_images(self@, Event::ImagesLoaded { contents }),
        ensures
            follows(self@, Event::ImagesLoaded { contents }, next.0@, next.1@),
    {
        let mut images: Vec<StoredImage> = Vec::new();
        let mut index: usize = 0;
        while index < contents.len()
            invariant
                index <= contents.len(),
                contents.len() == self.image_names.len(),
                images.len() == index,
                forall|i: int|
                    0 <= i < index ==> (#[trigger] images[i]).file_name@ == self.image_names[i]@
                        && images[i].bytes@ == contents[i]@,
            decreases contents.len() - index,
        {
            images.push(
                StoredImage {
                    file_name: self.image_names[index].clone(),
                    bytes: slice_to_vec(contents[index].as_slice()),
                },
            );
            index += 1;
        }
        let outcome = match &self.article {
            Some(article) => assemble(article, &images),
            None => Err(Failure::UnexpectedEvent),
        };
        proof {
            assert(image_views(images@) =~= loaded(self@.image_names, contents@));
        }
        self.assembled(outcome)
    }

    /// Goes on from the attempt to build the document: a document is written
    /// out as `book.epub`, a failure abandons the conversion.
    fn assembled(self, outcome: Result<Vec<u8>, Failure>) -> (next: (Conversion, Action))
        ensures
            (next.0@, next.1@) == assembled(self@, bytes_outcome(outcome)),
    {
        match outcome {
            Ok(bytes) => (
                Conversion { stage: Stage::WritingOutput, ..self },
                Action::WriteOutput { file_name: "book.epub".to_owned(), bytes },
            ),
            Err(failure) => self.abandon(failure),
        }
    }

    /// Takes the report of what happened and says what to do next.
    ///
    /// A report that the conversion was not waiting for is treated as a
    /// failure. Every failure after the working directory was made has the
    /// directory removed before it is reported.
    pub fn advance(self, event: Event) -> (next: (Conversion, Action))
        ensures
            follows(self@, event, next.0@, next.1@),
    {
        match self.stage {
            Stage::Done => {
                let outcome = self.outcome;
                (self, Action::Finish(outcome))
            },
            Stage::CreatingWorkDir => match event {
                Event::WorkDirCreated { path } => {
                    let downloader = Downloader::new(path, FetchMode::Text);
                    let url = match &self.target {
                        Some(target) => Some(target.as_str().to_owned()),
                        None => None,
                    };
                    match url {
                        Some(url) => (
                            Conversion { stage: Stage::FetchingPage, downloader, ..self },
                            Action::Fetch { url, mode: FetchMode::Text },
                        ),
                        None => Conversion { downloader, ..self }.abandon(
                            Failure::UnexpectedEvent,
                        ),
                    }
                },
                Event::Failed(failure) => self.close(failure),
                _ => self.close(Failure::UnexpectedEvent),
            },
            Stage::Cleaning => match event {
                Event::WorkDirRemoved => {
                    let outcome = self.outcome;
                    (Conversion { stage: Stage::Done, ..self }, Action::Finish(outcome))
                },
                Event::Failed(failure) => self.close(failure),
                _ => self.close(Failure::UnexpectedEvent),
            },
            Stage::FetchingPage => match event {
                Event::Fetched { final_url, payload } => self.store(
                    Stage::StoringPage,
                    final_url,
                    payload,
                ),
                Event::Failed(failure) => self.abandon(failure),
                _ => self.abandon(Failure::UnexpectedEvent),
            },
            Stage::StoringPage => match event {
                Event::Stored { path } => (
                    Conversion { stage: Stage::Extracting, ..self },
                    Action::Extract { html_path: path, record_name: "article.json".to_owned() },
                ),
                Event::Failed(failure) => self.abandon(failure),
                _ => self.abandon(Failure::UnexpectedEvent),
            },
            Stage::Extracting => match event {
                Event::Extracted { article } => self.extracted(article),
                Event::Failed(failure) => self.abandon(failure),
                _ => self.abandon(Failure::UnexpectedEvent),
            },
            Stage::FetchingImage => match event {
                Event::Fetched { final_url, payload } => self.store(
                    Stage::StoringImage,
                    final_url,
                    payload,
                ),
                Event::Failed(failure) => self.abandon(failure),
                _ => self.abandon(Failure::UnexpectedEvent),
            },
            Stage::StoringImage => match event {
                Event::Stored { path } => self.image_stored(path),
                Event::Failed(failure) => self.abandon(failure),
                _ => self.abandon(Failure::UnexpectedEvent),
            },
            Stage::LoadingImages => match event {
                Event::ImagesLoaded { contents } => {
                    if self.article.is_some() && contents.len() == self.image_names.len() {
                        self.images_loaded(contents)
                    } else {
                        self.abandon(Failure::UnexpectedEvent)
                    }
                },
                Event::Failed(failure) => self.abandon(failure),
                _ => self.abandon(Failure::UnexpectedEvent),
            },
            Stage::WritingOutput => match event {
                Event::OutputWritten => {
                    let path = self.downloader.path.clone();
                    (
                        Conversion { stage: Stage::Cleaning, outcome: Outcome::Written, ..self },
                        Action::RemoveWorkDir { path },
                    )
                },
                Event::Failed(failure) => self.abandon(failure),
                _ => self.abandon(Failure::UnexpectedEvent),
            },
        }
    }
}

/// Whether the three sequences tell the course of one conversion: `states`
/// holds the states it went through, and between each state and the next
/// stands the report that was made and the action that was named in answer.
pub open spec fn is_run(
    states: Seq<ConversionView>,
    events: Seq<Event>,
    actions: Seq<ActionView>,
) -> bool {
    &&& states.len() == events.len() + 1
    &&& actions.len() == events.len()
    &&& forall|i: int|
        0 <= i < events.len() ==> follows(
            states[i],
            #[trigger] events[i],
            states[i + 1],
            actions[i],
        )
}

/// Whether a conversion is past all work but the removal of its directory.
pub open spec fn winding_down(state: ConversionView) -> bool {
    state.stage == Stage::Cleaning || state.stage == Stage::Done
}

/// What holds of every state that a conversion can reach.
///
/// While anything is still to be done the page's address is known. The page
/// is fetched and stored in text mode, the images in binary mode. Of the
/// images, as many names as paths have been noted, never more than there are
/// addresses, and none before the record has arrived; while one is being
/// stored there is still one to come, and when they are read back all have
/// been stored. The record is known from the
/// image stages on, and it lacks no required field.
pub open spec fn coherent(state: ConversionView) -> bool {
    &&& state.stage != Stage::Done && state.stage != Stage::Cleaning ==> state.target is Some
        && url_parse(state.target->Some_0) is Ok
    &&& state.stage == Stage::FetchingPage || state.stage == Stage::StoringPage ==> state.mode
        == FetchMode::Text
    &&& state.stage == Stage::FetchingImage || state.stage == Stage::StoringImage ==> state.mode
        == FetchMode::Binary
    &&& state.image_names.len() == state.image_paths.len()
    &&& state.image_paths.len() <= state.image_urls.len()
    &&& state.stage == Stage::CreatingWorkDir || state.stage == Stage::FetchingPage || state.stage
        == Stage::StoringPage || state.stage == Stage::Extracting ==> state.image_paths.len() == 0
    &&& state.stage == Stage::FetchingImage || state.stage == Stage::StoringImage
        ==> state.image_paths.len() < state.image_urls.len()
    &&& state.stage == Stage::LoadingImages || state.stage == Stage::WritingOutput
        ==> state.image_paths.len() == state.image_urls.len()
    &&& state.stage == Stage::FetchingImage || state.stage == Stage::StoringImage || state.stage
        == Stage::LoadingImages || state.stage == Stage::WritingOutput ==> state.article is Some
        && state.article->Some_0.missing_field() is None
}

/// A conversion opens in a coherent state.
pub proof fn lemma_opening_is_coherent(target: Seq<char>)
    ensures
        coherent(opening(target).0),
{
}

/// Every step leads from a coherent state to a coherent state.
pub proof fn lemma_step_keeps_coherence(
    pre: ConversionView,
    event: Event,
    post: ConversionView,
    action: ActionView,
)
    requires
        coherent(pre),
        follows(pre, event, post, action),
    ensures
        coherent(post),
{
}

/// What one step can and cannot do.
///
/// The end is only named when the conversion is over, and only from a stage
/// in which no working directory is left behind unasked: before one was made,
/// while it is being removed, or after the end. Whoever enters the cleaning
/// stage is told to remove the working directory. A fetch is asked for in the
/// mode that the conversion holds: text for the page, which is fetched at its
/// serialized address, and binary for an image, which is the next in the list
/// of resolved addresses. A store order for a fetched payload holds that
/// payload's bytes. The document is only written in answer to the images,
/// under the fixed name, when all images were stored, and what is written
/// packs the document of the record and the images that were read back. No
/// step asks for a second working directory.
pub proof fn lemma_step_shapes(
    pre: ConversionView,
    event: Event,
    post: ConversionView,
    action: ActionView,
)
    requires
        coherent(pre),
        follows(pre, event, post, action),
    ensures
        action is Finish ==> post.stage == Stage::Done && (pre.stage == Stage::Done || pre.stage
            == Stage::Cleaning || pre.stage == Stage::CreatingWorkDir),
        action matches ActionView::Finish(outcome) ==> outcome == post.outcome,
        post.stage == Stage::Cleaning ==> action == (ActionView::RemoveWorkDir { path: post.dir }),
        action matches ActionView::Fetch { url, mode } ==> {
            &&& mode == post.mode
            &&& post.stage == Stage::FetchingPage || post.stage == Stage::FetchingImage
            &&& post.stage == Stage::FetchingPage ==> mode == FetchMode::Text && url_parse(
                post.target->Some_0,
            ) == Ok::<Seq<char>, UrlRejection>(url)
            &&& post.stage == Stage::FetchingImage ==> mode == FetchMode::Binary && url
                == post.image_urls[post.image_paths.len() as int]
        },
        action matches ActionView::Store { file_name, bytes } ==> {
            &&& event matches Event::Fetched { final_url, payload }
            &&& payload.mode() == pre.mode
            &&& file_name == file_name_of(final_url@)
            &&& bytes == payload.bytes()
        },
        action matches ActionView::WriteOutput { file_name, bytes } ==> {
            &&& file_name == output_name()
            &&& brings_images(pre, event)
            &&& pre.image_paths.len() == pre.image_urls.len()
            &&& assembly_allows(
                pre.article->Some_0,
                loaded(pre.image_names, event->ImagesLoaded_contents@),
                Ok(bytes),
            )
        },
        action is CreateWorkDir ==> false,
{
}

/// What one step leaves as it is.
///
/// The page's address never changes. The working directory is named once,
/// when it is made. The record and the addresses of its images are fixed when
/// the record arrives. The images' names and paths only grow, by one for each
/// image stored.
pub proof fn lemma_step_frame(
    pre: ConversionView,
    event: Event,
    post: ConversionView,
    action: ActionView,
)
    requires
        follows(pre, event, post, action),
    ensures
        post.target == pre.target,
        pre.stage != Stage::CreatingWorkDir ==> post.dir == pre.dir,
        pre.stage != Stage::Extracting ==> post.article == pre.article && post.image_urls
            == pre.image_urls,
        pre.stage != Stage::StoringImage ==> post.image_names == pre.image_names
            && post.image_paths == pre.image_paths,
        pre.stage == Stage::StoringImage ==> {
            ||| post.image_names == pre.image_names && post.image_paths == pre.image_paths
            ||| post.image_names == pre.image_names.push(pre.pending_name)
                && post.image_paths.len() == pre.image_paths.len() + 1
        },
{
}

/// Once a conversion is winding down it stays so, asks for nothing but its
/// end, and keeps a failure that it has.
pub proof fn lemma_winding_down_stays(
    pre: ConversionView,
    event: Event,
    post: ConversionView,
    action: ActionView,
)
    requires
        follows(pre, event, post, action),
        winding_down(pre),
    ensures
        post.stage == Stage::Done,
        action == ActionView::Finish(post.outcome),
        pre.outcome !is Written ==> post.outcome == pre.outcome,
{
}

/// An input that is no address starts nothing: the conversion opens at its
/// end, and whatever is reported to it afterwards, it names no action but the
/// end. No working directory is asked for and no output is written.
pub proof fn lemma_invalid_input_does_nothing(
    target: Seq<char>,
    states: Seq<ConversionView>,
    events: Seq<Event>,
    actions: Seq<ActionView>,
)
    requires
        url_parse(target) is Err,
        is_run(states, events, actions),
        states[0] == opening(target).0,
    ensures
        opening(target).1 == ActionView::Finish(
            Outcome::InvalidInputUrl(url_parse(target)->Err_0),
        ),
        forall|i: int|
            0 <= i < actions.len() ==> #[trigger] actions[i] == ActionView::Finish(
                Outcome::InvalidInputUrl(url_parse(target)->Err_0),
            ),
{
    let outcome = Outcome::InvalidInputUrl(url_parse(target)->Err_0);
    assert forall|i: int| 0 <= i < actions.len() implies #[trigger] actions[i]
        == ActionView::Finish(outcome) by {
        lemma_ended_run(states, events, actions, i);
    }
}

/// In a course that begins at the end, every state up to `upto` is the end
/// with the same outcome, and every action names that end.
proof fn lemma_ended_run(
    states: Seq<ConversionView>,
    events: Seq<Event>,
    actions: Seq<ActionView>,
    upto: int,
)
    requires
        is_run(states, events, actions),
        states[0].stage == Stage::Done,
        0 <= upto < events.len(),
    ensures
        states[upto + 1].stage == Stage::Done,
        states[upto + 1].outcome == states[0].outcome,
        actions[upto] == ActionView::Finish(states[0].outcome),
    decreases upto,
{
    if upto > 0 {
        lemma_ended_run(states, events, actions, upto - 1);
    }
    assert(follows(states[upto], events[upto], states[upto + 1], actions[upto]));
}

/// A record that is refused ends the conversion before any image is fetched.
///
/// Where the extractor's record arrives at place `at` of a course and is
/// refused, the answer is to remove the working directory, and every later
/// answer is the end with the failure of the refusal: no image is fetched or
/// stored, no document is built and nothing is written out.
pub proof fn lemma_refused_record_stops_before_images(
    states: Seq<ConversionView>,
    events: Seq<Event>,
    actions: Seq<ActionView>,
    at: int,
)
    requires
        is_run(states, events, actions),
        0 <= at < events.len(),
        states[at].stage == Stage::Extracting,
        events[at] matches Event::Extracted { article } && refusal(states[at].target, article)
            is Some,
    ensures
        actions[at] == (ActionView::RemoveWorkDir { path: states[at].dir }),
        forall|i: int|
            at < i < actions.len() ==> #[trigger] actions[i] == ActionView::Finish(
                Outcome::Failed(
                    refusal(states[at].target, events[at]->Extracted_article)->Some_0,
                ),
            ),
{
    let failure = refusal(states[at].target, events[at]->Extracted_article)->Some_0;
    assert(follows(states[at], events[at], states[at + 1], actions[at]));
    assert forall|i: int| at < i < actions.len() implies #[trigger] actions[i]
        == ActionView::Finish(Outcome::Failed(failure)) by {
        lemma_abandoned_run(states, events, actions, at + 1, i);
    }
}

/// A record that lacks a required field is refused: so a record without
/// title. The failure names the first field that is lacking, unless the
/// record's images do not resolve, which is found first.
pub proof fn lemma_incomplete_record_is_refused(target: Option<Seq<char>>, article: Article)
    requires
        article.missing_field() is Some,
    ensures
        refusal(target, article) is Some,
        article.title is None ==> article.missing_field() == Some(RequiredField::Title),
        target matches Some(page) && resolution(content_of(article), page) is Ok ==> refusal(
            target,
            article,
        ) == Some(Failure::MissingRequiredField(article.missing_field()->Some_0)),
{
}

/// A record with an image reference that has a fault is refused for the
/// first such reference, whatever else the record lacks: no address is
/// handed out, not even for the images that have none.
pub proof fn lemma_faulty_reference_is_refused(
    page: Seq<char>,
    article: Article,
    markup: Seq<char>,
    place: int,
)
    requires
        content_of(article) == Some(markup),
        fits_parser(markup),
        image_sources(markup).len() <= usize::MAX,
        0 <= place < image_sources(markup).len(),
        resolve_reference(image_sources(markup)[place], page) is Err,
    ensures
        refusal(Some(page), article) matches Some(Failure::ImageReferenceMalformed { index, fault })
            && index <= place && resolve_reference(image_sources(markup)[index as int], page)
            == Err::<Seq<char>, ReferenceFault>(fault),
{
    lemma_resolve_all_by_reference(image_sources(markup), page);
}

/// Whether a conversion has a working directory and work left to do in it.
pub open spec fn working(state: ConversionView) -> bool {
    &&& state.stage != Stage::CreatingWorkDir
    &&& state.stage != Stage::Cleaning
    &&& state.stage != Stage::Done
}

/// A conversion that has a working directory does not end without having
/// asked for its removal, however it ends.
///
/// Where the conversion is at work at place `from` of a course and the end is
/// named at place `end`, the removal of the working directory was asked for
/// at some place between the two.
pub proof fn lemma_work_dir_is_removed_before_the_end(
    states: Seq<ConversionView>,
    events: Seq<Event>,
    actions: Seq<ActionView>,
    from: int,
    end: int,
) -> (removal: int)
    requires
        is_run(states, events, actions),
        0 <= from <= end < events.len(),
        working(states[from]),
        actions[end] is Finish,
    ensures
        from <= removal < end,
        actions[removal] == (ActionView::RemoveWorkDir { path: states[removal].dir }),
    decreases end - from,
{
    assert(follows(states[from], events[from], states[from + 1], actions[from]));
    if states[from + 1].stage == Stage::Cleaning {
        from
    } else {
        lemma_work_dir_is_removed_before_the_end(states, events, actions, from + 1, end)
    }
}

/// In a course that is winding down with a failure from place `from` on,
/// every later answer is the end with that failure.
proof fn lemma_abandoned_run(
    states: Seq<ConversionView>,
    events: Seq<Event>,
    actions: Seq<ActionView>,
    from: int,
    upto: int,
)
    requires
        is_run(states, events, actions),
        0 <= from <= upto < events.len(),
        winding_down(states[from]),
        states[from].outcome is Failed,
    ensures
        winding_down(states[upto + 1]),
        states[upto + 1].outcome == states[from].outcome,
        actions[upto] == ActionView::Finish(states[from].outcome),
    decreases upto - from,
{
    if upto > from {
        lemma_abandoned_run(states, events, actions, from, upto - 1);
    }
    assert(follows(states[upto], events[upto], states[upto + 1], actions[upto]));
    lemma_winding_down_stays(states[upto], events[upto], states[upto + 1], actions[upto]);
}

/// Two lists of texts that were cloned from one another have the same views.
proof fn lemma_same_texts(list: Seq<String>, copy: Seq<String>)
    requires
        list.len() == copy.len(),
        forall|i: int| 0 <= i < list.len() ==> cloned::<String>(#[trigger] list[i], copy[i]),
    ensures
        texts(list) == texts(copy),
{
    assert forall|i: int| 0 <= i < list.len() implies texts(list)[i] == texts(copy)[i] by {
        assert(cloned::<String>(list[i], copy[i]));
    }
    assert(texts(list) =~= texts(copy));
}

} // verus!
