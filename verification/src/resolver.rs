//! Finds the images that an article's markup refers to and gives each its
//! absolute address.

use vstd::prelude::*;
use vstd::utf8::encode_utf8;
use soup::NodeExt;
use soup::QueryBuilderExt;
use soup::Soup;
use crate::failure::Failure;
use crate::failure::ReferenceFault;
use crate::web_url::parse_url;
use crate::web_url::text_outcome;
use crate::web_url::texts;
use crate::web_url::url_join;
use crate::web_url::url_parse;
use crate::web_url::PageUrl;
use crate::web_url::UrlRejection;

verus! {

/// What the `soup` crate finds in `markup`: for each element of the parsed
/// document whose name is `tag`, in document order, the value of its
/// attribute `attribute`, or `None` where the element has no such attribute.
pub uninterp spec fn tag_attributes(
    markup: Seq<char>,
    tag: Seq<char>,
    attribute: Seq<char>,
) -> Seq<Option<Seq<char>>>;

/// The image references of `markup`: the `src` attribute of each `img` element.
pub open spec fn image_sources(markup: Seq<char>) -> Seq<Option<Seq<char>>> {
    tag_attributes(markup, "img"@, "src"@)
}

/// The most `<` that markup may hold to be handed to the parser.
pub const MAX_MARKS: usize = 4000;

/// The most `<` followed by a letter that markup may hold to be handed to
/// the parser.
pub const MAX_OPENINGS: usize = 1000;

/// Whether `byte` is an ASCII letter.
pub open spec fn is_letter(byte: u8) -> bool {
    (0x41 <= byte <= 0x5a) || (0x61 <= byte <= 0x7a)
}

/// Whether a `<` stands at `place`.
pub open spec fn marks_at(bytes: Seq<u8>, place: int) -> bool {
    0 <= place < bytes.len() && bytes[place] == 0x3c
}

/// Whether a `<` stands at `place` with a letter behind it: the only way in
/// which markup opens an element.
pub open spec fn opens_at(bytes: Seq<u8>, place: int) -> bool {
    marks_at(bytes, place) && place + 1 < bytes.len() && is_letter(bytes[place + 1])
}

/// The number of `<` before `upto`.
pub open spec fn marks_before(bytes: Seq<u8>, upto: int) -> nat
    decreases upto,
{
    if upto <= 0 {
        0
    } else {
        marks_before(bytes, upto - 1) + if marks_at(bytes, upto - 1) {
            1nat
        } else {
            0nat
        }
    }
}

/// The number of `<` before `upto` that have a letter behind them.
pub open spec fn openings_before(bytes: Seq<u8>, upto: int) -> nat
    decreases upto,
{
    if upto <= 0 {
        0
    } else {
        openings_before(bytes, upto - 1) + if opens_at(bytes, upto - 1) {
            1nat
        } else {
            0nat
        }
    }
}

/// Whether markup is small enough to be handed to the parser.
///
/// The parser builds, walks and frees the document tree by recursion: every
/// level of nesting and every child of a node costs stack. An element is only
/// opened by a `<` with a letter behind it, and only a `<` separates one child
/// from the next, so the two counts, taken in the markup's UTF-8 bytes, bound
/// how deep and how wide the tree can get. The limits leave room to spare on
/// a thread with a stack of 2 MiB.
pub open spec fn fits_parser(markup: Seq<char>) -> bool {
    let bytes = encode_utf8(markup);
    marks_before(bytes, bytes.len() as int) <= MAX_MARKS && openings_before(
        bytes,
        bytes.len() as int,
    ) <= MAX_OPENINGS
}

/// The views of a list of optional texts.
pub open spec fn source_views(list: Seq<Option<String>>) -> Seq<Option<Seq<char>>> {
    list.map_values(
        |source: Option<String>|
            match source {
                Some(text) => Some(text@),
                None => None,
            },
    )
}

/// The view of an outcome that carries a list of texts.
pub open spec fn list_outcome(outcome: Result<Vec<String>, Failure>) -> Result<
    Seq<Seq<char>>,
    Failure,
> {
    match outcome {
        Ok(list) => Ok(texts(list@)),
        Err(failure) => Err(failure),
    }
}

/// The view of the outcome for one reference.
pub open spec fn reference_outcome(outcome: Result<String, ReferenceFault>) -> Result<
    Seq<char>,
    ReferenceFault,
> {
    match outcome {
        Ok(text) => Ok(text@),
        Err(fault) => Err(fault),
    }
}

/// Parses `markup` with `Soup::new`, walks the elements named `tag` with
/// `tag(..).find_all()` and reads `attribute` from each with `NodeExt::get`.
///
/// Trusted: the result is what `tag_attributes` names. The crate walks the
/// document tree parent first and children in order, and `get` compares
/// attribute names without regard to case.
///
/// The crate builds, walks and frees the tree by recursion, as deep as the
/// tree nests and as a node has children. That is why markup which does not
/// fit the parser is left out: within the limits the recursion stays within
/// the stack that `fits_parser` speaks of.
#[verifier::external_body]
pub(crate) fn find_attributes(markup: &str, tag: &str, attribute: &str) -> (values: Vec<
    Option<String>,
>)
    requires
        fits_parser(markup@),
    ensures
        source_views(values@) == tag_attributes(markup@, tag@, attribute@),
{
    Soup::new(markup).tag(tag).find_all().map(|node| node.get(attribute)).collect()
}

/// Counts the `<` of `markup`, and those with a letter behind them, and
/// holds the counts against the limits.
pub fn fits_parser_limits(markup: &str) -> (fits: bool)
    ensures
        fits == fits_parser(markup@),
{
    let bytes = markup.as_bytes();
    let mut marks: usize = 0;
    let mut openings: usize = 0;
    let mut index: usize = 0;
    while index < bytes.len()
        invariant
            index <= bytes.len(),
            bytes@ == encode_utf8(markup@),
            marks == marks_before(bytes@, index as int),
            openings == openings_before(bytes@, index as int),
            openings <= marks <= index,
        decreases bytes.len() - index,
    {
        if bytes[index] == 0x3c {
            marks += 1;
            if index + 1 < bytes.len() {
                let next = bytes[index + 1];
                if (0x41 <= next && next <= 0x5a) || (0x61 <= next && next <= 0x7a) {
                    openings += 1;
                }
            }
        }
        index += 1;
    }
    marks <= MAX_MARKS && openings <= MAX_OPENINGS
}

/// The address that one image reference stands for on the page at `origin`.
///
/// A reference that spells an address by itself keeps that address. One that
/// is relative is joined to the page's address. Anything else is a fault, and
/// so is an image without a reference.
pub open spec fn resolve_reference(source: Option<Seq<char>>, origin: Seq<char>) -> Result<
    Seq<char>,
    ReferenceFault,
> {
    match source {
        None => Err(ReferenceFault::MissingSource),
        Some(raw) => match url_parse(raw) {
            Ok(address) => Ok(address),
            Err(UrlRejection::RelativeWithoutBase) => match url_join(origin, raw) {
                Ok(address) => Ok(address),
                Err(rejection) => Err(ReferenceFault::Rejected(rejection)),
            },
            Err(rejection) => Err(ReferenceFault::Rejected(rejection)),
        },
    }
}

/// The addresses of all the references, in their order, or the failure of the
/// first reference that has a fault.
pub open spec fn resolve_all(sources: Seq<Option<Seq<char>>>, origin: Seq<char>) -> Result<
    Seq<Seq<char>>,
    Failure,
>
    decreases sources.len(),
{
    if sources.len() == 0 {
        Ok(Seq::empty())
    } else {
        match resolve_all(sources.drop_last(), origin) {
            Err(failure) => Err(failure),
            Ok(addresses) => match resolve_reference(sources.last(), origin) {
                Ok(address) => Ok(addresses.push(address)),
                Err(fault) => Err(
                    Failure::ImageReferenceMalformed {
                        index: (sources.len() - 1) as usize,
                        fault,
                    },
                ),
            },
        }
    }
}

/// What resolving the images of an article gives: nothing for an article
/// without body, else the addresses of the images that `soup` finds in it.
/// Markup that does not fit the parser is refused.
pub open spec fn resolution(content: Option<Seq<char>>, origin: Seq<char>) -> Result<
    Seq<Seq<char>>,
    Failure,
> {
    match content {
        None => Ok(Seq::empty()),
        Some(markup) => if fits_parser(markup) {
            resolve_all(image_sources(markup), origin)
        } else {
            Err(Failure::ContentTooLarge)
        },
    }
}

/// Resolves one image reference against the page it was found on.
pub fn resolve_one(source: &Option<String>, origin: &PageUrl) -> (outcome: Result<
    String,
    ReferenceFault,
>)
    ensures
        reference_outcome(outcome) == resolve_reference(
            match *source {
                Some(text) => Some(text@),
                None => None,
            },
            origin@,
        ),
{
    match source {
        None => Err(ReferenceFault::MissingSource),
        Some(raw) => match parse_url(raw.as_str()) {
            Ok(address) => Ok(address),
            Err(UrlRejection::RelativeWithoutBase) => match origin.join(raw.as_str()) {
                Ok(address) => Ok(address),
                Err(rejection) => Err(ReferenceFault::Rejected(rejection)),
            },
            Err(rejection) => Err(ReferenceFault::Rejected(rejection)),
        },
    }
}

/// Resolves the references in their order and stops at the first fault.
pub fn resolve_references(sources: &Vec<Option<String>>, origin: &PageUrl) -> (outcome: Result<
    Vec<String>,
    Failure,
>)
    ensures
        list_outcome(outcome) == resolve_all(source_views(sources@), origin@),
{
    let ghost all = source_views(sources@);
    let mut addresses: Vec<String> = Vec::new();
    let mut index: usize = 0;
    proof {
        assert(all.take(0).len() == 0);
        assert(texts(addresses@) == Seq::<Seq<char>>::empty());
    }
    while index < sources.len()
        invariant
            index <= sources.len(),
            all == source_views(sources@),
            resolve_all(all.take(index as int), origin@) == Ok::<Seq<Seq<char>>, Failure>(
                texts(addresses@),
            ),
        decreases sources.len() - index,
    {
        proof {
            assert(all.take(index + 1).drop_last() == all.take(index as int));
            assert(all.take(index + 1).last() == all[index as int]);
        }
        match resolve_one(&sources[index], origin) {
            Ok(address) => {
                proof {
                    assert(texts(addresses@.push(address)) == texts(addresses@).push(address@));
                }
                addresses.push(address);
            },
            Err(fault) => {
                proof {
                    lemma_failure_stays(all, origin@, index + 1);
                }
                return Err(Failure::ImageReferenceMalformed { index, fault });
            },
        }
        index += 1;
    }
    proof {
        assert(all.take(index as int) == all);
    }
    Ok(addresses)
}

/// Finds the images of an article and resolves each against the page's address.
pub fn resolve_images(content: Option<&str>, origin: &PageUrl) -> (outcome: Result<
    Vec<String>,
    Failure,
>)
    ensures
        list_outcome(outcome) == resolution(
            match content {
                Some(markup) => Some(markup@),
                None => None,
            },
            origin@,
        ),
{
    match content {
        None => {
            let none: Vec<String> = Vec::new();
            proof {
                assert(texts(none@) == Seq::<Seq<char>>::empty());
            }
            Ok(none)
        },
        Some(markup) => {
            if !fits_parser_limits(markup) {
                return Err(Failure::ContentTooLarge);
            }
            let sources = find_attributes(markup, "img", "src");
            resolve_references(&sources, origin)
        },
    }
}

/// A failure among the first `upto` references is the failure of the whole list.
proof fn lemma_failure_stays(sources: Seq<Option<Seq<char>>>, origin: Seq<char>, upto: int)
    requires
        0 <= upto <= sources.len(),
        resolve_all(sources.take(upto), origin) is Err,
    ensures
        resolve_all(sources, origin) == resolve_all(sources.take(upto), origin),
    decreases sources.len() - upto,
{
    if upto == sources.len() {
        assert(sources.take(upto) == sources);
    } else {
        assert(sources.take(upto + 1).drop_last() == sources.take(upto));
        lemma_failure_stays(sources, origin, upto + 1);
    }
}

/// The outcome for a list, told reference by reference: on success every
/// reference has its address at its own place; on failure the reported index
/// is that of the first reference with a fault, and the fault is its own.
pub proof fn lemma_resolve_all_by_reference(sources: Seq<Option<Seq<char>>>, origin: Seq<char>)
    requires
        sources.len() <= usize::MAX,
    ensures
        match resolve_all(sources, origin) {
            Ok(addresses) => {
                &&& addresses.len() == sources.len()
                &&& forall|i: int|
                    0 <= i < sources.len() ==> resolve_reference(#[trigger] sources[i], origin)
                        == Ok::<Seq<char>, ReferenceFault>(addresses[i])
            },
            Err(Failure::ImageReferenceMalformed { index, fault }) => {
                &&& index < sources.len()
                &&& resolve_reference(sources[index as int], origin) == Err::<
                    Seq<char>,
                    ReferenceFault,
                >(fault)
                &&& forall|i: int|
                    0 <= i < index ==> resolve_reference(#[trigger] sources[i], origin) is Ok
            },
            Err(_) => false,
        },
    decreases sources.len(),
{
    if sources.len() > 0 {
        let front = sources.drop_last();
        lemma_resolve_all_by_reference(front, origin);
        assert forall|i: int| 0 <= i < front.len() implies front[i] == sources[i] by {}
        match resolve_all(front, origin) {
            Ok(addresses) => {
                match resolve_reference(sources.last(), origin) {
                    Ok(address) => {
                        let all = addresses.push(address);
                        assert forall|i: int| 0 <= i < sources.len() implies resolve_reference(
                            #[trigger] sources[i],
                            origin,
                        ) == Ok::<Seq<char>, ReferenceFault>(all[i]) by {
                            if i < front.len() {
                                assert(front[i] == sources[i]);
                            }
                        }
                    },
                    Err(_) => {
                        assert forall|i: int| 0 <= i < sources.len() - 1 implies resolve_reference(
                            #[trigger] sources[i],
                            origin,
                        ) is Ok by {
                            assert(front[i] == sources[i]);
                        }
                    },
                }
            },
            Err(Failure::ImageReferenceMalformed { index, fault }) => {
                assert(front[index as int] == sources[index as int]);
                assert forall|i: int| 0 <= i < index implies resolve_reference(
                    #[trigger] sources[i],
                    origin,
                ) is Ok by {
                    assert(front[i] == sources[i]);
                }
            },
            Err(_) => {},
        }
    }
}

/// A reference that spells an address by itself resolves to that address,
/// whatever page it stands on. Where the reference is already written as the
/// address is serialized, the resolved text is the reference itself.
pub proof fn lemma_absolute_reference_is_kept(
    sources: Seq<Option<Seq<char>>>,
    origin: Seq<char>,
    place: int,
    raw: Seq<char>,
)
    requires
        sources.len() <= usize::MAX,
        0 <= place < sources.len(),
        sources[place] == Some(raw),
        url_parse(raw) is Ok,
        resolve_all(sources, origin) is Ok,
    ensures
        Ok::<Seq<char>, UrlRejection>(resolve_all(sources, origin)->Ok_0[place]) == url_parse(raw),
        url_parse(raw) == Ok::<Seq<char>, UrlRejection>(raw) ==> resolve_all(
            sources,
            origin,
        )->Ok_0[place] == raw,
{
    lemma_resolve_all_by_reference(sources, origin);
}

/// Where every reference spells an address by itself, the list resolves, to
/// those addresses in the same order, and the page's address plays no part.
pub proof fn lemma_absolute_references_are_kept(
    sources: Seq<Option<Seq<char>>>,
    origin: Seq<char>,
    other_origin: Seq<char>,
)
    requires
        sources.len() <= usize::MAX,
        forall|i: int|
            0 <= i < sources.len() ==> (#[trigger] sources[i]) is Some && url_parse(
                sources[i]->Some_0,
            ) is Ok,
    ensures
        resolve_all(sources, origin) is Ok,
        resolve_all(sources, origin)->Ok_0.len() == sources.len(),
        forall|i: int|
            0 <= i < sources.len() ==> url_parse((#[trigger] sources[i])->Some_0) == Ok::<
                Seq<char>,
                UrlRejection,
            >(resolve_all(sources, origin)->Ok_0[i]),
        resolve_all(sources, other_origin) == resolve_all(sources, origin),
    decreases sources.len(),
{
    if sources.len() > 0 {
        let front = sources.drop_last();
        assert forall|i: int| 0 <= i < front.len() implies (#[trigger] front[i]) is Some
            && url_parse(front[i]->Some_0) is Ok by {
            assert(front[i] == sources[i]);
        }
        lemma_absolute_references_are_kept(front, origin, other_origin);
        let last = sources[sources.len() - 1];
        assert(last is Some && url_parse(last->Some_0) is Ok);
        lemma_resolve_all_by_reference(sources, origin);
    }
}

/// A relative reference resolves to its join with the page's address.
pub proof fn lemma_relative_reference_is_joined(
    sources: Seq<Option<Seq<char>>>,
    origin: Seq<char>,
    place: int,
    raw: Seq<char>,
)
    requires
        sources.len() <= usize::MAX,
        0 <= place < sources.len(),
        sources[place] == Some(raw),
        url_parse(raw) == Err::<Seq<char>, UrlRejection>(UrlRejection::RelativeWithoutBase),
        resolve_all(sources, origin) is Ok,
    ensures
        Ok::<Seq<char>, UrlRejection>(resolve_all(sources, origin)->Ok_0[place]) == url_join(
            origin,
            raw,
        ),
{
    lemma_resolve_all_by_reference(sources, origin);
}

/// Markup without image elements, and an article without body, resolve to the
/// empty list, provided that the markup fits the parser.
pub proof fn lemma_no_images_no_addresses(content: Option<Seq<char>>, origin: Seq<char>)
    requires
        content matches Some(markup) ==> fits_parser(markup) && image_sources(markup).len() == 0,
    ensures
        resolution(content, origin) == Ok::<Seq<Seq<char>>, Failure>(Seq::empty()),
{
}

/// One image without a reference fails the whole list: no address is handed
/// out, not even for the images before it.
pub proof fn lemma_missing_source_fails_all(
    sources: Seq<Option<Seq<char>>>,
    origin: Seq<char>,
    place: int,
)
    requires
        sources.len() <= usize::MAX,
        0 <= place < sources.len(),
        sources[place] is None,
    ensures
        resolve_all(sources, origin) is Err,
{
    lemma_resolve_all_by_reference(sources, origin);
}

} // verus!
