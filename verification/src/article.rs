//! The article record that the extractor produces.

use vstd::prelude::*;
use crate::failure::Failure;
use crate::failure::RequiredField;

verus! {

/// A purified article: what the extractor found on a page.
#[derive(Clone, Debug, PartialEq, Eq)]
pub struct Article {
    /// The article title.
    pub title: Option<String>,
    /// Author information.
    pub byline: Option<String>,
    /// The date of the article; kept for information only.
    pub date: Option<String>,
    /// The body markup, with the image references as the page wrote them.
    pub content: Option<String>,
    /// The body as plain text that keeps the markup's structure; not used.
    pub plain_content: Option<String>,
}

/// The three fields of a record that a document is built from.
#[derive(Clone, Copy, Debug, PartialEq, Eq)]
pub struct Essentials<'a> {
    /// The article title.
    pub title: &'a str,
    /// Author information.
    pub byline: &'a str,
    /// The body markup.
    pub content: &'a str,
}

impl Article {
    /// The first of title, byline and content that the record lacks.
    pub open spec fn missing_field(self) -> Option<RequiredField> {
        if self.title is None {
            Some(RequiredField::Title)
        } else if self.byline is None {
            Some(RequiredField::Byline)
        } else if self.content is None {
            Some(RequiredField::Content)
        } else {
            None
        }
    }

    /// The fields that a document is built from, or the failure for the
    /// first of them that the record lacks.
    pub fn essentials(&self) -> (outcome: Result<Essentials<'_>, Failure>)
        ensures
            match self.missing_field() {
                Some(field) => outcome == Err::<Essentials<'_>, Failure>(
                    Failure::MissingRequiredField(field),
                ),
                None => {
                    &&& outcome matches Ok(essentials)
                    &&& essentials.title@ == self.title->Some_0@
                    &&& essentials.byline@ == self.byline->Some_0@
                    &&& essentials.content@ == self.content->Some_0@
                },
            },
    {
        match (&self.title, &self.byline, &self.content) {
            (None, _, _) => Err(Failure::MissingRequiredField(RequiredField::Title)),
            (Some(_), None, _) => Err(Failure::MissingRequiredField(RequiredField::Byline)),
            (Some(_), Some(_), None) => Err(Failure::MissingRequiredField(RequiredField::Content)),
            (Some(title), Some(byline), Some(content)) => Ok(
                Essentials {
                    title: title.as_str(),
                    byline: byline.as_str(),
                    content: content.as_str(),
                },
            ),
        }
    }

    /// Checks that the record has what a document is built from.
    pub fn check_required(&self) -> (outcome: Result<(), Failure>)
        ensures
            match self.missing_field() {
                Some(field) => outcome == Err::<(), Failure>(Failure::MissingRequiredField(field)),
                None => outcome is Ok,
            },
    {
        if self.title.is_none() {
            Err(Failure::MissingRequiredField(RequiredField::Title))
        } else if self.byline.is_none() {
            Err(Failure::MissingRequiredField(RequiredField::Byline))
        } else if self.content.is_none() {
            Err(Failure::MissingRequiredField(RequiredField::Content))
        } else {
            Ok(())
        }
    }
}

} // verus!
