//! How the fields of a word are written to the properties of the notes
//! database: each property has a kind, and the kind decides the shape in
//! which the field is sent.

use vstd::prelude::*;
use crate::text::text_eq;

verus! {

/// The shapes in which a value is sent to the notes database.
#[derive(Clone, Copy, Debug, PartialEq, Eq, Structural)]
pub enum PropertyShape {
    Title,
    RichText,
    Select,
    MultiSelect,
}

/// The fields of a word.
#[derive(Clone, Copy, Debug, PartialEq, Eq, Structural)]
pub enum WordField {
    Title,
    Genus,
    Plural,
    MeaningCn,
    MeaningEn,
    Examples,
    Attributes,
    WordType,
    Comparison,
}

/// The shape that the text `kind` names, where it names one.
pub open spec fn named_shape(kind: Seq<char>) -> Option<PropertyShape> {
    if kind == "title"@ {
        Some(PropertyShape::Title)
    } else if kind == "rich_text"@ {
        Some(PropertyShape::RichText)
    } else if kind == "select"@ {
        Some(PropertyShape::Select)
    } else if kind == "multi_select"@ {
        Some(PropertyShape::MultiSelect)
    } else {
        None
    }
}

/// Whether `field` can be sent in `shape`.
pub open spec fn takes(field: WordField, shape: PropertyShape) -> bool {
    match field {
        WordField::Title => shape == PropertyShape::Title || shape == PropertyShape::RichText,
        WordField::Genus => shape != PropertyShape::Title,
        WordField::Attributes | WordField::WordType => shape != PropertyShape::Title,
        _ => shape == PropertyShape::RichText || shape == PropertyShape::Title,
    }
}

/// The shape in which `field` is sent where the kind of its property
/// names no shape that the field can take.
pub open spec fn usual_shape(field: WordField) -> PropertyShape {
    match field {
        WordField::Title => PropertyShape::Title,
        WordField::Genus => PropertyShape::Select,
        _ => PropertyShape::RichText,
    }
}

/// The shape in which `field` is sent to a property of the kind `kind`.
pub open spec fn shape_of(field: WordField, kind: Seq<char>) -> PropertyShape {
    match named_shape(kind) {
        Some(shape) => if takes(field, shape) {
            shape
        } else {
            usual_shape(field)
        },
        None => usual_shape(field),
    }
}

/// The shape that `kind` names.
pub fn shape_named(kind: &str) -> (r: Option<PropertyShape>)
    ensures
        r == named_shape(kind@),
{
    if text_eq(kind, "title") {
        Some(PropertyShape::Title)
    } else if text_eq(kind, "rich_text") {
        Some(PropertyShape::RichText)
    } else if text_eq(kind, "select") {
        Some(PropertyShape::Select)
    } else if text_eq(kind, "multi_select") {
        Some(PropertyShape::MultiSelect)
    } else {
        None
    }
}

/// The shape in which `field` is sent to a property of the kind `kind`.
pub fn property_shape(field: WordField, kind: &str) -> (r: PropertyShape)
    ensures
        r == shape_of(field, kind@),
{
    let usual = match field {
        WordField::Title => PropertyShape::Title,
        WordField::Genus => PropertyShape::Select,
        _ => PropertyShape::RichText,
    };
    match shape_named(kind) {
        Some(shape) => {
            let fits = match field {
                WordField::Title => match shape {
                    PropertyShape::Title => true,
                    PropertyShape::RichText => true,
                    _ => false,
                },
                WordField::Genus | WordField::Attributes | WordField::WordType => match shape {
                    PropertyShape::Title => false,
                    _ => true,
                },
                _ => match shape {
                    PropertyShape::RichText => true,
                    PropertyShape::Title => true,
                    _ => false,
                },
            };
            if fits {
                shape
            } else {
                usual
            }
        },
        None => usual,
    }
}

/// How a word is looked up by its title: as a title where the title
/// property is of the kind `title`, else as rich text.
pub fn title_filter(kind: &str) -> (r: PropertyShape)
    ensures
        r == if kind@ == "title"@ {
            PropertyShape::Title
        } else {
            PropertyShape::RichText
        },
{
    if text_eq(kind, "title") {
        PropertyShape::Title
    } else {
        PropertyShape::RichText
    }
}

} // verus!
