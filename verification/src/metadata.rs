//! Article metadata builders and defined type helpers.

use vstd::prelude::*;

use crate::ids::{Doi, LicenseId, CategoryId};
use crate::fieldmap::{
    collect_fields, field_value, lemma_set_field_ordered, lemma_set_field_value, lemma_set_fields_of_ordered, names_ordered,
    set_field, set_fields, FieldMap,
};
use crate::json::{entries_view, json_view, lemma_entries_view_len, lemma_entries_view_prefix, JsonValue, JsonView};
use crate::text::{
    chars_eq, chars_of, decimal, decimal_string, lemma_parse_decimal, lower_char, parse_u64,
    parse_u64_chars, string_of,
};

verus! {

/// Typed article kind used by Figshare payloads and search filters.
#[derive(Clone, Debug, PartialEq, Eq, Hash)]
#[non_exhaustive]
pub enum DefinedType {
    /// Figure.
    Figure,
    /// Dataset.
    Dataset,
    /// Media.
    Media,
    /// Poster.
    Poster,
    /// Journal contribution.
    JournalContribution,
    /// Presentation.
    Presentation,
    /// Thesis.
    Thesis,
    /// Software.
    Software,
    /// Online resource.
    OnlineResource,
    /// Preprint.
    Preprint,
    /// Book.
    Book,
    /// Conference contribution.
    ConferenceContribution,
    /// Chapter.
    Chapter,
    /// Peer review.
    PeerReview,
    /// Educational resource.
    EducationalResource,
    /// Report.
    Report,
    /// Standard.
    Standard,
    /// Composition.
    Composition,
    /// Funding.
    Funding,
    /// Physical object.
    PhysicalObject,
    /// Data management plan.
    DataManagementPlan,
    /// Workflow.
    Workflow,
    /// Monograph.
    Monograph,
    /// Performance.
    Performance,
    /// Event.
    Event,
    /// Service.
    Service,
    /// Model.
    Model,
    /// Unknown server value preserved as-is.
    Unknown(String),
}

/// The string form of a defined type used by create and update payloads.
pub open spec fn defined_type_name(t: DefinedType) -> Seq<char> {
    match t {
        DefinedType::Figure => seq!['f', 'i', 'g', 'u', 'r', 'e'],
        DefinedType::Dataset => seq!['d', 'a', 't', 'a', 's', 'e', 't'],
        DefinedType::Media => seq!['m', 'e', 'd', 'i', 'a'],
        DefinedType::Poster => seq!['p', 'o', 's', 't', 'e', 'r'],
        DefinedType::JournalContribution => seq!['j', 'o', 'u', 'r', 'n', 'a', 'l', ' ', 'c', 'o', 'n', 't', 'r', 'i', 'b', 'u', 't', 'i', 'o', 'n'],
        DefinedType::Presentation => seq!['p', 'r', 'e', 's', 'e', 'n', 't', 'a', 't', 'i', 'o', 'n'],
        DefinedType::Thesis => seq!['t', 'h', 'e', 's', 'i', 's'],
        DefinedType::Software => seq!['s', 'o', 'f', 't', 'w', 'a', 'r', 'e'],
        DefinedType::OnlineResource => seq!['o', 'n', 'l', 'i', 'n', 'e', ' ', 'r', 'e', 's', 'o', 'u', 'r', 'c', 'e'],
        DefinedType::Preprint => seq!['p', 'r', 'e', 'p', 'r', 'i', 'n', 't'],
        DefinedType::Book => seq!['b', 'o', 'o', 'k'],
        DefinedType::ConferenceContribution => seq!['c', 'o', 'n', 'f', 'e', 'r', 'e', 'n', 'c', 'e', ' ', 'c', 'o', 'n', 't', 'r', 'i', 'b', 'u', 't', 'i', 'o', 'n'],
        DefinedType::Chapter => seq!['c', 'h', 'a', 'p', 't', 'e', 'r'],
        DefinedType::PeerReview => seq!['p', 'e', 'e', 'r', ' ', 'r', 'e', 'v', 'i', 'e', 'w'],
        DefinedType::EducationalResource => seq!['e', 'd', 'u', 'c', 'a', 't', 'i', 'o', 'n', 'a', 'l', ' ', 'r', 'e', 's', 'o', 'u', 'r', 'c', 'e'],
        DefinedType::Report => seq!['r', 'e', 'p', 'o', 'r', 't'],
        DefinedType::Standard => seq!['s', 't', 'a', 'n', 'd', 'a', 'r', 'd'],
        DefinedType::Composition => seq!['c', 'o', 'm', 'p', 'o', 's', 'i', 't', 'i', 'o', 'n'],
        DefinedType::Funding => seq!['f', 'u', 'n', 'd', 'i', 'n', 'g'],
        DefinedType::PhysicalObject => seq!['p', 'h', 'y', 's', 'i', 'c', 'a', 'l', ' ', 'o', 'b', 'j', 'e', 'c', 't'],
        DefinedType::DataManagementPlan => seq!['d', 'a', 't', 'a', ' ', 'm', 'a', 'n', 'a', 'g', 'e', 'm', 'e', 'n', 't', ' ', 'p', 'l', 'a', 'n'],
        DefinedType::Workflow => seq!['w', 'o', 'r', 'k', 'f', 'l', 'o', 'w'],
        DefinedType::Monograph => seq!['m', 'o', 'n', 'o', 'g', 'r', 'a', 'p', 'h'],
        DefinedType::Performance => seq!['p', 'e', 'r', 'f', 'o', 'r', 'm', 'a', 'n', 'c', 'e'],
        DefinedType::Event => seq!['e', 'v', 'e', 'n', 't'],
        DefinedType::Service => seq!['s', 'e', 'r', 'v', 'i', 'c', 'e'],
        DefinedType::Model => seq!['m', 'o', 'd', 'e', 'l'],
        DefinedType::Unknown(value) => value@,
    }
}

/// The numeric form of a defined type; an unknown value counts when it reads as a
/// decimal `u64`.
pub open spec fn defined_type_id(t: DefinedType) -> Option<u64> {
    match t {
        DefinedType::Figure => Some(1u64),
        DefinedType::Dataset => Some(3u64),
        DefinedType::Media => Some(2u64),
        DefinedType::Poster => Some(5u64),
        DefinedType::JournalContribution => Some(6u64),
        DefinedType::Presentation => Some(7u64),
        DefinedType::Thesis => Some(8u64),
        DefinedType::Software => Some(9u64),
        DefinedType::OnlineResource => Some(11u64),
        DefinedType::Preprint => Some(12u64),
        DefinedType::Book => Some(13u64),
        DefinedType::ConferenceContribution => Some(14u64),
        DefinedType::Chapter => Some(15u64),
        DefinedType::PeerReview => Some(16u64),
        DefinedType::EducationalResource => Some(17u64),
        DefinedType::Report => Some(18u64),
        DefinedType::Standard => Some(19u64),
        DefinedType::Composition => Some(20u64),
        DefinedType::Funding => Some(21u64),
        DefinedType::PhysicalObject => Some(22u64),
        DefinedType::DataManagementPlan => Some(23u64),
        DefinedType::Workflow => Some(24u64),
        DefinedType::Monograph => Some(25u64),
        DefinedType::Performance => Some(26u64),
        DefinedType::Event => Some(27u64),
        DefinedType::Service => Some(28u64),
        DefinedType::Model => Some(29u64),
        DefinedType::Unknown(value) => parse_u64(value@),
    }
}

/// The known defined type with the given numeric form, if any.
pub open spec fn known_defined_type_id(id: u64) -> Option<DefinedType> {
    if id == 1 {
        Some(DefinedType::Figure)
    } else if id == 2 {
        Some(DefinedType::Media)
    } else if id == 3 {
        Some(DefinedType::Dataset)
    } else if id == 5 {
        Some(DefinedType::Poster)
    } else if id == 6 {
        Some(DefinedType::JournalContribution)
    } else if id == 7 {
        Some(DefinedType::Presentation)
    } else if id == 8 {
        Some(DefinedType::Thesis)
    } else if id == 9 {
        Some(DefinedType::Software)
    } else if id == 11 {
        Some(DefinedType::OnlineResource)
    } else if id == 12 {
        Some(DefinedType::Preprint)
    } else if id == 13 {
        Some(DefinedType::Book)
    } else if id == 14 {
        Some(DefinedType::ConferenceContribution)
    } else if id == 15 {
        Some(DefinedType::Chapter)
    } else if id == 16 {
        Some(DefinedType::PeerReview)
    } else if id == 17 {
        Some(DefinedType::EducationalResource)
    } else if id == 18 {
        Some(DefinedType::Report)
    } else if id == 19 {
        Some(DefinedType::Standard)
    } else if id == 20 {
        Some(DefinedType::Composition)
    } else if id == 21 {
        Some(DefinedType::Funding)
    } else if id == 22 {
        Some(DefinedType::PhysicalObject)
    } else if id == 23 {
        Some(DefinedType::DataManagementPlan)
    } else if id == 24 {
        Some(DefinedType::Workflow)
    } else if id == 25 {
        Some(DefinedType::Monograph)
    } else if id == 26 {
        Some(DefinedType::Performance)
    } else if id == 27 {
        Some(DefinedType::Event)
    } else if id == 28 {
        Some(DefinedType::Service)
    } else if id == 29 {
        Some(DefinedType::Model)
    }
 else {
        None
    }
}

/// The known defined type with the given normalized string form, including the
/// legacy aliases `paper`, `code` and `metadata`.
pub open spec fn known_defined_type_name(n: Seq<char>) -> Option<DefinedType> {
    if n == seq!['f', 'i', 'g', 'u', 'r', 'e'] {
        Some(DefinedType::Figure)
    } else if n == seq!['d', 'a', 't', 'a', 's', 'e', 't'] {
        Some(DefinedType::Dataset)
    } else if n == seq!['m', 'e', 'd', 'i', 'a'] {
        Some(DefinedType::Media)
    } else if n == seq!['p', 'o', 's', 't', 'e', 'r'] {
        Some(DefinedType::Poster)
    } else if n == seq!['j', 'o', 'u', 'r', 'n', 'a', 'l', ' ', 'c', 'o', 'n', 't', 'r', 'i', 'b', 'u', 't', 'i', 'o', 'n'] {
        Some(DefinedType::JournalContribution)
    } else if n == seq!['p', 'r', 'e', 's', 'e', 'n', 't', 'a', 't', 'i', 'o', 'n'] {
        Some(DefinedType::Presentation)
    } else if n == seq!['t', 'h', 'e', 's', 'i', 's'] {
        Some(DefinedType::Thesis)
    } else if n == seq!['s', 'o', 'f', 't', 'w', 'a', 'r', 'e'] {
        Some(DefinedType::Software)
    } else if n == seq!['o', 'n', 'l', 'i', 'n', 'e', ' ', 'r', 'e', 's', 'o', 'u', 'r', 'c', 'e'] {
        Some(DefinedType::OnlineResource)
    } else if n == seq!['p', 'r', 'e', 'p', 'r', 'i', 'n', 't'] {
        Some(DefinedType::Preprint)
    } else if n == seq!['b', 'o', 'o', 'k'] {
        Some(DefinedType::Book)
    } else if n == seq!['c', 'o', 'n', 'f', 'e', 'r', 'e', 'n', 'c', 'e', ' ', 'c', 'o', 'n', 't', 'r', 'i', 'b', 'u', 't', 'i', 'o', 'n'] {
        Some(DefinedType::ConferenceContribution)
    } else if n == seq!['c', 'h', 'a', 'p', 't', 'e', 'r'] {
        Some(DefinedType::Chapter)
    } else if n == seq!['p', 'e', 'e', 'r', ' ', 'r', 'e', 'v', 'i', 'e', 'w'] {
        Some(DefinedType::PeerReview)
    } else if n == seq!['e', 'd', 'u', 'c', 'a', 't', 'i', 'o', 'n', 'a', 'l', ' ', 'r', 'e', 's', 'o', 'u', 'r', 'c', 'e'] {
        Some(DefinedType::EducationalResource)
    } else if n == seq!['r', 'e', 'p', 'o', 'r', 't'] {
        Some(DefinedType::Report)
    } else if n == seq!['s', 't', 'a', 'n', 'd', 'a', 'r', 'd'] {
        Some(DefinedType::Standard)
    } else if n == seq!['c', 'o', 'm', 'p', 'o', 's', 'i', 't', 'i', 'o', 'n'] {
        Some(DefinedType::Composition)
    } else if n == seq!['f', 'u', 'n', 'd', 'i', 'n', 'g'] {
        Some(DefinedType::Funding)
    } else if n == seq!['p', 'h', 'y', 's', 'i', 'c', 'a', 'l', ' ', 'o', 'b', 'j', 'e', 'c', 't'] {
        Some(DefinedType::PhysicalObject)
    } else if n == seq!['d', 'a', 't', 'a', ' ', 'm', 'a', 'n', 'a', 'g', 'e', 'm', 'e', 'n', 't', ' ', 'p', 'l', 'a', 'n'] {
        Some(DefinedType::DataManagementPlan)
    } else if n == seq!['w', 'o', 'r', 'k', 'f', 'l', 'o', 'w'] {
        Some(DefinedType::Workflow)
    } else if n == seq!['m', 'o', 'n', 'o', 'g', 'r', 'a', 'p', 'h'] {
        Some(DefinedType::Monograph)
    } else if n == seq!['p', 'e', 'r', 'f', 'o', 'r', 'm', 'a', 'n', 'c', 'e'] {
        Some(DefinedType::Performance)
    } else if n == seq!['e', 'v', 'e', 'n', 't'] {
        Some(DefinedType::Event)
    } else if n == seq!['s', 'e', 'r', 'v', 'i', 'c', 'e'] {
        Some(DefinedType::Service)
    } else if n == seq!['m', 'o', 'd', 'e', 'l'] {
        Some(DefinedType::Model)
    } else if n == seq!['p', 'a', 'p', 'e', 'r'] {
        Some(DefinedType::JournalContribution)
    } else if n == seq!['c', 'o', 'd', 'e'] {
        Some(DefinedType::Software)
    } else if n == seq!['m', 'e', 't', 'a', 'd', 'a', 't', 'a'] {
        Some(DefinedType::OnlineResource)
    }
 else {
        None
    }
}

/// What `DefinedType::from_api_id(id)` returns: the known type with that number, or
/// an unknown value holding the decimal rendering of `id`.
pub open spec fn is_from_api_id(id: u64, t: DefinedType) -> bool {
    match known_defined_type_id(id) {
        Some(k) => t == k,
        None => t matches DefinedType::Unknown(u) && u@ == decimal(id as nat),
    }
}

/// Normalization of a defined type name before matching: ASCII lower-casing, and `_`
/// read as a space.
pub open spec fn normalize_type_name(s: Seq<char>) -> Seq<char> {
    s.map_values(|c: char| if lower_char(c) == '_' { ' ' } else { lower_char(c) })
}

/// What `DefinedType::from_api_name(value)` returns: the known type whose name (or
/// alias) equals the normalized value, or an unknown value holding the input as given.
pub open spec fn is_from_api_name(value: Seq<char>, t: DefinedType) -> bool {
    match known_defined_type_name(normalize_type_name(value)) {
        Some(k) => t == k,
        None => t matches DefinedType::Unknown(u) && u@ == value,
    }
}

fn normalize_type_name_chars(v: &Vec<char>) -> (r: Vec<char>)
    ensures
        r@ == normalize_type_name(v@),
{
    let mut r: Vec<char> = Vec::new();
    let mut i: usize = 0;
    while i < v.len()
        invariant
            i <= v.len(),
            r@ == normalize_type_name(v@.take(i as int)),
        decreases v.len() - i,
    {
        let l = crate::text::lower_ascii(v[i]);
        r.push(if l == '_' { ' ' } else { l });
        i = i + 1;
        assert(r@ =~= normalize_type_name(v@.take(i as int)));
    }
    assert(v@.take(v.len() as int) =~= v@);
    r
}

impl DefinedType {
    /// Returns the string form used by create and update payloads.
    pub fn api_name(&self) -> (r: &str)
        ensures
            r@ == defined_type_name(*self),
    {
        match self {
            Self::Figure => {
                proof {
                    reveal_strlit("figure");
                }
                "figure"
            },
            Self::Dataset => {
                proof {
                    reveal_strlit("dataset");
                }
                "dataset"
            },
            Self::Media => {
                proof {
                    reveal_strlit("media");
                }
                "media"
            },
            Self::Poster => {
                proof {
                    reveal_strlit("poster");
                }
                "poster"
            },
            Self::JournalContribution => {
                proof {
                    reveal_strlit("journal contribution");
                }
                "journal contribution"
            },
            Self::Presentation => {
                proof {
                    reveal_strlit("presentation");
                }
                "presentation"
            },
            Self::Thesis => {
                proof {
                    reveal_strlit("thesis");
                }
                "thesis"
            },
            Self::Software => {
                proof {
                    reveal_strlit("software");
                }
                "software"
            },
            Self::OnlineResource => {
                proof {
                    reveal_strlit("online resource");
                }
                "online resource"
            },
            Self::Preprint => {
                proof {
                    reveal_strlit("preprint");
                }
                "preprint"
            },
            Self::Book => {
                proof {
                    reveal_strlit("book");
                }
                "book"
            },
            Self::ConferenceContribution => {
                proof {
                    reveal_strlit("conference contribution");
                }
                "conference contribution"
            },
            Self::Chapter => {
                proof {
                    reveal_strlit("chapter");
                }
                "chapter"
            },
            Self::PeerReview => {
                proof {
                    reveal_strlit("peer review");
                }
                "peer review"
            },
            Self::EducationalResource => {
                proof {
                    reveal_strlit("educational resource");
                }
                "educational resource"
            },
            Self::Report => {
                proof {
                    reveal_strlit("report");
                }
                "report"
            },
            Self::Standard => {
                proof {
                    reveal_strlit("standard");
                }
                "standard"
            },
            Self::Composition => {
                proof {
                    reveal_strlit("composition");
                }
                "composition"
            },
            Self::Funding => {
                proof {
                    reveal_strlit("funding");
                }
                "funding"
            },
            Self::PhysicalObject => {
                proof {
                    reveal_strlit("physical object");
                }
                "physical object"
            },
            Self::DataManagementPlan => {
                proof {
                    reveal_strlit("data management plan");
                }
                "data management plan"
            },
            Self::Workflow => {
                proof {
                    reveal_strlit("workflow");
                }
                "workflow"
            },
            Self::Monograph => {
                proof {
                    reveal_strlit("monograph");
                }
                "monograph"
            },
            Self::Performance => {
                proof {
                    reveal_strlit("performance");
                }
                "performance"
            },
            Self::Event => {
                proof {
                    reveal_strlit("event");
                }
                "event"
            },
            Self::Service => {
                proof {
                    reveal_strlit("service");
                }
                "service"
            },
            Self::Model => {
                proof {
                    reveal_strlit("model");
                }
                "model"
            },
            Self::Unknown(value) => value.as_str(),
        }
    }

    /// Returns the numeric form used by some list/search filters and presenters.
    pub fn api_id(&self) -> (r: Option<u64>)
        ensures
            r == defined_type_id(*self),
    {
        match self {
            Self::Figure => Some(1),
            Self::Dataset => Some(3),
            Self::Media => Some(2),
            Self::Poster => Some(5),
            Self::JournalContribution => Some(6),
            Self::Presentation => Some(7),
            Self::Thesis => Some(8),
            Self::Software => Some(9),
            Self::OnlineResource => Some(11),
            Self::Preprint => Some(12),
            Self::Book => Some(13),
            Self::ConferenceContribution => Some(14),
            Self::Chapter => Some(15),
            Self::PeerReview => Some(16),
            Self::EducationalResource => Some(17),
            Self::Report => Some(18),
            Self::Standard => Some(19),
            Self::Composition => Some(20),
            Self::Funding => Some(21),
            Self::PhysicalObject => Some(22),
            Self::DataManagementPlan => Some(23),
            Self::Workflow => Some(24),
            Self::Monograph => Some(25),
            Self::Performance => Some(26),
            Self::Event => Some(27),
            Self::Service => Some(28),
            Self::Model => Some(29),
            Self::Unknown(value) => parse_u64_chars(&chars_of(value.as_str())),
        }
    }

    /// Converts the integer representation used by presenter payloads into a typed
    /// defined type.
    pub fn from_api_id(id: u64) -> (r: DefinedType)
        ensures
            is_from_api_id(id, r),
    {
        match id {
            1 => Self::Figure,
            2 => Self::Media,
            3 => Self::Dataset,
            5 => Self::Poster,
            6 => Self::JournalContribution,
            7 => Self::Presentation,
            8 => Self::Thesis,
            9 => Self::Software,
            11 => Self::OnlineResource,
            12 => Self::Preprint,
            13 => Self::Book,
            14 => Self::ConferenceContribution,
            15 => Self::Chapter,
            16 => Self::PeerReview,
            17 => Self::EducationalResource,
            18 => Self::Report,
            19 => Self::Standard,
            20 => Self::Composition,
            21 => Self::Funding,
            22 => Self::PhysicalObject,
            23 => Self::DataManagementPlan,
            24 => Self::Workflow,
            25 => Self::Monograph,
            26 => Self::Performance,
            27 => Self::Event,
            28 => Self::Service,
            29 => Self::Model,
            other => Self::Unknown(decimal_string(other)),
        }
    }

    /// Converts the string representation used by create/update payloads into a typed
    /// defined type: ASCII letters are lower-cased and `_` read as a space before the
    /// known names (and the aliases `paper`, `code`, `metadata`) are matched.
    pub fn from_api_name(value: &str) -> (r: DefinedType)
        ensures
            is_from_api_name(value@, r),
    {
        let chars = chars_of(value);
        let n = normalize_type_name_chars(&chars);
        let s = n.as_slice();
        if chars_eq(s, &['f', 'i', 'g', 'u', 'r', 'e']) {
            return Self::Figure;
        }
        if chars_eq(s, &['d', 'a', 't', 'a', 's', 'e', 't']) {
            return Self::Dataset;
        }
        if chars_eq(s, &['m', 'e', 'd', 'i', 'a']) {
            return Self::Media;
        }
        if chars_eq(s, &['p', 'o', 's', 't', 'e', 'r']) {
            return Self::Poster;
        }
        if chars_eq(s, &['j', 'o', 'u', 'r', 'n', 'a', 'l', ' ', 'c', 'o', 'n', 't', 'r', 'i', 'b', 'u', 't', 'i', 'o', 'n']) {
            return Self::JournalContribution;
        }
        if chars_eq(s, &['p', 'r', 'e', 's', 'e', 'n', 't', 'a', 't', 'i', 'o', 'n']) {
            return Self::Presentation;
        }
        if chars_eq(s, &['t', 'h', 'e', 's', 'i', 's']) {
            return Self::Thesis;
        }
        if chars_eq(s, &['s', 'o', 'f', 't', 'w', 'a', 'r', 'e']) {
            return Self::Software;
        }
        if chars_eq(s, &['o', 'n', 'l', 'i', 'n', 'e', ' ', 'r', 'e', 's', 'o', 'u', 'r', 'c', 'e']) {
            return Self::OnlineResource;
        }
        if chars_eq(s, &['p', 'r', 'e', 'p', 'r', 'i', 'n', 't']) {
            return Self::Preprint;
        }
        if chars_eq(s, &['b', 'o', 'o', 'k']) {
            return Self::Book;
        }
        if chars_eq(s, &['c', 'o', 'n', 'f', 'e', 'r', 'e', 'n', 'c', 'e', ' ', 'c', 'o', 'n', 't', 'r', 'i', 'b', 'u', 't', 'i', 'o', 'n']) {
            return Self::ConferenceContribution;
        }
        if chars_eq(s, &['c', 'h', 'a', 'p', 't', 'e', 'r']) {
            return Self::Chapter;
        }
        if chars_eq(s, &['p', 'e', 'e', 'r', ' ', 'r', 'e', 'v', 'i', 'e', 'w']) {
            return Self::PeerReview;
        }
        if chars_eq(s, &['e', 'd', 'u', 'c', 'a', 't', 'i', 'o', 'n', 'a', 'l', ' ', 'r', 'e', 's', 'o', 'u', 'r', 'c', 'e']) {
            return Self::EducationalResource;
        }
        if chars_eq(s, &['r', 'e', 'p', 'o', 'r', 't']) {
            return Self::Report;
        }
        if chars_eq(s, &['s', 't', 'a', 'n', 'd', 'a', 'r', 'd']) {
            return Self::Standard;
        }
        if chars_eq(s, &['c', 'o', 'm', 'p', 'o', 's', 'i', 't', 'i', 'o', 'n']) {
            return Self::Composition;
        }
        if chars_eq(s, &['f', 'u', 'n', 'd', 'i', 'n', 'g']) {
            return Self::Funding;
        }
        if chars_eq(s, &['p', 'h', 'y', 's', 'i', 'c', 'a', 'l', ' ', 'o', 'b', 'j', 'e', 'c', 't']) {
            return Self::PhysicalObject;
        }
        if chars_eq(s, &['d', 'a', 't', 'a', ' ', 'm', 'a', 'n', 'a', 'g', 'e', 'm', 'e', 'n', 't', ' ', 'p', 'l', 'a', 'n']) {
            return Self::DataManagementPlan;
        }
        if chars_eq(s, &['w', 'o', 'r', 'k', 'f', 'l', 'o', 'w']) {
            return Self::Workflow;
        }
        if chars_eq(s, &['m', 'o', 'n', 'o', 'g', 'r', 'a', 'p', 'h']) {
            return Self::Monograph;
        }
        if chars_eq(s, &['p', 'e', 'r', 'f', 'o', 'r', 'm', 'a', 'n', 'c', 'e']) {
            return Self::Performance;
        }
        if chars_eq(s, &['e', 'v', 'e', 'n', 't']) {
            return Self::Event;
        }
        if chars_eq(s, &['s', 'e', 'r', 'v', 'i', 'c', 'e']) {
            return Self::Service;
        }
        if chars_eq(s, &['m', 'o', 'd', 'e', 'l']) {
            return Self::Model;
        }
        if chars_eq(s, &['p', 'a', 'p', 'e', 'r']) {
            return Self::JournalContribution;
        }
        if chars_eq(s, &['c', 'o', 'd', 'e']) {
            return Self::Software;
        }
        if chars_eq(s, &['m', 'e', 't', 'a', 'd', 'a', 't', 'a']) {
            return Self::OnlineResource;
        }
        Self::Unknown(string_of(chars.as_slice()))
    }
}

/// Reading the numeric form back gives the number: for every `id`,
/// `DefinedType::from_api_id(id).api_id() == Some(id)`.
pub proof fn lemma_from_api_id_round_trip(id: u64, t: DefinedType)
    requires
        is_from_api_id(id, t),
    ensures
        defined_type_id(t) == Some(id),
{
    if known_defined_type_id(id) is None {
        lemma_parse_decimal(id);
    }
}

/// Reading a known type's string form back gives the type: for every type other than
/// `Unknown`, `DefinedType::from_api_name(t.api_name()) == t`.
pub proof fn lemma_from_api_name_round_trip(t: DefinedType, r: DefinedType)
    requires
        !(t is Unknown),
        is_from_api_name(defined_type_name(t), r),
    ensures
        r == t,
{
    assert(normalize_type_name(defined_type_name(t)) =~= defined_type_name(t));
}

/// Figshare's fixed numbering of the known defined types: `api_id` gives each
/// known type its number, `from_api_id` reads each number back as that type,
/// and the numbers 0, 4, 10 and those from 30 on name no known type.
pub proof fn lemma_defined_type_id_table(t: DefinedType, id: u64)
    ensures
        defined_type_id(DefinedType::Figure) == Some(1u64),
        is_from_api_id(1u64, t) <==> t == DefinedType::Figure,
        defined_type_id(DefinedType::Media) == Some(2u64),
        is_from_api_id(2u64, t) <==> t == DefinedType::Media,
        defined_type_id(DefinedType::Dataset) == Some(3u64),
        is_from_api_id(3u64, t) <==> t == DefinedType::Dataset,
        defined_type_id(DefinedType::Poster) == Some(5u64),
        is_from_api_id(5u64, t) <==> t == DefinedType::Poster,
        defined_type_id(DefinedType::JournalContribution) == Some(6u64),
        is_from_api_id(6u64, t) <==> t == DefinedType::JournalContribution,
        defined_type_id(DefinedType::Presentation) == Some(7u64),
        is_from_api_id(7u64, t) <==> t == DefinedType::Presentation,
        defined_type_id(DefinedType::Thesis) == Some(8u64),
        is_from_api_id(8u64, t) <==> t == DefinedType::Thesis,
        defined_type_id(DefinedType::Software) == Some(9u64),
        is_from_api_id(9u64, t) <==> t == DefinedType::Software,
        defined_type_id(DefinedType::OnlineResource) == Some(11u64),
        is_from_api_id(11u64, t) <==> t == DefinedType::OnlineResource,
        defined_type_id(DefinedType::Preprint) == Some(12u64),
        is_from_api_id(12u64, t) <==> t == DefinedType::Preprint,
        defined_type_id(DefinedType::Book) == Some(13u64),
        is_from_api_id(13u64, t) <==> t == DefinedType::Book,
        defined_type_id(DefinedType::ConferenceContribution) == Some(14u64),
        is_from_api_id(14u64, t) <==> t == DefinedType::ConferenceContribution,
        defined_type_id(DefinedType::Chapter) == Some(15u64),
        is_from_api_id(15u64, t) <==> t == DefinedType::Chapter,
        defined_type_id(DefinedType::PeerReview) == Some(16u64),
        is_from_api_id(16u64, t) <==> t == DefinedType::PeerReview,
        defined_type_id(DefinedType::EducationalResource) == Some(17u64),
        is_from_api_id(17u64, t) <==> t == DefinedType::EducationalResource,
        defined_type_id(DefinedType::Report) == Some(18u64),
        is_from_api_id(18u64, t) <==> t == DefinedType::Report,
        defined_type_id(DefinedType::Standard) == Some(19u64),
        is_from_api_id(19u64, t) <==> t == DefinedType::Standard,
        defined_type_id(DefinedType::Composition) == Some(20u64),
        is_from_api_id(20u64, t) <==> t == DefinedType::Composition,
        defined_type_id(DefinedType::Funding) == Some(21u64),
        is_from_api_id(21u64, t) <==> t == DefinedType::Funding,
        defined_type_id(DefinedType::PhysicalObject) == Some(22u64),
        is_from_api_id(22u64, t) <==> t == DefinedType::PhysicalObject,
        defined_type_id(DefinedType::DataManagementPlan) == Some(23u64),
        is_from_api_id(23u64, t) <==> t == DefinedType::DataManagementPlan,
        defined_type_id(DefinedType::Workflow) == Some(24u64),
        is_from_api_id(24u64, t) <==> t == DefinedType::Workflow,
        defined_type_id(DefinedType::Monograph) == Some(25u64),
        is_from_api_id(25u64, t) <==> t == DefinedType::Monograph,
        defined_type_id(DefinedType::Performance) == Some(26u64),
        is_from_api_id(26u64, t) <==> t == DefinedType::Performance,
        defined_type_id(DefinedType::Event) == Some(27u64),
        is_from_api_id(27u64, t) <==> t == DefinedType::Event,
        defined_type_id(DefinedType::Service) == Some(28u64),
        is_from_api_id(28u64, t) <==> t == DefinedType::Service,
        defined_type_id(DefinedType::Model) == Some(29u64),
        is_from_api_id(29u64, t) <==> t == DefinedType::Model,
        known_defined_type_id(id) is Some <==> (1 <= id <= 29 && id != 4 && id != 10),
{
}

/// The names that create and update payloads use for the known defined types.
pub proof fn lemma_defined_type_name_table()
    ensures
        defined_type_name(DefinedType::Figure) == "figure"@,
        defined_type_name(DefinedType::Media) == "media"@,
        defined_type_name(DefinedType::Dataset) == "dataset"@,
        defined_type_name(DefinedType::Poster) == "poster"@,
        defined_type_name(DefinedType::JournalContribution) == "journal contribution"@,
        defined_type_name(DefinedType::Presentation) == "presentation"@,
        defined_type_name(DefinedType::Thesis) == "thesis"@,
        defined_type_name(DefinedType::Software) == "software"@,
        defined_type_name(DefinedType::OnlineResource) == "online resource"@,
        defined_type_name(DefinedType::Preprint) == "preprint"@,
        defined_type_name(DefinedType::Book) == "book"@,
        defined_type_name(DefinedType::ConferenceContribution) == "conference contribution"@,
        defined_type_name(DefinedType::Chapter) == "chapter"@,
        defined_type_name(DefinedType::PeerReview) == "peer review"@,
        defined_type_name(DefinedType::EducationalResource) == "educational resource"@,
        defined_type_name(DefinedType::Report) == "report"@,
        defined_type_name(DefinedType::Standard) == "standard"@,
        defined_type_name(DefinedType::Composition) == "composition"@,
        defined_type_name(DefinedType::Funding) == "funding"@,
        defined_type_name(DefinedType::PhysicalObject) == "physical object"@,
        defined_type_name(DefinedType::DataManagementPlan) == "data management plan"@,
        defined_type_name(DefinedType::Workflow) == "workflow"@,
        defined_type_name(DefinedType::Monograph) == "monograph"@,
        defined_type_name(DefinedType::Performance) == "performance"@,
        defined_type_name(DefinedType::Event) == "event"@,
        defined_type_name(DefinedType::Service) == "service"@,
        defined_type_name(DefinedType::Model) == "model"@,
{
    reveal_strlit("figure");
    reveal_strlit("media");
    reveal_strlit("dataset");
    reveal_strlit("poster");
    reveal_strlit("journal contribution");
    reveal_strlit("presentation");
    reveal_strlit("thesis");
    reveal_strlit("software");
    reveal_strlit("online resource");
    reveal_strlit("preprint");
    reveal_strlit("book");
    reveal_strlit("conference contribution");
    reveal_strlit("chapter");
    reveal_strlit("peer review");
    reveal_strlit("educational resource");
    reveal_strlit("report");
    reveal_strlit("standard");
    reveal_strlit("composition");
    reveal_strlit("funding");
    reveal_strlit("physical object");
    reveal_strlit("data management plan");
    reveal_strlit("workflow");
    reveal_strlit("monograph");
    reveal_strlit("performance");
    reveal_strlit("event");
    reveal_strlit("service");
    reveal_strlit("model");
}

/// The legacy names `paper`, `code` and `metadata` read as journal
/// contribution, software and online resource; names are read without regard
/// to ASCII case and with `_` as a space; an unknown name is kept as given.
pub proof fn lemma_defined_type_aliases(t: DefinedType)
    ensures
        is_from_api_name("paper"@, t) <==> t == DefinedType::JournalContribution,
        is_from_api_name("code"@, t) <==> t == DefinedType::Software,
        is_from_api_name("metadata"@, t) <==> t == DefinedType::OnlineResource,
        is_from_api_name("Journal_Contribution"@, t) <==> t == DefinedType::JournalContribution,
        is_from_api_name("DATASET"@, t) <==> t == DefinedType::Dataset,
        is_from_api_name("widget"@, t) <==> (t matches DefinedType::Unknown(u) && u@ == "widget"@),
{
    reveal_strlit("paper");
    reveal_strlit("code");
    reveal_strlit("metadata");
    reveal_strlit("Journal_Contribution");
    reveal_strlit("DATASET");
    reveal_strlit("widget");
    assert(normalize_type_name("paper"@) =~= seq!['p', 'a', 'p', 'e', 'r']);
    assert(normalize_type_name("code"@) =~= seq!['c', 'o', 'd', 'e']);
    assert(normalize_type_name("metadata"@) =~= seq!['m', 'e', 't', 'a', 'd', 'a', 't', 'a']);
    assert(normalize_type_name("Journal_Contribution"@) =~= seq![
        'j', 'o', 'u', 'r', 'n', 'a', 'l', ' ', 'c', 'o', 'n', 't', 'r', 'i', 'b', 'u', 't', 'i', 'o', 'n',
    ]);
    assert(normalize_type_name("DATASET"@) =~= seq!['d', 'a', 't', 'a', 's', 'e', 't']);
    assert(normalize_type_name("widget"@) =~= seq!['w', 'i', 'd', 'g', 'e', 't']);
}

/// Reference to an author in create/update payloads.
#[derive(Clone, Debug, PartialEq, Eq)]
pub enum AuthorReference {
    /// Reference an existing author by ID.
    Id {
        /// Existing author identifier.
        id: u64,
    },
    /// Reference an author by free-form display name.
    Name {
        /// Author display name.
        name: String,
    },
}

impl AuthorReference {
    /// Creates an ID-based author reference.
    pub fn id(id: u64) -> (r: AuthorReference)
        ensures
            r == (AuthorReference::Id { id }),
    {
        AuthorReference::Id { id }
    }

    /// Creates a name-based author reference.
    pub fn name(name: &str) -> (r: AuthorReference)
        ensures
            r matches AuthorReference::Name { name: n } && n@ == name@,
    {
        AuthorReference::Name { name: name.to_owned() }
    }
}

/// Builder errors for article metadata.
#[derive(Debug, PartialEq, Eq, Clone, Copy)]
pub enum ArticleMetadataBuildError {
    /// The title field is required.
    MissingTitle,
    /// The defined type field is required.
    MissingDefinedType,
}

/// The mathematical form of an author reference.
pub enum AuthorView {
    /// By identifier.
    Id(u64),
    /// By display name.
    Name(Seq<char>),
}

/// The mathematical form of an author reference.
pub open spec fn author_view(a: AuthorReference) -> AuthorView {
    match a {
        AuthorReference::Id { id } => AuthorView::Id(id),
        AuthorReference::Name { name } => AuthorView::Name(name@),
    }
}

/// The characters of each string.
pub open spec fn texts_view(v: Seq<String>) -> Seq<Seq<char>> {
    v.map_values(|s: String| s@)
}

/// High-level create/update payload used by workflow helpers.
#[derive(Clone, Debug, PartialEq)]
pub struct ArticleMetadata {
    /// Title of the article.
    pub title: String,
    /// Optional description.
    pub description: Option<String>,
    /// Required item type.
    pub defined_type: DefinedType,
    /// Optional tags.
    pub tags: Vec<String>,
    /// Optional keywords.
    pub keywords: Vec<String>,
    /// Optional references.
    pub references: Vec<String>,
    /// Optional category identifiers.
    pub categories: Vec<CategoryId>,
    /// Optional author references.
    pub authors: Vec<AuthorReference>,
    /// Optional custom fields, as a map from names to values: entries ordered
    /// by name, each name once, as the builder leaves them. Should a name occur
    /// twice, its later entry counts.
    pub custom_fields: Vec<(String, JsonValue)>,
    /// Optional funding string.
    pub funding: Option<String>,
    /// Optional license identifier.
    pub license: Option<LicenseId>,
    /// Optional pre-reserved DOI.
    pub doi: Option<Doi>,
    /// Optional related resource DOI.
    pub resource_doi: Option<String>,
    /// Optional related resource title.
    pub resource_title: Option<String>,
}

/// The fields collected by a metadata builder.
pub struct MetadataFields {
    /// Title, when set.
    pub title: Option<Seq<char>>,
    /// Description, when set.
    pub description: Option<Seq<char>>,
    /// Defined type, when set.
    pub defined_type: Option<DefinedType>,
    /// Tags in order.
    pub tags: Seq<Seq<char>>,
    /// Keywords in order.
    pub keywords: Seq<Seq<char>>,
    /// References in order.
    pub references: Seq<Seq<char>>,
    /// Category identifiers in order.
    pub categories: Seq<u64>,
    /// Author references in order.
    pub authors: Seq<AuthorView>,
    /// Custom fields, as the entries of a map.
    pub custom_fields: Seq<(Seq<char>, JsonView)>,
    /// Funding, when set.
    pub funding: Option<Seq<char>>,
    /// License identifier, when set.
    pub license: Option<u64>,
    /// DOI, when set.
    pub doi: Option<Seq<char>>,
    /// Related resource DOI, when set.
    pub resource_doi: Option<Seq<char>>,
    /// Related resource title, when set.
    pub resource_title: Option<Seq<char>>,
}

/// The characters of an optional string.
pub open spec fn opt_view(o: Option<String>) -> Option<Seq<char>> {
    match o {
        Some(s) => Some(s@),
        None => None,
    }
}

impl ArticleMetadata {
    /// The metadata's fields in mathematical form.
    pub open spec fn fields(self) -> MetadataFields {
        MetadataFields {
            title: Some(self.title@),
            description: opt_view(self.description),
            defined_type: Some(self.defined_type),
            tags: texts_view(self.tags@),
            keywords: texts_view(self.keywords@),
            references: texts_view(self.references@),
            categories: self.categories@.map_values(|c: CategoryId| c.0),
            authors: self.authors@.map_values(|a: AuthorReference| author_view(a)),
            custom_fields: set_fields(entries_view(self.custom_fields@, self.custom_fields@.len() as int)),
            funding: opt_view(self.funding),
            license: match self.license {
                Some(l) => Some(l.0),
                None => None,
            },
            doi: match self.doi {
                Some(d) => Some(d.0@),
                None => None,
            },
            resource_doi: opt_view(self.resource_doi),
            resource_title: opt_view(self.resource_title),
        }
    }
}

/// A payload member for an optional text value.
#[verifier::opaque]
pub open spec fn text_member(k: Seq<char>, o: Option<Seq<char>>) -> Seq<(Seq<char>, JsonView)> {
    match o {
        Some(v) => seq![(k, JsonView::String(v))],
        None => Seq::empty(),
    }
}

/// A payload member for a list of strings, present when the list is not empty.
#[verifier::opaque]
pub open spec fn texts_member(k: Seq<char>, v: Seq<Seq<char>>) -> Seq<(Seq<char>, JsonView)> {
    if v.len() == 0 {
        Seq::empty()
    } else {
        seq![(k, JsonView::Array(v.map_values(|s: Seq<char>| JsonView::String(s))))]
    }
}

/// The JSON object that describes one author reference.
pub open spec fn author_json(a: AuthorView) -> JsonView {
    match a {
        AuthorView::Id(id) => JsonView::Object(seq![("id"@, JsonView::Number(decimal(id as nat)))]),
        AuthorView::Name(n) => JsonView::Object(seq![("name"@, JsonView::String(n))]),
    }
}

/// The `categories` member, present when there are categories.
#[verifier::opaque]
pub open spec fn categories_member(c: Seq<u64>) -> Seq<(Seq<char>, JsonView)> {
    if c.len() == 0 {
        Seq::empty()
    } else {
        seq![("categories"@, JsonView::Array(c.map_values(|c: u64| JsonView::Number(decimal(c as nat)))))]
    }
}

/// The `authors` member, present when there are authors.
#[verifier::opaque]
pub open spec fn authors_member(a: Seq<AuthorView>) -> Seq<(Seq<char>, JsonView)> {
    if a.len() == 0 {
        Seq::empty()
    } else {
        seq![("authors"@, JsonView::Array(a.map_values(|a: AuthorView| author_json(a))))]
    }
}

/// The `custom_fields` member, present when there are custom fields.
#[verifier::opaque]
pub open spec fn custom_member(c: Seq<(Seq<char>, JsonView)>) -> Seq<(Seq<char>, JsonView)> {
    if c.len() == 0 {
        Seq::empty()
    } else {
        seq![("custom_fields"@, JsonView::Object(c))]
    }
}

/// The `license` member, present when a license is set.
#[verifier::opaque]
pub open spec fn license_member(l: Option<u64>) -> Seq<(Seq<char>, JsonView)> {
    match l {
        Some(l) => seq![("license"@, JsonView::Number(decimal(l as nat)))],
        None => Seq::empty(),
    }
}

/// The members of a create/update payload, in order: title and defined type always,
/// then each optional field that is set or non-empty.
pub open spec fn payload_members(f: MetadataFields) -> Seq<(Seq<char>, JsonView)> {
    seq![("title"@, JsonView::String(f.title.unwrap()))] + seq![
        ("defined_type"@, JsonView::String(defined_type_name(f.defined_type.unwrap()))),
    ] + text_member("description"@, f.description) + texts_member("tags"@, f.tags) + texts_member(
        "keywords"@,
        f.keywords,
    ) + texts_member("references"@, f.references) + categories_member(f.categories) + authors_member(
        f.authors,
    ) + custom_member(f.custom_fields) + text_member("funding"@, f.funding) + license_member(f.license)
        + text_member("doi"@, f.doi) + text_member("resource_doi"@, f.resource_doi) + text_member(
        "resource_title"@,
        f.resource_title,
    )
}

/// The create/update payload of article metadata.
pub open spec fn payload(m: ArticleMetadata) -> JsonView {
    JsonView::Object(payload_members(m.fields()))
}

/// Every field set on article metadata is carried by its payload under its
/// API name: title and defined type always, each optional text or number
/// when set, each list when not empty (its items in order), and the custom
/// fields as one object; an optional field that is not set has no member.
pub proof fn lemma_payload_carries_every_field(m: ArticleMetadata)
    ensures
        payload(m) matches JsonView::Object(es) && {
            let f = m.fields();
            &&& es.contains(("title"@, JsonView::String(m.title@)))
            &&& es.contains(("defined_type"@, JsonView::String(defined_type_name(m.defined_type))))
            &&& (f.description matches Some(d) ==> es.contains(("description"@, JsonView::String(d))))
            &&& (f.funding matches Some(x) ==> es.contains(("funding"@, JsonView::String(x))))
            &&& (f.license matches Some(l) ==> es.contains(("license"@, JsonView::Number(decimal(l as nat)))))
            &&& (f.doi matches Some(d) ==> es.contains(("doi"@, JsonView::String(d))))
            &&& (f.resource_doi matches Some(d) ==> es.contains(("resource_doi"@, JsonView::String(d))))
            &&& (f.resource_title matches Some(t) ==> es.contains(("resource_title"@, JsonView::String(t))))
            &&& (f.tags.len() > 0 ==> es.contains(
                ("tags"@, JsonView::Array(f.tags.map_values(|s: Seq<char>| JsonView::String(s)))),
            ))
            &&& (f.keywords.len() > 0 ==> es.contains(
                ("keywords"@, JsonView::Array(f.keywords.map_values(|s: Seq<char>| JsonView::String(s)))),
            ))
            &&& (f.references.len() > 0 ==> es.contains(
                ("references"@, JsonView::Array(f.references.map_values(|s: Seq<char>| JsonView::String(s)))),
            ))
            &&& (f.categories.len() > 0 ==> es.contains(
                (
                    "categories"@,
                    JsonView::Array(f.categories.map_values(|c: u64| JsonView::Number(decimal(c as nat)))),
                ),
            ))
            &&& (f.authors.len() > 0 ==> es.contains(
                ("authors"@, JsonView::Array(f.authors.map_values(|a: AuthorView| author_json(a)))),
            ))
            &&& (f.custom_fields.len() > 0 ==> es.contains(("custom_fields"@, JsonView::Object(f.custom_fields))))
        },
{
    broadcast use crate::text::lemma_concat_contains;
    reveal(text_member);
    reveal(texts_member);
    reveal(categories_member);
    reveal(authors_member);
    reveal(custom_member);
    reveal(license_member);
    let f = m.fields();
    let es = payload_members(f);
    assert(seq![("title"@, JsonView::String(m.title@))][0] == ("title"@, JsonView::String(m.title@)));
    let dt = ("defined_type"@, JsonView::String(defined_type_name(m.defined_type)));
    assert(seq![dt][0] == dt);
    if let Some(d) = f.description {
        assert(seq![("description"@, JsonView::String(d))][0] == ("description"@, JsonView::String(d)));
    }
    if let Some(d) = f.funding {
        assert(seq![("funding"@, JsonView::String(d))][0] == ("funding"@, JsonView::String(d)));
    }
    if let Some(l) = f.license {
        assert(seq![("license"@, JsonView::Number(decimal(l as nat)))][0] == ("license"@, JsonView::Number(decimal(l as nat))));
    }
    if let Some(d) = f.doi {
        assert(seq![("doi"@, JsonView::String(d))][0] == ("doi"@, JsonView::String(d)));
    }
    if let Some(d) = f.resource_doi {
        assert(seq![("resource_doi"@, JsonView::String(d))][0] == ("resource_doi"@, JsonView::String(d)));
    }
    if let Some(d) = f.resource_title {
        assert(seq![("resource_title"@, JsonView::String(d))][0] == ("resource_title"@, JsonView::String(d)));
    }
    let tg = ("tags"@, JsonView::Array(f.tags.map_values(|s: Seq<char>| JsonView::String(s))));
    assert(seq![tg][0] == tg);
    let kw = ("keywords"@, JsonView::Array(f.keywords.map_values(|s: Seq<char>| JsonView::String(s))));
    assert(seq![kw][0] == kw);
    let rf = ("references"@, JsonView::Array(f.references.map_values(|s: Seq<char>| JsonView::String(s))));
    assert(seq![rf][0] == rf);
    let ct = ("categories"@, JsonView::Array(f.categories.map_values(|c: u64| JsonView::Number(decimal(c as nat)))));
    assert(seq![ct][0] == ct);
    let au = ("authors"@, JsonView::Array(f.authors.map_values(|a: AuthorView| author_json(a))));
    assert(seq![au][0] == au);
    let cu = ("custom_fields"@, JsonView::Object(f.custom_fields));
    assert(seq![cu][0] == cu);
}

/// Whether no entry has key `k`.
pub open spec fn lacks_key(es: Seq<(Seq<char>, JsonView)>, k: Seq<char>) -> bool {
    forall|i: int| 0 <= i < es.len() ==> #[trigger] es[i].0 != k
}

broadcast proof fn lemma_lacks_key_concat(a: Seq<(Seq<char>, JsonView)>, b: Seq<(Seq<char>, JsonView)>, k: Seq<char>)
    ensures
        lacks_key(a, k) && lacks_key(b, k) ==> #[trigger] lacks_key(a + b, k),
{
    if lacks_key(a, k) && lacks_key(b, k) {
        assert forall|i: int| 0 <= i < (a + b).len() implies #[trigger] (a + b)[i].0 != k by {
            if i < a.len() {
                assert((a + b)[i] == a[i]);
            } else {
                assert((a + b)[i] == b[i - a.len()]);
            }
        }
    }
}

proof fn lemma_payload_lacks_description(m: ArticleMetadata)
    ensures
        ({
            let f = m.fields();
            f.description is None ==> lacks_key(payload_members(f), "description"@)
        }),
{
    broadcast use lemma_lacks_key_concat;
    reveal(text_member);
    reveal(texts_member);
    reveal(categories_member);
    reveal(authors_member);
    reveal(custom_member);
    reveal(license_member);
    reveal_strlit("title");
    reveal_strlit("defined_type");
    reveal_strlit("description");
    reveal_strlit("tags");
    reveal_strlit("keywords");
    reveal_strlit("references");
    reveal_strlit("categories");
    reveal_strlit("authors");
    reveal_strlit("custom_fields");
    reveal_strlit("funding");
    reveal_strlit("license");
    reveal_strlit("doi");
    reveal_strlit("resource_doi");
    reveal_strlit("resource_title");
    assert("title"@.len() != "description"@.len());
    assert("defined_type"@.len() != "description"@.len());
    assert("tags"@.len() != "description"@.len());
    assert("keywords"@.len() != "description"@.len());
    assert("references"@.len() != "description"@.len());
    assert("categories"@.len() != "description"@.len());
    assert("authors"@.len() != "description"@.len());
    assert("custom_fields"@.len() != "description"@.len());
    assert("funding"@.len() != "description"@.len());
    assert("license"@.len() != "description"@.len());
    assert("doi"@.len() != "description"@.len());
    assert("resource_doi"@.len() != "description"@.len());
    assert("resource_title"@.len() != "description"@.len());
}

proof fn lemma_payload_lacks_funding(m: ArticleMetadata)
    ensures
        ({
            let f = m.fields();
            f.funding is None ==> lacks_key(payload_members(f), "funding"@)
        }),
{
    broadcast use lemma_lacks_key_concat;
    reveal(text_member);
    reveal(texts_member);
    reveal(categories_member);
    reveal(authors_member);
    reveal(custom_member);
    reveal(license_member);
    reveal_strlit("title");
    reveal_strlit("defined_type");
    reveal_strlit("description");
    reveal_strlit("tags");
    reveal_strlit("keywords");
    reveal_strlit("references");
    reveal_strlit("categories");
    reveal_strlit("authors");
    reveal_strlit("custom_fields");
    reveal_strlit("funding");
    reveal_strlit("license");
    reveal_strlit("doi");
    reveal_strlit("resource_doi");
    reveal_strlit("resource_title");
    assert("title"@.len() != "funding"@.len());
    assert("defined_type"@.len() != "funding"@.len());
    assert("description"@.len() != "funding"@.len());
    assert("tags"@.len() != "funding"@.len());
    assert("keywords"@.len() != "funding"@.len());
    assert("references"@.len() != "funding"@.len());
    assert("categories"@.len() != "funding"@.len());
    assert("authors"@[0] != "funding"@[0]);
    assert("custom_fields"@.len() != "funding"@.len());
    assert("license"@[0] != "funding"@[0]);
    assert("doi"@.len() != "funding"@.len());
    assert("resource_doi"@.len() != "funding"@.len());
    assert("resource_title"@.len() != "funding"@.len());
}

proof fn lemma_payload_lacks_license(m: ArticleMetadata)
    ensures
        ({
            let f = m.fields();
            f.license is None ==> lacks_key(payload_members(f), "license"@)
        }),
{
    broadcast use lemma_lacks_key_concat;
    reveal(text_member);
    reveal(texts_member);
    reveal(categories_member);
    reveal(authors_member);
    reveal(custom_member);
    reveal(license_member);
    reveal_strlit("title");
    reveal_strlit("defined_type");
    reveal_strlit("description");
    reveal_strlit("tags");
    reveal_strlit("keywords");
    reveal_strlit("references");
    reveal_strlit("categories");
    reveal_strlit("authors");
    reveal_strlit("custom_fields");
    reveal_strlit("funding");
    reveal_strlit("license");
    reveal_strlit("doi");
    reveal_strlit("resource_doi");
    reveal_strlit("resource_title");
    assert("title"@.len() != "license"@.len());
    assert("defined_type"@.len() != "license"@.len());
    assert("description"@.len() != "license"@.len());
    assert("tags"@.len() != "license"@.len());
    assert("keywords"@.len() != "license"@.len());
    assert("references"@.len() != "license"@.len());
    assert("categories"@.len() != "license"@.len());
    assert("authors"@[0] != "license"@[0]);
    assert("custom_fields"@.len() != "license"@.len());
    assert("funding"@[0] != "license"@[0]);
    assert("doi"@.len() != "license"@.len());
    assert("resource_doi"@.len() != "license"@.len());
    assert("resource_title"@.len() != "license"@.len());
}

proof fn lemma_payload_lacks_doi(m: ArticleMetadata)
    ensures
        ({
            let f = m.fields();
            f.doi is None ==> lacks_key(payload_members(f), "doi"@)
        }),
{
    broadcast use lemma_lacks_key_concat;
    reveal(text_member);
    reveal(texts_member);
    reveal(categories_member);
    reveal(authors_member);
    reveal(custom_member);
    reveal(license_member);
    reveal_strlit("title");
    reveal_strlit("defined_type");
    reveal_strlit("description");
    reveal_strlit("tags");
    reveal_strlit("keywords");
    reveal_strlit("references");
    reveal_strlit("categories");
    reveal_strlit("authors");
    reveal_strlit("custom_fields");
    reveal_strlit("funding");
    reveal_strlit("license");
    reveal_strlit("doi");
    reveal_strlit("resource_doi");
    reveal_strlit("resource_title");
    assert("title"@.len() != "doi"@.len());
    assert("defined_type"@.len() != "doi"@.len());
    assert("description"@.len() != "doi"@.len());
    assert("tags"@.len() != "doi"@.len());
    assert("keywords"@.len() != "doi"@.len());
    assert("references"@.len() != "doi"@.len());
    assert("categories"@.len() != "doi"@.len());
    assert("authors"@.len() != "doi"@.len());
    assert("custom_fields"@.len() != "doi"@.len());
    assert("funding"@.len() != "doi"@.len());
    assert("license"@.len() != "doi"@.len());
    assert("resource_doi"@.len() != "doi"@.len());
    assert("resource_title"@.len() != "doi"@.len());
}

proof fn lemma_payload_lacks_resource_doi(m: ArticleMetadata)
    ensures
        ({
            let f = m.fields();
            f.resource_doi is None ==> lacks_key(payload_members(f), "resource_doi"@)
        }),
{
    broadcast use lemma_lacks_key_concat;
    reveal(text_member);
    reveal(texts_member);
    reveal(categories_member);
    reveal(authors_member);
    reveal(custom_member);
    reveal(license_member);
    reveal_strlit("title");
    reveal_strlit("defined_type");
    reveal_strlit("description");
    reveal_strlit("tags");
    reveal_strlit("keywords");
    reveal_strlit("references");
    reveal_strlit("categories");
    reveal_strlit("authors");
    reveal_strlit("custom_fields");
    reveal_strlit("funding");
    reveal_strlit("license");
    reveal_strlit("doi");
    reveal_strlit("resource_doi");
    reveal_strlit("resource_title");
    assert("title"@.len() != "resource_doi"@.len());
    assert("defined_type"@[0] != "resource_doi"@[0]);
    assert("description"@.len() != "resource_doi"@.len());
    assert("tags"@.len() != "resource_doi"@.len());
    assert("keywords"@.len() != "resource_doi"@.len());
    assert("references"@.len() != "resource_doi"@.len());
    assert("categories"@.len() != "resource_doi"@.len());
    assert("authors"@.len() != "resource_doi"@.len());
    assert("custom_fields"@.len() != "resource_doi"@.len());
    assert("funding"@.len() != "resource_doi"@.len());
    assert("license"@.len() != "resource_doi"@.len());
    assert("doi"@.len() != "resource_doi"@.len());
    assert("resource_title"@.len() != "resource_doi"@.len());
}

proof fn lemma_payload_lacks_resource_title(m: ArticleMetadata)
    ensures
        ({
            let f = m.fields();
            f.resource_title is None ==> lacks_key(payload_members(f), "resource_title"@)
        }),
{
    broadcast use lemma_lacks_key_concat;
    reveal(text_member);
    reveal(texts_member);
    reveal(categories_member);
    reveal(authors_member);
    reveal(custom_member);
    reveal(license_member);
    reveal_strlit("title");
    reveal_strlit("defined_type");
    reveal_strlit("description");
    reveal_strlit("tags");
    reveal_strlit("keywords");
    reveal_strlit("references");
    reveal_strlit("categories");
    reveal_strlit("authors");
    reveal_strlit("custom_fields");
    reveal_strlit("funding");
    reveal_strlit("license");
    reveal_strlit("doi");
    reveal_strlit("resource_doi");
    reveal_strlit("resource_title");
    assert("title"@.len() != "resource_title"@.len());
    assert("defined_type"@.len() != "resource_title"@.len());
    assert("description"@.len() != "resource_title"@.len());
    assert("tags"@.len() != "resource_title"@.len());
    assert("keywords"@.len() != "resource_title"@.len());
    assert("references"@.len() != "resource_title"@.len());
    assert("categories"@.len() != "resource_title"@.len());
    assert("authors"@.len() != "resource_title"@.len());
    assert("custom_fields"@.len() != "resource_title"@.len());
    assert("funding"@.len() != "resource_title"@.len());
    assert("license"@.len() != "resource_title"@.len());
    assert("doi"@.len() != "resource_title"@.len());
    assert("resource_doi"@.len() != "resource_title"@.len());
}

proof fn lemma_payload_lacks_tags(m: ArticleMetadata)
    ensures
        ({
            let f = m.fields();
            f.tags.len() == 0 ==> lacks_key(payload_members(f), "tags"@)
        }),
{
    broadcast use lemma_lacks_key_concat;
    reveal(text_member);
    reveal(texts_member);
    reveal(categories_member);
    reveal(authors_member);
    reveal(custom_member);
    reveal(license_member);
    reveal_strlit("title");
    reveal_strlit("defined_type");
    reveal_strlit("description");
    reveal_strlit("tags");
    reveal_strlit("keywords");
    reveal_strlit("references");
    reveal_strlit("categories");
    reveal_strlit("authors");
    reveal_strlit("custom_fields");
    reveal_strlit("funding");
    reveal_strlit("license");
    reveal_strlit("doi");
    reveal_strlit("resource_doi");
    reveal_strlit("resource_title");
    assert("title"@.len() != "tags"@.len());
    assert("defined_type"@.len() != "tags"@.len());
    assert("description"@.len() != "tags"@.len());
    assert("keywords"@.len() != "tags"@.len());
    assert("references"@.len() != "tags"@.len());
    assert("categories"@.len() != "tags"@.len());
    assert("authors"@.len() != "tags"@.len());
    assert("custom_fields"@.len() != "tags"@.len());
    assert("funding"@.len() != "tags"@.len());
    assert("license"@.len() != "tags"@.len());
    assert("doi"@.len() != "tags"@.len());
    assert("resource_doi"@.len() != "tags"@.len());
    assert("resource_title"@.len() != "tags"@.len());
}

proof fn lemma_payload_lacks_keywords(m: ArticleMetadata)
    ensures
        ({
            let f = m.fields();
            f.keywords.len() == 0 ==> lacks_key(payload_members(f), "keywords"@)
        }),
{
    broadcast use lemma_lacks_key_concat;
    reveal(text_member);
    reveal(texts_member);
    reveal(categories_member);
    reveal(authors_member);
    reveal(custom_member);
    reveal(license_member);
    reveal_strlit("title");
    reveal_strlit("defined_type");
    reveal_strlit("description");
    reveal_strlit("tags");
    reveal_strlit("keywords");
    reveal_strlit("references");
    reveal_strlit("categories");
    reveal_strlit("authors");
    reveal_strlit("custom_fields");
    reveal_strlit("funding");
    reveal_strlit("license");
    reveal_strlit("doi");
    reveal_strlit("resource_doi");
    reveal_strlit("resource_title");
    assert("title"@.len() != "keywords"@.len());
    assert("defined_type"@.len() != "keywords"@.len());
    assert("description"@.len() != "keywords"@.len());
    assert("tags"@.len() != "keywords"@.len());
    assert("references"@.len() != "keywords"@.len());
    assert("categories"@.len() != "keywords"@.len());
    assert("authors"@.len() != "keywords"@.len());
    assert("custom_fields"@.len() != "keywords"@.len());
    assert("funding"@.len() != "keywords"@.len());
    assert("license"@.len() != "keywords"@.len());
    assert("doi"@.len() != "keywords"@.len());
    assert("resource_doi"@.len() != "keywords"@.len());
    assert("resource_title"@.len() != "keywords"@.len());
}

proof fn lemma_payload_lacks_references(m: ArticleMetadata)
    ensures
        ({
            let f = m.fields();
            f.references.len() == 0 ==> lacks_key(payload_members(f), "references"@)
        }),
{
    broadcast use lemma_lacks_key_concat;
    reveal(text_member);
    reveal(texts_member);
    reveal(categories_member);
    reveal(authors_member);
    reveal(custom_member);
    reveal(license_member);
    reveal_strlit("title");
    reveal_strlit("defined_type");
    reveal_strlit("description");
    reveal_strlit("tags");
    reveal_strlit("keywords");
    reveal_strlit("references");
    reveal_strlit("categories");
    reveal_strlit("authors");
    reveal_strlit("custom_fields");
    reveal_strlit("funding");
    reveal_strlit("license");
    reveal_strlit("doi");
    reveal_strlit("resource_doi");
    reveal_strlit("resource_title");
    assert("title"@.len() != "references"@.len());
    assert("defined_type"@.len() != "references"@.len());
    assert("description"@.len() != "references"@.len());
    assert("tags"@.len() != "references"@.len());
    assert("keywords"@.len() != "references"@.len());
    assert("categories"@[0] != "references"@[0]);
    assert("authors"@.len() != "references"@.len());
    assert("custom_fields"@.len() != "references"@.len());
    assert("funding"@.len() != "references"@.len());
    assert("license"@.len() != "references"@.len());
    assert("doi"@.len() != "references"@.len());
    assert("resource_doi"@.len() != "references"@.len());
    assert("resource_title"@.len() != "references"@.len());
}

proof fn lemma_payload_lacks_categories(m: ArticleMetadata)
    ensures
        ({
            let f = m.fields();
            f.categories.len() == 0 ==> lacks_key(payload_members(f), "categories"@)
        }),
{
    broadcast use lemma_lacks_key_concat;
    reveal(text_member);
    reveal(texts_member);
    reveal(categories_member);
    reveal(authors_member);
    reveal(custom_member);
    reveal(license_member);
    reveal_strlit("title");
    reveal_strlit("defined_type");
    reveal_strlit("description");
    reveal_strlit("tags");
    reveal_strlit("keywords");
    reveal_strlit("references");
    reveal_strlit("categories");
    reveal_strlit("authors");
    reveal_strlit("custom_fields");
    reveal_strlit("funding");
    reveal_strlit("license");
    reveal_strlit("doi");
    reveal_strlit("resource_doi");
    reveal_strlit("resource_title");
    assert("title"@.len() != "categories"@.len());
    assert("defined_type"@.len() != "categories"@.len());
    assert("description"@.len() != "categories"@.len());
    assert("tags"@.len() != "categories"@.len());
    assert("keywords"@.len() != "categories"@.len());
    assert("references"@[0] != "categories"@[0]);
    assert("authors"@.len() != "categories"@.len());
    assert("custom_fields"@.len() != "categories"@.len());
    assert("funding"@.len() != "categories"@.len());
    assert("license"@.len() != "categories"@.len());
    assert("doi"@.len() != "categories"@.len());
    assert("resource_doi"@.len() != "categories"@.len());
    assert("resource_title"@.len() != "categories"@.len());
}

proof fn lemma_payload_lacks_authors(m: ArticleMetadata)
    ensures
        ({
            let f = m.fields();
            f.authors.len() == 0 ==> lacks_key(payload_members(f), "authors"@)
        }),
{
    broadcast use lemma_lacks_key_concat;
    reveal(text_member);
    reveal(texts_member);
    reveal(categories_member);
    reveal(authors_member);
    reveal(custom_member);
    reveal(license_member);
    reveal_strlit("title");
    reveal_strlit("defined_type");
    reveal_strlit("description");
    reveal_strlit("tags");
    reveal_strlit("keywords");
    reveal_strlit("references");
    reveal_strlit("categories");
    reveal_strlit("authors");
    reveal_strlit("custom_fields");
    reveal_strlit("funding");
    reveal_strlit("license");
    reveal_strlit("doi");
    reveal_strlit("resource_doi");
    reveal_strlit("resource_title");
    assert("title"@.len() != "authors"@.len());
    assert("defined_type"@.len() != "authors"@.len());
    assert("description"@.len() != "authors"@.len());
    assert("tags"@.len() != "authors"@.len());
    assert("keywords"@.len() != "authors"@.len());
    assert("references"@.len() != "authors"@.len());
    assert("categories"@.len() != "authors"@.len());
    assert("custom_fields"@.len() != "authors"@.len());
    assert("funding"@[0] != "authors"@[0]);
    assert("license"@[0] != "authors"@[0]);
    assert("doi"@.len() != "authors"@.len());
    assert("resource_doi"@.len() != "authors"@.len());
    assert("resource_title"@.len() != "authors"@.len());
}

proof fn lemma_payload_lacks_custom_fields(m: ArticleMetadata)
    ensures
        ({
            let f = m.fields();
            f.custom_fields.len() == 0 ==> lacks_key(payload_members(f), "custom_fields"@)
        }),
{
    broadcast use lemma_lacks_key_concat;
    reveal(text_member);
    reveal(texts_member);
    reveal(categories_member);
    reveal(authors_member);
    reveal(custom_member);
    reveal(license_member);
    reveal_strlit("title");
    reveal_strlit("defined_type");
    reveal_strlit("description");
    reveal_strlit("tags");
    reveal_strlit("keywords");
    reveal_strlit("references");
    reveal_strlit("categories");
    reveal_strlit("authors");
    reveal_strlit("custom_fields");
    reveal_strlit("funding");
    reveal_strlit("license");
    reveal_strlit("doi");
    reveal_strlit("resource_doi");
    reveal_strlit("resource_title");
    assert("title"@.len() != "custom_fields"@.len());
    assert("defined_type"@.len() != "custom_fields"@.len());
    assert("description"@.len() != "custom_fields"@.len());
    assert("tags"@.len() != "custom_fields"@.len());
    assert("keywords"@.len() != "custom_fields"@.len());
    assert("references"@.len() != "custom_fields"@.len());
    assert("categories"@.len() != "custom_fields"@.len());
    assert("authors"@.len() != "custom_fields"@.len());
    assert("funding"@.len() != "custom_fields"@.len());
    assert("license"@.len() != "custom_fields"@.len());
    assert("doi"@.len() != "custom_fields"@.len());
    assert("resource_doi"@.len() != "custom_fields"@.len());
    assert("resource_title"@.len() != "custom_fields"@.len());
}

/// An optional field that is not set, or a list that is empty, puts no
/// member into the payload.
pub proof fn lemma_payload_omits_unset_fields(m: ArticleMetadata)
    ensures
        payload(m) matches JsonView::Object(es) && {
            let f = m.fields();
            &&& (f.description is None ==> lacks_key(es, "description"@))
            &&& (f.funding is None ==> lacks_key(es, "funding"@))
            &&& (f.license is None ==> lacks_key(es, "license"@))
            &&& (f.doi is None ==> lacks_key(es, "doi"@))
            &&& (f.resource_doi is None ==> lacks_key(es, "resource_doi"@))
            &&& (f.resource_title is None ==> lacks_key(es, "resource_title"@))
            &&& (f.tags.len() == 0 ==> lacks_key(es, "tags"@))
            &&& (f.keywords.len() == 0 ==> lacks_key(es, "keywords"@))
            &&& (f.references.len() == 0 ==> lacks_key(es, "references"@))
            &&& (f.categories.len() == 0 ==> lacks_key(es, "categories"@))
            &&& (f.authors.len() == 0 ==> lacks_key(es, "authors"@))
            &&& (f.custom_fields.len() == 0 ==> lacks_key(es, "custom_fields"@))
        },
{
    lemma_payload_lacks_description(m);
    lemma_payload_lacks_funding(m);
    lemma_payload_lacks_license(m);
    lemma_payload_lacks_doi(m);
    lemma_payload_lacks_resource_doi(m);
    lemma_payload_lacks_resource_title(m);
    lemma_payload_lacks_tags(m);
    lemma_payload_lacks_keywords(m);
    lemma_payload_lacks_references(m);
    lemma_payload_lacks_categories(m);
    lemma_payload_lacks_authors(m);
    lemma_payload_lacks_custom_fields(m);
}

fn push_member(out: &mut Vec<(String, JsonValue)>, key: &str, value: JsonValue)
    ensures
        entries_view(final(out)@, final(out)@.len() as int) == entries_view(old(out)@, old(out)@.len() as int).push((key@, json_view(value))),
{
    let ghost before = out@;
    out.push((key.to_owned(), value));
    proof {
        lemma_entries_view_prefix(out@, before);
    }
}

fn push_opt_text_member(out: &mut Vec<(String, JsonValue)>, key: &str, value: &Option<String>)
    ensures
        entries_view(final(out)@, final(out)@.len() as int) == entries_view(old(out)@, old(out)@.len() as int) + text_member(key@, opt_view(*value)),
{
    reveal(text_member);
    match value {
        Some(v) => push_member(out, key, JsonValue::String(v.clone())),
        None => {},
    }
    assert(entries_view(out@, out@.len() as int) =~= entries_view(old(out)@, old(out)@.len() as int) + text_member(key@, opt_view(*value)));
}

fn text_array(v: &Vec<String>) -> (r: JsonValue)
    ensures
        json_view(r) == JsonView::Array(texts_view(v@).map_values(|s: Seq<char>| JsonView::String(s))),
{
    let mut items: Vec<JsonValue> = Vec::new();
    let mut i: usize = 0;
    while i < v.len()
        invariant
            i <= v.len(),
            items@.len() == i,
            crate::json::items_view(items@, i as int) == texts_view(v@.take(i as int)).map_values(|s: Seq<char>| JsonView::String(s)),
        decreases v.len() - i,
    {
        let ghost before = items@;
        let item = JsonValue::String(v[i].clone());
        assert(json_view(item) == JsonView::String(v@[i as int]@));
        items.push(item);
        proof {
            crate::json::lemma_items_view_prefix(items@, before);
            assert(crate::json::items_view(items@, i + 1) == crate::json::items_view(items@, i as int).push(json_view(items@[i as int])));
            assert(texts_view(v@.take(i + 1)).map_values(|s: Seq<char>| JsonView::String(s)) =~= texts_view(v@.take(i as int)).map_values(|s: Seq<char>| JsonView::String(s)).push(JsonView::String(v@[i as int]@)));
        }
        i = i + 1;
    }
    assert(v@.take(v.len() as int) =~= v@);
    JsonValue::Array(items)
}

fn push_texts_member(out: &mut Vec<(String, JsonValue)>, key: &str, value: &Vec<String>)
    ensures
        entries_view(final(out)@, final(out)@.len() as int) == entries_view(old(out)@, old(out)@.len() as int) + texts_member(key@, texts_view(value@)),
{
    reveal(texts_member);
    if value.len() > 0 {
        push_member(out, key, text_array(value));
    }
    assert(entries_view(out@, out@.len() as int) =~= entries_view(old(out)@, old(out)@.len() as int) + texts_member(key@, texts_view(value@)));
}

fn author_value(a: &AuthorReference) -> (r: JsonValue)
    ensures
        json_view(r) == author_json(author_view(*a)),
{
    let mut members: Vec<(String, JsonValue)> = Vec::new();
    proof {
        lemma_entries_view_len(members@, 0);
    }
    match a {
        AuthorReference::Id { id } => push_member(&mut members, "id", JsonValue::Number(decimal_string(*id))),
        AuthorReference::Name { name } => push_member(&mut members, "name", JsonValue::String(name.clone())),
    }
    assert(entries_view(members@, members@.len() as int) =~= match author_json(author_view(*a)) {
        JsonView::Object(es) => es,
        _ => Seq::empty(),
    });
    JsonValue::Object(members)
}

impl ArticleMetadata {
    /// Starts building article metadata.
    pub fn builder() -> (r: ArticleMetadataBuilder)
        ensures
            r.fields() == empty_fields(),
    {
        ArticleMetadataBuilder::empty()
    }

    /// The JSON payload sent when creating or updating an article.
    #[verifier::rlimit(60)]
    pub fn to_payload(&self) -> (r: JsonValue)
        ensures
            json_view(r) == payload(*self),
    {
        let ghost f = self.fields();
        let mut object: Vec<(String, JsonValue)> = Vec::new();
        proof {
            lemma_entries_view_len(object@, 0);
        }
        push_member(&mut object, "title", JsonValue::String(self.title.clone()));
        assert(entries_view(object@, object@.len() as int) =~= seq![("title"@, JsonView::String(f.title.unwrap()))]);
        let dt = self.defined_type.api_name().to_owned();
        push_member(&mut object, "defined_type", JsonValue::String(dt));
        assert(seq![("defined_type"@, JsonView::String(defined_type_name(f.defined_type.unwrap())))] =~= seq![("defined_type"@, JsonView::String(dt@))]);
        push_opt_text_member(&mut object, "description", &self.description);
        push_texts_member(&mut object, "tags", &self.tags);
        push_texts_member(&mut object, "keywords", &self.keywords);
        push_texts_member(&mut object, "references", &self.references);
        push_categories(&mut object, &self.categories);
        push_authors(&mut object, &self.authors);
        push_custom(&mut object, &self.custom_fields);
        push_opt_text_member(&mut object, "funding", &self.funding);
        push_license(&mut object, self.license);
        push_doi(&mut object, &self.doi);
        push_opt_text_member(&mut object, "resource_doi", &self.resource_doi);
        push_opt_text_member(&mut object, "resource_title", &self.resource_title);
        assert(f.categories =~= self.categories@.map_values(|c: CategoryId| c.0));
        assert(f.authors =~= self.authors@.map_values(|a: AuthorReference| author_view(a)));
        assert(f.tags =~= texts_view(self.tags@));
        assert(f.keywords =~= texts_view(self.keywords@));
        assert(f.references =~= texts_view(self.references@));
        assert(f.license == match self.license { Some(x) => Some(x.0), None => None::<u64> });
        assert(f.doi == match self.doi { Some(x) => Some(x.0@), None => None::<Seq<char>> });
        assert(entries_view(object@, object@.len() as int) == payload_members(f));
        JsonValue::Object(object)
    }
}

fn push_categories(out: &mut Vec<(String, JsonValue)>, v: &Vec<CategoryId>)
    ensures
        entries_view(final(out)@, final(out)@.len() as int) == entries_view(old(out)@, old(out)@.len() as int) + categories_member(v@.map_values(|c: CategoryId| c.0)),
{
    reveal(categories_member);
    if v.len() > 0 {
        push_member(out, "categories", category_array(v));
    }
    assert(entries_view(out@, out@.len() as int) =~= entries_view(old(out)@, old(out)@.len() as int) + categories_member(v@.map_values(|c: CategoryId| c.0)));
}

fn push_authors(out: &mut Vec<(String, JsonValue)>, v: &Vec<AuthorReference>)
    ensures
        entries_view(final(out)@, final(out)@.len() as int) == entries_view(old(out)@, old(out)@.len() as int) + authors_member(v@.map_values(|a: AuthorReference| author_view(a))),
{
    reveal(authors_member);
    if v.len() > 0 {
        push_member(out, "authors", author_array(v));
    }
    assert(entries_view(out@, out@.len() as int) =~= entries_view(old(out)@, old(out)@.len() as int) + authors_member(v@.map_values(|a: AuthorReference| author_view(a))));
}

fn push_custom(out: &mut Vec<(String, JsonValue)>, v: &Vec<(String, JsonValue)>)
    ensures
        entries_view(final(out)@, final(out)@.len() as int) == entries_view(old(out)@, old(out)@.len() as int) + custom_member(set_fields(entries_view(v@, v@.len() as int))),
{
    reveal(custom_member);
    let custom = collect_fields(v);
    if custom.len() > 0 {
        proof {
            lemma_entries_view_len(custom@, custom@.len() as int);
        }
        push_member(out, "custom_fields", JsonValue::Object(custom));
    }
    assert(entries_view(out@, out@.len() as int) =~= entries_view(old(out)@, old(out)@.len() as int) + custom_member(set_fields(entries_view(v@, v@.len() as int))));
}

fn push_license(out: &mut Vec<(String, JsonValue)>, l: Option<LicenseId>)
    ensures
        entries_view(final(out)@, final(out)@.len() as int) == entries_view(old(out)@, old(out)@.len() as int) + license_member(match l {
            Some(x) => Some(x.0),
            None => None,
        }),
{
    reveal(license_member);
    if let Some(license) = l {
        push_member(out, "license", JsonValue::Number(decimal_string(license.0)));
    }
    assert(entries_view(out@, out@.len() as int) =~= entries_view(old(out)@, old(out)@.len() as int) + license_member(match l {
        Some(x) => Some(x.0),
        None => None,
    }));
}

fn push_doi(out: &mut Vec<(String, JsonValue)>, d: &Option<Doi>)
    ensures
        entries_view(final(out)@, final(out)@.len() as int) == entries_view(old(out)@, old(out)@.len() as int) + text_member("doi"@, match d {
            Some(x) => Some(x.0@),
            None => None,
        }),
{
    reveal(text_member);
    if let Some(doi) = d {
        push_member(out, "doi", JsonValue::String(doi.to_display_string()));
    }
    assert(entries_view(out@, out@.len() as int) =~= entries_view(old(out)@, old(out)@.len() as int) + text_member("doi"@, match d {
        Some(x) => Some(x.0@),
        None => None,
    }));
}

fn category_array(v: &Vec<CategoryId>) -> (r: JsonValue)
    ensures
        json_view(r) == JsonView::Array(v@.map_values(|c: CategoryId| c.0).map_values(|c: u64| JsonView::Number(decimal(c as nat)))),
{
    let mut items: Vec<JsonValue> = Vec::new();
    let mut i: usize = 0;
    while i < v.len()
        invariant
            i <= v.len(),
            items@.len() == i,
            crate::json::items_view(items@, i as int) == v@.take(i as int).map_values(|c: CategoryId| c.0).map_values(|c: u64| JsonView::Number(decimal(c as nat))),
        decreases v.len() - i,
    {
        let ghost before = items@;
        let item = JsonValue::Number(decimal_string(v[i].0));
        assert(json_view(item) == JsonView::Number(decimal(v@[i as int].0 as nat)));
        items.push(item);
        proof {
            crate::json::lemma_items_view_prefix(items@, before);
            assert(crate::json::items_view(items@, i + 1) == crate::json::items_view(items@, i as int).push(json_view(items@[i as int])));
            assert(v@.take(i + 1).map_values(|c: CategoryId| c.0).map_values(|c: u64| JsonView::Number(decimal(c as nat))) =~= v@.take(i as int).map_values(|c: CategoryId| c.0).map_values(|c: u64| JsonView::Number(decimal(c as nat))).push(JsonView::Number(decimal(v@[i as int].0 as nat))));
        }
        i = i + 1;
    }
    assert(v@.take(v.len() as int) =~= v@);
    JsonValue::Array(items)
}

fn author_array(v: &Vec<AuthorReference>) -> (r: JsonValue)
    ensures
        json_view(r) == JsonView::Array(v@.map_values(|a: AuthorReference| author_view(a)).map_values(|a: AuthorView| author_json(a))),
{
    let mut items: Vec<JsonValue> = Vec::new();
    let mut i: usize = 0;
    while i < v.len()
        invariant
            i <= v.len(),
            items@.len() == i,
            crate::json::items_view(items@, i as int) == v@.take(i as int).map_values(|a: AuthorReference| author_view(a)).map_values(|a: AuthorView| author_json(a)),
        decreases v.len() - i,
    {
        let ghost before = items@;
        items.push(author_value(&v[i]));
        proof {
            crate::json::lemma_items_view_prefix(items@, before);
            assert(v@.take(i + 1).map_values(|a: AuthorReference| author_view(a)).map_values(|a: AuthorView| author_json(a)) =~= v@.take(i as int).map_values(|a: AuthorReference| author_view(a)).map_values(|a: AuthorView| author_json(a)).push(author_json(author_view(v@[i as int]))));
        }
        i = i + 1;
    }
    assert(v@.take(v.len() as int) =~= v@);
    JsonValue::Array(items)
}

/// The fields of a builder that has set nothing.
pub open spec fn empty_fields() -> MetadataFields {
    MetadataFields {
        title: None,
        description: None,
        defined_type: None,
        tags: Seq::empty(),
        keywords: Seq::empty(),
        references: Seq::empty(),
        categories: Seq::empty(),
        authors: Seq::empty(),
        custom_fields: Seq::empty(),
        funding: None,
        license: None,
        doi: None,
        resource_doi: None,
        resource_title: None,
    }
}

/// One call on a metadata builder, with the values it passes.
pub enum MetadataCall {
    /// `title`.
    Title(Seq<char>),
    /// `description`.
    Description(Seq<char>),
    /// `defined_type`.
    DefinedType(DefinedType),
    /// `tag`.
    Tag(Seq<char>),
    /// `keyword`.
    Keyword(Seq<char>),
    /// `reference`.
    Reference(Seq<char>),
    /// `category_id`.
    Category(u64),
    /// `author`, `author_id` or `author_named`.
    Author(AuthorView),
    /// `custom_field_json` or `custom_field_text`.
    CustomField(Seq<char>, JsonView),
    /// `funding`.
    Funding(Seq<char>),
    /// `license_id`.
    License(u64),
    /// `doi`.
    Doi(Seq<char>),
    /// `resource_doi`.
    ResourceDoi(Seq<char>),
    /// `resource_title`.
    ResourceTitle(Seq<char>),
}

/// The fields after one builder call: a setter replaces its field, an adder
/// appends to its list, a custom field is set in the map of custom fields.
pub open spec fn apply_call(f: MetadataFields, c: MetadataCall) -> MetadataFields {
    match c {
        MetadataCall::Title(t) => MetadataFields { title: Some(t), ..f },
        MetadataCall::Description(d) => MetadataFields { description: Some(d), ..f },
        MetadataCall::DefinedType(t) => MetadataFields { defined_type: Some(t), ..f },
        MetadataCall::Tag(t) => MetadataFields { tags: f.tags.push(t), ..f },
        MetadataCall::Keyword(k) => MetadataFields { keywords: f.keywords.push(k), ..f },
        MetadataCall::Reference(r) => MetadataFields { references: f.references.push(r), ..f },
        MetadataCall::Category(c) => MetadataFields { categories: f.categories.push(c), ..f },
        MetadataCall::Author(a) => MetadataFields { authors: f.authors.push(a), ..f },
        MetadataCall::CustomField(n, v) => MetadataFields { custom_fields: set_field(f.custom_fields, n, v), ..f },
        MetadataCall::Funding(x) => MetadataFields { funding: Some(x), ..f },
        MetadataCall::License(l) => MetadataFields { license: Some(l), ..f },
        MetadataCall::Doi(d) => MetadataFields { doi: Some(d), ..f },
        MetadataCall::ResourceDoi(d) => MetadataFields { resource_doi: Some(d), ..f },
        MetadataCall::ResourceTitle(t) => MetadataFields { resource_title: Some(t), ..f },
    }
}

/// The fields after a sequence of builder calls on a fresh builder.
pub open spec fn apply_calls(calls: Seq<MetadataCall>) -> MetadataFields
    decreases calls.len(),
{
    if calls.len() == 0 {
        empty_fields()
    } else {
        apply_call(apply_calls(calls.drop_last()), calls.last())
    }
}

/// The value of the last call that `pick` selects, if any.
pub open spec fn last_picked<T>(calls: Seq<MetadataCall>, pick: spec_fn(MetadataCall) -> Option<T>) -> Option<T>
    decreases calls.len(),
{
    if calls.len() == 0 {
        None
    } else if pick(calls.last()) is Some {
        pick(calls.last())
    } else {
        last_picked(calls.drop_last(), pick)
    }
}

/// The values of the calls that `pick` selects, in call order.
pub open spec fn all_picked<T>(calls: Seq<MetadataCall>, pick: spec_fn(MetadataCall) -> Option<T>) -> Seq<T>
    decreases calls.len(),
{
    if calls.len() == 0 {
        Seq::empty()
    } else {
        match pick(calls.last()) {
            Some(x) => all_picked(calls.drop_last(), pick).push(x),
            None => all_picked(calls.drop_last(), pick),
        }
    }
}

/// Whether some call in the sequence sets the title.
pub open spec fn sets_title(calls: Seq<MetadataCall>) -> bool {
    exists|i: int| 0 <= i < calls.len() && #[trigger] calls[i] is Title
}

/// Whether some call in the sequence sets the defined type.
pub open spec fn sets_defined_type(calls: Seq<MetadataCall>) -> bool {
    exists|i: int| 0 <= i < calls.len() && #[trigger] calls[i] is DefinedType
}

/// Any sequence of builder calls on a fresh builder leaves each optional
/// field with the value last set (none when never set), each list with the
/// values added in call order, and the custom fields as a map from each name
/// to the value last set for it, ordered by name. `build` then succeeds
/// exactly when both a title and a defined type were set.
pub proof fn lemma_builder_calls(calls: Seq<MetadataCall>)
    ensures
        apply_calls(calls).title == last_picked(calls, |c: MetadataCall| match c {
            MetadataCall::Title(t) => Some(t),
            _ => None,
        }),
        apply_calls(calls).description == last_picked(calls, |c: MetadataCall| match c {
            MetadataCall::Description(d) => Some(d),
            _ => None,
        }),
        apply_calls(calls).defined_type == last_picked(calls, |c: MetadataCall| match c {
            MetadataCall::DefinedType(t) => Some(t),
            _ => None,
        }),
        apply_calls(calls).funding == last_picked(calls, |c: MetadataCall| match c {
            MetadataCall::Funding(x) => Some(x),
            _ => None,
        }),
        apply_calls(calls).license == last_picked(calls, |c: MetadataCall| match c {
            MetadataCall::License(l) => Some(l),
            _ => None,
        }),
        apply_calls(calls).doi == last_picked(calls, |c: MetadataCall| match c {
            MetadataCall::Doi(d) => Some(d),
            _ => None,
        }),
        apply_calls(calls).resource_doi == last_picked(calls, |c: MetadataCall| match c {
            MetadataCall::ResourceDoi(d) => Some(d),
            _ => None,
        }),
        apply_calls(calls).resource_title == last_picked(calls, |c: MetadataCall| match c {
            MetadataCall::ResourceTitle(t) => Some(t),
            _ => None,
        }),
        apply_calls(calls).tags == all_picked(calls, |c: MetadataCall| match c {
            MetadataCall::Tag(t) => Some(t),
            _ => None,
        }),
        apply_calls(calls).keywords == all_picked(calls, |c: MetadataCall| match c {
            MetadataCall::Keyword(k) => Some(k),
            _ => None,
        }),
        apply_calls(calls).references == all_picked(calls, |c: MetadataCall| match c {
            MetadataCall::Reference(r) => Some(r),
            _ => None,
        }),
        apply_calls(calls).categories == all_picked(calls, |c: MetadataCall| match c {
            MetadataCall::Category(x) => Some(x),
            _ => None,
        }),
        apply_calls(calls).authors == all_picked(calls, |c: MetadataCall| match c {
            MetadataCall::Author(a) => Some(a),
            _ => None,
        }),
        names_ordered(apply_calls(calls).custom_fields),
        forall|name: Seq<char>| #[trigger] field_value(apply_calls(calls).custom_fields, name) == last_picked(
            calls,
            |c: MetadataCall| match c {
                MetadataCall::CustomField(n, v) => if n == name {
                    Some(v)
                } else {
                    None
                },
                _ => None,
            },
        ),
        apply_calls(calls).title is Some <==> sets_title(calls),
        apply_calls(calls).defined_type is Some <==> sets_defined_type(calls),
    decreases calls.len(),
{
    if calls.len() > 0 {
        let init = calls.drop_last();
        let f0 = apply_calls(init);
        lemma_builder_calls(init);
        if let MetadataCall::CustomField(n, v) = calls.last() {
            lemma_set_field_ordered(f0.custom_fields, n, v);
            assert forall|name: Seq<char>| #[trigger] field_value(apply_calls(calls).custom_fields, name) == last_picked(
                calls,
                |c: MetadataCall| match c {
                    MetadataCall::CustomField(n, v) => if n == name {
                        Some(v)
                    } else {
                        None
                    },
                    _ => None,
                },
            ) by {
                lemma_set_field_value(f0.custom_fields, n, v, name);
            }
        }
        assert(sets_title(calls) <==> (calls.last() is Title || sets_title(init))) by {
            if calls.last() is Title {
                assert(calls[calls.len() - 1] is Title);
            }
            if sets_title(init) {
                let i = choose|i: int| 0 <= i < init.len() && #[trigger] init[i] is Title;
                assert(calls[i] == init[i]);
            }
            if sets_title(calls) {
                let i = choose|i: int| 0 <= i < calls.len() && #[trigger] calls[i] is Title;
                if i < init.len() {
                    assert(calls[i] == init[i]);
                }
            }
        }
        assert(sets_defined_type(calls) <==> (calls.last() is DefinedType || sets_defined_type(init))) by {
            if calls.last() is DefinedType {
                assert(calls[calls.len() - 1] is DefinedType);
            }
            if sets_defined_type(init) {
                let i = choose|i: int| 0 <= i < init.len() && #[trigger] init[i] is DefinedType;
                assert(calls[i] == init[i]);
            }
            if sets_defined_type(calls) {
                let i = choose|i: int| 0 <= i < calls.len() && #[trigger] calls[i] is DefinedType;
                if i < init.len() {
                    assert(calls[i] == init[i]);
                }
            }
        }
    }
}

/// Builder for article metadata.
#[derive(Clone, Debug)]
pub struct ArticleMetadataBuilder {
    title: Option<String>,
    description: Option<String>,
    defined_type: Option<DefinedType>,
    tags: Vec<String>,
    keywords: Vec<String>,
    references: Vec<String>,
    categories: Vec<CategoryId>,
    authors: Vec<AuthorReference>,
    custom_fields: FieldMap,
    funding: Option<String>,
    license: Option<LicenseId>,
    doi: Option<Doi>,
    resource_doi: Option<String>,
    resource_title: Option<String>,
}

impl ArticleMetadataBuilder {
    /// The fields collected so far.
    pub closed spec fn fields(self) -> MetadataFields {
        MetadataFields {
            title: opt_view(self.title),
            description: opt_view(self.description),
            defined_type: self.defined_type,
            tags: texts_view(self.tags@),
            keywords: texts_view(self.keywords@),
            references: texts_view(self.references@),
            categories: self.categories@.map_values(|c: CategoryId| c.0),
            authors: self.authors@.map_values(|a: AuthorReference| author_view(a)),
            custom_fields: self.custom_fields.view_entries(),
            funding: opt_view(self.funding),
            license: match self.license {
                Some(l) => Some(l.0),
                None => None,
            },
            doi: match self.doi {
                Some(d) => Some(d.0@),
                None => None,
            },
            resource_doi: opt_view(self.resource_doi),
            resource_title: opt_view(self.resource_title),
        }
    }

    fn empty() -> (r: ArticleMetadataBuilder)
        ensures
            r.fields() == empty_fields(),
    {
        let r = ArticleMetadataBuilder {
            title: None,
            description: None,
            defined_type: None,
            tags: Vec::new(),
            keywords: Vec::new(),
            references: Vec::new(),
            categories: Vec::new(),
            authors: Vec::new(),
            custom_fields: FieldMap::new(),
            funding: None,
            license: None,
            doi: None,
            resource_doi: None,
            resource_title: None,
        };
        assert(r.fields().tags =~= Seq::<Seq<char>>::empty());
        assert(r.fields().keywords =~= Seq::<Seq<char>>::empty());
        assert(r.fields().references =~= Seq::<Seq<char>>::empty());
        assert(r.fields().categories =~= Seq::<u64>::empty());
        assert(r.fields().authors =~= Seq::<AuthorView>::empty());
        assert(r.fields().custom_fields =~= Seq::<(Seq<char>, JsonView)>::empty());
        r
    }
}

impl ArticleMetadataBuilder {
    /// Sets the title.
    pub fn title(self, title: &str) -> (r: Self)
        ensures
            r.fields() == apply_call(self.fields(), MetadataCall::Title(title@)),
    {
        let mut b = self;
        b.title = Some(title.to_owned());
        b
    }

    /// Sets the description.
    pub fn description(self, description: &str) -> (r: Self)
        ensures
            r.fields() == apply_call(self.fields(), MetadataCall::Description(description@)),
    {
        let mut b = self;
        b.description = Some(description.to_owned());
        b
    }

    /// Sets the defined type.
    pub fn defined_type(self, defined_type: DefinedType) -> (r: Self)
        ensures
            r.fields() == apply_call(self.fields(), MetadataCall::DefinedType(defined_type)),
    {
        let mut b = self;
        b.defined_type = Some(defined_type);
        b
    }

    /// Sets the funding field.
    pub fn funding(self, funding: &str) -> (r: Self)
        ensures
            r.fields() == apply_call(self.fields(), MetadataCall::Funding(funding@)),
    {
        let mut b = self;
        b.funding = Some(funding.to_owned());
        b
    }

    /// Sets the related resource DOI.
    pub fn resource_doi(self, resource_doi: &str) -> (r: Self)
        ensures
            r.fields() == apply_call(self.fields(), MetadataCall::ResourceDoi(resource_doi@)),
    {
        let mut b = self;
        b.resource_doi = Some(resource_doi.to_owned());
        b
    }

    /// Sets the related resource title.
    pub fn resource_title(self, resource_title: &str) -> (r: Self)
        ensures
            r.fields() == apply_call(self.fields(), MetadataCall::ResourceTitle(resource_title@)),
    {
        let mut b = self;
        b.resource_title = Some(resource_title.to_owned());
        b
    }

    /// Adds one tag.
    pub fn tag(self, tag: &str) -> (r: Self)
        ensures
            r.fields() == apply_call(self.fields(), MetadataCall::Tag(tag@)),
    {
        let mut b = self;
        let ghost before = b.tags@;
        b.tags.push(tag.to_owned());
        assert(texts_view(b.tags@) =~= texts_view(before).push(tag@));
        b
    }

    /// Adds one keyword.
    pub fn keyword(self, keyword: &str) -> (r: Self)
        ensures
            r.fields() == apply_call(self.fields(), MetadataCall::Keyword(keyword@)),
    {
        let mut b = self;
        let ghost before = b.keywords@;
        b.keywords.push(keyword.to_owned());
        assert(texts_view(b.keywords@) =~= texts_view(before).push(keyword@));
        b
    }

    /// Adds one reference URL or citation.
    pub fn reference(self, reference: &str) -> (r: Self)
        ensures
            r.fields() == apply_call(self.fields(), MetadataCall::Reference(reference@)),
    {
        let mut b = self;
        let ghost before = b.references@;
        b.references.push(reference.to_owned());
        assert(texts_view(b.references@) =~= texts_view(before).push(reference@));
        b
    }

    /// Adds one category ID.
    pub fn category_id(self, category: u64) -> (r: Self)
        ensures
            r.fields() == apply_call(self.fields(), MetadataCall::Category(category)),
    {
        let mut b = self;
        let ghost before = b.categories@;
        b.categories.push(CategoryId(category));
        assert(b.categories@.map_values(|c: CategoryId| c.0) =~= before.map_values(|c: CategoryId| c.0).push(category));
        b
    }

    /// Adds one author reference.
    pub fn author(self, author: AuthorReference) -> (r: Self)
        ensures
            r.fields() == apply_call(self.fields(), MetadataCall::Author(author_view(author))),
    {
        let mut b = self;
        let ghost before = b.authors@;
        let ghost a = author;
        b.authors.push(author);
        assert(b.authors@.map_values(|x: AuthorReference| author_view(x)) =~= before.map_values(|x: AuthorReference| author_view(x)).push(author_view(a)));
        b
    }

    /// Adds one author by ID.
    pub fn author_id(self, author_id: u64) -> (r: Self)
        ensures
            r.fields() == apply_call(self.fields(), MetadataCall::Author(AuthorView::Id(author_id))),
    {
        self.author(AuthorReference::id(author_id))
    }

    /// Adds one author by name.
    pub fn author_named(self, name: &str) -> (r: Self)
        ensures
            r.fields() == apply_call(self.fields(), MetadataCall::Author(AuthorView::Name(name@))),
    {
        self.author(AuthorReference::name(name))
    }

    /// Sets one custom field to a JSON value; a later value for the same name
    /// replaces an earlier one.
    pub fn custom_field_json(self, name: &str, value: JsonValue) -> (r: Self)
        ensures
            r.fields() == apply_call(self.fields(), MetadataCall::CustomField(name@, json_view(value))),
    {
        let mut b = self;
        b.custom_fields.set(name.to_owned(), value);
        b
    }

    /// Sets one custom field to a string.
    pub fn custom_field_text(self, name: &str, value: &str) -> (r: Self)
        ensures
            r.fields() == apply_call(self.fields(), MetadataCall::CustomField(name@, JsonView::String(value@))),
    {
        self.custom_field_json(name, JsonValue::String(value.to_owned()))
    }

    /// Sets the license ID.
    pub fn license_id(self, license: u64) -> (r: Self)
        ensures
            r.fields() == apply_call(self.fields(), MetadataCall::License(license)),
    {
        let mut b = self;
        b.license = Some(LicenseId(license));
        b
    }

    /// Sets the DOI.
    pub fn doi(self, doi: Doi) -> (r: Self)
        ensures
            r.fields() == apply_call(self.fields(), MetadataCall::Doi(doi.0@)),
    {
        let mut b = self;
        b.doi = Some(doi);
        b
    }

    /// Finishes the builder: the title and the defined type are required.
    pub fn build(self) -> (r: Result<ArticleMetadata, ArticleMetadataBuildError>)
        ensures
            self.fields().title is None ==> r == Err::<ArticleMetadata, ArticleMetadataBuildError>(ArticleMetadataBuildError::MissingTitle),
            self.fields().title is Some && self.fields().defined_type is None ==> r == Err::<ArticleMetadata, ArticleMetadataBuildError>(ArticleMetadataBuildError::MissingDefinedType),
            self.fields().title is Some && self.fields().defined_type is Some ==> (r matches Ok(m) && m.fields() == self.fields()),
    {
        let title = match self.title {
            Some(t) => t,
            None => return Err(ArticleMetadataBuildError::MissingTitle),
        };
        let defined_type = match self.defined_type {
            Some(d) => d,
            None => return Err(ArticleMetadataBuildError::MissingDefinedType),
        };
        let ghost custom_view = self.custom_fields.view_entries();
        let custom_fields = self.custom_fields.into_entries();
        proof {
            lemma_set_fields_of_ordered(custom_view);
        }
        Ok(ArticleMetadata {
            title,
            description: self.description,
            defined_type,
            tags: self.tags,
            keywords: self.keywords,
            references: self.references,
            categories: self.categories,
            authors: self.authors,
            custom_fields,
            funding: self.funding,
            license: self.license,
            doi: self.doi,
            resource_doi: self.resource_doi,
            resource_title: self.resource_title,
        })
    }
}

} // verus!
