//! The error domain of the format-description grammar parser.
//!
//! The grammar parser itself lives outside this crate; what this crate needs
//! of it is the richer error values it produces, each of which carries the
//! byte index of the offending position and renders as its own fixed message.

use vstd::prelude::*;
use vstd::string::StringExecFns;

use crate::digits::dec_str;
use crate::digits::render_usize;

verus! {

/// A failure of the format-description grammar parser.
pub enum InvalidFormatDescription {
    /// An opening bracket has no matching closing bracket.
    UnclosedOpeningBracket { index: usize },
    /// A component name is not one the grammar knows.
    InvalidComponentName { name: String, index: usize },
    /// A modifier is not valid for its component.
    InvalidModifier { value: String, index: usize },
    /// A bracket pair holds no component name.
    MissingComponentName { index: usize },
    /// A component lacks a modifier it requires.
    MissingRequiredModifier { name: String, index: usize },
    /// Something else was required at this position.
    Expected { what: String, index: usize },
}

/// The mathematical model of a grammar-parser failure.
pub ghost enum IfdModel {
    UnclosedOpeningBracket { index: nat },
    InvalidComponentName { name: Seq<char>, index: nat },
    InvalidModifier { value: Seq<char>, index: nat },
    MissingComponentName { index: nat },
    MissingRequiredModifier { name: Seq<char>, index: nat },
    Expected { what: Seq<char>, index: nat },
}

impl View for InvalidFormatDescription {
    type V = IfdModel;

    open spec fn view(&self) -> IfdModel {
        match self {
            InvalidFormatDescription::UnclosedOpeningBracket { index } => (
            IfdModel::UnclosedOpeningBracket { index: index as nat }),
            InvalidFormatDescription::InvalidComponentName { name, index } => (
            IfdModel::InvalidComponentName { name: name@, index: index as nat }),
            InvalidFormatDescription::InvalidModifier { value, index } => (
            IfdModel::InvalidModifier { value: value@, index: index as nat }),
            InvalidFormatDescription::MissingComponentName { index } => (
            IfdModel::MissingComponentName { index: index as nat }),
            InvalidFormatDescription::MissingRequiredModifier { name, index } => (
            IfdModel::MissingRequiredModifier { name: name@, index: index as nat }),
            InvalidFormatDescription::Expected { what, index } => (
            IfdModel::Expected { what: what@, index: index as nat }),
        }
    }
}

/// The message of a grammar-parser failure: one fixed template per variant,
/// a function of the variant's fields alone.
pub open spec fn ifd_text(m: IfdModel) -> Seq<char> {
    match m {
        IfdModel::UnclosedOpeningBracket { index } => "unclosed opening bracket at byte index "@
            + dec_str(index),
        IfdModel::InvalidComponentName { name, index } => "invalid component name `"@ + name
            + "` at byte index "@ + dec_str(index),
        IfdModel::InvalidModifier { value, index } => "invalid modifier `"@ + value
            + "` at byte index "@ + dec_str(index),
        IfdModel::MissingComponentName { index } => "missing component name at byte index "@
            + dec_str(index),
        IfdModel::MissingRequiredModifier { name, index } => "missing required modifier `"@ + name
            + "` at byte index "@ + dec_str(index),
        IfdModel::Expected { what, index } => "expected "@ + what + " at byte index "@ + dec_str(
            index,
        ),
    }
}

impl InvalidFormatDescription {
    /// Renders this failure as its message.
    pub fn message(&self) -> (r: String)
        ensures
            r@ == ifd_text(self@),
    {
        match self {
            InvalidFormatDescription::UnclosedOpeningBracket { index } => {
                let mut s = "unclosed opening bracket at byte index ".to_owned();
                s.append(render_usize(*index).as_str());
                proof {
                    assert(s@ =~= ifd_text(self@));
                }
                s
            },
            InvalidFormatDescription::InvalidComponentName { name, index } => {
                let mut s = "invalid component name `".to_owned();
                s.append(name.as_str());
                s.append("` at byte index ");
                s.append(render_usize(*index).as_str());
                proof {
                    assert(s@ =~= ifd_text(self@));
                }
                s
            },
            InvalidFormatDescription::InvalidModifier { value, index } => {
                let mut s = "invalid modifier `".to_owned();
                s.append(value.as_str());
                s.append("` at byte index ");
                s.append(render_usize(*index).as_str());
                proof {
                    assert(s@ =~= ifd_text(self@));
                }
                s
            },
            InvalidFormatDescription::MissingComponentName { index } => {
                let mut s = "missing component name at byte index ".to_owned();
                s.append(render_usize(*index).as_str());
                proof {
                    assert(s@ =~= ifd_text(self@));
                }
                s
            },
            InvalidFormatDescription::MissingRequiredModifier { name, index } => {
                let mut s = "missing required modifier `".to_owned();
                s.append(name.as_str());
                s.append("` at byte index ");
                s.append(render_usize(*index).as_str());
                proof {
                    assert(s@ =~= ifd_text(self@));
                }
                s
            },
            InvalidFormatDescription::Expected { what, index } => {
                let mut s = "expected ".to_owned();
                s.append(what.as_str());
                s.append(" at byte index ");
                s.append(render_usize(*index).as_str());
                proof {
                    assert(s@ =~= ifd_text(self@));
                }
                s
            },
        }
    }
}

} // verus!
