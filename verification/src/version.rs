//! Application versions and the packed version numbers of the graphics API.

use vstd::prelude::*;
use crate::text::{decimal, push_char, push_decimal};

verus! {

/// The lowest version of the graphics API that a device may report and
/// still be selected: variant 0, version 1.3.286.
pub const MINIMUM_API_VERSION: u32 = 0x0040_311e;

/// A packed API version: the variant in the top three bits, then seven bits
/// of major, ten bits of minor and twelve bits of patch. Parts that are too
/// large for their field spill into the fields above, as the shifts say.
pub open spec fn packed_version(variant: u32, major: u32, minor: u32, patch: u32) -> u32 {
    (variant << 29u32) | (major << 22u32) | (minor << 12u32) | patch
}

/// `ash::vk::make_api_version`, which shifts the variant by 29 bits, the
/// major number by 22 and the minor number by 12, and joins them and the
/// patch number with bitwise or. It has no failing input.
pub assume_specification[ ash::vk::make_api_version ](
    variant: u32,
    major: u32,
    minor: u32,
    patch: u32,
) -> (packed: u32)
    ensures
        packed == packed_version(variant, major, minor, patch),
;

/// The version floor of device selection, as the graphics API packs it.
pub fn minimum_api_version() -> (floor: u32)
    ensures
        floor == MINIMUM_API_VERSION,
        floor == packed_version(0, 1, 3, 286),
{
    assert(packed_version(0, 1, 3, 286) == 0x0040_311eu32) by (bit_vector);
    ash::vk::make_api_version(0, 1, 3, 286)
}

/// What an application version holds.
pub struct VersionParts {
    pub variant: u32,
    pub major: u32,
    pub minor: u32,
    pub patch: u32,
    pub revision: Seq<char>,
}

/// The version of an application: variant (or build), major, minor, patch
/// and a revision label, written `variant.major.minor.patch-revision`.
#[derive(Debug, Clone, Copy, PartialEq, Eq, PartialOrd, Ord)]
pub struct AppVersion(u32, u32, u32, u32, &'static str);

impl View for AppVersion {
    type V = VersionParts;

    closed spec fn view(&self) -> VersionParts {
        VersionParts {
            variant: self.0,
            major: self.1,
            minor: self.2,
            patch: self.3,
            revision: self.4@,
        }
    }
}

/// The label of a version that was given no revision.
pub open spec fn default_revision() -> Seq<char> {
    "stable"@
}

/// The pattern after which a version is written.
pub open spec fn version_pattern() -> Seq<char> {
    "{self.0}.{self.1}.{self.2}.{self.3}-{self.4}"@
}

/// A version as text: the four numbers in decimal with dots between them,
/// a hyphen and the revision label.
pub open spec fn version_text(parts: VersionParts) -> Seq<char> {
    decimal(parts.variant as nat) + seq!['.'] + decimal(parts.major as nat) + seq!['.'] + decimal(
        parts.minor as nat,
    ) + seq!['.'] + decimal(parts.patch as nat) + seq!['-'] + parts.revision
}

impl AppVersion {
    /// A version from its parts. Without a revision the label is "stable".
    pub fn new(
        major: u32,
        minor: u32,
        patch: u32,
        variant: u32,
        revision: Option<&'static str>,
    ) -> (version: Self)
        ensures
            version@.variant == variant,
            version@.major == major,
            version@.minor == minor,
            version@.patch == patch,
            version@.revision == match revision {
                Some(label) => label@,
                None => default_revision(),
            },
    {
        let final_revision = match revision {
            Some(x) => x,
            None => "stable",
        };
        AppVersion(variant, major, minor, patch, final_revision)
    }

    /// The four numbers: variant, major, minor, patch.
    pub fn unpack_raw(&self) -> (parts: (u32, u32, u32, u32))
        ensures
            parts == (self@.variant, self@.major, self@.minor, self@.patch),
    {
        (self.0, self.1, self.2, self.3)
    }

    /// The four numbers and the revision label.
    pub fn unpack(&self) -> (parts: (u32, u32, u32, u32, &'static str))
        ensures
            parts.0 == self@.variant,
            parts.1 == self@.major,
            parts.2 == self@.minor,
            parts.3 == self@.patch,
            parts.4@ == self@.revision,
    {
        (self.0, self.1, self.2, self.3, self.4)
    }

    /// The pattern after which a version is written, with the positions of
    /// the five parts in braces. The parts themselves are not filled in.
    pub fn unpack_str(&self) -> (pattern: &'static str)
        ensures
            pattern@ == version_pattern(),
    {
        "{self.0}.{self.1}.{self.2}.{self.3}-{self.4}"
    }

    /// The version as text, such as `2.3.4.1-stable`.
    pub fn to_text(&self) -> (text: String)
        ensures
            text@ == version_text(self@),
    {
        let mut text = String::new();
        push_decimal(&mut text, self.0 as u64);
        push_char(&mut text, '.');
        push_decimal(&mut text, self.1 as u64);
        push_char(&mut text, '.');
        push_decimal(&mut text, self.2 as u64);
        push_char(&mut text, '.');
        push_decimal(&mut text, self.3 as u64);
        push_char(&mut text, '-');
        text.append(self.4);
        text
    }

    /// The version as the graphics API packs it.
    pub fn packed(&self) -> (packed: u32)
        ensures
            packed == packed_version(self@.variant, self@.major, self@.minor, self@.patch),
    {
        ash::vk::make_api_version(self.0, self.1, self.2, self.3)
    }
}

} // verus!
