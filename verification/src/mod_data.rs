//! One package as currently known: the immutable record the scanner
//! builds from the archive-open outcome, the classifier verdict and the
//! embedded metadata, including the user-facing severity texts.

use vstd::prelude::*;

use crate::text::{spec_i64_dec, i64_string};

verus! {

/// The four user-facing severity tiers plus the invalid-archive tier,
/// selected by a fixed precedence over the record's flags.
#[derive(Clone, Copy, PartialEq, Eq, Structural, Debug)]
pub enum SafetyStatus {
    /// The package could not be opened as an archive.
    Invalid,
    /// Safe for public online play.
    SafeOnline,
    /// Not safe, and the active policy loads online-safe packages only.
    PolicyBlocked,
    /// Not safe and currently enabled.
    EnabledUnsafe,
    /// Not safe and currently disabled.
    DisabledUnsafe,
}

/// The tier that the fixed decision table selects: invalid wins, then
/// online-safe, then the safe-only policy, then the enabled flag.
pub open spec fn spec_status(
    is_valid: bool,
    is_online_safe: bool,
    only_online_safe: bool,
    is_enabled: bool,
) -> SafetyStatus {
    if !is_valid {
        SafetyStatus::Invalid
    } else if is_online_safe {
        SafetyStatus::SafeOnline
    } else if only_online_safe {
        SafetyStatus::PolicyBlocked
    } else if is_enabled {
        SafetyStatus::EnabledUnsafe
    } else {
        SafetyStatus::DisabledUnsafe
    }
}

/// The display colour of a tier.
pub open spec fn spec_status_color(s: SafetyStatus) -> Seq<char> {
    match s {
        SafetyStatus::Invalid => "red"@,
        SafetyStatus::SafeOnline => "greenyellow"@,
        SafetyStatus::PolicyBlocked => "orange"@,
        SafetyStatus::EnabledUnsafe => "red"@,
        SafetyStatus::DisabledUnsafe => "red"@,
    }
}

/// The tooltip text of a tier.
pub open spec fn spec_status_tooltip(s: SafetyStatus) -> Seq<char> {
    match s {
        SafetyStatus::Invalid => "Invalid .zip file"@,
        SafetyStatus::SafeOnline => "This mod is safe for use in public matches."@,
        SafetyStatus::PolicyBlocked => (
        "This mod is not safe for use in public matches. It will not be loaded."@),
        SafetyStatus::EnabledUnsafe => (
        "This mod is not safe for use in public matches. Public Battlemode matches will be disabled."@),
        SafetyStatus::DisabledUnsafe => "This mod is not safe for use in public matches."@,
    }
}

/// The icon glyph of a tier.
pub open spec fn spec_status_icon(s: SafetyStatus) -> Seq<char> {
    match s {
        SafetyStatus::Invalid => "✗"@,
        SafetyStatus::SafeOnline => "✓"@,
        SafetyStatus::PolicyBlocked => "﹗"@,
        SafetyStatus::EnabledUnsafe => "﹗"@,
        SafetyStatus::DisabledUnsafe => "﹗"@,
    }
}

pub fn status_of(
    is_valid: bool,
    is_online_safe: bool,
    only_online_safe: bool,
    is_enabled: bool,
) -> (r: SafetyStatus)
    ensures
        r == spec_status(is_valid, is_online_safe, only_online_safe, is_enabled),
{
    if !is_valid {
        SafetyStatus::Invalid
    } else if is_online_safe {
        SafetyStatus::SafeOnline
    } else if only_online_safe {
        SafetyStatus::PolicyBlocked
    } else if is_enabled {
        SafetyStatus::EnabledUnsafe
    } else {
        SafetyStatus::DisabledUnsafe
    }
}

pub fn status_color(s: SafetyStatus) -> (r: &'static str)
    ensures
        r@ == spec_status_color(s),
{
    match s {
        SafetyStatus::Invalid => "red",
        SafetyStatus::SafeOnline => "greenyellow",
        SafetyStatus::PolicyBlocked => "orange",
        SafetyStatus::EnabledUnsafe => "red",
        SafetyStatus::DisabledUnsafe => "red",
    }
}

pub fn status_tooltip(s: SafetyStatus) -> (r: &'static str)
    ensures
        r@ == spec_status_tooltip(s),
{
    match s {
        SafetyStatus::Invalid => "Invalid .zip file",
        SafetyStatus::SafeOnline => "This mod is safe for use in public matches.",
        SafetyStatus::PolicyBlocked => (
        "This mod is not safe for use in public matches. It will not be loaded."),
        SafetyStatus::EnabledUnsafe => (
        "This mod is not safe for use in public matches. Public Battlemode matches will be disabled."),
        SafetyStatus::DisabledUnsafe => "This mod is not safe for use in public matches.",
    }
}

pub fn status_icon(s: SafetyStatus) -> (r: &'static str)
    ensures
        r@ == spec_status_icon(s),
{
    match s {
        SafetyStatus::Invalid => "✗",
        SafetyStatus::SafeOnline => "✓",
        SafetyStatus::PolicyBlocked => "﹗",
        SafetyStatus::EnabledUnsafe => "﹗",
        SafetyStatus::DisabledUnsafe => "﹗",
    }
}

/// The Pango span that wraps `inner` in `color`.
pub open spec fn spec_markup(color: Seq<char>, inner: Seq<char>) -> Seq<char> {
    "<span foreground='"@ + color + "'>"@ + inner + "</span>"@
}

/// The bold Pango span that wraps `inner` in `color`.
pub open spec fn spec_markup_bold(color: Seq<char>, inner: Seq<char>) -> Seq<char> {
    "<span foreground='"@ + color + "' weight='bold'>"@ + inner + "</span>"@
}

pub fn markup_span(color: &str, inner: &str) -> (r: String)
    ensures
        r@ == spec_markup(color@, inner@),
{
    let mut s = String::from_str("<span foreground='");
    s.append(color);
    s.append("'>");
    s.append(inner);
    s.append("</span>");
    assert(s@ =~= spec_markup(color@, inner@));
    s
}

pub fn markup_span_bold(color: &str, inner: &str) -> (r: String)
    ensures
        r@ == spec_markup_bold(color@, inner@),
{
    let mut s = String::from_str("<span foreground='");
    s.append(color);
    s.append("' weight='bold'>");
    s.append(inner);
    s.append("</span>");
    assert(s@ =~= spec_markup_bold(color@, inner@));
    s
}

/// The optional metadata fields of a package's embedded declaration
/// document, before defaulting.
pub struct ModMeta {
    pub name: Option<String>,
    pub author: Option<String>,
    pub description: Option<String>,
    pub version: Option<String>,
    pub load_priority: Option<i64>,
    pub required_version: Option<i64>,
}

pub ghost struct ModMetaView {
    pub name: Option<Seq<char>>,
    pub author: Option<Seq<char>>,
    pub description: Option<Seq<char>>,
    pub version: Option<Seq<char>>,
    pub load_priority: Option<i64>,
    pub required_version: Option<i64>,
}

impl View for ModMeta {
    type V = ModMetaView;

    open spec fn view(&self) -> ModMetaView {
        ModMetaView {
            name: match self.name {
                Some(s) => Some(s@),
                None => None,
            },
            author: match self.author {
                Some(s) => Some(s@),
                None => None,
            },
            description: match self.description {
                Some(s) => Some(s@),
                None => None,
            },
            version: match self.version {
                Some(s) => Some(s@),
                None => None,
            },
            load_priority: self.load_priority,
            required_version: self.required_version,
        }
    }
}

impl ModMeta {
    /// A document with no usable fields: every one defaults.
    pub fn absent() -> (r: ModMeta)
        ensures
            r@ == spec_meta_absent(),
    {
        ModMeta {
            name: None,
            author: None,
            description: None,
            version: None,
            load_priority: None,
            required_version: None,
        }
    }
}

pub open spec fn spec_meta_absent() -> ModMetaView {
    ModMetaView {
        name: None,
        author: None,
        description: None,
        version: None,
        load_priority: None,
        required_version: None,
    }
}

/// One mod record: filename, flags, tier and the defaulted metadata
/// texts.
pub struct ModData {
    pub filename: String,
    pub is_valid: bool,
    pub is_enabled: bool,
    pub is_online_safe: bool,
    pub status: SafetyStatus,
    pub name: String,
    pub author: String,
    pub description: String,
    pub version: String,
    pub load_priority: String,
    pub required_version: String,
    pub online_safety_message: String,
    pub icon: String,
    pub tooltip: String,
}

pub ghost struct ModDataView {
    pub filename: Seq<char>,
    pub is_valid: bool,
    pub is_enabled: bool,
    pub is_online_safe: bool,
    pub status: SafetyStatus,
    pub name: Seq<char>,
    pub author: Seq<char>,
    pub description: Seq<char>,
    pub version: Seq<char>,
    pub load_priority: Seq<char>,
    pub required_version: Seq<char>,
    pub online_safety_message: Seq<char>,
    pub icon: Seq<char>,
    pub tooltip: Seq<char>,
}

impl View for ModData {
    type V = ModDataView;

    open spec fn view(&self) -> ModDataView {
        ModDataView {
            filename: self.filename@,
            is_valid: self.is_valid,
            is_enabled: self.is_enabled,
            is_online_safe: self.is_online_safe,
            status: self.status,
            name: self.name@,
            author: self.author@,
            description: self.description@,
            version: self.version@,
            load_priority: self.load_priority@,
            required_version: self.required_version@,
            online_safety_message: self.online_safety_message@,
            icon: self.icon@,
            tooltip: self.tooltip@,
        }
    }
}

/// The text of an optional string field after defaulting.
pub open spec fn spec_defaulted(field: Option<Seq<char>>, default: Seq<char>) -> Seq<char> {
    match field {
        Some(s) => s,
        None => default,
    }
}

/// The text of an optional numeric field after stringification and
/// defaulting.
pub open spec fn spec_num_defaulted(field: Option<i64>) -> Seq<char> {
    match field {
        Some(n) => spec_i64_dec(n as int),
        None => "Not specified."@,
    }
}

/// The record that `ModData::new` builds from the given flags and
/// metadata.
pub open spec fn spec_mod_data(
    filename: Seq<char>,
    is_valid: bool,
    is_enabled: bool,
    is_online_safe: bool,
    only_online_safe: bool,
    meta: ModMetaView,
) -> ModDataView {
    let status = spec_status(is_valid, is_online_safe, only_online_safe, is_enabled);
    let color = spec_status_color(status);
    let tooltip = spec_status_tooltip(status);
    let icon = spec_status_icon(status);
    ModDataView {
        filename: filename,
        is_valid: is_valid,
        is_enabled: is_enabled,
        is_online_safe: is_online_safe,
        status: status,
        name: spec_defaulted(meta.name, filename),
        author: spec_defaulted(meta.author, "Unknown."@),
        description: spec_defaulted(meta.description, "Not specified."@),
        version: spec_defaulted(meta.version, "Not specified."@),
        load_priority: spec_num_defaulted(meta.load_priority),
        required_version: spec_num_defaulted(meta.required_version),
        online_safety_message: spec_markup(color, tooltip),
        icon: spec_markup_bold(color, icon),
        tooltip: tooltip,
    }
}

fn defaulted(field: Option<String>, default: &str) -> (r: String)
    ensures
        r@ == spec_defaulted(
            match field {
                Some(s) => Some(s@),
                None => None,
            },
            default@,
        ),
{
    match field {
        Some(s) => s,
        None => String::from_str(default),
    }
}

fn num_defaulted(field: Option<i64>) -> (r: String)
    ensures
        r@ == spec_num_defaulted(field),
{
    match field {
        Some(n) => i64_string(n),
        None => String::from_str("Not specified."),
    }
}

impl ModData {
    /// Builds the record for one package from the archive-open outcome,
    /// the classifier verdict, the folder it resides in, the active
    /// policy flag and the metadata document's fields.
    pub fn new(
        filename: &str,
        is_valid: bool,
        is_enabled: bool,
        is_online_safe: bool,
        only_load_online_safe: bool,
        meta: ModMeta,
    ) -> (r: ModData)
        ensures
            r@ == spec_mod_data(
                filename@,
                is_valid,
                is_enabled,
                is_online_safe,
                only_load_online_safe,
                meta@,
            ),
    {
        let status = status_of(is_valid, is_online_safe, only_load_online_safe, is_enabled);
        let color = status_color(status);
        let tooltip = status_tooltip(status);
        let icon = status_icon(status);
        ModData {
            filename: String::from_str(filename),
            is_valid: is_valid,
            is_enabled: is_enabled,
            is_online_safe: is_online_safe,
            status: status,
            name: defaulted(meta.name, filename),
            author: defaulted(meta.author, "Unknown."),
            description: defaulted(meta.description, "Not specified."),
            version: defaulted(meta.version, "Not specified."),
            load_priority: num_defaulted(meta.load_priority),
            required_version: num_defaulted(meta.required_version),
            online_safety_message: markup_span(color, tooltip),
            icon: markup_span_bold(color, icon),
            tooltip: String::from_str(tooltip),
        }
    }

    /// A copy of this record with the same fields.
    pub fn duplicate(&self) -> (r: ModData)
        ensures
            r@ == self@,
    {
        ModData {
            filename: self.filename.clone(),
            is_valid: self.is_valid,
            is_enabled: self.is_enabled,
            is_online_safe: self.is_online_safe,
            status: self.status,
            name: self.name.clone(),
            author: self.author.clone(),
            description: self.description.clone(),
            version: self.version.clone(),
            load_priority: self.load_priority.clone(),
            required_version: self.required_version.clone(),
            online_safety_message: self.online_safety_message.clone(),
            icon: self.icon.clone(),
            tooltip: self.tooltip.clone(),
        }
    }
}

} // verus!
