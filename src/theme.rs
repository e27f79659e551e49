use vstd::prelude::*;
use vstd::string::StringExecFns;
use crate::palette::ThemeColors;
use crate::palette::duplicate_colors;
use crate::text::lower_of;
use crate::text::lowercase;
use crate::text::str_equals;
use crate::title::dir_name_to_title;
use crate::title::title;

verus! {

/// A discovered theme, fully populated.
#[derive(Debug, Clone)]
pub struct SysTheme {
    /// Directory name of the theme.
    pub dir: String,
    /// Display name derived from the directory name.
    pub title: String,
    pub description: String,
    /// Preview image as a data URL, or empty.
    pub image: String,
    pub is_system: bool,
    pub is_custom: bool,
    /// Extracted color palette, if any source yielded one.
    pub colors: Option<ThemeColors>,
}

/// The flag-only projection of a theme, without palette or image payload.
#[derive(Debug, Clone)]
pub struct ThemeMetadata {
    pub dir: String,
    pub title: String,
    pub is_system: bool,
    pub is_custom: bool,
    pub has_colors: bool,
    pub has_image: bool,
}

/// What a scan found out about one theme directory.
#[derive(Debug, Clone)]
pub struct ThemeDirFacts {
    pub dir_name: String,
    /// The directory holds the custom-metadata file.
    pub has_custom_metadata: bool,
    /// The directory itself is a symbolic link.
    pub is_symlink: bool,
    /// The directory holds the structured color configuration file.
    pub has_color_config: bool,
}

/// One entry of a theme directory, as far as image selection reads it.
#[derive(Debug, Clone)]
pub struct DirEntryFacts {
    pub is_file: bool,
    /// The file name's extension, if it has one that is valid text.
    pub extension: Option<String>,
}

impl SysTheme {
    /// A field-by-field copy.
    pub fn duplicate(&self) -> (r: SysTheme)
        ensures
            r == *self,
    {
        SysTheme {
            dir: self.dir.clone(),
            title: self.title.clone(),
            description: self.description.clone(),
            image: self.image.clone(),
            is_system: self.is_system,
            is_custom: self.is_custom,
            colors: duplicate_colors(&self.colors),
        }
    }
}

/// A theme is custom iff it holds the custom-metadata file; it is a system theme
/// iff its directory is a symbolic link and it is not custom.
pub open spec fn classification(has_custom_metadata: bool, is_symlink: bool) -> (bool, bool) {
    (has_custom_metadata, !has_custom_metadata && is_symlink)
}

/// Classifies a theme directory as `(is_custom, is_system)`.
pub fn classify_theme_dir(has_custom_metadata: bool, is_symlink: bool) -> (r: (bool, bool))
    ensures
        r == classification(has_custom_metadata, is_symlink),
{
    if has_custom_metadata {
        (true, false)
    } else {
        (false, is_symlink)
    }
}

/// Whatever the link status, a directory with custom metadata is custom and never a
/// system theme, and the two flags are never both set.
pub proof fn lemma_custom_takes_precedence(has_custom_metadata: bool, is_symlink: bool)
    ensures
        has_custom_metadata ==> classification(has_custom_metadata, is_symlink) == (true, false),
        !(classification(has_custom_metadata, is_symlink).0 && classification(
            has_custom_metadata,
            is_symlink,
        ).1),
{
}

/// The description given to a theme found in directory `d`.
pub open spec fn description_of(d: Seq<char>) -> Seq<char> {
    "Auto-generated theme from "@ + d
}

/// Builds the description of a theme found in directory `dir_name`.
pub fn theme_description(dir_name: &str) -> (r: String)
    ensures
        r@ == description_of(dir_name@),
{
    let mut s = String::from_str("Auto-generated theme from ");
    s.append(dir_name);
    s
}

/// The image file extensions that a preview may have, compared in lowercase.
pub open spec fn is_image_ext(lower: Seq<char>) -> bool {
    lower == "png"@ || lower == "jpg"@ || lower == "jpeg"@ || lower == "webp"@ || lower == "gif"@
        || lower == "svg"@
}

/// Whether `ext` names a supported image format, ignoring case.
pub fn is_image_extension(ext: &str) -> (r: bool)
    ensures
        r == is_image_ext(lower_of(ext@)),
{
    let l = lowercase(ext);
    let l = l.as_str();
    str_equals(l, "png") || str_equals(l, "jpg") || str_equals(l, "jpeg") || str_equals(l, "webp")
        || str_equals(l, "gif") || str_equals(l, "svg")
}

/// Whether a directory entry is an image file that may serve as a preview.
pub open spec fn is_image_entry(e: DirEntryFacts) -> bool {
    e.is_file && match e.extension {
        Some(x) => is_image_ext(lower_of(x@)),
        None => false,
    }
}

fn entry_is_image(e: &DirEntryFacts) -> (r: bool)
    ensures
        r == is_image_entry(*e),
{
    if !e.is_file {
        return false;
    }
    match &e.extension {
        Some(x) => is_image_extension(x.as_str()),
        None => false,
    }
}

/// The position of the first image file among `entries`, in the order given.
pub fn find_image_entry(entries: &Vec<DirEntryFacts>) -> (r: Option<usize>)
    ensures
        match r {
            Some(i) => i < entries@.len() && is_image_entry(entries@[i as int]) && forall|j: int|
                0 <= j < i ==> !is_image_entry(#[trigger] entries@[j]),
            None => forall|j: int| 0 <= j < entries@.len() ==> !is_image_entry(#[trigger] entries@[j]),
        },
{
    let mut i: usize = 0;
    while i < entries.len()
        invariant
            i <= entries@.len(),
            forall|j: int| 0 <= j < i ==> !is_image_entry(#[trigger] entries@[j]),
        decreases entries@.len() - i,
    {
        if entry_is_image(&entries[i]) {
            return Some(i);
        }
        i = i + 1;
    }
    None
}

/// Whether any of `entries` is an image file.
pub fn has_image_files(entries: &Vec<DirEntryFacts>) -> (r: bool)
    ensures
        r == exists|j: int| 0 <= j < entries@.len() && is_image_entry(#[trigger] entries@[j]),
{
    match find_image_entry(entries) {
        Some(i) => {
            assert(is_image_entry(entries@[i as int]));
            true
        },
        None => false,
    }
}

/// The metadata that a scan reports for a directory with the given facts.
pub open spec fn metadata_matches(m: ThemeMetadata, f: ThemeDirFacts, has_image: bool) -> bool {
    &&& m.dir@ == f.dir_name@
    &&& m.title@ == title(f.dir_name@)
    &&& (m.is_custom, m.is_system) == classification(f.has_custom_metadata, f.is_symlink)
    &&& m.has_colors == (f.has_custom_metadata || f.has_color_config)
    &&& m.has_image == has_image
}

/// Builds the lightweight metadata of a theme directory from what a scan found.
pub fn generate_theme_metadata(facts: &ThemeDirFacts, has_image: bool) -> (r: ThemeMetadata)
    ensures
        metadata_matches(r, *facts, has_image),
{
    let (is_custom, is_system) = classify_theme_dir(facts.has_custom_metadata, facts.is_symlink);
    ThemeMetadata {
        dir: facts.dir_name.clone(),
        title: dir_name_to_title(facts.dir_name.as_str()),
        is_system,
        is_custom,
        has_colors: facts.has_custom_metadata || facts.has_color_config,
        has_image,
    }
}

} // verus!
