//! The path resolver: maps an extension, a nesting level and the
//! alternate-naming flag to the relative destination directory.

use vstd::prelude::*;
use vstd::string::StringExecFns;
use crate::table::ExtensionRecord;
use crate::table::RecordView;
use crate::table::extension_table;
use crate::table::lookup;
use crate::table::lookup_spec;
use crate::table::spec_extension_table;
use crate::table::table_has;
use crate::table::table_view;
use crate::table::lemma_lookup_characterization;

verus! {

/// The sub-bucket name when alternate naming is not in effect: the
/// record's sort directory, or the extension itself when absent.
pub open spec fn base_name(r: RecordView, ext: Seq<char>) -> Seq<char> {
    match r.sort_directory {
        Some(s) => s,
        None => ext,
    }
}

/// The sub-bucket name at nesting level 2 with alternate naming: the
/// alternate name, else the sort directory, else the extension.
pub open spec fn alt_base_name(r: RecordView, ext: Seq<char>) -> Seq<char> {
    match r.alternate_name {
        Some(a) => a,
        None => base_name(r, ext),
    }
}

/// What the resolver returns, for every table and every input it admits.
///
/// An extension absent from the table lands in the single-segment
/// "other" bucket. A hit yields the bare category at level 1; the
/// category plus one sub-bucket segment at level 2, and at level 3
/// without alternate naming; and at level 3 with alternate naming, the
/// alternate name stands as an extra middle segment when the record has
/// one.
pub open spec fn resolve_spec(
    t: Seq<RecordView>,
    ext: Seq<char>,
    nesting_level: u8,
    use_alt: bool,
) -> Seq<char> {
    match lookup_spec(t, ext) {
        None => "other"@,
        Some(r) => {
            if nesting_level == 1 {
                r.category
            } else if use_alt && nesting_level == 2 {
                r.category + "/"@ + alt_base_name(r, ext)
            } else if use_alt && nesting_level == 3 {
                match r.alternate_name {
                    Some(a) => r.category + "/"@ + a + "/"@ + base_name(r, ext),
                    None => r.category + "/"@ + base_name(r, ext),
                }
            } else {
                r.category + "/"@ + base_name(r, ext)
            }
        },
    }
}

/// Resolves against an explicit table.
pub fn resolve_with(table: &Vec<ExtensionRecord>, ext: &str, nesting_level: u8, use_alt: bool) -> (r:
    String)
    requires
        1 <= nesting_level <= 3,
    ensures
        r@ == resolve_spec(table_view(table@), ext@, nesting_level, use_alt),
{
    let rec = match lookup(table, ext) {
        None => {
            return "other".to_owned();
        },
        Some(rec) => rec,
    };
    let mut path: String = rec.category.to_owned();
    if nesting_level == 1 {
        return path;
    }
    path.append("/");
    if use_alt && nesting_level == 2 {
        match rec.alternate_name {
            Some(a) => path.append(a),
            None => match rec.sort_directory {
                Some(s) => path.append(s),
                None => path.append(ext),
            },
        }
    } else if use_alt && nesting_level == 3 {
        if let Some(a) = rec.alternate_name {
            path.append(a);
            path.append("/");
        }
        match rec.sort_directory {
            Some(s) => path.append(s),
            None => path.append(ext),
        }
    } else {
        match rec.sort_directory {
            Some(s) => path.append(s),
            None => path.append(ext),
        }
    }
    path
}

/// The destination subdirectory for a file with this extension, under
/// the fixed classification table.
///
/// The nesting level must be 1, 2 or 3: any other value is a caller
/// bug, ruled out here rather than handled at run time.
pub fn get_subdir_by_extension(ext: &str, nesting_level: u8, use_alt: bool) -> (r: String)
    requires
        1 <= nesting_level <= 3,
    ensures
        r@ == resolve_spec(spec_extension_table(), ext@, nesting_level, use_alt),
{
    let table = extension_table();
    resolve_with(&table, ext, nesting_level, use_alt)
}

/// An extension absent from the table resolves to the "other" bucket,
/// at every valid nesting level and under either alternate-naming flag.
pub proof fn lemma_unclassified_goes_to_other(
    t: Seq<RecordView>,
    ext: Seq<char>,
    nesting_level: u8,
    use_alt: bool,
)
    requires
        !table_has(t, ext),
        1 <= nesting_level <= 3,
    ensures
        resolve_spec(t, ext, nesting_level, use_alt) == "other"@,
{
    lemma_lookup_characterization(t, ext);
}

/// The resolver is a function of its arguments: two results obtained
/// from the same table and inputs are the same path.
pub proof fn lemma_resolve_deterministic(
    t: Seq<RecordView>,
    ext: Seq<char>,
    nesting_level: u8,
    use_alt: bool,
    r1: Seq<char>,
    r2: Seq<char>,
)
    requires
        r1 == resolve_spec(t, ext, nesting_level, use_alt),
        r2 == resolve_spec(t, ext, nesting_level, use_alt),
    ensures
        r1 == r2,
{
}

/// At nesting level 1 a table hit resolves to the bare category, with
/// or without alternate naming.
pub proof fn lemma_level_one_is_category(
    t: Seq<RecordView>,
    ext: Seq<char>,
    r: RecordView,
    use_alt: bool,
)
    requires
        lookup_spec(t, ext) == Some(r),
    ensures
        resolve_spec(t, ext, 1, use_alt) == r.category,
{
}

/// A table hit with neither an alternate name nor a sort directory
/// resolves, at level 2, to category/extension under either flag.
pub proof fn lemma_level_two_default(t: Seq<RecordView>, ext: Seq<char>, r: RecordView)
    requires
        lookup_spec(t, ext) == Some(r),
        r.alternate_name is None,
        r.sort_directory is None,
    ensures
        resolve_spec(t, ext, 2, true) == resolve_spec(t, ext, 2, false),
        resolve_spec(t, ext, 2, false) == r.category + "/"@ + ext,
{
}

/// Without alternate naming, nesting levels 2 and 3 resolve alike: the
/// extra level collapses to the same two-segment path.
pub proof fn lemma_levels_collapse_without_alt(
    t: Seq<RecordView>,
    ext: Seq<char>,
)
    ensures
        resolve_spec(t, ext, 2, false) == resolve_spec(t, ext, 3, false),
{
}

} // verus!
