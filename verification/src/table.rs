//! The extension table: static records mapping a file extension to its
//! classification, and a verified lookup over them.

use vstd::prelude::*;
use vstd::string::StrSliceExecFns;

verus! {

/// One table entry: a lower-case extension and its classification.
pub struct ExtensionRecord {
    /// The extension, lower case, without a leading dot. Unique per table.
    pub extension: &'static str,
    /// The top-level category, never empty.
    pub category: &'static str,
    /// A secondary label, honoured only when alternate naming is requested.
    pub alternate_name: Option<&'static str>,
    /// The sub-bucket name used at nesting levels 2 and 3; the extension
    /// itself stands in when absent.
    pub sort_directory: Option<&'static str>,
}

/// The mathematical content of one table entry.
pub ghost struct RecordView {
    pub extension: Seq<char>,
    pub category: Seq<char>,
    pub alternate_name: Option<Seq<char>>,
    pub sort_directory: Option<Seq<char>>,
}

impl View for ExtensionRecord {
    type V = RecordView;

    open spec fn view(&self) -> RecordView {
        RecordView {
            extension: self.extension@,
            category: self.category@,
            alternate_name: match self.alternate_name {
                Some(s) => Some(s@),
                None => None,
            },
            sort_directory: match self.sort_directory {
                Some(s) => Some(s@),
                None => None,
            },
        }
    }
}

/// The model of a whole table: the views of its records, in order.
pub open spec fn table_view(t: Seq<ExtensionRecord>) -> Seq<RecordView> {
    t.map_values(|r: ExtensionRecord| r@)
}

/// A well-formed table: unique extension keys, non-empty categories.
pub open spec fn table_wf(t: Seq<RecordView>) -> bool {
    &&& forall|i: int, j: int|
        0 <= i < j < t.len() ==> #[trigger] t[i].extension != #[trigger] t[j].extension
    &&& forall|i: int| 0 <= i < t.len() ==> (#[trigger] t[i].category).len() > 0
}

/// Whether some record of the table carries this extension.
pub open spec fn table_has(t: Seq<RecordView>, ext: Seq<char>) -> bool {
    exists|i: int| 0 <= i < t.len() && (#[trigger] t[i].extension) == ext
}

/// The first record carrying this extension, if any.
pub open spec fn lookup_spec(t: Seq<RecordView>, ext: Seq<char>) -> Option<RecordView>
    decreases t.len(),
{
    if t.len() == 0 {
        None
    } else if t[0].extension == ext {
        Some(t[0])
    } else {
        lookup_spec(t.drop_first(), ext)
    }
}

/// A lookup misses exactly when no record carries the extension, and a hit
/// returns a record of the table carrying it.
pub proof fn lemma_lookup_characterization(t: Seq<RecordView>, ext: Seq<char>)
    ensures
        lookup_spec(t, ext) is Some <==> table_has(t, ext),
        lookup_spec(t, ext) is Some ==> lookup_spec(t, ext)->0.extension == ext,
        lookup_spec(t, ext) is Some ==> exists|i: int|
            0 <= i < t.len() && #[trigger] t[i] == lookup_spec(t, ext)->0,
    decreases t.len(),
{
    if t.len() == 0 {
    } else if t[0].extension == ext {
    } else {
        lemma_lookup_characterization(t.drop_first(), ext);
        assert forall|i: int| 0 <= i < t.drop_first().len() implies #[trigger] t.drop_first()[i]
            == t[i + 1] by {}
        if table_has(t, ext) {
            let i = choose|i: int| 0 <= i < t.len() && (#[trigger] t[i].extension) == ext;
            assert(i >= 1);
            assert(t.drop_first()[i - 1].extension == ext);
        }
    }
}

/// A miss on every prefix record: the lookup is decided by the first match.
proof fn lemma_lookup_found(t: Seq<RecordView>, ext: Seq<char>, i: int)
    requires
        0 <= i < t.len(),
        t[i].extension == ext,
        forall|j: int| 0 <= j < i ==> (#[trigger] t[j].extension) != ext,
    ensures
        lookup_spec(t, ext) == Some(t[i]),
    decreases i,
{
    if i == 0 {
    } else {
        assert(t[0].extension != ext);
        assert(t.drop_first()[i - 1] == t[i]);
        assert forall|j: int| 0 <= j < i - 1 implies (#[trigger] t.drop_first()[j].extension)
            != ext by {
            assert(t.drop_first()[j] == t[j + 1]);
        }
        lemma_lookup_found(t.drop_first(), ext, i - 1);
    }
}

proof fn lemma_lookup_none(t: Seq<RecordView>, ext: Seq<char>)
    requires
        forall|j: int| 0 <= j < t.len() ==> (#[trigger] t[j].extension) != ext,
    ensures
        lookup_spec(t, ext) is None,
    decreases t.len(),
{
    if t.len() > 0 {
        assert forall|j: int| 0 <= j < t.drop_first().len() implies (
        #[trigger] t.drop_first()[j].extension) != ext by {
            assert(t.drop_first()[j] == t[j + 1]);
        }
        lemma_lookup_none(t.drop_first(), ext);
    }
}

/// Character-by-character string equality, proved against the views.
pub fn str_eq(a: &str, b: &str) -> (r: bool)
    ensures
        r == (a@ == b@),
{
    let alen = a.unicode_len();
    let blen = b.unicode_len();
    if alen != blen {
        proof {
            assert(a@ != b@);
        }
        return false;
    }
    let mut i: usize = 0;
    while i < alen
        invariant
            i <= alen,
            alen == a@.len(),
            alen == b@.len(),
            forall|j: int| 0 <= j < i ==> a@[j] == b@[j],
        decreases alen - i,
    {
        if a.get_char(i) != b.get_char(i) {
            proof {
                assert(a@[i as int] != b@[i as int]);
            }
            return false;
        }
        i += 1;
    }
    proof {
        assert(a@ =~= b@);
    }
    true
}

/// The fixed classification table, as a mathematical sequence.
///
/// It covers the categories image, video, audio, document, archive and
/// code; anything else falls through to the "other" bucket.
pub open spec fn spec_extension_table() -> Seq<RecordView> {
    seq![
        RecordView { extension: "png"@, category: "image"@, alternate_name: None, sort_directory: None },
        RecordView { extension: "jpg"@, category: "image"@, alternate_name: None, sort_directory: None },
        RecordView { extension: "gif"@, category: "image"@, alternate_name: Some("animated"@), sort_directory: None },
        RecordView { extension: "svg"@, category: "image"@, alternate_name: None, sort_directory: None },
        RecordView { extension: "mp4"@, category: "video"@, alternate_name: None, sort_directory: None },
        RecordView { extension: "qt"@, category: "video"@, alternate_name: None, sort_directory: Some("quicktime"@) },
        RecordView { extension: "mkv"@, category: "video"@, alternate_name: None, sort_directory: None },
        RecordView { extension: "avi"@, category: "video"@, alternate_name: None, sort_directory: None },
        RecordView { extension: "mp3"@, category: "audio"@, alternate_name: None, sort_directory: None },
        RecordView { extension: "wav"@, category: "audio"@, alternate_name: None, sort_directory: None },
        RecordView { extension: "flac"@, category: "audio"@, alternate_name: None, sort_directory: None },
        RecordView { extension: "pdf"@, category: "document"@, alternate_name: None, sort_directory: None },
        RecordView { extension: "txt"@, category: "document"@, alternate_name: None, sort_directory: None },
        RecordView { extension: "doc"@, category: "document"@, alternate_name: None, sort_directory: None },
        RecordView { extension: "zip"@, category: "archive"@, alternate_name: None, sort_directory: None },
        RecordView { extension: "tar"@, category: "archive"@, alternate_name: None, sort_directory: None },
        RecordView { extension: "gz"@, category: "archive"@, alternate_name: None, sort_directory: None },
        RecordView { extension: "rs"@, category: "code"@, alternate_name: None, sort_directory: None },
        RecordView { extension: "py"@, category: "code"@, alternate_name: None, sort_directory: None },
    ]
}

/// The fixed table is well-formed: its extension keys are unique and
/// its categories are non-empty.
#[verifier::rlimit(100)]
pub proof fn lemma_extension_table_wf()
    ensures
        table_wf(spec_extension_table()),
{
    reveal_strlit("png");
    reveal_strlit("jpg");
    reveal_strlit("gif");
    reveal_strlit("svg");
    reveal_strlit("mp4");
    reveal_strlit("qt");
    reveal_strlit("mkv");
    reveal_strlit("avi");
    reveal_strlit("mp3");
    reveal_strlit("wav");
    reveal_strlit("flac");
    reveal_strlit("pdf");
    reveal_strlit("txt");
    reveal_strlit("doc");
    reveal_strlit("zip");
    reveal_strlit("tar");
    reveal_strlit("gz");
    reveal_strlit("rs");
    reveal_strlit("py");
    reveal_strlit("image");
    reveal_strlit("video");
    reveal_strlit("audio");
    reveal_strlit("document");
    reveal_strlit("archive");
    reveal_strlit("code");
    let t = spec_extension_table();
    assert("png"@ =~= seq!['p', 'n', 'g']);
    assert("jpg"@ =~= seq!['j', 'p', 'g']);
    assert("gif"@ =~= seq!['g', 'i', 'f']);
    assert("svg"@ =~= seq!['s', 'v', 'g']);
    assert("mp4"@ =~= seq!['m', 'p', '4']);
    assert("qt"@ =~= seq!['q', 't']);
    assert("mkv"@ =~= seq!['m', 'k', 'v']);
    assert("avi"@ =~= seq!['a', 'v', 'i']);
    assert("mp3"@ =~= seq!['m', 'p', '3']);
    assert("wav"@ =~= seq!['w', 'a', 'v']);
    assert("flac"@ =~= seq!['f', 'l', 'a', 'c']);
    assert("pdf"@ =~= seq!['p', 'd', 'f']);
    assert("txt"@ =~= seq!['t', 'x', 't']);
    assert("doc"@ =~= seq!['d', 'o', 'c']);
    assert("zip"@ =~= seq!['z', 'i', 'p']);
    assert("tar"@ =~= seq!['t', 'a', 'r']);
    assert("gz"@ =~= seq!['g', 'z']);
    assert("rs"@ =~= seq!['r', 's']);
    assert("py"@ =~= seq!['p', 'y']);
    assert("image"@.len() == 5);
    assert("video"@.len() == 5);
    assert("audio"@.len() == 5);
    assert("document"@.len() == 8);
    assert("archive"@.len() == 7);
    assert("code"@.len() == 4);
    assert forall|i: int, j: int| 0 <= i < j < t.len() implies (#[trigger] t[i].extension) != (
    #[trigger] t[j].extension) by {
        assert(t[i].extension != t[j].extension);
    }
    assert forall|i: int| 0 <= i < t.len() implies (#[trigger] t[i].category).len() > 0 by {
        assert(t[i].category.len() > 0);
    }
}

/// Builds the fixed classification table.
pub fn extension_table() -> (t: Vec<ExtensionRecord>)
    ensures
        table_view(t@) == spec_extension_table(),
{
    let mut t: Vec<ExtensionRecord> = Vec::new();
    t.push(ExtensionRecord { extension: "png", category: "image", alternate_name: None, sort_directory: None });
    t.push(ExtensionRecord { extension: "jpg", category: "image", alternate_name: None, sort_directory: None });
    t.push(ExtensionRecord { extension: "gif", category: "image", alternate_name: Some("animated"), sort_directory: None });
    t.push(ExtensionRecord { extension: "svg", category: "image", alternate_name: None, sort_directory: None });
    t.push(ExtensionRecord { extension: "mp4", category: "video", alternate_name: None, sort_directory: None });
    t.push(ExtensionRecord { extension: "qt", category: "video", alternate_name: None, sort_directory: Some("quicktime") });
    t.push(ExtensionRecord { extension: "mkv", category: "video", alternate_name: None, sort_directory: None });
    t.push(ExtensionRecord { extension: "avi", category: "video", alternate_name: None, sort_directory: None });
    t.push(ExtensionRecord { extension: "mp3", category: "audio", alternate_name: None, sort_directory: None });
    t.push(ExtensionRecord { extension: "wav", category: "audio", alternate_name: None, sort_directory: None });
    t.push(ExtensionRecord { extension: "flac", category: "audio", alternate_name: None, sort_directory: None });
    t.push(ExtensionRecord { extension: "pdf", category: "document", alternate_name: None, sort_directory: None });
    t.push(ExtensionRecord { extension: "txt", category: "document", alternate_name: None, sort_directory: None });
    t.push(ExtensionRecord { extension: "doc", category: "document", alternate_name: None, sort_directory: None });
    t.push(ExtensionRecord { extension: "zip", category: "archive", alternate_name: None, sort_directory: None });
    t.push(ExtensionRecord { extension: "tar", category: "archive", alternate_name: None, sort_directory: None });
    t.push(ExtensionRecord { extension: "gz", category: "archive", alternate_name: None, sort_directory: None });
    t.push(ExtensionRecord { extension: "rs", category: "code", alternate_name: None, sort_directory: None });
    t.push(ExtensionRecord { extension: "py", category: "code", alternate_name: None, sort_directory: None });
    proof {
        assert(table_view(t@) =~= spec_extension_table());
    }
    t
}

/// The first record of the table carrying this extension, if any.
pub fn lookup<'a>(table: &'a Vec<ExtensionRecord>, ext: &str) -> (r: Option<&'a ExtensionRecord>)
    ensures
        match r {
            Some(rec) => lookup_spec(table_view(table@), ext@) == Some(rec@),
            None => lookup_spec(table_view(table@), ext@) is None,
        },
{
    let ghost tv = table_view(table@);
    let mut i: usize = 0;
    while i < table.len()
        invariant
            i <= table.len(),
            tv == table_view(table@),
            tv.len() == table@.len(),
            forall|j: int| 0 <= j < i ==> (#[trigger] tv[j].extension) != ext@,
        decreases table.len() - i,
    {
        if str_eq(table[i].extension, ext) {
            proof {
                assert(tv[i as int] == table@[i as int]@);
                lemma_lookup_found(tv, ext@, i as int);
            }
            return Some(&table[i]);
        }
        proof {
            assert(tv[i as int] == table@[i as int]@);
        }
        i += 1;
    }
    proof {
        lemma_lookup_none(tv, ext@);
    }
    None
}

} // verus!
