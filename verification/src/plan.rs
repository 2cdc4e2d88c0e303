//! Move planning: the decision half of the mover. Given the entries of a
//! source directory as plain values, compute which files move where; the
//! binary performs the renames.

use vstd::prelude::*;
use crate::resolve::resolve_spec;
use crate::resolve::resolve_with;
use crate::table::ExtensionRecord;
use crate::table::RecordView;
use crate::table::extension_table;
use crate::table::spec_extension_table;
use crate::table::str_eq;
use crate::table::table_view;

verus! {

/// One directory entry, as the mover sees it: its file name and its
/// extension, absent for entries without one (those are skipped).
pub struct FileEntry {
    pub name: String,
    pub extension: Option<String>,
}

/// The mathematical content of one directory entry.
pub ghost struct FileEntryView {
    pub name: Seq<char>,
    pub extension: Option<Seq<char>>,
}

impl View for FileEntry {
    type V = FileEntryView;

    open spec fn view(&self) -> FileEntryView {
        FileEntryView {
            name: self.name@,
            extension: match self.extension {
                Some(e) => Some(e@),
                None => None,
            },
        }
    }
}

impl DeepView for FileEntry {
    type V = FileEntryView;

    open spec fn deep_view(&self) -> FileEntryView {
        self.view()
    }
}

/// One planned move: a file name and the destination subdirectory,
/// relative to the output directory, that the resolver chose for it.
pub struct MovePlan {
    pub file_name: String,
    pub dest_subdir: String,
}

/// The mathematical content of one planned move.
pub ghost struct MovePlanView {
    pub file_name: Seq<char>,
    pub dest_subdir: Seq<char>,
}

impl View for MovePlan {
    type V = MovePlanView;

    open spec fn view(&self) -> MovePlanView {
        MovePlanView { file_name: self.file_name@, dest_subdir: self.dest_subdir@ }
    }
}

/// The model of a whole plan: the views of its moves, in order.
pub open spec fn plan_view(p: Seq<MovePlan>) -> Seq<MovePlanView> {
    p.map_values(|m: MovePlan| m@)
}

/// The full sort plan: one move per entry with an extension, in
/// directory order, each sent where the resolver puts its extension;
/// entries without an extension are skipped.
pub open spec fn sort_plan_spec(
    t: Seq<RecordView>,
    files: Seq<FileEntryView>,
    nesting_level: u8,
    use_alt: bool,
) -> Seq<MovePlanView>
    decreases files.len(),
{
    if files.len() == 0 {
        Seq::empty()
    } else {
        let rest = sort_plan_spec(t, files.drop_first(), nesting_level, use_alt);
        match files[0].extension {
            Some(e) => seq![
                MovePlanView {
                    file_name: files[0].name,
                    dest_subdir: resolve_spec(t, e, nesting_level, use_alt),
                },
            ] + rest,
            None => rest,
        }
    }
}

/// Splitting off the first entry splits the plan accordingly.
proof fn lemma_sort_plan_step(
    t: Seq<RecordView>,
    files: Seq<FileEntryView>,
    i: int,
    nesting_level: u8,
    use_alt: bool,
)
    requires
        0 <= i < files.len(),
    ensures
        sort_plan_spec(t, files.skip(i), nesting_level, use_alt) == (match files[i].extension {
            Some(e) => seq![
                MovePlanView {
                    file_name: files[i].name,
                    dest_subdir: resolve_spec(t, e, nesting_level, use_alt),
                },
            ] + sort_plan_spec(t, files.skip(i + 1), nesting_level, use_alt),
            None => sort_plan_spec(t, files.skip(i + 1), nesting_level, use_alt),
        }),
{
    assert(files.skip(i).len() > 0);
    assert(files.skip(i)[0] == files[i]);
    assert(files.skip(i).drop_first() =~= files.skip(i + 1));
}

/// Plans a full sort of a directory listing against the fixed table.
pub fn plan_sort(files: &Vec<FileEntry>, nesting_level: u8, use_alt: bool) -> (plan: Vec<MovePlan>)
    requires
        1 <= nesting_level <= 3,
    ensures
        plan_view(plan@) == sort_plan_spec(
            spec_extension_table(),
            files.deep_view(),
            nesting_level,
            use_alt,
        ),
{
    let table = extension_table();
    let ghost tv = spec_extension_table();
    let ghost fv = files.deep_view();
    let mut plan: Vec<MovePlan> = Vec::new();
    let mut i: usize = 0;
    proof {
        assert(fv.skip(0) =~= fv);
    }
    while i < files.len()
        invariant
            i <= files.len(),
            fv == files.deep_view(),
            fv.len() == files@.len(),
            table_view(table@) == tv,
            tv == spec_extension_table(),
            1 <= nesting_level <= 3,
            plan_view(plan@) + sort_plan_spec(tv, fv.skip(i as int), nesting_level, use_alt)
                == sort_plan_spec(tv, fv, nesting_level, use_alt),
        decreases files.len() - i,
    {
        proof {
            assert(fv[i as int] == files@[i as int]@);
            lemma_sort_plan_step(tv, fv, i as int, nesting_level, use_alt);
        }
        let ghost plan_before = plan@;
        match files[i].extension {
            Some(ref e) => {
                let dest = resolve_with(&table, e.as_str(), nesting_level, use_alt);
                let name = files[i].name.clone();
                plan.push(MovePlan { file_name: name, dest_subdir: dest });
                proof {
                    assert(plan_view(plan@) =~= plan_view(plan_before) + seq![
                        MovePlanView {
                            file_name: fv[i as int].name,
                            dest_subdir: resolve_spec(
                                tv,
                                fv[i as int].extension->0,
                                nesting_level,
                                use_alt,
                            ),
                        },
                    ]);
                }
            },
            None => {},
        }
        proof {
            assert(plan_view(plan@) + sort_plan_spec(tv, fv.skip(i + 1), nesting_level, use_alt)
                =~= sort_plan_spec(tv, fv, nesting_level, use_alt));
        }
        i += 1;
    }
    proof {
        assert(fv.skip(files@.len() as int) =~= Seq::<FileEntryView>::empty());
        assert(plan_view(plan@) =~= plan_view(plan@) + Seq::<MovePlanView>::empty());
    }
    plan
}

/// The custom sort plan: the names of the entries whose extension
/// equals the one literal target extension, in directory order. All of
/// them land in the single flat output directory, so a name is the
/// whole move.
pub open spec fn custom_plan_spec(files: Seq<FileEntryView>, target: Seq<char>) -> Seq<Seq<char>>
    decreases files.len(),
{
    if files.len() == 0 {
        Seq::empty()
    } else {
        let rest = custom_plan_spec(files.drop_first(), target);
        if files[0].extension == Some(target) {
            seq![files[0].name] + rest
        } else {
            rest
        }
    }
}

proof fn lemma_custom_plan_step(files: Seq<FileEntryView>, i: int, target: Seq<char>)
    requires
        0 <= i < files.len(),
    ensures
        custom_plan_spec(files.skip(i), target) == (if files[i].extension == Some(target) {
            seq![files[i].name] + custom_plan_spec(files.skip(i + 1), target)
        } else {
            custom_plan_spec(files.skip(i + 1), target)
        }),
{
    assert(files.skip(i).len() > 0);
    assert(files.skip(i)[0] == files[i]);
    assert(files.skip(i).drop_first() =~= files.skip(i + 1));
}

/// Plans a custom sort: keeps exactly the files whose extension equals
/// the target, by name, in order.
pub fn plan_custom_sort(files: &Vec<FileEntry>, target_extension: &str) -> (names: Vec<String>)
    ensures
        names.deep_view() == custom_plan_spec(files.deep_view(), target_extension@),
{
    let ghost fv = files.deep_view();
    let mut names: Vec<String> = Vec::new();
    let mut i: usize = 0;
    proof {
        assert(fv.skip(0) =~= fv);
    }
    while i < files.len()
        invariant
            i <= files.len(),
            fv == files.deep_view(),
            fv.len() == files@.len(),
            names.deep_view() + custom_plan_spec(fv.skip(i as int), target_extension@)
                == custom_plan_spec(fv, target_extension@),
        decreases files.len() - i,
    {
        proof {
            assert(fv[i as int] == files@[i as int]@);
            lemma_custom_plan_step(fv, i as int, target_extension@);
        }
        let ghost names_before = names.deep_view();
        let matched: bool = match files[i].extension {
            Some(ref e) => str_eq(e.as_str(), target_extension),
            None => false,
        };
        if matched {
            names.push(files[i].name.clone());
            proof {
                assert(names.deep_view() =~= names_before + seq![fv[i as int].name]);
            }
        }
        proof {
            assert(names.deep_view() + custom_plan_spec(fv.skip(i + 1), target_extension@)
                =~= custom_plan_spec(fv, target_extension@));
        }
        i += 1;
    }
    proof {
        assert(fv.skip(files@.len() as int) =~= Seq::<FileEntryView>::empty());
        assert(names.deep_view() =~= names.deep_view() + Seq::<Seq<char>>::empty());
    }
    names
}

} // verus!
