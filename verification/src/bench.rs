//! The generator and benchmark logic: random extension drawing, the
//! generated file-name plan, and the benchmark's go / no-go decision.
//! The binary creates the files, runs the clock and deletes the output.

use vstd::prelude::*;
use rand::Rng;
use crate::table::extension_table;
use crate::table::spec_extension_table;
use crate::table::table_view;
use crate::textfmt::dec_rep;
use crate::textfmt::file_name_for;

verus! {

/// Relies on rand::Rng::gen_range over 0..bound: a draw inside the
/// non-empty range. Nothing more can be promised of a random value.
#[verifier::external_body]
fn random_index(bound: usize) -> (r: usize)
    requires
        bound >= 1,
    ensures
        r < bound,
{
    let mut rng = rand::thread_rng();
    rng.gen_range(0..bound)
}

/// Whether this string is the extension of some record of the fixed table.
pub open spec fn is_table_extension(e: Seq<char>) -> bool {
    exists|i: int|
        0 <= i < spec_extension_table().len() && (#[trigger] spec_extension_table()[i].extension)
            == e
}

/// Draws an extension from the fixed table, uniformly at random.
pub fn random_extension() -> (e: &'static str)
    ensures
        is_table_extension(e@),
{
    let table = extension_table();
    proof {
        assert(table@.len() == spec_extension_table().len());
        assert(spec_extension_table().len() > 0);
    }
    let i = random_index(table.len());
    let e = table[i].extension;
    proof {
        assert(table_view(table@)[i as int] == table@[i as int]@);
        assert(spec_extension_table()[i as int].extension == e@);
    }
    e
}

/// Whether this name is a well-formed generated file name for the given
/// index: the index in decimal, a dot, and some table extension.
pub open spec fn is_generated_name(name: Seq<char>, index: nat) -> bool {
    exists|e: Seq<char>|
        is_table_extension(e) && name == dec_rep(index) + seq!['.'] + e
}

/// The names of the files the generator creates: one per index from 1
/// up to but not including `amount`, each with a random table extension.
pub fn create_file_plan(amount: u32) -> (names: Vec<String>)
    ensures
        names@.len() == (if amount == 0 { 0int } else { amount - 1 }),
        forall|i: int| 0 <= i < names@.len() ==> is_generated_name(
            (#[trigger] names@[i])@,
            (i + 1) as nat,
        ),
{
    let mut names: Vec<String> = Vec::new();
    if amount == 0 {
        return names;
    }
    let mut index: u32 = 1;
    while index < amount
        invariant
            1 <= index <= amount,
            names@.len() == index - 1,
            forall|i: int| 0 <= i < names@.len() ==> is_generated_name(
                (#[trigger] names@[i])@,
                (i + 1) as nat,
            ),
        decreases amount - index,
    {
        let ext = random_extension();
        let name = file_name_for(index, ext);
        names.push(name);
        index += 1;
    }
    names
}

/// The benchmark's go / no-go decision on the working directory.
pub enum BenchmarkDecision {
    /// The directory is empty: generate, sort and time.
    Run,
    /// The directory holds entries: touch nothing and report a zero
    /// duration.
    Refuse,
}

/// The benchmark runs only in an empty working directory; anywhere else
/// it refuses, performing no file creation or moves.
pub fn benchmark_decision(entries_in_working_dir: usize) -> (d: BenchmarkDecision)
    ensures
        d is Run <==> entries_in_working_dir == 0,
{
    if entries_in_working_dir == 0 {
        BenchmarkDecision::Run
    } else {
        BenchmarkDecision::Refuse
    }
}

} // verus!
