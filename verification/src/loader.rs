use vstd::prelude::*;

use crate::program::Program;

verus! {

/// Why one config file did not yield an entry: its text did not decode
/// as a table at all, or a required string field is missing. The fields
/// are checked in order: title, then description, then command.
#[derive(Clone, Copy, PartialEq, Eq, Structural, Debug)]
pub enum ConfigError {
    Undecodable,
    MissingTitle,
    MissingDescription,
    MissingCommand,
}

/// Decode one config file's fields into an entry. Every field is
/// required; the first missing one, in the order title, description,
/// command, is the reported error. With all three present the decode
/// always succeeds and keeps the field values exactly.
pub fn program_from_fields(
    title: Option<String>,
    description: Option<String>,
    command: Option<String>,
) -> (r: Result<Program, ConfigError>)
    ensures
        title is None ==> r == Err::<Program, ConfigError>(ConfigError::MissingTitle),
        title is Some && description is None ==> r == Err::<Program, ConfigError>(
            ConfigError::MissingDescription,
        ),
        title is Some && description is Some && command is None ==> r == Err::<
            Program,
            ConfigError,
        >(ConfigError::MissingCommand),
        (match (title, description, command) {
            (Some(t), Some(d), Some(c)) => r matches Ok(p) && p@.title == t@ && p@.description
                == d@ && p@.command == c@,
            _ => true,
        }),
{
    match (title, description, command) {
        (Some(t), Some(d), Some(c)) => Ok(Program::new(t, d, c)),
        (None, _, _) => Err(ConfigError::MissingTitle),
        (Some(_), None, _) => Err(ConfigError::MissingDescription),
        (Some(_), Some(_), None) => Err(ConfigError::MissingCommand),
    }
}

/// The entries among a sequence of per-file decode results, in order.
pub open spec fn oks_of(results: Seq<Result<Program, ConfigError>>) -> Seq<Program>
    decreases results.len(),
{
    if results.len() == 0 {
        Seq::empty()
    } else {
        let rest = oks_of(results.drop_last());
        match results.last() {
            Ok(p) => rest.push(p),
            Err(_) => rest,
        }
    }
}

/// How many of a sequence of per-file decode results failed.
pub open spec fn err_count_of(results: Seq<Result<Program, ConfigError>>) -> nat
    decreases results.len(),
{
    if results.len() == 0 {
        0
    } else {
        err_count_of(results.drop_last()) + match results.last() {
            Ok(_) => 0nat,
            Err(_) => 1nat,
        }
    }
}

/// Fold the per-file decode results of one directory scan into the
/// entry list and the number of diagnostics: the successfully decoded
/// entries in scan order, and one diagnostic per failed file. A failure
/// is never fatal and never disturbs the order of the entries around
/// it.
pub fn collect_loaded(results: &Vec<Result<Program, ConfigError>>) -> (r: (Vec<Program>, usize))
    ensures
        r.0@ == oks_of(results@),
        r.1 as nat == err_count_of(results@),
{
    let mut programs: Vec<Program> = Vec::new();
    let mut diagnostics: usize = 0;
    let mut i: usize = 0;
    while i < results.len()
        invariant
            i <= results@.len(),
            programs@ == oks_of(results@.take(i as int)),
            diagnostics as nat == err_count_of(results@.take(i as int)),
            diagnostics <= i,
        decreases results@.len() - i,
    {
        proof {
            assert(results@.take(i as int + 1).drop_last() =~= results@.take(i as int));
            assert(results@.take(i as int + 1).last() == results@[i as int]);
        }
        match &results[i] {
            Ok(p) => {
                programs.push(p.duplicate());
            },
            Err(_) => {
                diagnostics = diagnostics + 1;
            },
        }
        i = i + 1;
    }
    proof {
        assert(results@.take(results@.len() as int) =~= results@);
    }
    (programs, diagnostics)
}

/// Law: a directory scan accounts for every file exactly once — the
/// number of loaded entries plus the number of diagnostics equals the
/// number of files scanned.
pub proof fn lemma_load_accounts_for_every_file(results: Seq<Result<Program, ConfigError>>)
    ensures
        oks_of(results).len() + err_count_of(results) == results.len(),
    decreases results.len(),
{
    if results.len() > 0 {
        lemma_load_accounts_for_every_file(results.drop_last());
    }
}

} // verus!
