//! What holds of every extraction.

use vstd::prelude::*;
use crate::extract::{
    assembled, describes, errors_of, group, instruction_of, program_id_of, record_of,
    PatternError,
};
use crate::fields::{error_codes_of, ERROR_CODE_BASE};
use crate::model::{ErrorModel, InstructionModel, ProgramInfo, ProgramModel, RecordModel, TypedName};

verus! {

/// Two extractions from the same text agree: both give the same
/// description, or both name the same rule.
pub proof fn same_text_same_description(
    text: Seq<char>,
    first: Result<ProgramInfo, PatternError>,
    second: Result<ProgramInfo, PatternError>,
)
    requires
        describes(first, text),
        describes(second, text),
    ensures
        first is Ok <==> second is Ok,
        first is Ok ==> first->Ok_0.deep_view() == second->Ok_0.deep_view(),
        first is Err ==> first->Err_0 == second->Err_0,
{
}

/// The error codes of a body count up from `ERROR_CODE_BASE` by one, in
/// the order of the variants, and every message is its variant's name.
pub proof fn error_codes_count_up(body: Seq<char>)
    ensures
        forall|i: int|
            0 <= i < error_codes_of(body).len() ==> {
                &&& (#[trigger] error_codes_of(body)[i]).code == ERROR_CODE_BASE + i
                &&& error_codes_of(body)[i].message == error_codes_of(body)[i].name
            },
{
}

/// The program identifier is group 1 of the match that was found, and
/// empty where none was found.
pub proof fn program_id_is_first_group(found: Option<Seq<Option<Seq<char>>>>)
    ensures
        found is None ==> program_id_of(found) == Seq::<char>::empty(),
        found is Some && found->0.len() > 1 && found->0[1] is Some ==> program_id_of(found)
            == found->0[1]->0,
{
}

/// An instruction whose match has no argument list has no arguments.
pub proof fn no_argument_list_no_arguments(groups: Seq<Option<Seq<char>>>)
    requires
        groups.len() > 3 ==> groups[3] is None,
    ensures
        instruction_of(groups).name == group(groups, 1),
        instruction_of(groups).arguments == Seq::<TypedName>::empty(),
{
}

/// A struct that the account rule and the struct rule both match, with
/// the same name and body, stands for the same record in both lists.
pub proof fn both_rules_one_record(
    by_account_rule: Seq<Option<Seq<char>>>,
    by_struct_rule: Seq<Option<Seq<char>>>,
)
    requires
        group(by_account_rule, 1) == group(by_struct_rule, 1),
        group(by_account_rule, 2) == group(by_struct_rule, 2),
    ensures
        record_of(by_account_rule) == record_of(by_struct_rule),
{
}

/// Where no rule finds anything, the description has an empty identifier
/// and four empty lists.
pub proof fn nothing_found_nothing_described()
    ensures
        assembled(None, Seq::empty(), Seq::empty(), None, Seq::empty()) == (ProgramModel {
            program_id: Seq::empty(),
            instructions: Seq::empty(),
            accounts: Seq::empty(),
            errors: Seq::empty(),
            structs: Seq::empty(),
        }),
{
    assert(assembled(None, Seq::empty(), Seq::empty(), None, Seq::empty()).instructions
        =~= Seq::<InstructionModel>::empty());
    assert(assembled(None, Seq::empty(), Seq::empty(), None, Seq::empty()).accounts
        =~= Seq::<RecordModel>::empty());
    assert(errors_of(None) =~= Seq::<ErrorModel>::empty());
}

} // verus!
