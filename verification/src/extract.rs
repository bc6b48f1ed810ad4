//! The five recognition rules and the assembly of what they find.

use vstd::prelude::*;
use crate::fields::{
    arguments_of, error_codes_of, fields_of, parse_arguments, parse_error_codes, parse_fields,
    ERROR_CODE_BASE,
};
use crate::model::{
    AccountInfo, ErrorInfo, ErrorModel, InstructionInfo, InstructionModel, ProgramInfo,
    ProgramModel, RecordModel, StructInfo, TypedName,
};
use crate::patterns::{
    all_matches, first_match, groups_fit, regex_all_matches, regex_first_match,
};

verus! {

/// The declaration of the program identifier; group 1 is the identifier.
pub const PROGRAM_ID_PATTERN: &'static str = r#"declare_id!\("([^"]+)"\)"#;

/// An exported function whose first parameter is `ctx: Context<..>`;
/// group 1 is its name, group 3 the rest of its parameters, if any.
pub const INSTRUCTION_PATTERN: &'static str = r#"pub fn (\w+)\(ctx: Context<([^>]+)>(?:, ([^)]+))?\)"#;

/// A struct marked as a bundle of accounts, with one parameter list in
/// angle brackets; group 1 is its name, group 2 its body up to the first
/// closing brace.
pub const ACCOUNT_PATTERN: &'static str =
    r#"#\[derive\(Accounts\)\]\s+pub struct (\w+)<[^>]*>\s*\{([^}]+)\}"#;

/// The error enumeration; group 1 is its body up to the first closing
/// brace.
pub const ERROR_ENUM_PATTERN: &'static str = r#"pub enum Error\s*\{([^}]+)\}"#;

/// Any struct, with or without a parameter list in angle brackets; group 1
/// is its name, group 2 its body up to the first closing brace.
pub const STRUCT_PATTERN: &'static str = r#"pub struct (\w+)(?:<[^>]*>)?\s*\{([^}]+)\}"#;

/// The recognition rules.
#[derive(Debug, Clone, Copy, PartialEq, Eq)]
pub enum Rule {
    ProgramId,
    Instruction,
    Account,
    ErrorEnum,
    Struct,
}

/// The pattern of a rule was refused.
#[derive(Debug, Clone, Copy, PartialEq, Eq)]
pub struct PatternError {
    pub rule: Rule,
}

/// The text of group `i` of a match, empty where the match has no such
/// group or the group took no part in it.
pub open spec fn group(groups: Seq<Option<Seq<char>>>, i: int) -> Seq<char> {
    if 0 <= i < groups.len() {
        match groups[i] {
            Some(t) => t,
            None => Seq::empty(),
        }
    } else {
        Seq::empty()
    }
}

/// The program identifier: group 1 of the match, empty without a match.
pub open spec fn program_id_of(found: Option<Seq<Option<Seq<char>>>>) -> Seq<char> {
    match found {
        Some(groups) => group(groups, 1),
        None => Seq::empty(),
    }
}

/// The instruction that a match of `INSTRUCTION_PATTERN` declares.
pub open spec fn instruction_of(groups: Seq<Option<Seq<char>>>) -> InstructionModel {
    InstructionModel { name: group(groups, 1), arguments: arguments_of(group(groups, 3)) }
}

/// The instructions that the matches declare, in their order.
pub open spec fn instructions_of(found: Seq<Seq<Option<Seq<char>>>>) -> Seq<InstructionModel> {
    Seq::new(found.len(), |i: int| instruction_of(found[i]))
}

/// The struct that a match of `ACCOUNT_PATTERN` or of `STRUCT_PATTERN`
/// declares.
pub open spec fn record_of(groups: Seq<Option<Seq<char>>>) -> RecordModel {
    RecordModel { name: group(groups, 1), fields: fields_of(group(groups, 2)) }
}

/// The structs that the matches declare, in their order.
pub open spec fn records_of(found: Seq<Seq<Option<Seq<char>>>>) -> Seq<RecordModel> {
    Seq::new(found.len(), |i: int| record_of(found[i]))
}

/// The body of the error enumeration: group 1 of the match, empty without
/// a match.
pub open spec fn error_body_of(found: Option<Seq<Option<Seq<char>>>>) -> Seq<char> {
    match found {
        Some(groups) => group(groups, 1),
        None => Seq::empty(),
    }
}

/// The error codes: those of group 1 of the match, none without a match.
pub open spec fn errors_of(found: Option<Seq<Option<Seq<char>>>>) -> Seq<ErrorModel> {
    match found {
        Some(groups) => error_codes_of(group(groups, 1)),
        None => Seq::empty(),
    }
}

/// The description put together from what the five rules found. No list
/// is held against another.
pub open spec fn assembled(
    id: Option<Seq<Option<Seq<char>>>>,
    instructions: Seq<Seq<Option<Seq<char>>>>,
    accounts: Seq<Seq<Option<Seq<char>>>>,
    errors: Option<Seq<Option<Seq<char>>>>,
    structs: Seq<Seq<Option<Seq<char>>>>,
) -> ProgramModel {
    ProgramModel {
        program_id: program_id_of(id),
        instructions: instructions_of(instructions),
        accounts: records_of(accounts),
        errors: errors_of(errors),
        structs: records_of(structs),
    }
}

/// What the extraction makes of `text`: the description assembled from
/// the five searches, or the first rule, in the order of `Rule`, whose
/// pattern was refused.
pub open spec fn extraction(text: Seq<char>) -> Result<ProgramModel, PatternError> {
    let id = regex_first_match(PROGRAM_ID_PATTERN@, text);
    let instructions = regex_all_matches(INSTRUCTION_PATTERN@, text);
    let accounts = regex_all_matches(ACCOUNT_PATTERN@, text);
    let errors = regex_first_match(ERROR_ENUM_PATTERN@, text);
    let structs = regex_all_matches(STRUCT_PATTERN@, text);
    if id is None {
        Err(PatternError { rule: Rule::ProgramId })
    } else if instructions is None {
        Err(PatternError { rule: Rule::Instruction })
    } else if accounts is None {
        Err(PatternError { rule: Rule::Account })
    } else if errors is None {
        Err(PatternError { rule: Rule::ErrorEnum })
    } else if structs is None {
        Err(PatternError { rule: Rule::Struct })
    } else {
        Ok(assembled(id->0, instructions->0, accounts->0, errors->0, structs->0))
    }
}

/// Whether `r` is what the extraction makes of `text`.
pub open spec fn describes(r: Result<ProgramInfo, PatternError>, text: Seq<char>) -> bool {
    match r {
        Ok(info) => extraction(text) == Ok::<ProgramModel, PatternError>(info.deep_view()),
        Err(e) => extraction(text) == Err::<ProgramModel, PatternError>(e),
    }
}

/// Searches `text` for the first match of `pattern`, on behalf of `rule`.
/// A pattern that does not compile is reported as the rule's.
pub fn search_first(rule: Rule, pattern: &str, text: &str) -> (r: Result<
    Option<Vec<Option<String>>>,
    PatternError,
>)
    ensures
        match r {
            Ok(found) => {
                &&& regex_first_match(pattern@, text@) == Some(found.deep_view())
                &&& found matches Some(groups) ==> groups_fit(groups.deep_view(), text@)
            },
            Err(e) => regex_first_match(pattern@, text@) is None && e.rule == rule,
        },
{
    match first_match(pattern, text) {
        Ok(found) => Ok(found),
        Err(_) => Err(PatternError { rule }),
    }
}

/// Searches `text` for all matches of `pattern`, on behalf of `rule`. A
/// pattern that does not compile is reported as the rule's.
pub fn search_all(rule: Rule, pattern: &str, text: &str) -> (r: Result<
    Vec<Vec<Option<String>>>,
    PatternError,
>)
    ensures
        match r {
            Ok(found) => regex_all_matches(pattern@, text@) == Some(found.deep_view()),
            Err(e) => regex_all_matches(pattern@, text@) is None && e.rule == rule,
        },
{
    match all_matches(pattern, text) {
        Ok(found) => Ok(found),
        Err(_) => Err(PatternError { rule }),
    }
}

/// The text of group `i` of a match.
pub fn group_text(groups: &Vec<Option<String>>, i: usize) -> (r: String)
    ensures
        r@ == group(groups.deep_view(), i as int),
{
    if i < groups.len() {
        match &groups[i] {
            Some(t) => t.clone(),
            None => String::new(),
        }
    } else {
        String::new()
    }
}

/// The program identifier that a search for `PROGRAM_ID_PATTERN` found.
pub fn program_id_from(found: &Option<Vec<Option<String>>>) -> (r: String)
    ensures
        r@ == program_id_of(found.deep_view()),
{
    match found {
        Some(groups) => group_text(groups, 1),
        None => String::new(),
    }
}

/// The instruction of one match of `INSTRUCTION_PATTERN`.
pub fn instruction_from(groups: &Vec<Option<String>>) -> (r: InstructionInfo)
    ensures
        r.deep_view() == instruction_of(groups.deep_view()),
{
    let name = group_text(groups, 1);
    let list = group_text(groups, 3);
    InstructionInfo { name, arguments: parse_arguments(list.as_str()) }
}

/// The instructions of the matches of `INSTRUCTION_PATTERN`.
pub fn instructions_from(found: &Vec<Vec<Option<String>>>) -> (r: Vec<InstructionInfo>)
    ensures
        r.deep_view() == instructions_of(found.deep_view()),
{
    let mut out: Vec<InstructionInfo> = Vec::new();
    let mut i: usize = 0;
    while i < found.len()
        invariant
            i <= found@.len(),
            out@.len() == i,
            forall|k: int|
                0 <= k < i ==> (#[trigger] out@[k]).deep_view() == instruction_of(
                    found.deep_view()[k],
                ),
        decreases found@.len() - i,
    {
        out.push(instruction_from(&found[i]));
        i += 1;
    }
    assert(out.deep_view() =~= instructions_of(found.deep_view()));
    out
}

/// The account struct of one match of `ACCOUNT_PATTERN`.
pub fn account_from(groups: &Vec<Option<String>>) -> (r: AccountInfo)
    ensures
        r.deep_view() == record_of(groups.deep_view()),
{
    let name = group_text(groups, 1);
    let body = group_text(groups, 2);
    AccountInfo { name, fields: parse_fields(body.as_str()) }
}

/// The account structs of the matches of `ACCOUNT_PATTERN`.
pub fn accounts_from(found: &Vec<Vec<Option<String>>>) -> (r: Vec<AccountInfo>)
    ensures
        r.deep_view() == records_of(found.deep_view()),
{
    let mut out: Vec<AccountInfo> = Vec::new();
    let mut i: usize = 0;
    while i < found.len()
        invariant
            i <= found@.len(),
            out@.len() == i,
            forall|k: int|
                0 <= k < i ==> (#[trigger] out@[k]).deep_view() == record_of(found.deep_view()[k]),
        decreases found@.len() - i,
    {
        out.push(account_from(&found[i]));
        i += 1;
    }
    assert(out.deep_view() =~= records_of(found.deep_view()));
    out
}

/// The struct of one match of `STRUCT_PATTERN`.
pub fn struct_from(groups: &Vec<Option<String>>) -> (r: StructInfo)
    ensures
        r.deep_view() == record_of(groups.deep_view()),
{
    let name = group_text(groups, 1);
    let body = group_text(groups, 2);
    StructInfo { name, fields: parse_fields(body.as_str()) }
}

/// The structs of the matches of `STRUCT_PATTERN`.
pub fn structs_from(found: &Vec<Vec<Option<String>>>) -> (r: Vec<StructInfo>)
    ensures
        r.deep_view() == records_of(found.deep_view()),
{
    let mut out: Vec<StructInfo> = Vec::new();
    let mut i: usize = 0;
    while i < found.len()
        invariant
            i <= found@.len(),
            out@.len() == i,
            forall|k: int|
                0 <= k < i ==> (#[trigger] out@[k]).deep_view() == record_of(found.deep_view()[k]),
        decreases found@.len() - i,
    {
        out.push(struct_from(&found[i]));
        i += 1;
    }
    assert(out.deep_view() =~= records_of(found.deep_view()));
    out
}

/// The error codes that a search for `ERROR_ENUM_PATTERN` found. The
/// body must leave room for its codes in a `u32`.
pub fn errors_from(found: &Option<Vec<Option<String>>>) -> (r: Vec<ErrorInfo>)
    requires
        error_body_of(found.deep_view()).len() + ERROR_CODE_BASE <= u32::MAX,
    ensures
        r.deep_view() == errors_of(found.deep_view()),
{
    match found {
        Some(groups) => {
            let body = group_text(groups, 1);
            parse_error_codes(body.as_str())
        },
        None => {
            let out: Vec<ErrorInfo> = Vec::new();
            assert(out.deep_view() =~= Seq::<ErrorModel>::empty());
            out
        },
    }
}

/// Puts the description together from what the five searches found. The
/// body of the error enumeration must leave room for its codes in a `u32`.
pub fn assemble(
    id: &Option<Vec<Option<String>>>,
    instructions: &Vec<Vec<Option<String>>>,
    accounts: &Vec<Vec<Option<String>>>,
    errors: &Option<Vec<Option<String>>>,
    structs: &Vec<Vec<Option<String>>>,
) -> (r: ProgramInfo)
    requires
        error_body_of(errors.deep_view()).len() + ERROR_CODE_BASE <= u32::MAX,
    ensures
        r.deep_view() == assembled(
            id.deep_view(),
            instructions.deep_view(),
            accounts.deep_view(),
            errors.deep_view(),
            structs.deep_view(),
        ),
{
    ProgramInfo {
        program_id: program_id_from(id),
        instructions: instructions_from(instructions),
        accounts: accounts_from(accounts),
        errors: errors_from(errors),
        structs: structs_from(structs),
    }
}

/// Extracts the interface description from the source text of a program.
/// The five rules search the same text and know nothing of each other. A
/// fragment that fits no rule is passed over. The text must leave room
/// for its error codes in a `u32`.
pub fn parse_program_info(content: &str) -> (r: Result<ProgramInfo, PatternError>)
    requires
        content@.len() + ERROR_CODE_BASE <= u32::MAX,
    ensures
        describes(r, content@),
{
    let id = match search_first(Rule::ProgramId, PROGRAM_ID_PATTERN, content) {
        Ok(found) => found,
        Err(e) => { return Err(e); },
    };
    let instructions = match search_all(Rule::Instruction, INSTRUCTION_PATTERN, content) {
        Ok(found) => found,
        Err(e) => { return Err(e); },
    };
    let accounts = match search_all(Rule::Account, ACCOUNT_PATTERN, content) {
        Ok(found) => found,
        Err(e) => { return Err(e); },
    };
    let errors = match search_first(Rule::ErrorEnum, ERROR_ENUM_PATTERN, content) {
        Ok(found) => found,
        Err(e) => { return Err(e); },
    };
    let structs = match search_all(Rule::Struct, STRUCT_PATTERN, content) {
        Ok(found) => found,
        Err(e) => { return Err(e); },
    };
    Ok(assemble(&id, &instructions, &accounts, &errors, &structs))
}

} // verus!
