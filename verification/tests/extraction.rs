use idl_extract::extract::{
    accounts_from, assemble, errors_from, group_text, instructions_from, parse_program_info,
    program_id_from, search_all, search_first, structs_from, PatternError, Rule,
    ACCOUNT_PATTERN, ERROR_ENUM_PATTERN, INSTRUCTION_PATTERN, PROGRAM_ID_PATTERN, STRUCT_PATTERN,
};
use idl_extract::model::{
    AccountInfo, ArgumentInfo, ErrorInfo, FieldInfo, InstructionInfo, ProgramInfo, StructInfo,
};

const SAMPLE: &str = r#"use anchor_lang::prelude::*;

declare_id!("ABC123");

#[program]
pub mod swap {
    pub fn foo(ctx: Context<Bar>, id: u64, amount: u64) -> Result<()> {
        Ok(())
    }

    pub fn baz(ctx: Context<Qux>) -> Result<()> {
        Ok(())
    }

    pub fn other(context: Context<Qux>, id: u64) -> Result<()> {
        Ok(())
    }
}

#[derive(Accounts)]
pub struct Bar<'info> {
    #[account(mut)]
    pub maker: Signer<'info>,
    pub system_program: Program<'info, System>,
}

pub struct Offer {
    pub id: u64,
    pub maker: Pubkey,
}

#[error_code]
pub enum Error {
    #[msg("too small")]
    TooSmall,
    TooLarge,
    Other,
}

declare_id!("LATER");
"#;

fn field(name: &str, ty: &str) -> FieldInfo {
    FieldInfo { name: name.to_string(), ty: ty.to_string() }
}

fn argument(name: &str, ty: &str) -> ArgumentInfo {
    ArgumentInfo { name: name.to_string(), ty: ty.to_string() }
}

fn some(s: &str) -> Option<String> {
    Some(s.to_string())
}

#[test]
fn identifier_is_the_declared_literal() {
    let info = parse_program_info("declare_id!(\"ABC123\");").unwrap();
    assert_eq!(info.program_id, "ABC123");
}

#[test]
fn identifier_is_empty_without_a_declaration() {
    let info = parse_program_info("pub fn foo(ctx: Context<Bar>) {}").unwrap();
    assert_eq!(info.program_id, "");
}

#[test]
fn identifier_is_the_first_of_several() {
    let info = parse_program_info(SAMPLE).unwrap();
    assert_eq!(info.program_id, "ABC123");
}

#[test]
fn instruction_with_two_arguments() {
    let info = parse_program_info("pub fn foo(ctx: Context<Bar>, id: u64, amount: u64)").unwrap();
    assert_eq!(
        info.instructions,
        vec![InstructionInfo {
            name: "foo".to_string(),
            arguments: vec![argument("id", "u64"), argument("amount", "u64")],
        }]
    );
}

#[test]
fn instruction_without_arguments() {
    let info = parse_program_info("pub fn baz(ctx: Context<Qux>)").unwrap();
    assert_eq!(
        info.instructions,
        vec![InstructionInfo { name: "baz".to_string(), arguments: vec![] }]
    );
}

#[test]
fn instruction_needs_the_context_parameter_by_name() {
    let info = parse_program_info("pub fn other(context: Context<Qux>, id: u64)").unwrap();
    assert_eq!(info.instructions, Vec::<InstructionInfo>::new());
}

#[test]
fn three_error_variants_get_three_codes() {
    let info = parse_program_info("pub enum Error {\n    A,\n    B,\n    C,\n}").unwrap();
    let codes: Vec<u32> = info.errors.iter().map(|e| e.code).collect();
    assert_eq!(codes, vec![6000, 6001, 6002]);
    let names: Vec<&str> = info.errors.iter().map(|e| e.name.as_str()).collect();
    assert_eq!(names, vec!["A,", "B,", "C,"]);
    for e in &info.errors {
        assert_eq!(e.message, e.name);
    }
}

#[test]
fn only_the_first_error_enumeration_counts() {
    let info =
        parse_program_info("pub enum Error { A }\npub enum Error {\n B\n}").unwrap();
    assert_eq!(
        info.errors,
        vec![ErrorInfo { name: "A".to_string(), code: 6000, message: "A".to_string() }]
    );
}

#[test]
fn two_runs_give_the_same_description() {
    let first = parse_program_info(SAMPLE);
    let second = parse_program_info(SAMPLE);
    assert!(first.is_ok());
    assert_eq!(first, second);
}

#[test]
fn empty_text_gives_an_empty_description() {
    assert_eq!(
        parse_program_info(""),
        Ok(ProgramInfo {
            program_id: String::new(),
            instructions: vec![],
            accounts: vec![],
            errors: vec![],
            structs: vec![],
        })
    );
}

#[test]
fn account_struct_stands_in_both_lists() {
    let text = "#[derive(Accounts)]\npub struct Bar<'info> {\n    #[account(mut)]\n    pub maker: Signer<'info>,\n}\n";
    let info = parse_program_info(text).unwrap();
    let fields = vec![field("maker", "Signer<'info>,")];
    assert_eq!(info.accounts, vec![AccountInfo { name: "Bar".to_string(), fields: fields.clone() }]);
    assert_eq!(info.structs, vec![StructInfo { name: "Bar".to_string(), fields }]);
}

#[test]
fn plain_struct_stands_in_the_struct_list_only() {
    let info = parse_program_info("pub struct Offer {\n    pub id: u64,\n    pub maker: Pubkey,\n}").unwrap();
    assert_eq!(info.accounts, Vec::<AccountInfo>::new());
    assert_eq!(
        info.structs,
        vec![StructInfo {
            name: "Offer".to_string(),
            fields: vec![field("id", "u64,"), field("maker", "Pubkey,")],
        }]
    );
}

#[test]
fn struct_body_ends_at_the_first_closing_brace() {
    let info = parse_program_info("pub struct S {\n a: [u8; { 1 }],\n b: u8,\n}").unwrap();
    assert_eq!(
        info.structs,
        vec![StructInfo { name: "S".to_string(), fields: vec![field("a", "[u8; { 1")] }]
    );
}

#[test]
fn whole_sample() {
    let info = parse_program_info(SAMPLE).unwrap();
    assert_eq!(info.program_id, "ABC123");
    assert_eq!(
        info.instructions,
        vec![
            InstructionInfo {
                name: "foo".to_string(),
                arguments: vec![argument("id", "u64"), argument("amount", "u64")],
            },
            InstructionInfo { name: "baz".to_string(), arguments: vec![] },
        ]
    );
    let bar = vec![field("maker", "Signer<'info>,"), field("system_program", "Program<'info, System>,")];
    assert_eq!(info.accounts, vec![AccountInfo { name: "Bar".to_string(), fields: bar.clone() }]);
    assert_eq!(
        info.structs,
        vec![
            StructInfo { name: "Bar".to_string(), fields: bar },
            StructInfo {
                name: "Offer".to_string(),
                fields: vec![field("id", "u64,"), field("maker", "Pubkey,")],
            },
        ]
    );
    let errors: Vec<(&str, u32, &str)> =
        info.errors.iter().map(|e| (e.name.as_str(), e.code, e.message.as_str())).collect();
    assert_eq!(
        errors,
        vec![("TooSmall,", 6000, "TooSmall,"), ("TooLarge,", 6001, "TooLarge,"), ("Other,", 6002, "Other,")]
    );
}

#[test]
fn refused_pattern_names_its_rule() {
    assert_eq!(search_first(Rule::ProgramId, "(", "x"), Err(PatternError { rule: Rule::ProgramId }));
    assert_eq!(search_all(Rule::Struct, "a{2,1}", "x"), Err(PatternError { rule: Rule::Struct }));
    assert_eq!(search_all(Rule::Account, "[", ""), Err(PatternError { rule: Rule::Account }));
    assert_eq!(search_first(Rule::ErrorEnum, "(?P<n>", ""), Err(PatternError { rule: Rule::ErrorEnum }));
    assert_eq!(search_all(Rule::Instruction, "\\", ""), Err(PatternError { rule: Rule::Instruction }));
}

#[test]
fn the_five_patterns_compile() {
    assert!(search_first(Rule::ProgramId, PROGRAM_ID_PATTERN, "").is_ok());
    assert!(search_all(Rule::Instruction, INSTRUCTION_PATTERN, "").is_ok());
    assert!(search_all(Rule::Account, ACCOUNT_PATTERN, "").is_ok());
    assert!(search_first(Rule::ErrorEnum, ERROR_ENUM_PATTERN, "").is_ok());
    assert!(search_all(Rule::Struct, STRUCT_PATTERN, "").is_ok());
}

#[test]
fn search_first_gives_the_groups_of_the_leftmost_match() {
    assert_eq!(
        search_first(Rule::ProgramId, "(a)(b)?(c)", "xx ac abc"),
        Ok(Some(vec![some("ac"), some("a"), None, some("c")]))
    );
    assert_eq!(search_first(Rule::ProgramId, "z+", "xx ac abc"), Ok(None));
}

#[test]
fn search_all_gives_the_groups_of_every_match_in_order() {
    assert_eq!(
        search_all(Rule::Struct, "a(b)?", "a ab"),
        Ok(vec![vec![some("a"), None], vec![some("ab"), some("b")]])
    );
    assert_eq!(search_all(Rule::Struct, "z", "a ab"), Ok(vec![]));
}

#[test]
fn group_text_is_empty_for_a_missing_group() {
    let groups = vec![some("ab"), None, some("b")];
    assert_eq!(group_text(&groups, 0), "ab");
    assert_eq!(group_text(&groups, 1), "");
    assert_eq!(group_text(&groups, 2), "b");
    assert_eq!(group_text(&groups, 3), "");
}

#[test]
fn lists_are_read_from_the_groups() {
    assert_eq!(program_id_from(&None), "");
    assert_eq!(program_id_from(&Some(vec![some("x(\"I\")"), some("I")])), "I");
    assert_eq!(
        instructions_from(&vec![
            vec![some("whole"), some("f"), some("C"), some("a: u8")],
            vec![some("whole"), some("g"), some("C"), None],
        ]),
        vec![
            InstructionInfo { name: "f".to_string(), arguments: vec![argument("a", "u8")] },
            InstructionInfo { name: "g".to_string(), arguments: vec![] },
        ]
    );
    let found = vec![vec![some("whole"), some("S"), some("\n pub a: u8\n")]];
    assert_eq!(
        accounts_from(&found),
        vec![AccountInfo { name: "S".to_string(), fields: vec![field("a", "u8")] }]
    );
    assert_eq!(
        structs_from(&found),
        vec![StructInfo { name: "S".to_string(), fields: vec![field("a", "u8")] }]
    );
    assert_eq!(errors_from(&None), Vec::<ErrorInfo>::new());
    assert_eq!(
        errors_from(&Some(vec![some("whole"), some(" A\n B ")])),
        vec![
            ErrorInfo { name: "A".to_string(), code: 6000, message: "A".to_string() },
            ErrorInfo { name: "B".to_string(), code: 6001, message: "B".to_string() },
        ]
    );
}

#[test]
fn swap_program_with_a_split_signature_and_a_second_attribute() {
    let text = r#"use anchor_lang::prelude::*;

declare_id!("11111111111111111111111111111111");

#[program]
pub mod swap {
    use super::*;

    pub fn make_offer(
        ctx: Context<MakeOffer>,
        id: u64,
        token_a_offered_amount: u64,
        token_b_wanted_amount: u64,
    ) -> Result<()> {
        Ok(())
    }

    pub fn take_offer(ctx: Context<TakeOffer>) -> Result<()> {
        Ok(())
    }
}

#[derive(Accounts)]
#[instruction(id: u64)]
pub struct MakeOffer<'info> {
    pub maker: Signer<'info>,
}

#[derive(Accounts)]
pub struct TakeOffer<'info> {
    pub taker: Signer<'info>,
}
"#;
    let info = parse_program_info(text).unwrap();
    assert_eq!(info.program_id, "11111111111111111111111111111111");
    assert_eq!(
        info.instructions,
        vec![InstructionInfo { name: "take_offer".to_string(), arguments: vec![] }]
    );
    assert_eq!(
        info.accounts,
        vec![AccountInfo {
            name: "TakeOffer".to_string(),
            fields: vec![field("taker", "Signer<'info>,")],
        }]
    );
    assert_eq!(
        info.structs,
        vec![
            StructInfo {
                name: "MakeOffer".to_string(),
                fields: vec![field("maker", "Signer<'info>,")],
            },
            StructInfo {
                name: "TakeOffer".to_string(),
                fields: vec![field("taker", "Signer<'info>,")],
            },
        ]
    );
    assert_eq!(info.errors, Vec::<ErrorInfo>::new());
}

#[test]
fn assemble_puts_the_five_findings_together() {
    let id = Some(vec![some("declare_id!(\"K\")"), some("K")]);
    let instructions = vec![vec![some("whole"), some("f"), some("C"), some("a: u8, b: u16")]];
    let accounts = vec![vec![some("whole"), some("A"), some("x: u8")]];
    let errors = Some(vec![some("whole"), some("\n    First,\n    Second,\n")]);
    let structs = vec![
        vec![some("whole"), some("A"), some("x: u8")],
        vec![some("whole"), some("B"), some("no field")],
    ];
    assert_eq!(
        assemble(&id, &instructions, &accounts, &errors, &structs),
        ProgramInfo {
            program_id: "K".to_string(),
            instructions: vec![InstructionInfo {
                name: "f".to_string(),
                arguments: vec![argument("a", "u8"), argument("b", "u16")],
            }],
            accounts: vec![AccountInfo { name: "A".to_string(), fields: vec![field("x", "u8")] }],
            errors: vec![
                ErrorInfo { name: "First,".to_string(), code: 6000, message: "First,".to_string() },
                ErrorInfo { name: "Second,".to_string(), code: 6001, message: "Second,".to_string() },
            ],
            structs: vec![
                StructInfo { name: "A".to_string(), fields: vec![field("x", "u8")] },
                StructInfo { name: "B".to_string(), fields: vec![] },
            ],
        }
    );
}
