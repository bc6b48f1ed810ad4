//! The records that an extraction produces, and what each stands for.

use vstd::prelude::*;

verus! {

/// A name with the type written beside it: what an argument or a field
/// stands for.
pub struct TypedName {
    pub name: Seq<char>,
    pub ty: Seq<char>,
}

/// What an instruction stands for.
pub struct InstructionModel {
    pub name: Seq<char>,
    pub arguments: Seq<TypedName>,
}

/// What an account struct or a plain struct stands for.
pub struct RecordModel {
    pub name: Seq<char>,
    pub fields: Seq<TypedName>,
}

/// What an error code stands for.
pub struct ErrorModel {
    pub name: Seq<char>,
    pub code: int,
    pub message: Seq<char>,
}

/// What a program's interface description stands for.
pub struct ProgramModel {
    pub program_id: Seq<char>,
    pub instructions: Seq<InstructionModel>,
    pub accounts: Seq<RecordModel>,
    pub errors: Seq<ErrorModel>,
    pub structs: Seq<RecordModel>,
}

/// One argument of an instruction.
#[derive(Debug, Clone, PartialEq, Eq)]
pub struct ArgumentInfo {
    pub name: String,
    pub ty: String,
}

/// One field of a struct.
#[derive(Debug, Clone, PartialEq, Eq)]
pub struct FieldInfo {
    pub name: String,
    pub ty: String,
}

/// An instruction: its name and its arguments after the context, in the
/// order in which they are written.
#[derive(Debug, Clone, PartialEq, Eq)]
pub struct InstructionInfo {
    pub name: String,
    pub arguments: Vec<ArgumentInfo>,
}

/// A struct that is marked as a bundle of accounts.
#[derive(Debug, Clone, PartialEq, Eq)]
pub struct AccountInfo {
    pub name: String,
    pub fields: Vec<FieldInfo>,
}

/// A struct, marked or not.
#[derive(Debug, Clone, PartialEq, Eq)]
pub struct StructInfo {
    pub name: String,
    pub fields: Vec<FieldInfo>,
}

/// A declared error: its name, its number, and its message, which is the
/// name again.
#[derive(Debug, Clone, PartialEq, Eq)]
pub struct ErrorInfo {
    pub name: String,
    pub code: u32,
    pub message: String,
}

/// The interface description of one program. Each list is in the order of
/// the source text; a struct that two rules recognise stands in both lists.
#[derive(Debug, Clone, PartialEq, Eq)]
pub struct ProgramInfo {
    pub program_id: String,
    pub instructions: Vec<InstructionInfo>,
    pub accounts: Vec<AccountInfo>,
    pub errors: Vec<ErrorInfo>,
    pub structs: Vec<StructInfo>,
}

impl DeepView for ArgumentInfo {
    type V = TypedName;

    open spec fn deep_view(&self) -> TypedName {
        TypedName { name: self.name@, ty: self.ty@ }
    }
}

impl DeepView for FieldInfo {
    type V = TypedName;

    open spec fn deep_view(&self) -> TypedName {
        TypedName { name: self.name@, ty: self.ty@ }
    }
}

impl DeepView for InstructionInfo {
    type V = InstructionModel;

    open spec fn deep_view(&self) -> InstructionModel {
        InstructionModel { name: self.name@, arguments: self.arguments.deep_view() }
    }
}

impl DeepView for AccountInfo {
    type V = RecordModel;

    open spec fn deep_view(&self) -> RecordModel {
        RecordModel { name: self.name@, fields: self.fields.deep_view() }
    }
}

impl DeepView for StructInfo {
    type V = RecordModel;

    open spec fn deep_view(&self) -> RecordModel {
        RecordModel { name: self.name@, fields: self.fields.deep_view() }
    }
}

impl DeepView for ErrorInfo {
    type V = ErrorModel;

    open spec fn deep_view(&self) -> ErrorModel {
        ErrorModel { name: self.name@, code: self.code as int, message: self.message@ }
    }
}

impl DeepView for ProgramInfo {
    type V = ProgramModel;

    open spec fn deep_view(&self) -> ProgramModel {
        ProgramModel {
            program_id: self.program_id@,
            instructions: self.instructions.deep_view(),
            accounts: self.accounts.deep_view(),
            errors: self.errors.deep_view(),
            structs: self.structs.deep_view(),
        }
    }
}

} // verus!
