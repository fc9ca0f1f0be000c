//! Calls into the code-generation backend, held as plain values.
//!
//! The library never holds a foreign resource. It records which backend
//! function is to be entered with which operands; whoever runs the record
//! performs the calls in order and keeps each reply. An operand that stands
//! for a foreign object is the position, in the record, of the call whose
//! reply that object is.

use vstd::prelude::*;

verus! {

/// What kind of thing a call replies with, and what kind an operand must be.
#[derive(Clone, Copy, PartialEq, Eq, Structural, Hash, Debug)]
pub enum Kind {
    /// A context: the root that owns types and constants.
    Context,
    /// A module: a named container of functions.
    Module,
    /// A function pass manager.
    PassManager,
    /// An instruction builder.
    Builder,
    /// A type.
    Type,
    /// A value: a constant, a function, a parameter or an instruction.
    Value,
    /// A basic block.
    Block,
    /// A plain number: a count or a status.
    Number,
    /// No reply.
    Nothing,
}

/// The backend function that a call enters.
#[derive(Clone, Copy, PartialEq, Eq, Structural, Hash, Debug)]
pub enum Op {
    ContextCreate,
    Int1Type,
    Int8Type,
    Int16Type,
    Int32Type,
    DoubleType,
    VoidType,
    FunctionType,
    StructType,
    ConstString,
    ConstReal,
    ConstInt,
    AppendBasicBlock,
    ModuleCreate,
    ModuleCreateInContext,
    DumpModule,
    GetNamedFunction,
    AddFunction,
    CreateFunctionPassManager,
    AddBasicAliasAnalysisPass,
    AddInstructionCombiningPass,
    AddReassociatePass,
    AddGvnPass,
    AddCfgSimplificationPass,
    AddMergedLoadStoreMotionPass,
    AddConstantPropagationPass,
    AddPromoteMemoryToRegisterPass,
    AddTailCallEliminationPass,
    InitializeFunctionPassManager,
    RunFunctionPassManager,
    PointerType,
    GetElementType,
    ConstNull,
    SetValueName,
    TypeOf,
    DumpValue,
    CountBasicBlocks,
    CountParams,
    GetParam,
    GetEntryBasicBlock,
    VerifyFunction,
    CreateBuilder,
    PositionBuilder,
    PositionBuilderAtEnd,
    GetInsertBlock,
    BuildAlloca,
    BuildPhi,
    BuildLoad,
    BuildStore,
    BuildRet,
    BuildRetVoid,
    BuildCondBr,
    BuildBr,
    BuildBitCast,
    AddIncoming,
    BuildCall,
    BuildStructGep,
    GetBasicBlockParent,
    GetFirstInstruction,
    DisposeModule,
    ContextDispose,
    DisposeBuilder,
    DisposePassManager,
}

impl Op {
    /// The kinds of the operands that the function takes one by one, in order.
    pub open spec fn takes(self) -> Seq<Kind> {
        match self {
            Op::ContextCreate | Op::ModuleCreate => seq![],
            Op::Int1Type | Op::Int8Type | Op::Int16Type | Op::Int32Type | Op::DoubleType
            | Op::VoidType | Op::StructType | Op::ConstString | Op::ModuleCreateInContext
            | Op::CreateBuilder | Op::ContextDispose => seq![Kind::Context],
            Op::FunctionType | Op::ConstReal | Op::ConstInt | Op::PointerType
            | Op::GetElementType | Op::ConstNull => seq![Kind::Type],
            Op::AppendBasicBlock => seq![Kind::Context, Kind::Value],
            Op::DumpModule | Op::GetNamedFunction | Op::CreateFunctionPassManager
            | Op::DisposeModule => seq![Kind::Module],
            Op::AddFunction => seq![Kind::Module, Kind::Type],
            Op::AddBasicAliasAnalysisPass | Op::AddInstructionCombiningPass
            | Op::AddReassociatePass | Op::AddGvnPass | Op::AddCfgSimplificationPass
            | Op::AddMergedLoadStoreMotionPass | Op::AddConstantPropagationPass
            | Op::AddPromoteMemoryToRegisterPass | Op::AddTailCallEliminationPass
            | Op::InitializeFunctionPassManager | Op::DisposePassManager => seq![
                Kind::PassManager,
            ],
            Op::RunFunctionPassManager => seq![Kind::PassManager, Kind::Value],
            Op::SetValueName | Op::TypeOf | Op::DumpValue | Op::CountBasicBlocks
            | Op::CountParams | Op::GetParam | Op::GetEntryBasicBlock | Op::VerifyFunction
            | Op::AddIncoming => seq![Kind::Value],
            Op::PositionBuilder => seq![Kind::Builder, Kind::Block, Kind::Value],
            Op::PositionBuilderAtEnd | Op::BuildBr => seq![Kind::Builder, Kind::Block],
            Op::GetInsertBlock | Op::BuildRetVoid | Op::DisposeBuilder => seq![Kind::Builder],
            Op::BuildAlloca | Op::BuildPhi => seq![Kind::Builder, Kind::Type],
            Op::BuildLoad | Op::BuildRet | Op::BuildCall | Op::BuildStructGep => seq![
                Kind::Builder,
                Kind::Value,
            ],
            Op::BuildStore => seq![Kind::Builder, Kind::Value, Kind::Value],
            Op::BuildCondBr => seq![Kind::Builder, Kind::Value, Kind::Block, Kind::Block],
            Op::BuildBitCast => seq![Kind::Builder, Kind::Value, Kind::Type],
            Op::GetBasicBlockParent | Op::GetFirstInstruction => seq![Kind::Block],
        }
    }

    /// The kind of the operands that the function takes as an array, where it
    /// takes one.
    pub open spec fn takes_list(self) -> Option<Kind> {
        match self {
            Op::FunctionType | Op::StructType => Some(Kind::Type),
            Op::AddIncoming | Op::BuildCall => Some(Kind::Value),
            _ => None,
        }
    }

    /// Whether the function takes an array of blocks beside its array of
    /// values, one block for each value.
    pub open spec fn takes_blocks(self) -> bool {
        self == Op::AddIncoming
    }

    /// Whether the function takes its number as a 32-bit unsigned integer.
    pub open spec fn narrow(self) -> bool {
        match self {
            Op::ConstString | Op::PointerType | Op::GetParam | Op::BuildStructGep => true,
            _ => false,
        }
    }

    /// The kind of what the function replies with.
    pub open spec fn gives(self) -> Kind {
        match self {
            Op::ContextCreate => Kind::Context,
            Op::ModuleCreate | Op::ModuleCreateInContext => Kind::Module,
            Op::CreateFunctionPassManager => Kind::PassManager,
            Op::CreateBuilder => Kind::Builder,
            Op::Int1Type | Op::Int8Type | Op::Int16Type | Op::Int32Type | Op::DoubleType
            | Op::VoidType | Op::FunctionType | Op::StructType | Op::PointerType
            | Op::GetElementType | Op::TypeOf => Kind::Type,
            Op::ConstString | Op::ConstReal | Op::ConstInt | Op::GetNamedFunction
            | Op::AddFunction | Op::ConstNull | Op::GetParam | Op::BuildAlloca | Op::BuildPhi
            | Op::BuildLoad | Op::BuildStore | Op::BuildRet | Op::BuildRetVoid | Op::BuildCondBr
            | Op::BuildBr | Op::BuildBitCast | Op::BuildCall | Op::BuildStructGep
            | Op::GetBasicBlockParent | Op::GetFirstInstruction => Kind::Value,
            Op::AppendBasicBlock | Op::GetEntryBasicBlock | Op::GetInsertBlock => Kind::Block,
            Op::InitializeFunctionPassManager | Op::RunFunctionPassManager
            | Op::CountBasicBlocks | Op::CountParams | Op::VerifyFunction => Kind::Number,
            Op::DumpModule | Op::AddBasicAliasAnalysisPass | Op::AddInstructionCombiningPass
            | Op::AddReassociatePass | Op::AddGvnPass | Op::AddCfgSimplificationPass
            | Op::AddMergedLoadStoreMotionPass | Op::AddConstantPropagationPass
            | Op::AddPromoteMemoryToRegisterPass | Op::AddTailCallEliminationPass
            | Op::SetValueName | Op::DumpValue | Op::PositionBuilder | Op::PositionBuilderAtEnd
            | Op::AddIncoming | Op::DisposeModule | Op::ContextDispose | Op::DisposeBuilder
            | Op::DisposePassManager => Kind::Nothing,
        }
    }

    /// Whether the function releases the object that is its operand.
    pub open spec fn releases(self) -> bool {
        match self {
            Op::DisposeModule | Op::ContextDispose | Op::DisposeBuilder
            | Op::DisposePassManager => true,
            _ => false,
        }
    }

    /// The kinds of the operands that the function takes one by one.
    pub fn operands(&self) -> (kinds: Vec<Kind>)
        ensures
            kinds@ == self.takes(),
    {
        let kinds = match self {
            Op::ContextCreate | Op::ModuleCreate => Vec::new(),
            Op::Int1Type | Op::Int8Type | Op::Int16Type | Op::Int32Type | Op::DoubleType
            | Op::VoidType | Op::StructType | Op::ConstString | Op::ModuleCreateInContext
            | Op::CreateBuilder | Op::ContextDispose => vec![Kind::Context],
            Op::FunctionType | Op::ConstReal | Op::ConstInt | Op::PointerType
            | Op::GetElementType | Op::ConstNull => vec![Kind::Type],
            Op::AppendBasicBlock => vec![Kind::Context, Kind::Value],
            Op::DumpModule | Op::GetNamedFunction | Op::CreateFunctionPassManager
            | Op::DisposeModule => vec![Kind::Module],
            Op::AddFunction => vec![Kind::Module, Kind::Type],
            Op::AddBasicAliasAnalysisPass | Op::AddInstructionCombiningPass
            | Op::AddReassociatePass | Op::AddGvnPass | Op::AddCfgSimplificationPass
            | Op::AddMergedLoadStoreMotionPass | Op::AddConstantPropagationPass
            | Op::AddPromoteMemoryToRegisterPass | Op::AddTailCallEliminationPass
            | Op::InitializeFunctionPassManager | Op::DisposePassManager => vec![
                Kind::PassManager,
            ],
            Op::RunFunctionPassManager => vec![Kind::PassManager, Kind::Value],
            Op::SetValueName | Op::TypeOf | Op::DumpValue | Op::CountBasicBlocks
            | Op::CountParams | Op::GetParam | Op::GetEntryBasicBlock | Op::VerifyFunction
            | Op::AddIncoming => vec![Kind::Value],
            Op::PositionBuilder => vec![Kind::Builder, Kind::Block, Kind::Value],
            Op::PositionBuilderAtEnd | Op::BuildBr => vec![Kind::Builder, Kind::Block],
            Op::GetInsertBlock | Op::BuildRetVoid | Op::DisposeBuilder => vec![Kind::Builder],
            Op::BuildAlloca | Op::BuildPhi => vec![Kind::Builder, Kind::Type],
            Op::BuildLoad | Op::BuildRet | Op::BuildCall | Op::BuildStructGep => vec![
                Kind::Builder,
                Kind::Value,
            ],
            Op::BuildStore => vec![Kind::Builder, Kind::Value, Kind::Value],
            Op::BuildCondBr => vec![Kind::Builder, Kind::Value, Kind::Block, Kind::Block],
            Op::BuildBitCast => vec![Kind::Builder, Kind::Value, Kind::Type],
            Op::GetBasicBlockParent | Op::GetFirstInstruction => vec![Kind::Block],
        };
        assert(kinds@ =~= self.takes());
        kinds
    }

    /// The kind of the operands that the function takes as an array, where it
    /// takes one.
    pub fn list_kind(&self) -> (kind: Option<Kind>)
        ensures
            kind == self.takes_list(),
    {
        match self {
            Op::FunctionType | Op::StructType => Some(Kind::Type),
            Op::AddIncoming | Op::BuildCall => Some(Kind::Value),
            _ => None,
        }
    }

    /// Whether the function takes its number as a 32-bit unsigned integer.
    pub fn is_narrow(&self) -> (b: bool)
        ensures
            b == self.narrow(),
    {
        match self {
            Op::ConstString | Op::PointerType | Op::GetParam | Op::BuildStructGep => true,
            _ => false,
        }
    }

    /// The kind of what the function replies with.
    pub fn reply(&self) -> (kind: Kind)
        ensures
            kind == self.gives(),
    {
        match self {
            Op::ContextCreate => Kind::Context,
            Op::ModuleCreate | Op::ModuleCreateInContext => Kind::Module,
            Op::CreateFunctionPassManager => Kind::PassManager,
            Op::CreateBuilder => Kind::Builder,
            Op::Int1Type | Op::Int8Type | Op::Int16Type | Op::Int32Type | Op::DoubleType
            | Op::VoidType | Op::FunctionType | Op::StructType | Op::PointerType
            | Op::GetElementType | Op::TypeOf => Kind::Type,
            Op::ConstString | Op::ConstReal | Op::ConstInt | Op::GetNamedFunction
            | Op::AddFunction | Op::ConstNull | Op::GetParam | Op::BuildAlloca | Op::BuildPhi
            | Op::BuildLoad | Op::BuildStore | Op::BuildRet | Op::BuildRetVoid | Op::BuildCondBr
            | Op::BuildBr | Op::BuildBitCast | Op::BuildCall | Op::BuildStructGep
            | Op::GetBasicBlockParent | Op::GetFirstInstruction => Kind::Value,
            Op::AppendBasicBlock | Op::GetEntryBasicBlock | Op::GetInsertBlock => Kind::Block,
            Op::InitializeFunctionPassManager | Op::RunFunctionPassManager
            | Op::CountBasicBlocks | Op::CountParams | Op::VerifyFunction => Kind::Number,
            Op::DumpModule | Op::AddBasicAliasAnalysisPass | Op::AddInstructionCombiningPass
            | Op::AddReassociatePass | Op::AddGvnPass | Op::AddCfgSimplificationPass
            | Op::AddMergedLoadStoreMotionPass | Op::AddConstantPropagationPass
            | Op::AddPromoteMemoryToRegisterPass | Op::AddTailCallEliminationPass
            | Op::SetValueName | Op::DumpValue | Op::PositionBuilder | Op::PositionBuilderAtEnd
            | Op::AddIncoming | Op::DisposeModule | Op::ContextDispose | Op::DisposeBuilder
            | Op::DisposePassManager => Kind::Nothing,
        }
    }

    /// Whether the function releases the object that is its operand.
    pub fn is_release(&self) -> (b: bool)
        ensures
            b == self.releases(),
    {
        match self {
            Op::DisposeModule | Op::ContextDispose | Op::DisposeBuilder
            | Op::DisposePassManager => true,
            _ => false,
        }
    }
}

/// One call into the backend.
#[derive(Debug, PartialEq, Eq)]
pub struct Call {
    /// The function that is entered.
    pub op: Op,
    /// The operands that are passed one by one: each the position of the call
    /// that replied with the object.
    pub args: Vec<usize>,
    /// The operands that are passed as an array, with their number.
    pub list: Vec<usize>,
    /// The blocks that are passed as a second array beside `list`.
    pub blocks: Vec<usize>,
    /// The name or the text that is passed as a C string.
    pub text: String,
    /// The number that is passed: a constant, an index or a length.
    pub number: u64,
    /// The truth value that is passed as 1 or 0.
    pub flag: bool,
}

/// The mathematical value of a [`Call`].
pub struct CallView {
    pub op: Op,
    pub args: Seq<usize>,
    pub list: Seq<usize>,
    pub blocks: Seq<usize>,
    pub text: Seq<char>,
    pub number: u64,
    pub flag: bool,
}

impl View for Call {
    type V = CallView;

    open spec fn view(&self) -> CallView {
        CallView {
            op: self.op,
            args: self.args@,
            list: self.list@,
            blocks: self.blocks@,
            text: self.text@,
            number: self.number,
            flag: self.flag,
        }
    }
}

impl DeepView for Call {
    type V = CallView;

    open spec fn deep_view(&self) -> CallView {
        self.view()
    }
}

impl CallView {
    /// The call of `op` on `args`, with no array, text, number or flag.
    pub open spec fn plain(op: Op, args: Seq<usize>) -> CallView {
        CallView {
            op: op,
            args: args,
            list: Seq::empty(),
            blocks: Seq::empty(),
            text: Seq::empty(),
            number: 0,
            flag: false,
        }
    }

    /// The call of `op` on `args` with the name `text`.
    pub open spec fn named(op: Op, args: Seq<usize>, text: Seq<char>) -> CallView {
        CallView { text: text, ..CallView::plain(op, args) }
    }
}

} // verus!
