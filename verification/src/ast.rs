use crate::text::{debug_text, signed_decimal, signed_decimal_string, str_debug};
use vstd::prelude::*;

verus! {

/// An expression of the language.
#[derive(Debug)]
pub enum Expr {
    /// An integer literal.
    Int(i64),
    /// A reference to a name.
    Ident(String),
    /// A `return` of the wrapped expression.
    Return(Box<Expr>),
}

/// A function definition: its name, the spelling of its return type, and its
/// body, one entry for each statement.
#[derive(Debug)]
pub struct Function {
    pub name: String,
    pub return_type: String,
    pub body: Vec<Expr>,
}

/// A whole program: its functions in source order.
#[derive(Debug)]
pub struct Program {
    pub functions: Vec<Function>,
}

/// The mathematical value of an [`Expr`].
pub enum ExprModel {
    Int(i64),
    Ident(Seq<char>),
    Return(Box<ExprModel>),
}

/// The mathematical value of a [`Function`].
pub struct FunctionModel {
    pub name: Seq<char>,
    pub return_type: Seq<char>,
    pub body: Seq<ExprModel>,
}

/// The mathematical value of a [`Program`].
pub struct ProgramModel {
    pub functions: Seq<FunctionModel>,
}

impl View for Expr {
    type V = ExprModel;

    open spec fn view(&self) -> ExprModel
        decreases self,
    {
        match self {
            Expr::Int(v) => ExprModel::Int(*v),
            Expr::Ident(name) => ExprModel::Ident(name@),
            Expr::Return(inner) => ExprModel::Return(Box::new((**inner)@)),
        }
    }
}

/// The values of a sequence of expressions, in order.
pub open spec fn exprs_view(exprs: Seq<Expr>) -> Seq<ExprModel> {
    exprs.map_values(|e: Expr| e@)
}

/// The values of a sequence of functions, in order.
pub open spec fn functions_view(functions: Seq<Function>) -> Seq<FunctionModel> {
    functions.map_values(|f: Function| f@)
}

impl View for Function {
    type V = FunctionModel;

    open spec fn view(&self) -> FunctionModel {
        FunctionModel {
            name: self.name@,
            return_type: self.return_type@,
            body: exprs_view(self.body@),
        }
    }
}

impl View for Program {
    type V = ProgramModel;

    open spec fn view(&self) -> ProgramModel {
        ProgramModel { functions: functions_view(self.functions@) }
    }
}

/// The text that stands for an expression in a diagnostic: the name of its
/// kind and, in round brackets, what it holds.
pub open spec fn expr_debug(e: ExprModel) -> Seq<char>
    decreases e,
{
    match e {
        ExprModel::Int(v) => "Int("@ + signed_decimal(v as int) + ")"@,
        ExprModel::Ident(name) => "Ident("@ + str_debug(name) + ")"@,
        ExprModel::Return(inner) => "Return("@ + expr_debug(*inner) + ")"@,
    }
}

impl Expr {
    /// The text that stands for this expression in a diagnostic.
    pub fn debug_string(&self) -> (r: String)
        ensures
            r@ == expr_debug(self@),
        decreases self,
    {
        match self {
            Expr::Int(v) => {
                let digits = signed_decimal_string(*v);
                String::from_str("Int(").concat(digits.as_str()).concat(")")
            },
            Expr::Ident(name) => {
                let quoted = debug_text(name.as_str());
                String::from_str("Ident(").concat(quoted.as_str()).concat(")")
            },
            Expr::Return(inner) => {
                let text = inner.debug_string();
                String::from_str("Return(").concat(text.as_str()).concat(")")
            },
        }
    }
}

} // verus!
