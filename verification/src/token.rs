//! The token tree: the single AST node type produced by the parser, together
//! with the literal and operator kinds it carries, and the ghost views that
//! the contracts of the parser, printer and translator speak about.

use vstd::prelude::*;

verus! {

/// An untyped ("vague") literal: its type is deferred to later inference.
/// Numeric kinds keep the matched text; the value is not interpreted here.
#[derive(Debug, PartialEq, Eq)]
pub enum VagueLiteral {
    Integer(String),
    Float(String),
    String(String),
}

/// A numeric literal with an explicit width/signedness suffix, carrying the
/// parsed native value. Float kinds keep the matched text instead, so that
/// the tree stays exact.
#[derive(Debug, PartialEq, Eq)]
pub enum StrictNumber {
    Byte(u8),
    ByteSigned(i8),
    Small(u16),
    SmallSigned(i16),
    Medium(u32),
    MediumSigned(i32),
    MediumFloat(String),
    Large(u64),
    LargeSigned(i64),
    LargeFloat(String),
}

/// A literal constant.
#[derive(Debug, PartialEq, Eq)]
pub enum Literal {
    Number(StrictNumber),
    Vague(VagueLiteral),
    Bool(bool),
    String(String),
}

/// A dyadic operation over two operand tokens.
#[derive(Debug, PartialEq, Eq)]
pub enum Op {
    Add(Box<Token>, Box<Token>),
    Subtract(Box<Token>, Box<Token>),
    Eq(Box<Token>, Box<Token>),
    Neq(Box<Token>, Box<Token>),
    Gt(Box<Token>, Box<Token>),
    Lt(Box<Token>, Box<Token>),
    Gte(Box<Token>, Box<Token>),
    Lte(Box<Token>, Box<Token>),
}

/// An ordered sequence of tokens, used for a function's parameter list.
#[derive(Debug, PartialEq, Eq)]
pub struct TonsOfTokens(pub Vec<Token>);

/// One node of the parsed program tree.
///
/// `Pair`, `CondPair` and `FnPair` chains are right-leaning linked lists
/// terminated by `Nothing`; a well-formed program is one such chain rooted at
/// the parse result. An `Assignment` whose value is an `FnPair` is the sole
/// signal that the assignment lowers to a function definition.
#[derive(Debug, PartialEq, Eq)]
pub enum Token {
    /// A bare identifier such as `helloworld`.
    Ident(String),
    /// An assignment to a variable: `a = 10`, `mut b = 100`,
    /// `mut large population = 800l`.
    Assignment {
        mutable: bool,
        type_annotation: Option<Box<Token>>,
        ident: Box<Token>,
        value: Box<Token>,
    },
    /// A function parameter: `small x`, `mut medium y`.
    Param {
        mutable: bool,
        type_annotation: Box<Token>,
        ident: Box<Token>,
    },
    /// An if statement's condition: `if x == 0`.
    IfStmt { cond: Box<Token> },
    /// A literal value: `1`, `2l`, `"hello"`.
    Literal(Literal),
    /// A dyadic operation: `2 > 1`, `100 + 1`.
    Op(Op),
    /// Connects two expressions together in a linked-list format.
    Pair(Box<Token>, Box<Token>),
    /// Like `Pair` with a middle token for a condition's block.
    CondPair(Box<Token>, Box<Token>, Box<Token>),
    /// Like `Pair` with a middle token for a function's body; the first
    /// field holds the parameter list.
    FnPair(TonsOfTokens, Box<Token>, Box<Token>),
    /// An operation on an object: `"hello"; print`.
    Method(Box<Token>, Box<Token>),
    /// Traditional function call: `print "Hello"`, `add [1, 2]`.
    MethodUnit(Box<Token>, Box<Token>),
    /// A literal list of expressions.
    Array(Vec<Token>),
    /// Terminator of a statement chain; also the empty program.
    Nothing,
}

/// Ghost model of `VagueLiteral`: text as character sequences.
pub enum VagueLiteralView {
    Integer(Seq<char>),
    Float(Seq<char>),
    String(Seq<char>),
}

/// Ghost model of `StrictNumber`.
pub enum StrictNumberView {
    Byte(u8),
    ByteSigned(i8),
    Small(u16),
    SmallSigned(i16),
    Medium(u32),
    MediumSigned(i32),
    MediumFloat(Seq<char>),
    Large(u64),
    LargeSigned(i64),
    LargeFloat(Seq<char>),
}

/// Ghost model of `Literal`.
pub enum LiteralView {
    Number(StrictNumberView),
    Vague(VagueLiteralView),
    Bool(bool),
    String(Seq<char>),
}

/// Ghost model of `Op`.
pub enum OpView {
    Add(Box<TokenView>, Box<TokenView>),
    Subtract(Box<TokenView>, Box<TokenView>),
    Eq(Box<TokenView>, Box<TokenView>),
    Neq(Box<TokenView>, Box<TokenView>),
    Gt(Box<TokenView>, Box<TokenView>),
    Lt(Box<TokenView>, Box<TokenView>),
    Gte(Box<TokenView>, Box<TokenView>),
    Lte(Box<TokenView>, Box<TokenView>),
}

/// Ghost model of `Token`: the same tree with every text span abstracted to
/// a `Seq<char>` and every list to a `Seq`.
pub enum TokenView {
    Ident(Seq<char>),
    Assignment {
        mutable: bool,
        type_annotation: Option<Box<TokenView>>,
        ident: Box<TokenView>,
        value: Box<TokenView>,
    },
    Param {
        mutable: bool,
        type_annotation: Box<TokenView>,
        ident: Box<TokenView>,
    },
    IfStmt { cond: Box<TokenView> },
    Literal(LiteralView),
    Op(OpView),
    Pair(Box<TokenView>, Box<TokenView>),
    CondPair(Box<TokenView>, Box<TokenView>, Box<TokenView>),
    FnPair(Seq<TokenView>, Box<TokenView>, Box<TokenView>),
    Method(Box<TokenView>, Box<TokenView>),
    MethodUnit(Box<TokenView>, Box<TokenView>),
    Array(Seq<TokenView>),
    Nothing,
}

impl View for VagueLiteral {
    type V = VagueLiteralView;

    open spec fn view(&self) -> VagueLiteralView {
        match self {
            VagueLiteral::Integer(s) => VagueLiteralView::Integer(s@),
            VagueLiteral::Float(s) => VagueLiteralView::Float(s@),
            VagueLiteral::String(s) => VagueLiteralView::String(s@),
        }
    }
}

impl View for StrictNumber {
    type V = StrictNumberView;

    open spec fn view(&self) -> StrictNumberView {
        match self {
            StrictNumber::Byte(n) => StrictNumberView::Byte(*n),
            StrictNumber::ByteSigned(n) => StrictNumberView::ByteSigned(*n),
            StrictNumber::Small(n) => StrictNumberView::Small(*n),
            StrictNumber::SmallSigned(n) => StrictNumberView::SmallSigned(*n),
            StrictNumber::Medium(n) => StrictNumberView::Medium(*n),
            StrictNumber::MediumSigned(n) => StrictNumberView::MediumSigned(*n),
            StrictNumber::MediumFloat(s) => StrictNumberView::MediumFloat(s@),
            StrictNumber::Large(n) => StrictNumberView::Large(*n),
            StrictNumber::LargeSigned(n) => StrictNumberView::LargeSigned(*n),
            StrictNumber::LargeFloat(s) => StrictNumberView::LargeFloat(s@),
        }
    }
}

impl View for Literal {
    type V = LiteralView;

    open spec fn view(&self) -> LiteralView {
        match self {
            Literal::Number(n) => LiteralView::Number(n@),
            Literal::Vague(v) => LiteralView::Vague(v@),
            Literal::Bool(b) => LiteralView::Bool(*b),
            Literal::String(s) => LiteralView::String(s@),
        }
    }
}

/// The view of a `Token`, written as a standalone function so that the
/// recursion through boxes and vectors can carry a `decreases` measure.
pub open spec fn token_view(t: Token) -> TokenView
    decreases t,
{
    match t {
        Token::Ident(s) => TokenView::Ident(s@),
        Token::Assignment { mutable, type_annotation, ident, value } => TokenView::Assignment {
            mutable: mutable,
            type_annotation: match type_annotation {
                Option::Some(a) => Option::Some(Box::new(token_view(*a))),
                Option::None => Option::None,
            },
            ident: Box::new(token_view(*ident)),
            value: Box::new(token_view(*value)),
        },
        Token::Param { mutable, type_annotation, ident } => TokenView::Param {
            mutable: mutable,
            type_annotation: Box::new(token_view(*type_annotation)),
            ident: Box::new(token_view(*ident)),
        },
        Token::IfStmt { cond } => TokenView::IfStmt { cond: Box::new(token_view(*cond)) },
        Token::Literal(l) => TokenView::Literal(l@),
        Token::Op(o) => TokenView::Op(op_view(o)),
        Token::Pair(a, b) => TokenView::Pair(
            Box::new(token_view(*a)),
            Box::new(token_view(*b)),
        ),
        Token::CondPair(a, b, c) => TokenView::CondPair(
            Box::new(token_view(*a)),
            Box::new(token_view(*b)),
            Box::new(token_view(*c)),
        ),
        Token::FnPair(params, body, rest) => TokenView::FnPair(
            token_views(params.0@),
            Box::new(token_view(*body)),
            Box::new(token_view(*rest)),
        ),
        Token::Method(a, b) => TokenView::Method(
            Box::new(token_view(*a)),
            Box::new(token_view(*b)),
        ),
        Token::MethodUnit(a, b) => TokenView::MethodUnit(
            Box::new(token_view(*a)),
            Box::new(token_view(*b)),
        ),
        Token::Array(ts) => TokenView::Array(token_views(ts@)),
        Token::Nothing => TokenView::Nothing,
    }
}

/// The views of a sequence of tokens, element by element.
pub open spec fn token_views(ts: Seq<Token>) -> Seq<TokenView>
    decreases ts,
{
    if ts.len() == 0 {
        Seq::empty()
    } else {
        seq![token_view(ts[0])] + token_views(ts.drop_first())
    }
}

/// The view of an `Op`, recursing through its operand tokens.
pub open spec fn op_view(o: Op) -> OpView
    decreases o,
{
    match o {
        Op::Add(a, b) => OpView::Add(Box::new(token_view(*a)), Box::new(token_view(*b))),
        Op::Subtract(a, b) => OpView::Subtract(Box::new(token_view(*a)), Box::new(token_view(*b))),
        Op::Eq(a, b) => OpView::Eq(Box::new(token_view(*a)), Box::new(token_view(*b))),
        Op::Neq(a, b) => OpView::Neq(Box::new(token_view(*a)), Box::new(token_view(*b))),
        Op::Gt(a, b) => OpView::Gt(Box::new(token_view(*a)), Box::new(token_view(*b))),
        Op::Lt(a, b) => OpView::Lt(Box::new(token_view(*a)), Box::new(token_view(*b))),
        Op::Gte(a, b) => OpView::Gte(Box::new(token_view(*a)), Box::new(token_view(*b))),
        Op::Lte(a, b) => OpView::Lte(Box::new(token_view(*a)), Box::new(token_view(*b))),
    }
}

impl View for Token {
    type V = TokenView;

    open spec fn view(&self) -> TokenView {
        token_view(*self)
    }
}

impl View for Op {
    type V = OpView;

    open spec fn view(&self) -> OpView {
        op_view(*self)
    }
}

impl View for TonsOfTokens {
    type V = Seq<TokenView>;

    open spec fn view(&self) -> Seq<TokenView> {
        token_views(self.0@)
    }
}

/// Lemma: viewing a sequence distributes over prepending one token.
pub proof fn lemma_token_views_cons(t: Token, ts: Seq<Token>)
    ensures
        token_views(seq![t] + ts) == seq![token_view(t)] + token_views(ts),
{
    let s = seq![t] + ts;
    assert(s.len() > 0);
    assert(s[0] == t);
    assert(s.drop_first() =~= ts);
    assert(token_views(s) == seq![token_view(s[0])] + token_views(s.drop_first()));
}

/// Lemma: the view of a token sequence has one view per element, in order.
pub proof fn lemma_token_views_index(ts: Seq<Token>)
    ensures
        token_views(ts).len() == ts.len(),
        forall|i: int| 0 <= i < ts.len() ==> token_views(ts)[i] == token_view(ts[i]),
    decreases ts.len(),
{
    if ts.len() > 0 {
        lemma_token_views_index(ts.drop_first());
    }
}

} // verus!
