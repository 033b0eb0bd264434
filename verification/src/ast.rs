//! The source-level tree: a program's syntactic and nominal-type
//! structure. Types, declarations, statements and expressions each live in
//! their own arena inside one `ProgramArena`, and refer to one another
//! only by generation-checked indices.

use vstd::prelude::*;
use crate::arena::{Arena, ArenaIndex};
use crate::{dec_int, dec_nat, i64_to_string, usize_to_string};

verus! {

/// Index into a program's type arena.
#[derive(Clone, Copy, PartialEq, Eq, Structural, Debug)]
pub struct TypeIndex {
    pub slot: usize,
    pub generation: u64,
}

/// Index into a program's declaration (node) arena.
#[derive(Clone, Copy, PartialEq, Eq, Structural, Debug)]
pub struct NodeIndex {
    pub slot: usize,
    pub generation: u64,
}

/// Index into a program's statement arena.
#[derive(Clone, Copy, PartialEq, Eq, Structural, Debug)]
pub struct StatementIndex {
    pub slot: usize,
    pub generation: u64,
}

/// Index into a program's expression arena.
#[derive(Clone, Copy, PartialEq, Eq, Structural, Debug)]
pub struct ExpressionIndex {
    pub slot: usize,
    pub generation: u64,
}

impl ArenaIndex for TypeIndex {
    open spec fn slot_of(self) -> nat {
        self.slot as nat
    }

    open spec fn gen_of(self) -> nat {
        self.generation as nat
    }

    fn make(slot: usize, generation: u64) -> (r: Self) {
        TypeIndex { slot, generation }
    }

    fn slot(self) -> (r: usize) {
        self.slot
    }

    fn generation(self) -> (r: u64) {
        self.generation
    }
}

impl ArenaIndex for NodeIndex {
    open spec fn slot_of(self) -> nat {
        self.slot as nat
    }

    open spec fn gen_of(self) -> nat {
        self.generation as nat
    }

    fn make(slot: usize, generation: u64) -> (r: Self) {
        NodeIndex { slot, generation }
    }

    fn slot(self) -> (r: usize) {
        self.slot
    }

    fn generation(self) -> (r: u64) {
        self.generation
    }
}

impl ArenaIndex for StatementIndex {
    open spec fn slot_of(self) -> nat {
        self.slot as nat
    }

    open spec fn gen_of(self) -> nat {
        self.generation as nat
    }

    fn make(slot: usize, generation: u64) -> (r: Self) {
        StatementIndex { slot, generation }
    }

    fn slot(self) -> (r: usize) {
        self.slot
    }

    fn generation(self) -> (r: u64) {
        self.generation
    }
}

impl ArenaIndex for ExpressionIndex {
    open spec fn slot_of(self) -> nat {
        self.slot as nat
    }

    open spec fn gen_of(self) -> nat {
        self.generation as nat
    }

    fn make(slot: usize, generation: u64) -> (r: Self) {
        ExpressionIndex { slot, generation }
    }

    fn slot(self) -> (r: usize) {
        self.slot
    }

    fn generation(self) -> (r: u64) {
        self.generation
    }
}

/// An ordered sequence of name segments identifying a namespace or module.
#[derive(Clone, Debug, PartialEq, Eq, Hash)]
pub struct Path(pub Vec<String>);

/// The rendering of path segments joined by `::`.
pub open spec fn join_path(segs: Seq<Seq<char>>) -> Seq<char>
    decreases segs.len(),
{
    if segs.len() == 0 {
        Seq::empty()
    } else if segs.len() == 1 {
        segs[0]
    } else {
        join_path(segs.drop_last()) + "::"@ + segs.last()
    }
}

impl Path {
    /// The segments as a sequence of character sequences.
    pub open spec fn segs(self) -> Seq<Seq<char>> {
        Seq::new(self.0@.len(), |i: int| self.0@[i]@)
    }

    pub fn new() -> (r: Self)
        ensures
            r.segs() =~= Seq::<Seq<char>>::empty(),
    {
        Path(Vec::new())
    }

    pub fn of(s: &str) -> (r: Self)
        ensures
            r.segs() =~= seq![s@],
    {
        let mut v: Vec<String> = Vec::new();
        v.push(String::from_str(s));
        Path(v)
    }

    /// A copy of this path with one more segment at the end.
    pub fn append(&self, s: String) -> (r: Self)
        ensures
            r.segs() =~= self.segs().push(s@),
    {
        let mut v: Vec<String> = Vec::new();
        let mut k: usize = 0;
        while k < self.0.len()
            invariant
                0 <= k <= self.0@.len(),
                v@.len() == k,
                forall|j: int| 0 <= j < k ==> #[trigger] v@[j]@ == self.0@[j]@,
            decreases self.0@.len() - k,
        {
            v.push(self.0[k].clone());
            k += 1;
        }
        v.push(s);
        Path(v)
    }

    /// Take the last segment off; the path must not be empty.
    pub fn pop(&mut self) -> (r: String)
        requires
            old(self).segs().len() > 0,
        ensures
            r@ == old(self).segs().last(),
            final(self).segs() =~= old(self).segs().drop_last(),
    {
        match self.0.pop() {
            Some(s) => s,
            None => {
                proof {
                    assert(false);
                }
                String::new()
            },
        }
    }

    /// The segments joined by `::`.
    pub fn to_string(&self) -> (r: String)
        ensures
            r@ == join_path(self.segs()),
    {
        let mut out = String::new();
        let mut k: usize = 0;
        while k < self.0.len()
            invariant
                0 <= k <= self.0@.len(),
                out@ == join_path(self.segs().take(k as int)),
            decreases self.0@.len() - k,
        {
            if k > 0 {
                out.append("::");
            }
            out.append(self.0[k].as_str());
            proof {
                let segs = self.segs();
                let t = segs.take(k as int + 1);
                if k == 0 {
                    assert(t.len() == 1);
                    assert(out@ =~= t[0]);
                } else {
                    assert(t.drop_last() =~= segs.take(k as int));
                    assert(t.last() == segs[k as int]);
                }
            }
            k += 1;
        }
        proof {
            assert(self.segs().take(self.0@.len() as int) =~= self.segs());
        }
        out
    }
}

/// A name together with an optional declared type; an absent type index
/// means the type is to be inferred.
#[derive(Clone, Debug, PartialEq)]
pub struct TypedName {
    pub name: String,
    pub typ: Option<TypeIndex>,
}

/// A source-level type shape.
#[derive(Debug, PartialEq)]
pub enum Type {
    /// Nominal or primitive reference by name.
    Base(TypeName),
    /// A value of the base type constrained by a boolean predicate over the
    /// binder; base type and predicate live in the same program arenas.
    Refinement(String, TypeIndex, ExpressionIndex),
    /// An anonymous structural type over named, optionally typed fields.
    Row(Vec<TypedName>),
}

/// A qualified name: path plus local name plus ordered type arguments.
#[derive(Debug, PartialEq)]
pub struct TypeName {
    pub path: Path,
    pub name: String,
    pub arguments: Vec<Box<TypeName>>,
}

/// The rendering of a qualified name's first `k` type arguments, written
/// one after the other without separators.
pub open spec fn args_prefix(args: Seq<Box<TypeName>>, k: int) -> Seq<char>
    decreases args, 1int, k,
    when 0 <= k <= args.len()
{
    if k <= 0 {
        Seq::empty()
    } else {
        args_prefix(args, k - 1) + type_name_str(*args[k - 1])
    }
}

/// The rendering of a qualified name: `path::name`, with the renderings of
/// the type arguments between brackets when there are any.
pub open spec fn type_name_str(t: TypeName) -> Seq<char>
    decreases t, 0int, 0int,
{
    if t.arguments@.len() > 0 {
        join_path(t.path.segs()) + "::"@ + t.name@ + "["@ + args_prefix(
            t.arguments@,
            t.arguments@.len() as int,
        ) + "]"@
    } else {
        join_path(t.path.segs()) + "::"@ + t.name@
    }
}

impl TypeName {
    pub fn to_string(&self) -> (r: String)
        ensures
            r@ == type_name_str(*self),
        decreases *self,
    {
        let mut name = self.path.to_string();
        name.append("::");
        name.append(self.name.as_str());
        if self.arguments.len() > 0 {
            name.append("[");
            let ghost base = join_path(self.path.segs()) + "::"@ + self.name@ + "["@;
            proof {
                assert(name@ =~= base + args_prefix(self.arguments@, 0));
            }
            let mut k: usize = 0;
            while k < self.arguments.len()
                invariant
                    0 <= k <= self.arguments@.len(),
                    name@ == base + args_prefix(self.arguments@, k as int),
                decreases self.arguments@.len() - k,
            {
                let arg = &self.arguments[k];
                let arg_str = (&**arg).to_string();
                name.append(arg_str.as_str());
                proof {
                    assert(name@ =~= base + args_prefix(self.arguments@, k as int + 1));
                }
                k += 1;
            }
            name.append("]");
        }
        name
    }

    /// Build an argument-free qualified name from a path and a local name.
    pub fn from(pair: (Path, String)) -> (r: Self)
        ensures
            r.path == pair.0,
            r.name == pair.1,
            r.arguments@.len() == 0,
    {
        TypeName { path: pair.0, name: pair.1, arguments: Vec::new() }
    }
}

/// Visibility of a declaration.
#[derive(Clone, Copy, Debug, PartialEq, Eq, Structural)]
pub enum Access {
    Public,
    Internal,
}

/// A declaration in the source tree. `Error` is a parse-recovery
/// placeholder: it must be skipped by lowering, never turned into IR.
#[derive(Debug, PartialEq)]
pub enum Node {
    TypeAlias { access: Access, name: String, value: TypeIndex },
    Variable { access: Access, name: TypedName, value: Option<ExpressionIndex> },
    Function {
        access: Access,
        name: String,
        params: Vec<TypedName>,
        return_type: TypeName,
        statements: Vec<StatementIndex>,
    },
    FunctionPrototype { name: String, params: Vec<TypedName>, return_type: TypeName },
    Struct { access: Access, name: String, params: Vec<TypedName>, children: Vec<NodeIndex> },
    Interface { name: String, params: Vec<TypedName>, children: Vec<NodeIndex> },
    Error,
}

/// A statement. An `If`'s `else_if` link points at another `If` statement,
/// forming a singly linked else-if chain.
#[derive(Clone, Debug, PartialEq)]
pub enum Statement {
    If { condition: ExpressionIndex, body: Vec<StatementIndex>, else_if: Option<StatementIndex> },
    Call { function: ExpressionIndex, args: Vec<ExpressionIndex> },
    Let { name: TypedName, value: ExpressionIndex },
    Assign { name: String, value: ExpressionIndex },
    Return { value: ExpressionIndex },
}

/// An expression. Operands are expression-arena indices.
#[derive(Clone, Debug, PartialEq)]
pub enum Expression {
    Ref(String),
    NatLiteral(i64),
    BoolLiteral(bool),
    BinOp(ExpressionIndex, BinOpType, ExpressionIndex),
    FieldAccessor { aggregate: ExpressionIndex, name: String },
}

/// A binary operator.
#[derive(Clone, Copy, Debug, PartialEq, Eq, Structural)]
pub enum BinOpType {
    Plus,
    Minus,
    Star,
    ForwardSlash,
    LessThan,
    GreaterThan,
    LessThanEqualTo,
    GreaterThanEqualTo,
    And,
    Or,
}

/// The symbol an operator renders as.
pub open spec fn binop_str(op: BinOpType) -> Seq<char> {
    match op {
        BinOpType::Plus => "+"@,
        BinOpType::Minus => "-"@,
        BinOpType::Star => "*"@,
        BinOpType::ForwardSlash => "/"@,
        BinOpType::LessThan => "<"@,
        BinOpType::GreaterThan => ">"@,
        BinOpType::LessThanEqualTo => "<="@,
        BinOpType::GreaterThanEqualTo => ">="@,
        BinOpType::And => "and"@,
        BinOpType::Or => "or"@,
    }
}

impl BinOpType {
    pub fn to_string(&self) -> (r: String)
        ensures
            r@ == binop_str(*self),
    {
        match self {
            BinOpType::Plus => String::from_str("+"),
            BinOpType::Minus => String::from_str("-"),
            BinOpType::Star => String::from_str("*"),
            BinOpType::ForwardSlash => String::from_str("/"),
            BinOpType::LessThan => String::from_str("<"),
            BinOpType::GreaterThan => String::from_str(">"),
            BinOpType::LessThanEqualTo => String::from_str("<="),
            BinOpType::GreaterThanEqualTo => String::from_str(">="),
            BinOpType::And => String::from_str("and"),
            BinOpType::Or => String::from_str("or"),
        }
    }
}

/// The shallow rendering of an expression, used when an operand index
/// cannot be resolved: operand positions show as `#` plus the raw slot
/// number instead of failing.
pub open spec fn display_spec(e: Expression) -> Seq<char> {
    match e {
        Expression::Ref(r) => r@,
        Expression::NatLiteral(n) => dec_int(n as int),
        Expression::BoolLiteral(b) => if b {
            "true"@
        } else {
            "false"@
        },
        Expression::BinOp(a, o, b) => "#"@ + dec_nat(a.slot_of()) + " "@ + binop_str(o) + " #"@
            + dec_nat(b.slot_of()),
        Expression::FieldAccessor { aggregate, name } => "#"@ + dec_nat(aggregate.slot_of()) + "."@
            + name@,
    }
}

/// The four arenas of one program: types, declarations, statements and
/// expressions. Each hands out its own index type.
#[derive(Debug)]
pub struct ProgramArena {
    pub type_arena: Arena<Type, TypeIndex>,
    pub node_arena: Arena<Node, NodeIndex>,
    pub statement_arena: Arena<Statement, StatementIndex>,
    pub expression_arena: Arena<Expression, ExpressionIndex>,
}

impl ProgramArena {
    pub fn new() -> (r: ProgramArena)
        ensures
            r.type_arena.wf(),
            r.node_arena.wf(),
            r.statement_arena.wf(),
            r.expression_arena.wf(),
            r.type_arena.slot_count() == 0,
            r.node_arena.slot_count() == 0,
            r.statement_arena.slot_count() == 0,
            r.expression_arena.slot_count() == 0,
    {
        ProgramArena {
            type_arena: Arena::new(),
            node_arena: Arena::new(),
            statement_arena: Arena::new(),
            expression_arena: Arena::new(),
        }
    }

    /// Every expression's operands sit at strictly smaller slots than the
    /// expression itself — true of any arena filled children-first, as a
    /// parser does, and what makes rendering well-founded.
    pub open spec fn exprs_wf(self) -> bool {
        forall|s: int|
            0 <= s < self.expression_arena.slot_count() && #[trigger] self.expression_arena.occupied_at(
                s,
            ) ==> match self.expression_arena.value_at(s) {
                Expression::BinOp(a, _o, b) => a.slot_of() < s && b.slot_of() < s,
                Expression::FieldAccessor { aggregate, .. } => aggregate.slot_of() < s,
                _ => true,
            }
    }
}

/// A parsed program: its module path, source file name, imports, and the
/// four arenas holding its tree.
#[derive(Debug)]
pub struct Program {
    pub path: Path,
    pub file_name: String,
    pub imports: Vec<Path>,
    pub program_arena: ProgramArena,
}

/// The rendering of the expression stored at index `i`: fully
/// parenthesized, dereferencing the arena for operands, falling back to
/// the shallow form wherever an operand cannot be resolved.
pub open spec fn render_at(ea: Arena<Expression, ExpressionIndex>, i: ExpressionIndex) -> Seq<char>
    decreases i.slot_of(),
{
    if ea.lives(i) {
        match ea.value_of(i) {
            Expression::BinOp(a, o, b) => {
                if ea.lives(a) && ea.lives(b) && a.slot_of() < i.slot_of() && b.slot_of()
                    < i.slot_of() {
                    "("@ + render_at(ea, a) + " "@ + binop_str(o) + " "@ + render_at(ea, b) + ")"@
                } else {
                    display_spec(ea.value_of(i))
                }
            },
            Expression::FieldAccessor { aggregate, name } => {
                if ea.lives(aggregate) && aggregate.slot_of() < i.slot_of() {
                    render_at(ea, aggregate) + "."@ + name@
                } else {
                    display_spec(ea.value_of(i))
                }
            },
            e => display_spec(e),
        }
    } else {
        Seq::empty()
    }
}

/// The rendering of an expression value against a program's expression
/// arena: operands that resolve are rendered in full, the rest through the
/// shallow fallback.
pub open spec fn expr_str(ea: Arena<Expression, ExpressionIndex>, e: Expression) -> Seq<char> {
    match e {
        Expression::BinOp(a, o, b) => {
            if ea.lives(a) && ea.lives(b) {
                "("@ + render_at(ea, a) + " "@ + binop_str(o) + " "@ + render_at(ea, b) + ")"@
            } else {
                display_spec(e)
            }
        },
        Expression::FieldAccessor { aggregate, name } => {
            if ea.lives(aggregate) {
                render_at(ea, aggregate) + "."@ + name@
            } else {
                display_spec(e)
            }
        },
        _ => display_spec(e),
    }
}

fn render_expr(program_arena: &ProgramArena, i: ExpressionIndex) -> (r: String)
    requires
        program_arena.exprs_wf(),
        program_arena.expression_arena.lives(i),
    ensures
        r@ == render_at(program_arena.expression_arena, i),
    decreases i.slot_of(),
{
    let e_opt = program_arena.expression_arena.get(i);
    match e_opt {
        Some(e) => match e {
            Expression::BinOp(a, o, b) => {
                let a_opt = program_arena.expression_arena.get(*a);
                let b_opt = program_arena.expression_arena.get(*b);
                if a_opt.is_some() && b_opt.is_some() {
                    let mut out = String::from_str("(");
                    let sa = render_expr(program_arena, *a);
                    out.append(sa.as_str());
                    out.append(" ");
                    let so = o.to_string();
                    out.append(so.as_str());
                    out.append(" ");
                    let sb = render_expr(program_arena, *b);
                    out.append(sb.as_str());
                    out.append(")");
                    out
                } else {
                    e.display_string()
                }
            },
            Expression::FieldAccessor { aggregate, name } => {
                let agg_opt = program_arena.expression_arena.get(*aggregate);
                if agg_opt.is_some() {
                    let mut out = render_expr(program_arena, *aggregate);
                    out.append(".");
                    out.append(name.as_str());
                    out
                } else {
                    e.display_string()
                }
            },
            _ => e.display_string(),
        },
        None => {
            proof {
                assert(false);
            }
            String::new()
        },
    }
}

impl Expression {
    /// The shallow rendering: operand positions show as `#` plus the raw
    /// slot number.
    pub fn display_string(&self) -> (r: String)
        ensures
            r@ == display_spec(*self),
    {
        match self {
            Expression::Ref(ident) => {
                let out = ident.clone();
                out
            },
            Expression::NatLiteral(n) => i64_to_string(*n),
            Expression::BoolLiteral(b) => {
                if *b {
                    String::from_str("true")
                } else {
                    String::from_str("false")
                }
            },
            Expression::BinOp(a, o, b) => {
                let mut out = String::from_str("#");
                let sa = usize_to_string(a.slot());
                out.append(sa.as_str());
                out.append(" ");
                let so = o.to_string();
                out.append(so.as_str());
                out.append(" #");
                let sb = usize_to_string(b.slot());
                out.append(sb.as_str());
                out
            },
            Expression::FieldAccessor { aggregate, name } => {
                let mut out = String::from_str("#");
                let sa = usize_to_string(aggregate.slot());
                out.append(sa.as_str());
                out.append(".");
                out.append(name.as_str());
                out
            },
        }
    }

    /// The full rendering against the owning program's arenas: fully
    /// parenthesized, with each resolvable operand rendered in turn and
    /// unresolvable ones shown through the shallow fallback.
    pub fn to_string(&self, program_arena: &ProgramArena) -> (r: String)
        requires
            program_arena.exprs_wf(),
        ensures
            r@ == expr_str(program_arena.expression_arena, *self),
    {
        match self {
            Expression::BinOp(a, o, b) => {
                let a_opt = program_arena.expression_arena.get(*a);
                let b_opt = program_arena.expression_arena.get(*b);
                if a_opt.is_some() && b_opt.is_some() {
                    let mut out = String::from_str("(");
                    let sa = render_expr(program_arena, *a);
                    out.append(sa.as_str());
                    out.append(" ");
                    let so = o.to_string();
                    out.append(so.as_str());
                    out.append(" ");
                    let sb = render_expr(program_arena, *b);
                    out.append(sb.as_str());
                    out.append(")");
                    out
                } else {
                    self.display_string()
                }
            },
            Expression::FieldAccessor { aggregate, name } => {
                let agg_opt = program_arena.expression_arena.get(*aggregate);
                if agg_opt.is_some() {
                    let mut out = render_expr(program_arena, *aggregate);
                    out.append(".");
                    out.append(name.as_str());
                    out
                } else {
                    self.display_string()
                }
            },
            _ => self.display_string(),
        }
    }
}

} // verus!
