use vstd::prelude::*;
use vstd::string::*;
use crate::text::{
    debug_string, integer_text, integer_to_string, string_debug, unsigned_to_string,
};
use crate::token::{token_debug, Token, TokenView};

verus! {

/// An expression of the language. The evaluator also uses the literal
/// variants, `List` and `Instance` as its runtime values.
#[derive(Debug)]
#[allow(inconsistent_fields)]
pub enum Expr {
    Ident(String),
    Number(i64),
    StringLiteral(String),
    Boolean(bool),
    List(Vec<Expr>),
    FunctionCall { name: String, object: Option<Box<Expr>>, args: Vec<Expr> },
    BinOp { left: Box<Expr>, op: Token, right: Box<Expr> },
    ObjectValue { object: Option<Box<Expr>>, name: String },
    NewInstance { class_name: String, args: Vec<Expr> },
    Instance { class_name: String, instance_id: usize },
}

/// The mathematical value of an [`Expr`].
#[allow(inconsistent_fields)]
pub enum ExprView {
    Ident(Seq<char>),
    Number(i64),
    StringLiteral(Seq<char>),
    Boolean(bool),
    List(Seq<ExprView>),
    FunctionCall { name: Seq<char>, object: Option<Box<ExprView>>, args: Seq<ExprView> },
    BinOp { left: Box<ExprView>, op: TokenView, right: Box<ExprView> },
    ObjectValue { object: Option<Box<ExprView>>, name: Seq<char> },
    NewInstance { class_name: Seq<char>, args: Seq<ExprView> },
    Instance { class_name: Seq<char>, instance_id: usize },
}

/// A statement of the language, with the line on which it starts.
#[derive(Debug)]
#[allow(inconsistent_fields)]
pub enum Stmt {
    Class { name: String, functions: Vec<Stmt>, line: usize },
    Function { name: String, body: Vec<Stmt>, line: usize },
    VariableAssign { name: String, object: Option<Box<Expr>>, value: Expr, line: usize },
    While { condition: Expr, body: Vec<Stmt>, line: usize },
    If { condition: Expr, then_branch: Vec<Stmt>, else_branch: Option<Vec<Stmt>>, line: usize },
    Expression { value: Expr, line: usize },
    Return { value: Expr, line: usize },
    Import { library: String, line: usize },
    Continue { line: usize },
    ForLoop { iterator: String, collection: Expr, body: Vec<Stmt>, line: usize },
}

/// The mathematical value of a [`Stmt`].
#[allow(inconsistent_fields)]
pub enum StmtView {
    Class { name: Seq<char>, functions: Seq<StmtView>, line: usize },
    Function { name: Seq<char>, body: Seq<StmtView>, line: usize },
    VariableAssign { name: Seq<char>, object: Option<Box<ExprView>>, value: ExprView, line: usize },
    While { condition: ExprView, body: Seq<StmtView>, line: usize },
    If {
        condition: ExprView,
        then_branch: Seq<StmtView>,
        else_branch: Option<Seq<StmtView>>,
        line: usize,
    },
    Expression { value: ExprView, line: usize },
    Return { value: ExprView, line: usize },
    Import { library: Seq<char>, line: usize },
    Continue { line: usize },
    ForLoop { iterator: Seq<char>, collection: ExprView, body: Seq<StmtView>, line: usize },
}

/// The values of a sequence of expressions, element by element.
pub open spec fn exprs_view(v: Seq<Expr>) -> Seq<ExprView>
    decreases v, 0int,
{
    Seq::new(
        v.len(),
        |i: int|
            if 0 <= i < v.len() {
                expr_view(v[i])
            } else {
                ExprView::Boolean(false)
            },
    )
}

/// The value of an optional boxed expression.
pub open spec fn object_view(o: Option<Box<Expr>>) -> Option<Box<ExprView>>
    decreases o, 0int,
{
    match o {
        Some(b) => Some(Box::new(expr_view(*b))),
        None => None,
    }
}

/// The value of one expression.
pub open spec fn expr_view(e: Expr) -> ExprView
    decreases e, 1int,
{
    match e {
        Expr::Ident(s) => ExprView::Ident(s@),
        Expr::Number(n) => ExprView::Number(n),
        Expr::StringLiteral(s) => ExprView::StringLiteral(s@),
        Expr::Boolean(b) => ExprView::Boolean(b),
        Expr::List(v) => ExprView::List(exprs_view(v@)),
        Expr::FunctionCall { name, object, args } => ExprView::FunctionCall {
            name: name@,
            object: object_view(object),
            args: exprs_view(args@),
        },
        Expr::BinOp { left, op, right } => ExprView::BinOp {
            left: Box::new(expr_view(*left)),
            op: op@,
            right: Box::new(expr_view(*right)),
        },
        Expr::ObjectValue { object, name } => ExprView::ObjectValue {
            object: object_view(object),
            name: name@,
        },
        Expr::NewInstance { class_name, args } => ExprView::NewInstance {
            class_name: class_name@,
            args: exprs_view(args@),
        },
        Expr::Instance { class_name, instance_id } => ExprView::Instance {
            class_name: class_name@,
            instance_id,
        },
    }
}

/// The values of a sequence of statements, element by element.
pub open spec fn stmts_view(v: Seq<Stmt>) -> Seq<StmtView>
    decreases v, 0int,
{
    Seq::new(
        v.len(),
        |i: int|
            if 0 <= i < v.len() {
                stmt_view(v[i])
            } else {
                StmtView::Continue { line: 0 }
            },
    )
}

/// The value of one statement.
pub open spec fn stmt_view(s: Stmt) -> StmtView
    decreases s, 1int,
{
    match s {
        Stmt::Class { name, functions, line } => StmtView::Class {
            name: name@,
            functions: stmts_view(functions@),
            line,
        },
        Stmt::Function { name, body, line } => StmtView::Function {
            name: name@,
            body: stmts_view(body@),
            line,
        },
        Stmt::VariableAssign { name, object, value, line } => StmtView::VariableAssign {
            name: name@,
            object: object_view(object),
            value: expr_view(value),
            line,
        },
        Stmt::While { condition, body, line } => StmtView::While {
            condition: expr_view(condition),
            body: stmts_view(body@),
            line,
        },
        Stmt::If { condition, then_branch, else_branch, line } => StmtView::If {
            condition: expr_view(condition),
            then_branch: stmts_view(then_branch@),
            else_branch: match else_branch {
                Some(b) => Some(stmts_view(b@)),
                None => None,
            },
            line,
        },
        Stmt::Expression { value, line } => StmtView::Expression { value: expr_view(value), line },
        Stmt::Return { value, line } => StmtView::Return { value: expr_view(value), line },
        Stmt::Import { library, line } => StmtView::Import { library: library@, line },
        Stmt::Continue { line } => StmtView::Continue { line },
        Stmt::ForLoop { iterator, collection, body, line } => StmtView::ForLoop {
            iterator: iterator@,
            collection: expr_view(collection),
            body: stmts_view(body@),
            line,
        },
    }
}

/// The texts that name the first `count` of `items`, with a comma and a
/// space between two of them.
pub open spec fn list_debug(items: Seq<ExprView>, count: nat) -> Seq<char>
    decreases items, count,
{
    if count == 0 || count > items.len() {
        Seq::empty()
    } else if count == 1 {
        expr_debug(items[0])
    } else {
        list_debug(items, (count - 1) as nat) + ", "@ + expr_debug(items[count - 1])
    }
}

/// The text that names an optional expression.
pub open spec fn object_debug(object: Option<Box<ExprView>>) -> Seq<char>
    decreases object, 0nat,
{
    match object {
        Some(inner) => "Some("@ + expr_debug(*inner) + ")"@,
        None => "None"@,
    }
}

/// The text that names an expression: its variant and what the variant
/// holds, fields by name in braces, a list in brackets, a string in quotes.
/// It is what `{:?}` writes.
pub open spec fn expr_debug(e: ExprView) -> Seq<char>
    decreases e, 0nat,
{
    match e {
        ExprView::Ident(name) => "Ident("@ + string_debug(name) + ")"@,
        ExprView::Number(n) => "Number("@ + integer_text(n as int) + ")"@,
        ExprView::StringLiteral(text) => "StringLiteral("@ + string_debug(text) + ")"@,
        ExprView::Boolean(b) => if b {
            "Boolean(true)"@
        } else {
            "Boolean(false)"@
        },
        ExprView::List(items) => "List(["@ + list_debug(items, items.len()) + "])"@,
        ExprView::FunctionCall { name, object, args } => "FunctionCall { name: "@ + string_debug(
            name,
        ) + ", object: "@ + object_debug(object) + ", args: ["@ + list_debug(args, args.len())
            + "] }"@,
        ExprView::BinOp { left, op, right } => "BinOp { left: "@ + expr_debug(*left) + ", op: "@
            + token_debug(op) + ", right: "@ + expr_debug(*right) + " }"@,
        ExprView::ObjectValue { object, name } => "ObjectValue { object: "@ + object_debug(object)
            + ", name: "@ + string_debug(name) + " }"@,
        ExprView::NewInstance { class_name, args } => "NewInstance { class_name: "@
            + string_debug(class_name) + ", args: ["@ + list_debug(args, args.len()) + "] }"@,
        ExprView::Instance { class_name, instance_id } => "Instance { class_name: "@
            + string_debug(class_name) + ", instance_id: "@ + integer_text(instance_id as int)
            + " }"@,
    }
}

/// Appends the texts that name `items`, with a comma and a space between
/// two of them.
pub fn push_list_debug(out: &mut String, items: &Vec<Expr>)
    ensures
        final(out)@ == old(out)@ + list_debug(exprs_view(items@), items@.len()),
    decreases items,
{
    let mut i: usize = 0;
    while i < items.len()
        invariant
            i <= items.len(),
            out@ == old(out)@ + list_debug(exprs_view(items@), i as nat),
        decreases items.len() - i,
    {
        if i > 0 {
            out.append(", ");
        }
        out.append(items[i].debug().as_str());
        i += 1;
    }
}

/// Appends the text that names an optional expression.
pub fn push_object_debug(out: &mut String, object: &Option<Box<Expr>>)
    ensures
        final(out)@ == old(out)@ + object_debug(object_view(*object)),
    decreases object,
{
    match object {
        Some(inner) => {
            out.append("Some(");
            out.append((**inner).debug().as_str());
            out.append(")");
        },
        None => {
            out.append("None");
        },
    }
}

impl Expr {
    /// The text that names the expression.
    pub fn debug(&self) -> (s: String)
        ensures
            s@ == expr_debug(self@),
        decreases self,
    {
        match self {
            Expr::Ident(name) => {
                let mut s = String::from_str("Ident(");
                s.append(debug_string(name).as_str());
                s.append(")");
                s
            },
            Expr::Number(n) => {
                let mut s = String::from_str("Number(");
                s.append(integer_to_string(*n).as_str());
                s.append(")");
                s
            },
            Expr::StringLiteral(text) => {
                let mut s = String::from_str("StringLiteral(");
                s.append(debug_string(text).as_str());
                s.append(")");
                s
            },
            Expr::Boolean(b) => {
                if *b {
                    String::from_str("Boolean(true)")
                } else {
                    String::from_str("Boolean(false)")
                }
            },
            Expr::List(items) => {
                let mut s = String::from_str("List([");
                push_list_debug(&mut s, items);
                s.append("])");
                s
            },
            Expr::FunctionCall { name, object, args } => {
                let mut s = String::from_str("FunctionCall { name: ");
                s.append(debug_string(name).as_str());
                s.append(", object: ");
                push_object_debug(&mut s, object);
                s.append(", args: [");
                push_list_debug(&mut s, args);
                s.append("] }");
                s
            },
            Expr::BinOp { left, op, right } => {
                let mut s = String::from_str("BinOp { left: ");
                s.append((**left).debug().as_str());
                s.append(", op: ");
                s.append(op.debug().as_str());
                s.append(", right: ");
                s.append((**right).debug().as_str());
                s.append(" }");
                s
            },
            Expr::ObjectValue { object, name } => {
                let mut s = String::from_str("ObjectValue { object: ");
                push_object_debug(&mut s, object);
                s.append(", name: ");
                s.append(debug_string(name).as_str());
                s.append(" }");
                s
            },
            Expr::NewInstance { class_name, args } => {
                let mut s = String::from_str("NewInstance { class_name: ");
                s.append(debug_string(class_name).as_str());
                s.append(", args: [");
                push_list_debug(&mut s, args);
                s.append("] }");
                s
            },
            Expr::Instance { class_name, instance_id } => {
                let mut s = String::from_str("Instance { class_name: ");
                s.append(debug_string(class_name).as_str());
                s.append(", instance_id: ");
                s.append(unsigned_to_string(*instance_id as u64).as_str());
                s.append(" }");
                s
            },
        }
    }
}

impl View for Expr {
    type V = ExprView;

    open spec fn view(&self) -> ExprView {
        expr_view(*self)
    }
}

impl View for Stmt {
    type V = StmtView;

    open spec fn view(&self) -> StmtView {
        stmt_view(*self)
    }
}

/// Appending one expression appends its value.
pub proof fn lemma_exprs_view_push(v: Seq<Expr>, e: Expr)
    ensures
        exprs_view(v.push(e)) == exprs_view(v).push(e@),
{
}

/// Appending one statement appends its value.
pub proof fn lemma_stmts_view_push(v: Seq<Stmt>, s: Stmt)
    ensures
        stmts_view(v.push(s)) == stmts_view(v).push(s@),
{
}

/// A copy of every expression of `v`, in order.
pub fn clone_exprs(v: &Vec<Expr>) -> (out: Vec<Expr>)
    ensures
        exprs_view(out@) == exprs_view(v@),
    decreases v,
{
    let mut out: Vec<Expr> = Vec::new();
    let mut i: usize = 0;
    while i < v.len()
        invariant
            i <= v.len(),
            out@.len() == i,
            forall|j: int| 0 <= j < i ==> out@[j]@ == v@[j]@,
        decreases v.len() - i,
    {
        out.push(v[i].clone());
        i += 1;
    }
    out
}

/// A copy of an optional boxed expression.
pub fn clone_object(o: &Option<Box<Expr>>) -> (out: Option<Box<Expr>>)
    ensures
        object_view(out) == object_view(*o),
    decreases o,
{
    match o {
        Some(b) => Some(Box::new((**b).clone())),
        None => None,
    }
}

impl Clone for Expr {
    fn clone(&self) -> (res: Self)
        ensures
            res@ == self@,
        decreases self,
    {
        match self {
            Expr::Ident(s) => Expr::Ident(s.clone()),
            Expr::Number(n) => Expr::Number(*n),
            Expr::StringLiteral(s) => Expr::StringLiteral(s.clone()),
            Expr::Boolean(b) => Expr::Boolean(*b),
            Expr::List(v) => Expr::List(clone_exprs(v)),
            Expr::FunctionCall { name, object, args } => Expr::FunctionCall {
                name: name.clone(),
                object: clone_object(object),
                args: clone_exprs(args),
            },
            Expr::BinOp { left, op, right } => Expr::BinOp {
                left: Box::new((**left).clone()),
                op: op.clone(),
                right: Box::new((**right).clone()),
            },
            Expr::ObjectValue { object, name } => Expr::ObjectValue {
                object: clone_object(object),
                name: name.clone(),
            },
            Expr::NewInstance { class_name, args } => Expr::NewInstance {
                class_name: class_name.clone(),
                args: clone_exprs(args),
            },
            Expr::Instance { class_name, instance_id } => Expr::Instance {
                class_name: class_name.clone(),
                instance_id: *instance_id,
            },
        }
    }
}

/// A copy of every statement of `v`, in order.
pub fn clone_stmts(v: &Vec<Stmt>) -> (out: Vec<Stmt>)
    ensures
        stmts_view(out@) == stmts_view(v@),
    decreases v,
{
    let mut out: Vec<Stmt> = Vec::new();
    let mut i: usize = 0;
    while i < v.len()
        invariant
            i <= v.len(),
            out@.len() == i,
            forall|j: int| 0 <= j < i ==> out@[j]@ == v@[j]@,
        decreases v.len() - i,
    {
        out.push(v[i].clone());
        i += 1;
    }
    out
}

impl Clone for Stmt {
    fn clone(&self) -> (res: Self)
        ensures
            res@ == self@,
        decreases self,
    {
        match self {
            Stmt::Class { name, functions, line } => Stmt::Class {
                name: name.clone(),
                functions: clone_stmts(functions),
                line: *line,
            },
            Stmt::Function { name, body, line } => Stmt::Function {
                name: name.clone(),
                body: clone_stmts(body),
                line: *line,
            },
            Stmt::VariableAssign { name, object, value, line } => Stmt::VariableAssign {
                name: name.clone(),
                object: clone_object(object),
                value: value.clone(),
                line: *line,
            },
            Stmt::While { condition, body, line } => Stmt::While {
                condition: condition.clone(),
                body: clone_stmts(body),
                line: *line,
            },
            Stmt::If { condition, then_branch, else_branch, line } => Stmt::If {
                condition: condition.clone(),
                then_branch: clone_stmts(then_branch),
                else_branch: match else_branch {
                    Some(b) => Some(clone_stmts(b)),
                    None => None,
                },
                line: *line,
            },
            Stmt::Expression { value, line } => Stmt::Expression {
                value: value.clone(),
                line: *line,
            },
            Stmt::Return { value, line } => Stmt::Return { value: value.clone(), line: *line },
            Stmt::Import { library, line } => Stmt::Import {
                library: library.clone(),
                line: *line,
            },
            Stmt::Continue { line } => Stmt::Continue { line: *line },
            Stmt::ForLoop { iterator, collection, body, line } => Stmt::ForLoop {
                iterator: iterator.clone(),
                collection: collection.clone(),
                body: clone_stmts(body),
                line: *line,
            },
        }
    }
}


/// Decides whether two sequences of expressions have the same values.
pub fn same_exprs(a: &Vec<Expr>, b: &Vec<Expr>) -> (res: bool)
    ensures
        res == (exprs_view(a@) == exprs_view(b@)),
    decreases a,
{
    if a.len() != b.len() {
        return false;
    }
    let mut i: usize = 0;
    while i < a.len()
        invariant
            i <= a.len(),
            a.len() == b.len(),
            forall|j: int| 0 <= j < i ==> a@[j]@ == b@[j]@,
        decreases a.len() - i,
    {
        if !a[i].same(&b[i]) {
            assert(exprs_view(a@)[i as int] != exprs_view(b@)[i as int]);
            return false;
        }
        i += 1;
    }
    assert(exprs_view(a@) =~= exprs_view(b@));
    true
}

/// Decides whether two optional boxed expressions have the same value.
pub fn same_object(a: &Option<Box<Expr>>, b: &Option<Box<Expr>>) -> (res: bool)
    ensures
        res == (object_view(*a) == object_view(*b)),
    decreases a,
{
    match (a, b) {
        (Some(x), Some(y)) => (**x).same(&**y),
        (None, None) => true,
        _ => false,
    }
}

impl Expr {
    /// Decides whether two expressions have the same value.
    pub fn same(&self, other: &Expr) -> (res: bool)
        ensures
            res == (self@ == other@),
        decreases self,
    {
        match (self, other) {
            (Expr::Ident(a), Expr::Ident(b)) => *a == *b,
            (Expr::Number(a), Expr::Number(b)) => *a == *b,
            (Expr::StringLiteral(a), Expr::StringLiteral(b)) => *a == *b,
            (Expr::Boolean(a), Expr::Boolean(b)) => *a == *b,
            (Expr::List(a), Expr::List(b)) => same_exprs(a, b),
            (
                Expr::FunctionCall { name: n1, object: o1, args: a1 },
                Expr::FunctionCall { name: n2, object: o2, args: a2 },
            ) => *n1 == *n2 && same_object(o1, o2) && same_exprs(a1, a2),
            (
                Expr::BinOp { left: left, op: op, right: right },
                Expr::BinOp { left: other_left, op: other_op, right: other_right },
            ) => (**left).same(&**other_left) && op.same(other_op) && (**right).same(
                &**other_right,
            ),
            (
                Expr::ObjectValue { object: o1, name: n1 },
                Expr::ObjectValue { object: o2, name: n2 },
            ) => same_object(o1, o2) && *n1 == *n2,
            (
                Expr::NewInstance { class_name: c1, args: a1 },
                Expr::NewInstance { class_name: c2, args: a2 },
            ) => *c1 == *c2 && same_exprs(a1, a2),
            (
                Expr::Instance { class_name: c1, instance_id: i1 },
                Expr::Instance { class_name: c2, instance_id: i2 },
            ) => *c1 == *c2 && *i1 == *i2,
            _ => false,
        }
    }
}

impl PartialEq for Expr {
    fn eq(&self, other: &Expr) -> (res: bool) {
        self.same(other)
    }
}

impl vstd::std_specs::cmp::PartialEqSpecImpl for Expr {
    open spec fn obeys_eq_spec() -> bool {
        true
    }

    open spec fn eq_spec(&self, other: &Expr) -> bool {
        self@ == other@
    }
}

/// Decides whether two sequences of statements have the same values.
pub fn same_stmts(a: &Vec<Stmt>, b: &Vec<Stmt>) -> (res: bool)
    ensures
        res == (stmts_view(a@) == stmts_view(b@)),
    decreases a,
{
    if a.len() != b.len() {
        assert(stmts_view(a@).len() != stmts_view(b@).len());
        return false;
    }
    let mut i: usize = 0;
    while i < a.len()
        invariant
            i <= a.len(),
            a.len() == b.len(),
            forall|j: int| 0 <= j < i ==> a@[j]@ == b@[j]@,
        decreases a.len() - i,
    {
        if !a[i].same(&b[i]) {
            assert(stmts_view(a@)[i as int] != stmts_view(b@)[i as int]);
            return false;
        }
        i += 1;
    }
    assert(stmts_view(a@) =~= stmts_view(b@));
    true
}

impl Stmt {
    /// Decides whether two statements have the same value.
    pub fn same(&self, other: &Stmt) -> (res: bool)
        ensures
            res == (self@ == other@),
        decreases self,
    {
        match (self, other) {
            (
                Stmt::Class { name: n1, functions: f1, line: l1 },
                Stmt::Class { name: n2, functions: f2, line: l2 },
            ) => *n1 == *n2 && same_stmts(f1, f2) && *l1 == *l2,
            (
                Stmt::Function { name: n1, body: b1, line: l1 },
                Stmt::Function { name: n2, body: b2, line: l2 },
            ) => *n1 == *n2 && same_stmts(b1, b2) && *l1 == *l2,
            (
                Stmt::VariableAssign { name: n1, object: o1, value: v1, line: l1 },
                Stmt::VariableAssign { name: n2, object: o2, value: v2, line: l2 },
            ) => *n1 == *n2 && same_object(o1, o2) && v1.same(v2) && *l1 == *l2,
            (
                Stmt::While { condition: c1, body: b1, line: l1 },
                Stmt::While { condition: c2, body: b2, line: l2 },
            ) => c1.same(c2) && same_stmts(b1, b2) && *l1 == *l2,
            (
                Stmt::If { condition: c1, then_branch: t1, else_branch: e1, line: l1 },
                Stmt::If { condition: c2, then_branch: t2, else_branch: e2, line: l2 },
            ) => c1.same(c2) && same_stmts(t1, t2) && (match (e1, e2) {
                (Some(x), Some(y)) => same_stmts(x, y),
                (None, None) => true,
                _ => false,
            }) && *l1 == *l2,
            (Stmt::Expression { value: v1, line: l1 }, Stmt::Expression { value: v2, line: l2 }) => {
                v1.same(v2) && *l1 == *l2
            },
            (Stmt::Return { value: v1, line: l1 }, Stmt::Return { value: v2, line: l2 }) => {
                v1.same(v2) && *l1 == *l2
            },
            (Stmt::Import { library: a1, line: l1 }, Stmt::Import { library: a2, line: l2 }) => {
                *a1 == *a2 && *l1 == *l2
            },
            (Stmt::Continue { line: l1 }, Stmt::Continue { line: l2 }) => *l1 == *l2,
            (
                Stmt::ForLoop { iterator: i1, collection: c1, body: b1, line: l1 },
                Stmt::ForLoop { iterator: i2, collection: c2, body: b2, line: l2 },
            ) => *i1 == *i2 && c1.same(c2) && same_stmts(b1, b2) && *l1 == *l2,
            _ => false,
        }
    }
}

impl PartialEq for Stmt {
    fn eq(&self, other: &Stmt) -> (res: bool) {
        self.same(other)
    }
}

impl vstd::std_specs::cmp::PartialEqSpecImpl for Stmt {
    open spec fn obeys_eq_spec() -> bool {
        true
    }

    open spec fn eq_spec(&self, other: &Stmt) -> bool {
        self@ == other@
    }
}

} // verus!
