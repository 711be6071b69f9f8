//! The failure taxonomy shared by every stage of the interpreter, with its
//! messages, its category labels, its adapters and its helpers.
use vstd::prelude::*;
use crate::decimal::{decimal, push_decimal};
use crate::payload::{IoFailure, SExpr, Token, VarFailure};

verus! {

/// What an operation of the interpreter returns: a value or a failure.
pub type SResult<T> = Result<T, SErr>;

/// Every kind of failure the interpreter can report, with the data that
/// explains it.
#[derive(Debug)]
pub enum SErr {
    Generic(String),
    FoundNothing,
    EnvNotFound,
    DivisionByZero,
    UnexpectedForm(SExpr),
    UnexpectedToken(Token),
    NotExpectedToken(Token, Token),
    /// Target type, expression.
    Cast(String, SExpr),
    UnboundVar(String),
    NotAProcedure(SExpr),
    /// Expected, found.
    WrongArgCount(usize, usize),
    /// Max size, requested.
    IndexOutOfBounds(usize, usize),
    /// Expected type, expression.
    TypeMismatch(String, SExpr),
    /// Procedure name, port kind.
    WrongPort(String, String),
    IOErr(IoFailure),
    VarErr(VarFailure),
}

/// A failure seen as its variant and the rendering of each payload.
pub enum FailureView {
    Generic(Seq<char>),
    FoundNothing,
    EnvNotFound,
    DivisionByZero,
    UnexpectedForm(Seq<char>),
    UnexpectedToken(Seq<char>),
    NotExpectedToken(Seq<char>, Seq<char>),
    Cast(Seq<char>, Seq<char>),
    UnboundVar(Seq<char>),
    NotAProcedure(Seq<char>),
    WrongArgCount(nat, nat),
    IndexOutOfBounds(nat, nat),
    TypeMismatch(Seq<char>, Seq<char>),
    WrongPort(Seq<char>, Seq<char>),
    IOErr(Seq<char>),
    VarErr(Seq<char>),
}

impl View for SErr {
    type V = FailureView;

    open spec fn view(&self) -> FailureView {
        match self {
            SErr::Generic(m) => FailureView::Generic(m@),
            SErr::FoundNothing => FailureView::FoundNothing,
            SErr::EnvNotFound => FailureView::EnvNotFound,
            SErr::DivisionByZero => FailureView::DivisionByZero,
            SErr::UnexpectedForm(x) => FailureView::UnexpectedForm(x@),
            SErr::UnexpectedToken(t) => FailureView::UnexpectedToken(t@),
            SErr::NotExpectedToken(a, b) => FailureView::NotExpectedToken(a@, b@),
            SErr::Cast(t, x) => FailureView::Cast(t@, x@),
            SErr::UnboundVar(n) => FailureView::UnboundVar(n@),
            SErr::NotAProcedure(x) => FailureView::NotAProcedure(x@),
            SErr::WrongArgCount(e, f) => FailureView::WrongArgCount(*e as nat, *f as nat),
            SErr::IndexOutOfBounds(m, r) => FailureView::IndexOutOfBounds(*m as nat, *r as nat),
            SErr::TypeMismatch(t, x) => FailureView::TypeMismatch(t@, x@),
            SErr::WrongPort(p, k) => FailureView::WrongPort(p@, k@),
            SErr::IOErr(e) => FailureView::IOErr(e@),
            SErr::VarErr(e) => FailureView::VarErr(e@),
        }
    }
}

impl FailureView {
    /// The human-readable explanation of the failure.
    pub open spec fn message(self) -> Seq<char> {
        match self {
            FailureView::Generic(m) => m,
            FailureView::FoundNothing => "Expected some expression or token, found nothing."@,
            FailureView::EnvNotFound => "Environment not found. (Probably an unbound variable)"@,
            FailureView::DivisionByZero => "Division by zero"@,
            FailureView::UnexpectedForm(x) => "Expression is in unexpected form: "@ + x,
            FailureView::UnexpectedToken(t) => "Not expected this token: "@ + t,
            FailureView::NotExpectedToken(a, b) => "Expected one of "@ + a + ", found "@ + b,
            FailureView::Cast(t, x) => "Can't convert "@ + x + " to "@ + t,
            FailureView::UnboundVar(n) => "Unbound variable: "@ + n,
            FailureView::NotAProcedure(x) => "Wrong type to apply, not a procedure: "@ + x,
            FailureView::WrongArgCount(e, f) =>
                "Wrong arg count; expected: "@ + decimal(e) + ", found: "@ + decimal(f),
            FailureView::IndexOutOfBounds(m, r) =>
                "Index out of bounds. Max size: "@ + decimal(m) + ", requested: "@ + decimal(r),
            FailureView::TypeMismatch(t, x) => "Expected a "@ + t + ", found this: "@ + x,
            FailureView::WrongPort(p, k) =>
                "Can't apply function `"@ + p + "` to a port type of "@ + k,
            FailureView::IOErr(m) => m,
            FailureView::VarErr(m) => m,
        }
    }

    /// The coarse classification label of the failure's variant.
    pub open spec fn category(self) -> Seq<char> {
        match self {
            FailureView::Generic(_) => "An error."@,
            FailureView::FoundNothing => "Expected some expression or token, found nothing."@,
            FailureView::EnvNotFound => "Environment not found. (Probably an unbound variable)"@,
            FailureView::DivisionByZero => "Division by zero"@,
            FailureView::UnexpectedForm(_) => "Expression is in unexpected form."@,
            FailureView::UnexpectedToken(_) => "Unexpected token."@,
            FailureView::NotExpectedToken(_, _) => "Unexpected token."@,
            FailureView::Cast(_, _) => "Failed conversion."@,
            FailureView::UnboundVar(_) => "Unbound variable."@,
            FailureView::NotAProcedure(_) => "Not a procedure."@,
            FailureView::WrongArgCount(_, _) => "Wrong arg count."@,
            FailureView::IndexOutOfBounds(_, _) => "Index out of bounds."@,
            FailureView::TypeMismatch(_, _) => "Type mismatch."@,
            FailureView::WrongPort(_, _) => "Wrong type of port."@,
            FailureView::IOErr(_) => "IO error."@,
            FailureView::VarErr(_) => "Variable error."@,
        }
    }

    /// The position of the failure's variant in the taxonomy.
    pub open spec fn variant_index(self) -> nat {
        match self {
            FailureView::Generic(_) => 0,
            FailureView::FoundNothing => 1,
            FailureView::EnvNotFound => 2,
            FailureView::DivisionByZero => 3,
            FailureView::UnexpectedForm(_) => 4,
            FailureView::UnexpectedToken(_) => 5,
            FailureView::NotExpectedToken(_, _) => 6,
            FailureView::Cast(_, _) => 7,
            FailureView::UnboundVar(_) => 8,
            FailureView::NotAProcedure(_) => 9,
            FailureView::WrongArgCount(_, _) => 10,
            FailureView::IndexOutOfBounds(_, _) => 11,
            FailureView::TypeMismatch(_, _) => 12,
            FailureView::WrongPort(_, _) => 13,
            FailureView::IOErr(_) => 14,
            FailureView::VarErr(_) => 15,
        }
    }

    /// The variant takes no payload.
    pub open spec fn is_bare(self) -> bool {
        ||| self is FoundNothing
        ||| self is EnvNotFound
        ||| self is DivisionByZero
    }

    /// The failure's message is nothing but a payload text, and that text is empty.
    pub open spec fn has_empty_text(self) -> bool {
        match self {
            FailureView::Generic(m) => m.len() == 0,
            FailureView::IOErr(m) => m.len() == 0,
            FailureView::VarErr(m) => m.len() == 0,
            _ => false,
        }
    }
}

fn append_string(s: &mut String, t: String)
    ensures
        final(s)@ == old(s)@ + t@,
{
    s.append(t.as_str());
}

impl SErr {
    /// The human-readable explanation of the failure.
    pub fn render(&self) -> (r: String)
        ensures
            r@ == self@.message(),
    {
        match self {
            SErr::Generic(m) => m.clone(),
            SErr::FoundNothing => String::from_str("Expected some expression or token, found nothing."),
            SErr::EnvNotFound => String::from_str("Environment not found. (Probably an unbound variable)"),
            SErr::DivisionByZero => String::from_str("Division by zero"),
            SErr::UnexpectedForm(x) => {
                let mut s = String::from_str("Expression is in unexpected form: ");
                append_string(&mut s, x.render());
                s
            },
            SErr::UnexpectedToken(t) => {
                let mut s = String::from_str("Not expected this token: ");
                append_string(&mut s, t.render());
                s
            },
            SErr::NotExpectedToken(a, b) => {
                let mut s = String::from_str("Expected one of ");
                append_string(&mut s, a.render());
                s.append(", found ");
                append_string(&mut s, b.render());
                s
            },
            SErr::Cast(t, x) => {
                let mut s = String::from_str("Can't convert ");
                append_string(&mut s, x.render());
                s.append(" to ");
                s.append(t.as_str());
                s
            },
            SErr::UnboundVar(n) => {
                let mut s = String::from_str("Unbound variable: ");
                s.append(n.as_str());
                s
            },
            SErr::NotAProcedure(x) => {
                let mut s = String::from_str("Wrong type to apply, not a procedure: ");
                append_string(&mut s, x.render());
                s
            },
            SErr::WrongArgCount(e, f) => {
                let mut s = String::from_str("Wrong arg count; expected: ");
                push_decimal(&mut s, *e);
                s.append(", found: ");
                push_decimal(&mut s, *f);
                s
            },
            SErr::IndexOutOfBounds(m, r) => {
                let mut s = String::from_str("Index out of bounds. Max size: ");
                push_decimal(&mut s, *m);
                s.append(", requested: ");
                push_decimal(&mut s, *r);
                s
            },
            SErr::TypeMismatch(t, x) => {
                let mut s = String::from_str("Expected a ");
                s.append(t.as_str());
                s.append(", found this: ");
                append_string(&mut s, x.render());
                s
            },
            SErr::WrongPort(p, k) => {
                let mut s = String::from_str("Can't apply function `");
                s.append(p.as_str());
                s.append("` to a port type of ");
                s.append(k.as_str());
                s
            },
            SErr::IOErr(e) => e.render(),
            SErr::VarErr(e) => e.render(),
        }
    }

    /// A coarse label for the failure's variant, the same for every payload.
    pub fn description(&self) -> (r: &'static str)
        ensures
            r@ == self@.category(),
    {
        match self {
            SErr::Generic(_) => "An error.",
            SErr::FoundNothing => "Expected some expression or token, found nothing.",
            SErr::EnvNotFound => "Environment not found. (Probably an unbound variable)",
            SErr::DivisionByZero => "Division by zero",
            SErr::UnexpectedForm(_) => "Expression is in unexpected form.",
            SErr::UnexpectedToken(_) => "Unexpected token.",
            SErr::NotExpectedToken(_, _) => "Unexpected token.",
            SErr::Cast(_, _) => "Failed conversion.",
            SErr::UnboundVar(_) => "Unbound variable.",
            SErr::NotAProcedure(_) => "Not a procedure.",
            SErr::WrongArgCount(_, _) => "Wrong arg count.",
            SErr::IndexOutOfBounds(_, _) => "Index out of bounds.",
            SErr::TypeMismatch(_, _) => "Type mismatch.",
            SErr::WrongPort(_, _) => "Wrong type of port.",
            SErr::IOErr(_) => "IO error.",
            SErr::VarErr(_) => "Variable error.",
        }
    }
}

impl Clone for SErr {
    /// A copy that leaves the original untouched.
    fn clone(&self) -> (r: Self)
        ensures
            r == *self,
    {
        match self {
            SErr::Generic(m) => SErr::Generic(m.clone()),
            SErr::FoundNothing => SErr::FoundNothing,
            SErr::EnvNotFound => SErr::EnvNotFound,
            SErr::DivisionByZero => SErr::DivisionByZero,
            SErr::UnexpectedForm(x) => SErr::UnexpectedForm(x.clone()),
            SErr::UnexpectedToken(t) => SErr::UnexpectedToken(t.clone()),
            SErr::NotExpectedToken(a, b) => SErr::NotExpectedToken(a.clone(), b.clone()),
            SErr::Cast(t, x) => SErr::Cast(t.clone(), x.clone()),
            SErr::UnboundVar(n) => SErr::UnboundVar(n.clone()),
            SErr::NotAProcedure(x) => SErr::NotAProcedure(x.clone()),
            SErr::WrongArgCount(e, f) => SErr::WrongArgCount(*e, *f),
            SErr::IndexOutOfBounds(m, r) => SErr::IndexOutOfBounds(*m, *r),
            SErr::TypeMismatch(t, x) => SErr::TypeMismatch(t.clone(), x.clone()),
            SErr::WrongPort(p, k) => SErr::WrongPort(p.clone(), k.clone()),
            SErr::IOErr(e) => SErr::IOErr(e.clone()),
            SErr::VarErr(e) => SErr::VarErr(e.clone()),
        }
    }
}

impl From<IoFailure> for SErr {
    /// Wraps an I/O failure as it is.
    fn from(error: IoFailure) -> (r: SErr) {
        SErr::IOErr(error)
    }
}

impl vstd::std_specs::convert::FromSpecImpl<IoFailure> for SErr {
    open spec fn obeys_from_spec() -> bool {
        true
    }

    open spec fn from_spec(error: IoFailure) -> SErr {
        SErr::IOErr(error)
    }
}

impl From<VarFailure> for SErr {
    /// Wraps an environment-variable failure as it is.
    fn from(error: VarFailure) -> (r: SErr) {
        SErr::VarErr(error)
    }
}

impl vstd::std_specs::convert::FromSpecImpl<VarFailure> for SErr {
    open spec fn obeys_from_spec() -> bool {
        true
    }

    open spec fn from_spec(error: VarFailure) -> SErr {
        SErr::VarErr(error)
    }
}

impl SErr {
    /// A free-form failure with message `s`.
    pub fn new_generic(s: &str) -> (r: SErr)
        ensures
            r@ == FailureView::Generic(s@),
            r@.message() == s@,
    {
        SErr::Generic(String::from_str(s))
    }

    /// The identifier `s` has no binding.
    pub fn new_unbound_var(s: &str) -> (r: SErr)
        ensures
            r@ == FailureView::UnboundVar(s@),
            r@.message() == "Unbound variable: "@ + s@,
    {
        SErr::UnboundVar(String::from_str(s))
    }

    /// The expression `x` has an unexpected shape; `x` itself is left as it is.
    pub fn new_unexpected_form(x: &SExpr) -> (r: SErr)
        ensures
            r@ == FailureView::UnexpectedForm(x@),
            r@.message() == "Expression is in unexpected form: "@ + x@,
    {
        SErr::UnexpectedForm(x.clone())
    }

    /// An identifier was expected where `s` was found.
    pub fn new_id_not_found(s: &str) -> (r: SErr)
        ensures
            r@ == FailureView::Generic("Expected an identifer, found: "@ + s@),
            r@.message() == "Expected an identifer, found: "@ + s@,
    {
        let mut m = String::from_str("Expected an identifer, found: ");
        m.append(s);
        SErr::Generic(m)
    }

    /// An expression was expected where `s` was found.
    pub fn new_expr_not_found(s: &str) -> (r: SErr)
        ensures
            r@ == FailureView::Generic("Expected an expression, found: "@ + s@),
            r@.message() == "Expected an expression, found: "@ + s@,
    {
        let mut m = String::from_str("Expected an expression, found: ");
        m.append(s);
        SErr::Generic(m)
    }
}

/// Ends the current operation with a variant that takes no payload.
pub fn serr<T>(e: SErr) -> (r: SResult<T>)
    requires
        e@.is_bare(),
    ensures
        r == Err::<T, SErr>(e),
        r->Err_0@.message() == e@.message(),
{
    Err(e)
}

/// Ends the current operation with a free-form failure carrying `message`,
/// already formatted where a template was used.
pub fn bail<T>(message: &str) -> (r: SResult<T>)
    ensures
        r is Err,
        r->Err_0@ == FailureView::Generic(message@),
        r->Err_0@.message() == message@,
{
    Err(SErr::Generic(String::from_str(message)))
}

/// Ends the current operation with the failure `e`, built from its payloads.
pub fn bail_with<T>(e: SErr) -> (r: SResult<T>)
    ensures
        r == Err::<T, SErr>(e),
        r->Err_0@.message() == e@.message(),
{
    Err(e)
}

/// Two failures with the same variant and payloads cannot be told apart:
/// they render to the same message and have the same category, so
/// rendering is a function of the failure alone.
pub proof fn lemma_observation_by_view(a: SErr, b: SErr)
    requires
        a@ == b@,
    ensures
        a@.message() == b@.message(),
        a@.category() == b@.category(),
{
}

/// Every failure renders to a non-empty message, except one whose message
/// is an empty payload text.
pub proof fn lemma_message_nonempty(e: SErr)
    requires
        !e@.has_empty_text(),
    ensures
        e@.message().len() > 0,
{
    reveal_strlit("Expected some expression or token, found nothing.");
    reveal_strlit("Environment not found. (Probably an unbound variable)");
    reveal_strlit("Division by zero");
    reveal_strlit("Expression is in unexpected form: ");
    reveal_strlit("Not expected this token: ");
    reveal_strlit("Expected one of ");
    reveal_strlit("Can't convert ");
    reveal_strlit("Unbound variable: ");
    reveal_strlit("Wrong type to apply, not a procedure: ");
    reveal_strlit("Wrong arg count; expected: ");
    reveal_strlit("Index out of bounds. Max size: ");
    reveal_strlit("Expected a ");
    reveal_strlit("Can't apply function `");
}

/// The category of a failure depends on its variant alone, never on its
/// payloads.
pub proof fn lemma_category_by_variant(a: SErr, b: SErr)
    requires
        a@.variant_index() == b@.variant_index(),
    ensures
        a@.category() == b@.category(),
{
}

/// Wrapping an outside failure keeps its message: the wrapped failure
/// renders exactly as the outside one does.
pub proof fn lemma_adapters_keep_message(x: IoFailure, y: VarFailure)
    ensures
        SErr::IOErr(x)@.message() == x@,
        SErr::VarErr(y)@.message() == y@,
{
}

} // verus!
