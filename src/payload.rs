//! The values that failures carry from the other stages of the interpreter
//! and from the operating system. Each is known here only by its textual
//! rendering, which is what a failure message embeds.
use vstd::prelude::*;

verus! {

/// A lexical token, as its textual rendering.
#[derive(Debug)]
pub struct Token {
    text: String,
}

/// A parsed expression, as its textual rendering.
#[derive(Debug)]
pub struct SExpr {
    text: String,
}

/// A file or stream failure reported by the operating system, as its message.
#[derive(Debug)]
pub struct IoFailure {
    message: String,
}

/// A failed environment-variable lookup, as its message.
#[derive(Debug)]
pub struct VarFailure {
    message: String,
}

impl View for Token {
    type V = Seq<char>;

    closed spec fn view(&self) -> Seq<char> {
        self.text@
    }
}

impl View for SExpr {
    type V = Seq<char>;

    closed spec fn view(&self) -> Seq<char> {
        self.text@
    }
}

impl View for IoFailure {
    type V = Seq<char>;

    closed spec fn view(&self) -> Seq<char> {
        self.message@
    }
}

impl View for VarFailure {
    type V = Seq<char>;

    closed spec fn view(&self) -> Seq<char> {
        self.message@
    }
}

impl Token {
    /// A token whose rendering is `text`.
    pub fn new(text: &str) -> (r: Token)
        ensures
            r@ == text@,
    {
        Token { text: String::from_str(text) }
    }

    /// The token's own textual rendering.
    pub fn render(&self) -> (r: String)
        ensures
            r@ == self@,
    {
        self.text.clone()
    }
}

impl SExpr {
    /// An expression whose rendering is `text`.
    pub fn new(text: &str) -> (r: SExpr)
        ensures
            r@ == text@,
    {
        SExpr { text: String::from_str(text) }
    }

    /// The expression's own textual rendering.
    pub fn render(&self) -> (r: String)
        ensures
            r@ == self@,
    {
        self.text.clone()
    }
}

impl IoFailure {
    /// An I/O failure whose message is `message`.
    pub fn new(message: &str) -> (r: IoFailure)
        ensures
            r@ == message@,
    {
        IoFailure { message: String::from_str(message) }
    }

    /// The failure's own message.
    pub fn render(&self) -> (r: String)
        ensures
            r@ == self@,
    {
        self.message.clone()
    }
}

impl VarFailure {
    /// An environment-variable failure whose message is `message`.
    pub fn new(message: &str) -> (r: VarFailure)
        ensures
            r@ == message@,
    {
        VarFailure { message: String::from_str(message) }
    }

    /// The failure's own message.
    pub fn render(&self) -> (r: String)
        ensures
            r@ == self@,
    {
        self.message.clone()
    }
}

impl Clone for Token {
    fn clone(&self) -> (r: Self)
        ensures
            r == *self,
    {
        Token { text: self.text.clone() }
    }
}

impl Clone for SExpr {
    fn clone(&self) -> (r: Self)
        ensures
            r == *self,
    {
        SExpr { text: self.text.clone() }
    }
}

impl Clone for IoFailure {
    fn clone(&self) -> (r: Self)
        ensures
            r == *self,
    {
        IoFailure { message: self.message.clone() }
    }
}

impl Clone for VarFailure {
    fn clone(&self) -> (r: Self)
        ensures
            r == *self,
    {
        VarFailure { message: self.message.clone() }
    }
}

} // verus!
