//! Parses a C++ linker symbol, mangled by the rules of the Itanium C++ ABI,
//! into a syntax tree, and renders the tree as the C++ declaration that the
//! symbol stands for: `_ZN5space3fooEii` becomes `space::foo(int, int)`.
//!
//! [`grammar`] says what a mangled name is and [`text`] what its tree reads
//! as; [`parse`] and [`render`] compute the two. A [`Symbol`] is a parsed
//! name, ready to be rendered. [`lemmas`] holds what is proved of the
//! grammar: that its handles lead to earlier entries of the table only,
//! that nesting beyond the limit is refused, and that a name is read
//! alike whatever follows it, and ends unexpectedly where it is cut short.

use vstd::prelude::*;
use crate::ast::MangledName;
use crate::error::Error;
use crate::grammar::ParseOptions;
use crate::handles::{acyclic, mangled_name_below};
use crate::lemmas::handles::encoding::lemma_mangled_name;
use crate::parse::encoding::parse_mangled_name;
use crate::render::encoding::render_mangled_name;
use crate::render::{rendered, Renderer};
use crate::subs::SubstitutionTable;
use crate::text::Scope;

pub mod ast;
pub mod error;
pub mod grammar;
pub mod handles;
pub mod index_str;
pub mod lemmas;
pub mod lex;
pub mod model;
pub mod parse;
pub mod render;
pub mod subs;
pub mod text;

verus! {

/// Storage for the bytes of a mangled name, owned or borrowed.
pub trait RawBytes {
    /// The bytes that are stored.
    spec fn bytes(&self) -> Seq<u8>;

    /// The bytes that are stored, as a slice.
    fn as_bytes(&self) -> (b: &[u8])
        ensures
            b@ == self.bytes(),
    ;
}

impl RawBytes for Vec<u8> {
    open spec fn bytes(&self) -> Seq<u8> {
        self@
    }

    fn as_bytes(&self) -> (b: &[u8]) {
        self.as_slice()
    }
}

impl<'a> RawBytes for &'a [u8] {
    open spec fn bytes(&self) -> Seq<u8> {
        self@
    }

    fn as_bytes(&self) -> (b: &[u8]) {
        *self
    }
}

/// A `Symbol` which owns the underlying storage for the mangled name.
pub type OwnedSymbol = Symbol<Vec<u8>>;

/// A `Symbol` which borrows the underlying storage for the mangled name.
pub type BorrowedSymbol<'a> = Symbol<&'a [u8]>;

/// A mangled symbol that has been parsed into a syntax tree.
///
/// It holds the raw bytes, the table of the substitutions that the name
/// makes, and the tree, whose handles point into the table and whose spans
/// point into the bytes. It never changes.
#[derive(Clone, Debug, PartialEq)]
pub struct Symbol<T> {
    raw: T,
    substitutions: SubstitutionTable,
    parsed: MangledName,
    options: ParseOptions,
}

/// What a [`Symbol`] holds.
pub struct SymbolView {
    pub raw: Seq<u8>,
    pub substitutions: Seq<model::Substitutable>,
    pub parsed: model::MangledName,
    pub options: ParseOptions,
}

impl SymbolView {
    /// Whether the handles of the symbol lead somewhere, and nowhere in a
    /// circle: every handle of the tree is the index of an entry of the
    /// table, and every entry of the table points at earlier entries only.
    pub open spec fn well_formed(self) -> bool {
        acyclic(self.substitutions) && mangled_name_below(
            self.parsed,
            self.substitutions.len() as int,
        )
    }

    /// The C++ text of the symbol. The nesting that the options allowed
    /// in the name is the number of handles that may be followed one
    /// inside the other.
    pub open spec fn text(self) -> text::Text {
        self.text_within(self.options.max_depth as nat)
    }

    /// The C++ text of the symbol, where at most `limit` handles are
    /// followed one inside the other.
    pub open spec fn text_within(self, limit: nat) -> text::Text {
        text::mangled_name_text(
            self.parsed,
            Scope { subs: self.substitutions, raw: self.raw, template_args: None },
            limit,
        )
    }
}

/// The symbol that the grammar's result `parsed` makes of `raw`.
pub open spec fn symbol_of(
    raw: Seq<u8>,
    options: ParseOptions,
    parsed: (model::MangledName, grammar::ParseState),
) -> SymbolView {
    SymbolView { raw, substitutions: parsed.1.subs, parsed: parsed.0, options }
}

impl<T: RawBytes> View for Symbol<T> {
    type V = SymbolView;

    closed spec fn view(&self) -> SymbolView {
        SymbolView {
            raw: self.raw.bytes(),
            substitutions: self.substitutions@,
            parsed: self.parsed@,
            options: self.options,
        }
    }
}

impl<T: RawBytes> Symbol<T> {
    /// Parses the mangled name that `raw` holds, with the default options.
    /// The name has to be all of `raw`: bytes behind it are an
    /// `UnexpectedTrailingBytes`.
    pub fn new(raw: T) -> (r: Result<Symbol<T>, Error>)
        ensures
            match grammar::parse_whole(raw.bytes(), grammar::default_options()) {
                Ok(parsed) => r matches Ok(symbol) && symbol@ == symbol_of(
                    raw.bytes(),
                    grammar::default_options(),
                    parsed,
                ) && symbol@.well_formed(),
                Err(e) => r matches Err(x) && x == e,
            },
    {
        Symbol::new_with_options(raw, ParseOptions::default())
    }

    /// Parses the mangled name that `raw` holds. The name has to be all of
    /// `raw`: bytes behind it are an `UnexpectedTrailingBytes`.
    pub fn new_with_options(raw: T, options: ParseOptions) -> (r: Result<Symbol<T>, Error>)
        ensures
            match grammar::parse_whole(raw.bytes(), options) {
                Ok(parsed) => r matches Ok(symbol) && symbol@ == symbol_of(
                    raw.bytes(),
                    options,
                    parsed,
                ) && symbol@.well_formed(),
                Err(e) => r matches Err(x) && x == e,
            },
    {
        proof {
            reveal(grammar::parse_whole);
            lemma_mangled_name(raw.bytes(), options);
        }
        let (parsed, substitutions, whole) = match parse_mangled_name(raw.as_bytes(), &options) {
            Err(e) => {
                return Err(e);
            },
            Ok((name, table, rest)) => (name, table, rest.is_empty()),
        };
        if whole {
            Ok(Symbol { raw, substitutions, parsed, options })
        } else {
            Err(Error::UnexpectedTrailingBytes)
        }
    }

    /// The C++ text of the symbol, as bytes. Rendering reads the symbol and
    /// nothing else, so the same symbol always gives the same text.
    pub fn render(&self) -> (r: Result<Vec<u8>, Error>)
        ensures
            rendered(r, self@.text()),
    {
        self.render_with_limit(self.options.max_depth)
    }

    /// The C++ text of the symbol, as bytes, where at most `limit` handles
    /// are followed one inside the other.
    pub fn render_with_limit(&self, limit: usize) -> (r: Result<Vec<u8>, Error>)
        ensures
            rendered(r, self@.text_within(limit as nat)),
    {
        let ctx = Renderer {
            subs: &self.substitutions,
            raw: self.raw.as_bytes(),
            template_args: None,
        };
        render_mangled_name(&self.parsed, &ctx, limit)
    }

    /// The C++ text of the symbol, as a string. Bytes of an identifier that
    /// are no UTF-8 come out as the replacement character.
    pub fn to_text(&self) -> (r: Result<String, Error>)
        ensures
            match self@.text() {
                Ok(bytes) => r matches Ok(s) && s@ == lossy_text(bytes),
                Err(e) => r matches Err(x) && x == e,
            },
    {
        match self.render() {
            Err(e) => Err(e),
            Ok(bytes) => Ok(utf8_lossy(bytes.as_slice())),
        }
    }

    /// The raw bytes that the symbol was parsed from.
    pub fn raw(&self) -> (b: &[u8])
        ensures
            b@ == self@.raw,
    {
        self.raw.as_bytes()
    }

    /// The table of the substitutions that the name makes.
    pub fn substitutions(&self) -> (table: &SubstitutionTable)
        ensures
            table@ == self@.substitutions,
    {
        &self.substitutions
    }

    /// The syntax tree of the name.
    pub fn parsed(&self) -> (tree: &MangledName)
        ensures
            tree@ == self@.parsed,
    {
        &self.parsed
    }
}

impl<'a> Symbol<&'a [u8]> {
    /// Parses the mangled name that `input` begins with, with the default
    /// options, and returns it with the bytes behind it.
    pub fn with_tail(input: &'a [u8]) -> (r: Result<(BorrowedSymbol<'a>, &'a [u8]), Error>)
        ensures
            match grammar::parse_mangled_name(input@, grammar::default_options()) {
                Ok(parsed) => r matches Ok((symbol, tail)) && symbol@ == symbol_of(
                    input@,
                    grammar::default_options(),
                    parsed,
                ) && symbol@.well_formed() && tail@ == input@.skip(parsed.1.pos),
                Err(e) => r matches Err(x) && x == e,
            },
    {
        Symbol::with_tail_and_options(input, ParseOptions::default())
    }

    /// Parses the mangled name that `input` begins with, and returns it
    /// with the bytes behind it.
    pub fn with_tail_and_options(input: &'a [u8], options: ParseOptions) -> (r: Result<
        (BorrowedSymbol<'a>, &'a [u8]),
        Error,
    >)
        ensures
            match grammar::parse_mangled_name(input@, options) {
                Ok(parsed) => r matches Ok((symbol, tail)) && symbol@ == symbol_of(
                    input@,
                    options,
                    parsed,
                ) && symbol@.well_formed() && tail@ == input@.skip(parsed.1.pos),
                Err(e) => r matches Err(x) && x == e,
            },
    {
        proof {
            lemma_mangled_name(input@, options);
        }
        match parse_mangled_name(input, &options) {
            Err(e) => Err(e),
            Ok((parsed, substitutions, rest)) => Ok(
                (Symbol { raw: input, substitutions, parsed, options }, rest.tail()),
            ),
        }
    }
}

/// The text that `String::from_utf8_lossy` makes of bytes.
pub uninterp spec fn lossy_text(bytes: Seq<u8>) -> Seq<char>;

/// Calls `String::from_utf8_lossy`, which reads bytes as UTF-8 and puts the
/// replacement character in place of what is none. The contract gives its
/// result a name, and says that bytes that are UTF-8 are decoded as they
/// stand.
#[verifier::external_body]
fn utf8_lossy(bytes: &[u8]) -> (s: String)
    ensures
        s@ == lossy_text(bytes@),
        vstd::utf8::valid_utf8(bytes@) ==> s@ == vstd::utf8::decode_utf8(bytes@),
{
    String::from_utf8_lossy(bytes).into_owned()
}

} // verus!
