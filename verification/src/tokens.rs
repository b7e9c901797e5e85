//! The closed vocabulary of lexical atoms of the Cartesian configuration
//! language, with its equality and rendering contracts.
//!
//! Every lexical category of the grammar is one variant of [`Tokens`].
//! Indentation-class tokens carry their depth as a signed integer; every
//! other variant is a zero-payload marker, so tokens are plain values and
//! equality is structural. Each variant has exactly one canonical textual
//! rendering, given by [`spec_render`]; the only variant that renders to the
//! empty string is the no-condition marker, which stands for the absence of
//! a conditional modifier and contributes no surface text.

use crate::decimal::{spec_dec, i32_dec_string, lemma_dec_injective};
use vstd::prelude::*;
use vstd::string::StringExecFns;

verus! {

/// One lexical atom of the Cartesian configuration grammar.
///
/// The set of variants is closed and exhaustive: a new lexical category
/// requires a new variant, never the reuse of an existing one with a
/// different payload meaning.
#[derive(Clone, Copy, Debug, PartialEq, Eq, Structural)]
pub enum Tokens {
    /// An indentation step at the start of a line; carries its depth.
    Indent(i32),
    /// The end of a line.
    EndL,
    /// The end of an indented block; carries the depth it returns to.
    /// Renders exactly as an indentation token of the same depth does, and
    /// is told apart from one only by the debug rendering.
    EndBlock(i32),
    /// The identifier lexeme class. The class is the token; the matched
    /// text stays with the scanner.
    Identifier,
    /// The whitespace lexeme class.
    Whitespace,
    /// The string lexeme class.
    StringTok,
    /// The `variants` keyword, opening a variant block.
    Variants,
    /// The `only` keyword.
    Only,
    /// The `suffix` keyword.
    Suffix,
    /// The `join` keyword.
    Join,
    /// The `no` keyword.
    No,
    /// The `include` keyword.
    Include,
    /// The `del` keyword.
    Del,
    /// The `apply_pre_dict` keyword.
    ApplyPreDict,
    /// The `update_file_map` keyword.
    UpdateFileMap,
    /// The `apply_suffix` keyword.
    ApplySuffix,
    /// The `:` punctuation.
    Colon,
    /// The `.` punctuation.
    Dot,
    /// The `-` marker that opens one variant alternative.
    Dash,
    /// The `@` marker of a default variant.
    At,
    /// The `!` condition negation.
    NotCond,
    /// The `,` separator.
    Comma,
    /// The `..` operator.
    DotDot,
    /// The `[` bracket.
    LBracket,
    /// The `]` bracket.
    RBracket,
    /// The `(` parenthesis.
    LParen,
    /// The `)` parenthesis.
    RParen,
    /// The `${` regular-expression opener.
    RegexStart,
    /// The `}` regular-expression closer.
    RegexStop,
    /// The `=` assignment operator.
    Assign,
    /// The `+=` append operator.
    Append,
    /// The `<=` prepend operator.
    Prepend,
    /// The `~=` lazy assignment operator.
    LazyAssign,
    /// The `?=` regular-expression assignment operator.
    RegexAssign,
    /// The `?+=` regular-expression append operator.
    RegexAppend,
    /// The `?<=` regular-expression prepend operator.
    RegexPrepend,
    /// The no-condition marker: the absence of a conditional modifier.
    /// The one variant that renders to the empty string.
    Cond,
}

/// The canonical textual rendering of a token: a pure function of the
/// variant and, for indentation-class tokens, of the depth payload, which is
/// rendered as a plain decimal integer.
pub open spec fn spec_render(t: Tokens) -> Seq<char> {
    match t {
        Tokens::Indent(d) => "indent "@ + spec_dec(d as int),
        Tokens::EndL => "endl"@,
        Tokens::EndBlock(d) => "indent "@ + spec_dec(d as int),
        Tokens::Identifier => "identifier"@,
        Tokens::Whitespace => "whitespace"@,
        Tokens::StringTok => "string"@,
        Tokens::Variants => "variants"@,
        Tokens::Only => "only"@,
        Tokens::Suffix => "suffix"@,
        Tokens::Join => "join"@,
        Tokens::No => "no"@,
        Tokens::Include => "include"@,
        Tokens::Del => "del"@,
        Tokens::ApplyPreDict => "apply_pre_dict"@,
        Tokens::UpdateFileMap => "update_file_map"@,
        Tokens::ApplySuffix => "apply_suffix"@,
        Tokens::Colon => ":"@,
        Tokens::Dot => "."@,
        Tokens::Dash => "-"@,
        Tokens::At => "@"@,
        Tokens::NotCond => "!"@,
        Tokens::Comma => ","@,
        Tokens::DotDot => ".."@,
        Tokens::LBracket => "["@,
        Tokens::RBracket => "]"@,
        Tokens::LParen => "("@,
        Tokens::RParen => ")"@,
        Tokens::RegexStart => "${"@,
        Tokens::RegexStop => "}"@,
        Tokens::Assign => "="@,
        Tokens::Append => "+="@,
        Tokens::Prepend => "<="@,
        Tokens::LazyAssign => "~="@,
        Tokens::RegexAssign => "?="@,
        Tokens::RegexAppend => "?+="@,
        Tokens::RegexPrepend => "?<="@,
        Tokens::Cond => ""@,
    }
}

/// The structural, debug-facing rendering of a token: the variant's own tag
/// name, with the depth payload in parentheses where one is carried. It
/// disambiguates the variants whose canonical renderings coincide and is
/// never parsed back.
pub open spec fn spec_debug_render(t: Tokens) -> Seq<char> {
    match t {
        Tokens::Indent(d) => "Indent("@ + spec_dec(d as int) + ")"@,
        Tokens::EndL => "EndL"@,
        Tokens::EndBlock(d) => "EndBlock("@ + spec_dec(d as int) + ")"@,
        Tokens::Identifier => "Identifier"@,
        Tokens::Whitespace => "Whitespace"@,
        Tokens::StringTok => "StringTok"@,
        Tokens::Variants => "Variants"@,
        Tokens::Only => "Only"@,
        Tokens::Suffix => "Suffix"@,
        Tokens::Join => "Join"@,
        Tokens::No => "No"@,
        Tokens::Include => "Include"@,
        Tokens::Del => "Del"@,
        Tokens::ApplyPreDict => "ApplyPreDict"@,
        Tokens::UpdateFileMap => "UpdateFileMap"@,
        Tokens::ApplySuffix => "ApplySuffix"@,
        Tokens::Colon => "Colon"@,
        Tokens::Dot => "Dot"@,
        Tokens::Dash => "Dash"@,
        Tokens::At => "At"@,
        Tokens::NotCond => "NotCond"@,
        Tokens::Comma => "Comma"@,
        Tokens::DotDot => "DotDot"@,
        Tokens::LBracket => "LBracket"@,
        Tokens::RBracket => "RBracket"@,
        Tokens::LParen => "LParen"@,
        Tokens::RParen => "RParen"@,
        Tokens::RegexStart => "RegexStart"@,
        Tokens::RegexStop => "RegexStop"@,
        Tokens::Assign => "Assign"@,
        Tokens::Append => "Append"@,
        Tokens::Prepend => "Prepend"@,
        Tokens::LazyAssign => "LazyAssign"@,
        Tokens::RegexAssign => "RegexAssign"@,
        Tokens::RegexAppend => "RegexAppend"@,
        Tokens::RegexPrepend => "RegexPrepend"@,
        Tokens::Cond => "Cond"@,
    }
}

/// The host-facing quoted rendering: the canonical rendering wrapped in
/// single quotes.
pub open spec fn spec_quoted(t: Tokens) -> Seq<char> {
    "'"@ + spec_render(t) + "'"@
}

impl Tokens {
    /// The canonical rendering of this token, exactly [`spec_render`].
    pub fn render(&self) -> (r: String)
        ensures
            r@ == spec_render(*self),
    {
        match *self {
            Tokens::Indent(d) => {
                let mut s = String::from_str("indent ");
                let digits = i32_dec_string(d);
                s.append(digits.as_str());
                s
            },
            Tokens::EndL => String::from_str("endl"),
            Tokens::EndBlock(d) => {
                let mut s = String::from_str("indent ");
                let digits = i32_dec_string(d);
                s.append(digits.as_str());
                s
            },
            Tokens::Identifier => String::from_str("identifier"),
            Tokens::Whitespace => String::from_str("whitespace"),
            Tokens::StringTok => String::from_str("string"),
            Tokens::Variants => String::from_str("variants"),
            Tokens::Only => String::from_str("only"),
            Tokens::Suffix => String::from_str("suffix"),
            Tokens::Join => String::from_str("join"),
            Tokens::No => String::from_str("no"),
            Tokens::Include => String::from_str("include"),
            Tokens::Del => String::from_str("del"),
            Tokens::ApplyPreDict => String::from_str("apply_pre_dict"),
            Tokens::UpdateFileMap => String::from_str("update_file_map"),
            Tokens::ApplySuffix => String::from_str("apply_suffix"),
            Tokens::Colon => String::from_str(":"),
            Tokens::Dot => String::from_str("."),
            Tokens::Dash => String::from_str("-"),
            Tokens::At => String::from_str("@"),
            Tokens::NotCond => String::from_str("!"),
            Tokens::Comma => String::from_str(","),
            Tokens::DotDot => String::from_str(".."),
            Tokens::LBracket => String::from_str("["),
            Tokens::RBracket => String::from_str("]"),
            Tokens::LParen => String::from_str("("),
            Tokens::RParen => String::from_str(")"),
            Tokens::RegexStart => String::from_str("${"),
            Tokens::RegexStop => String::from_str("}"),
            Tokens::Assign => String::from_str("="),
            Tokens::Append => String::from_str("+="),
            Tokens::Prepend => String::from_str("<="),
            Tokens::LazyAssign => String::from_str("~="),
            Tokens::RegexAssign => String::from_str("?="),
            Tokens::RegexAppend => String::from_str("?+="),
            Tokens::RegexPrepend => String::from_str("?<="),
            Tokens::Cond => String::from_str(""),
        }
    }

    /// The identifier of this token: the named accessor for the canonical
    /// rendering, and always in agreement with [`Tokens::render`].
    pub fn identifier(&self) -> (r: String)
        ensures
            r@ == spec_render(*self),
    {
        self.render()
    }

    /// The structural, debug-facing rendering, exactly
    /// [`spec_debug_render`].
    pub fn debug_render(&self) -> (r: String)
        ensures
            r@ == spec_debug_render(*self),
    {
        match *self {
            Tokens::Indent(d) => {
                let mut s = String::from_str("Indent(");
                let digits = i32_dec_string(d);
                s.append(digits.as_str());
                s.append(")");
                s
            },
            Tokens::EndL => String::from_str("EndL"),
            Tokens::EndBlock(d) => {
                let mut s = String::from_str("EndBlock(");
                let digits = i32_dec_string(d);
                s.append(digits.as_str());
                s.append(")");
                s
            },
            Tokens::Identifier => String::from_str("Identifier"),
            Tokens::Whitespace => String::from_str("Whitespace"),
            Tokens::StringTok => String::from_str("StringTok"),
            Tokens::Variants => String::from_str("Variants"),
            Tokens::Only => String::from_str("Only"),
            Tokens::Suffix => String::from_str("Suffix"),
            Tokens::Join => String::from_str("Join"),
            Tokens::No => String::from_str("No"),
            Tokens::Include => String::from_str("Include"),
            Tokens::Del => String::from_str("Del"),
            Tokens::ApplyPreDict => String::from_str("ApplyPreDict"),
            Tokens::UpdateFileMap => String::from_str("UpdateFileMap"),
            Tokens::ApplySuffix => String::from_str("ApplySuffix"),
            Tokens::Colon => String::from_str("Colon"),
            Tokens::Dot => String::from_str("Dot"),
            Tokens::Dash => String::from_str("Dash"),
            Tokens::At => String::from_str("At"),
            Tokens::NotCond => String::from_str("NotCond"),
            Tokens::Comma => String::from_str("Comma"),
            Tokens::DotDot => String::from_str("DotDot"),
            Tokens::LBracket => String::from_str("LBracket"),
            Tokens::RBracket => String::from_str("RBracket"),
            Tokens::LParen => String::from_str("LParen"),
            Tokens::RParen => String::from_str("RParen"),
            Tokens::RegexStart => String::from_str("RegexStart"),
            Tokens::RegexStop => String::from_str("RegexStop"),
            Tokens::Assign => String::from_str("Assign"),
            Tokens::Append => String::from_str("Append"),
            Tokens::Prepend => String::from_str("Prepend"),
            Tokens::LazyAssign => String::from_str("LazyAssign"),
            Tokens::RegexAssign => String::from_str("RegexAssign"),
            Tokens::RegexAppend => String::from_str("RegexAppend"),
            Tokens::RegexPrepend => String::from_str("RegexPrepend"),
            Tokens::Cond => String::from_str("Cond"),
        }
    }

    /// The host-facing quoted rendering: the canonical rendering wrapped in
    /// single quotes, exactly [`spec_quoted`].
    pub fn quoted(&self) -> (r: String)
        ensures
            r@ == spec_quoted(*self),
    {
        let mut s = String::from_str("'");
        let body = self.render();
        s.append(body.as_str());
        s.append("'");
        s
    }
}

/// Token equality is reflexive: every token equals itself.
pub proof fn lemma_eq_reflexive(t: Tokens)
    ensures
        t == t,
{
}

/// Token equality is symmetric.
pub proof fn lemma_eq_symmetric(a: Tokens, b: Tokens)
    requires
        a == b,
    ensures
        b == a,
{
}

/// Token equality is transitive.
pub proof fn lemma_eq_transitive(a: Tokens, b: Tokens, c: Tokens)
    requires
        a == b,
        b == c,
    ensures
        a == c,
{
}

/// Payload sensitivity: indentation-class tokens with different depths are
/// never equal.
pub proof fn lemma_payload_sensitivity(d1: i32, d2: i32)
    requires
        d1 != d2,
    ensures
        Tokens::Indent(d1) != Tokens::Indent(d2),
        Tokens::EndBlock(d1) != Tokens::EndBlock(d2),
{
}

/// Rendering is deterministic: it is a pure function of the token value, so
/// equal tokens render identically, in every call.
pub proof fn lemma_render_deterministic(a: Tokens, b: Tokens)
    requires
        a == b,
    ensures
        spec_render(a) == spec_render(b),
        spec_debug_render(a) == spec_debug_render(b),
        spec_quoted(a) == spec_quoted(b),
{
}

/// Only the no-condition marker renders to the empty string: every other
/// variant contributes surface text.
pub proof fn lemma_render_empty_only_cond(t: Tokens)
    ensures
        spec_render(t).len() == 0 <==> t == Tokens::Cond,
{
    reveal_strlit("indent ");
    reveal_strlit("endl");
    reveal_strlit("identifier");
    reveal_strlit("whitespace");
    reveal_strlit("string");
    reveal_strlit("variants");
    reveal_strlit("only");
    reveal_strlit("suffix");
    reveal_strlit("join");
    reveal_strlit("no");
    reveal_strlit("include");
    reveal_strlit("del");
    reveal_strlit("apply_pre_dict");
    reveal_strlit("update_file_map");
    reveal_strlit("apply_suffix");
    reveal_strlit(":");
    reveal_strlit(".");
    reveal_strlit("-");
    reveal_strlit("@");
    reveal_strlit("!");
    reveal_strlit(",");
    reveal_strlit("..");
    reveal_strlit("[");
    reveal_strlit("]");
    reveal_strlit("(");
    reveal_strlit(")");
    reveal_strlit("${");
    reveal_strlit("}");
    reveal_strlit("=");
    reveal_strlit("+=");
    reveal_strlit("<=");
    reveal_strlit("~=");
    reveal_strlit("?=");
    reveal_strlit("?+=");
    reveal_strlit("?<=");
    reveal_strlit("");
    match t {
        Tokens::Indent(_) => {
            assert(spec_render(t).len() >= "indent "@.len());
        },
        Tokens::EndBlock(_) => {
            assert(spec_render(t).len() >= "indent "@.len());
        },
        _ => {},
    }
}

proof fn lemma_affix_cancel(p: Seq<char>, x: Seq<char>, y: Seq<char>, q: Seq<char>)
    requires
        p + x + q == p + y + q,
    ensures
        x == y,
{
    assert((p + x + q).len() == p.len() + x.len() + q.len());
    assert((p + y + q).len() == p.len() + y.len() + q.len());
    assert(x.len() == y.len());
    assert forall|i: int| 0 <= i < x.len() implies x[i] == y[i] by {
        assert((p + x + q)[p.len() + i] == (p + x)[p.len() + i]);
        assert((p + x)[p.len() + i] == x[i]);
        assert((p + y + q)[p.len() + i] == (p + y)[p.len() + i]);
        assert((p + y)[p.len() + i] == y[i]);
    }
    assert(x =~= y);
}

/// Closure of the vocabulary: no two distinct lexical categories share a
/// variant. The debug rendering is injective, so each variant — and, for
/// indentation-class variants, each depth — has a debug form of its own.
#[verifier::rlimit(100)]
pub proof fn lemma_debug_render_injective(a: Tokens, b: Tokens)
    requires
        spec_debug_render(a) == spec_debug_render(b),
    ensures
        a == b,
{
    reveal_strlit("Indent(");
    reveal_strlit("EndBlock(");
    reveal_strlit(")");
    reveal_strlit("EndL");
    reveal_strlit("Identifier");
    reveal_strlit("Whitespace");
    reveal_strlit("StringTok");
    reveal_strlit("Variants");
    reveal_strlit("Only");
    reveal_strlit("Suffix");
    reveal_strlit("Join");
    reveal_strlit("No");
    reveal_strlit("Include");
    reveal_strlit("Del");
    reveal_strlit("ApplyPreDict");
    reveal_strlit("UpdateFileMap");
    reveal_strlit("ApplySuffix");
    reveal_strlit("Colon");
    reveal_strlit("Dot");
    reveal_strlit("Dash");
    reveal_strlit("At");
    reveal_strlit("NotCond");
    reveal_strlit("Comma");
    reveal_strlit("DotDot");
    reveal_strlit("LBracket");
    reveal_strlit("RBracket");
    reveal_strlit("LParen");
    reveal_strlit("RParen");
    reveal_strlit("RegexStart");
    reveal_strlit("RegexStop");
    reveal_strlit("Assign");
    reveal_strlit("Append");
    reveal_strlit("Prepend");
    reveal_strlit("LazyAssign");
    reveal_strlit("RegexAssign");
    reveal_strlit("RegexAppend");
    reveal_strlit("RegexPrepend");
    reveal_strlit("Cond");
    match (a, b) {
        (Tokens::Indent(d1), Tokens::Indent(d2)) => {
            lemma_affix_cancel(
                "Indent("@,
                spec_dec(d1 as int),
                spec_dec(d2 as int),
                ")"@,
            );
            lemma_dec_injective(d1 as int, d2 as int);
        },
        (Tokens::EndBlock(d1), Tokens::EndBlock(d2)) => {
            lemma_affix_cancel(
                "EndBlock("@,
                spec_dec(d1 as int),
                spec_dec(d2 as int),
                ")"@,
            );
            lemma_dec_injective(d1 as int, d2 as int);
        },
        (Tokens::Indent(_), _) => {
            let s = spec_debug_render(a);
            assert(s[0] == 'I');
            assert(s[1] == 'n');
            assert(s[2] == 'd');
            assert(false);
        },
        (_, Tokens::Indent(_)) => {
            let s = spec_debug_render(b);
            assert(s[0] == 'I');
            assert(s[1] == 'n');
            assert(s[2] == 'd');
            assert(false);
        },
        (Tokens::EndBlock(_), _) => {
            let s = spec_debug_render(a);
            assert(s[0] == 'E');
            assert(s[3] == 'B');
            assert(false);
        },
        (_, Tokens::EndBlock(_)) => {
            let s = spec_debug_render(b);
            assert(s[0] == 'E');
            assert(s[3] == 'B');
            assert(false);
        },
        _ => {
            // Both tokens carry no payload, so their debug renderings are
            // fixed literals. Length and first character tell almost every
            // pair apart; one further character settles the few pairs that
            // share both. The assertions put those ground facts in scope.
            assert("EndL"@.len() == 4);
            assert("EndL"@[0] == 'E');
            assert("Identifier"@.len() == 10);
            assert("Identifier"@[0] == 'I');
            assert("Whitespace"@.len() == 10);
            assert("Whitespace"@[0] == 'W');
            assert("StringTok"@.len() == 9);
            assert("StringTok"@[0] == 'S');
            assert("Variants"@.len() == 8);
            assert("Variants"@[0] == 'V');
            assert("Only"@.len() == 4);
            assert("Only"@[0] == 'O');
            assert("Suffix"@.len() == 6);
            assert("Suffix"@[0] == 'S');
            assert("Join"@.len() == 4);
            assert("Join"@[0] == 'J');
            assert("No"@.len() == 2);
            assert("No"@[0] == 'N');
            assert("Include"@.len() == 7);
            assert("Include"@[0] == 'I');
            assert("Del"@.len() == 3);
            assert("Del"@[0] == 'D');
            assert("ApplyPreDict"@.len() == 12);
            assert("ApplyPreDict"@[0] == 'A');
            assert("UpdateFileMap"@.len() == 13);
            assert("UpdateFileMap"@[0] == 'U');
            assert("ApplySuffix"@.len() == 11);
            assert("ApplySuffix"@[0] == 'A');
            assert("Colon"@.len() == 5);
            assert("Colon"@[0] == 'C');
            assert("Dot"@.len() == 3);
            assert("Dot"@[0] == 'D');
            assert("Dash"@.len() == 4);
            assert("Dash"@[0] == 'D');
            assert("At"@.len() == 2);
            assert("At"@[0] == 'A');
            assert("NotCond"@.len() == 7);
            assert("NotCond"@[0] == 'N');
            assert("Comma"@.len() == 5);
            assert("Comma"@[0] == 'C');
            assert("DotDot"@.len() == 6);
            assert("DotDot"@[0] == 'D');
            assert("LBracket"@.len() == 8);
            assert("LBracket"@[0] == 'L');
            assert("RBracket"@.len() == 8);
            assert("RBracket"@[0] == 'R');
            assert("LParen"@.len() == 6);
            assert("LParen"@[0] == 'L');
            assert("RParen"@.len() == 6);
            assert("RParen"@[0] == 'R');
            assert("RegexStart"@.len() == 10);
            assert("RegexStart"@[0] == 'R');
            assert("RegexStop"@.len() == 9);
            assert("RegexStop"@[0] == 'R');
            assert("Assign"@.len() == 6);
            assert("Assign"@[0] == 'A');
            assert("Append"@.len() == 6);
            assert("Append"@[0] == 'A');
            assert("Prepend"@.len() == 7);
            assert("Prepend"@[0] == 'P');
            assert("LazyAssign"@.len() == 10);
            assert("LazyAssign"@[0] == 'L');
            assert("RegexAssign"@.len() == 11);
            assert("RegexAssign"@[0] == 'R');
            assert("RegexAppend"@.len() == 11);
            assert("RegexAppend"@[0] == 'R');
            assert("RegexPrepend"@.len() == 12);
            assert("RegexPrepend"@[0] == 'R');
            assert("Cond"@.len() == 4);
            assert("Cond"@[0] == 'C');
            assert("Del"@[1] == 'e');
            assert("Dot"@[1] == 'o');
            assert("Colon"@[2] == 'l');
            assert("Comma"@[2] == 'm');
            assert("Assign"@[1] == 's');
            assert("Append"@[1] == 'p');
            assert("RegexAssign"@[6] == 's');
            assert("RegexAppend"@[6] == 'p');
        },
    }
}

} // verus!
