//! The formatting pipeline: escape interpretation, then whitespace
//! stripping, then quote wrapping, always in that order.

use crate::enums::EscapeSequence;
pub use crate::enums::{EscapeStyle, QuoteStyle};
use crate::text::{
    lemma_replaced_unchanged, lemma_replaced_without_occurrence, lemma_strip_idempotent,
    lemma_stripped_unchanged, occurs_in, strip_spaces, stripped, to_chars,
};
use vstd::prelude::*;

verus! {

/// `text` after the given substitution passes have run over it one after
/// the other, each on the result of the one before.
pub open spec fn interpreted(text: Seq<char>, passes: Seq<EscapeSequence>) -> Seq<char>
    decreases passes.len(),
{
    if passes.len() == 0 {
        text
    } else {
        passes.last().substituted(interpreted(text, passes.drop_last()))
    }
}

/// `text` with the escapes of `style` interpreted: the passes of the style,
/// run in their order.
///
/// A pass never looks again at what it has written itself, but the next
/// pass does. Under `Extended` the three characters `\\n` therefore become
/// a newline: the backslash pass leaves `\n`, and the newline pass reads
/// that as its token.
pub open spec fn unescaped(text: Seq<char>, style: EscapeStyle) -> Seq<char> {
    interpreted(text, style.passes())
}

/// `text` between two marks of `style`.
pub open spec fn wrapped(text: Seq<char>, style: QuoteStyle) -> Seq<char> {
    style.mark() + text + style.mark()
}

/// What formatting makes of `text` under the three options.
pub open spec fn formatted(
    text: Seq<char>,
    escape_style: EscapeStyle,
    strip_whitespace: bool,
    quote_style: QuoteStyle,
) -> Seq<char> {
    let plain = unescaped(text, escape_style);
    wrapped(
        if strip_whitespace {
            stripped(plain)
        } else {
            plain
        },
        quote_style,
    )
}

/// With no escapes interpreted, no stripping and no quoting, the output is
/// the input.
pub proof fn lemma_plain_is_identity(text: Seq<char>)
    ensures
        formatted(text, EscapeStyle::Off, false, QuoteStyle::Off) == text,
{
    assert(Seq::<char>::empty() + text + Seq::<char>::empty() == text);
}

/// A text in which no token of the given passes occurs is left as it is
/// by all of them.
pub proof fn lemma_interpreted_without_token(text: Seq<char>, passes: Seq<EscapeSequence>)
    requires
        forall|k: int| 0 <= k < passes.len() ==> !occurs_in(#[trigger] passes[k].token(), text),
    ensures
        interpreted(text, passes) == text,
    decreases passes.len(),
{
    if passes.len() > 0 {
        let earlier = passes.drop_last();
        assert forall|k: int| 0 <= k < earlier.len() implies !occurs_in(
            #[trigger] earlier[k].token(),
            text,
        ) by {
            assert(earlier[k] == passes[k]);
        }
        lemma_interpreted_without_token(text, earlier);
        let last = passes.last();
        assert(last == passes[passes.len() - 1]);
        lemma_replaced_without_occurrence(text, last.token(), seq![last.literal()]);
    }
}

/// An escape token that is not among the tokens of the style is literal
/// text: where none of the style's own tokens occurs, escape interpretation
/// leaves the text as it is.
pub proof fn lemma_unescaped_without_token(text: Seq<char>, style: EscapeStyle)
    requires
        forall|k: int|
            0 <= k < style.passes().len() ==> !occurs_in(#[trigger] style.passes()[k].token(), text),
    ensures
        unescaped(text, style) == text,
{
    lemma_interpreted_without_token(text, style.passes());
}

/// A text without a backslash holds no escape token: under every style,
/// escape interpretation leaves it as it is.
pub proof fn lemma_unescaped_without_backslash(text: Seq<char>, style: EscapeStyle)
    requires
        !text.contains('\\'),
    ensures
        unescaped(text, style) == text,
{
    let passes = style.passes();
    assert forall|k: int| 0 <= k < passes.len() implies !occurs_in(
        #[trigger] passes[k].token(),
        text,
    ) by {
        lemma_replaced_unchanged(text, passes[k].token(), seq![passes[k].literal()]);
    }
    lemma_unescaped_without_token(text, style);
}

/// An empty text formats to the two marks of the quote style and nothing
/// between them, under every escape style, with or without stripping.
pub proof fn lemma_empty_text(
    escape_style: EscapeStyle,
    strip_whitespace: bool,
    quote_style: QuoteStyle,
)
    ensures
        formatted(Seq::empty(), escape_style, strip_whitespace, quote_style) == quote_style.mark()
            + quote_style.mark(),
{
    let empty = Seq::<char>::empty();
    lemma_unescaped_without_backslash(empty, escape_style);
    lemma_stripped_unchanged(empty);
    assert(quote_style.mark() + empty + quote_style.mark() == quote_style.mark()
        + quote_style.mark());
}

/// Of a text that begins with an escaped backslash and holds no other
/// backslash, the backslash pass makes one backslash followed by the rest
/// of the text as it was.
pub proof fn lemma_backslash_pass_reduces(rest: Seq<char>)
    requires
        !rest.contains('\\'),
    ensures
        EscapeSequence::Backslash.substituted(seq!['\\', '\\'] + rest) == seq!['\\'] + rest,
{
    let pass = EscapeSequence::Backslash;
    let text = seq!['\\', '\\'] + rest;
    assert(text.subrange(0, 2) == pass.token());
    assert(text.skip(2) == rest);
    lemma_replaced_unchanged(rest, pass.token(), seq![pass.literal()]);
}

/// Once the spaces are stripped, formatting the output again with
/// stripping alone changes nothing.
pub proof fn lemma_strip_twice(text: Seq<char>, escape_style: EscapeStyle)
    ensures
        ({
            let once = formatted(text, escape_style, true, QuoteStyle::Off);
            formatted(once, EscapeStyle::Off, true, QuoteStyle::Off) == once
        }),
{
    let plain = unescaped(text, escape_style);
    lemma_strip_idempotent(plain);
    let empty = Seq::<char>::empty();
    assert(empty + stripped(plain) + empty == stripped(plain));
    assert(empty + stripped(stripped(plain)) + empty == stripped(stripped(plain)));
}

/// Quoting encloses and does nothing else: under every quote style the
/// output is the mark of the style, the output without quoting, and the
/// mark again.
pub proof fn lemma_quotes_enclose(
    text: Seq<char>,
    escape_style: EscapeStyle,
    strip_whitespace: bool,
    quote_style: QuoteStyle,
)
    ensures
        formatted(text, escape_style, strip_whitespace, quote_style) == quote_style.mark()
            + formatted(text, escape_style, strip_whitespace, QuoteStyle::Off) + quote_style.mark(),
{
    let bare = formatted(text, escape_style, strip_whitespace, QuoteStyle::Off);
    let plain = unescaped(text, escape_style);
    let body = if strip_whitespace {
        stripped(plain)
    } else {
        plain
    };
    assert(Seq::<char>::empty() + body + Seq::<char>::empty() == body);
}

/// The output under `Single` begins and ends with `'`, and what stands
/// between the two is the output without quoting.
pub proof fn lemma_single_quotes_enclose(
    text: Seq<char>,
    escape_style: EscapeStyle,
    strip_whitespace: bool,
)
    ensures
        ({
            let quoted = formatted(text, escape_style, strip_whitespace, QuoteStyle::Single);
            let bare = formatted(text, escape_style, strip_whitespace, QuoteStyle::Off);
            &&& quoted.len() == bare.len() + 2
            &&& quoted.first() == '\''
            &&& quoted.last() == '\''
            &&& quoted.subrange(1, quoted.len() - 1) == bare
        }),
{
    lemma_quotes_enclose(text, escape_style, strip_whitespace, QuoteStyle::Single);
    let quoted = formatted(text, escape_style, strip_whitespace, QuoteStyle::Single);
    let bare = formatted(text, escape_style, strip_whitespace, QuoteStyle::Off);
    assert(quoted.subrange(1, quoted.len() - 1) == bare);
}

/// The output under `Double` begins and ends with `"`, and what stands
/// between the two is the output without quoting.
pub proof fn lemma_double_quotes_enclose(
    text: Seq<char>,
    escape_style: EscapeStyle,
    strip_whitespace: bool,
)
    ensures
        ({
            let quoted = formatted(text, escape_style, strip_whitespace, QuoteStyle::Double);
            let bare = formatted(text, escape_style, strip_whitespace, QuoteStyle::Off);
            &&& quoted.len() == bare.len() + 2
            &&& quoted.first() == '"'
            &&& quoted.last() == '"'
            &&& quoted.subrange(1, quoted.len() - 1) == bare
        }),
{
    lemma_quotes_enclose(text, escape_style, strip_whitespace, QuoteStyle::Double);
    let quoted = formatted(text, escape_style, strip_whitespace, QuoteStyle::Double);
    let bare = formatted(text, escape_style, strip_whitespace, QuoteStyle::Off);
    assert(quoted.subrange(1, quoted.len() - 1) == bare);
}

/// Interprets the escapes of `style` in `text`.
pub fn unescape(text: Vec<char>, style: EscapeStyle) -> (out: Vec<char>)
    ensures
        out@ == unescaped(text@, style),
{
    let ghost source = text@;
    let passes = style.sequences();
    let mut out = text;
    let mut k: usize = 0;
    while k < passes.len()
        invariant
            k <= passes.len(),
            out@ == interpreted(source, passes@.take(k as int)),
        decreases passes.len() - k,
    {
        assert(passes@.take(k + 1).drop_last() == passes@.take(k as int));
        out = passes[k].apply(out.as_slice());
        k += 1;
    }
    assert(passes@.take(passes@.len() as int) == passes@);
    out
}

/// Puts the quote character of `style` before and after `text`. Quote
/// characters inside `text` are left as they are.
pub fn wrap(text: &[char], style: QuoteStyle) -> (out: String)
    ensures
        out@ == wrapped(text@, style),
{
    let quote = style.character();
    let mut out = String::new();
    if let Some(q) = quote {
        out.push(q);
    }
    let mut i: usize = 0;
    while i < text.len()
        invariant
            i <= text.len(),
            out@ == style.mark() + text@.take(i as int),
        decreases text.len() - i,
    {
        out.push(text[i]);
        i += 1;
    }
    assert(text@.take(text@.len() as int) == text@);
    if let Some(q) = quote {
        out.push(q);
    }
    out
}

/// Formats `text`: interprets the escapes of `escape_style`, then removes
/// the plain spaces if `strip_whitespace` is set, then wraps the result in
/// the quote character of `quote_style`.
pub fn format(
    text: &str,
    escape_style: EscapeStyle,
    strip_whitespace: bool,
    quote_style: QuoteStyle,
) -> (out: String)
    ensures
        out@ == formatted(text@, escape_style, strip_whitespace, quote_style),
{
    let plain = unescape(to_chars(text), escape_style);
    if strip_whitespace {
        let kept = strip_spaces(plain.as_slice());
        wrap(kept.as_slice(), quote_style)
    } else {
        wrap(plain.as_slice(), quote_style)
    }
}

/// What a `Formatter` holds, as plain values.
pub struct FormatterView {
    pub text: Seq<char>,
    pub escape_style: EscapeStyle,
    pub no_whitespace: bool,
    pub quote_style: QuoteStyle,
}

impl FormatterView {
    /// The output that the formatter produces.
    pub open spec fn output(self) -> Seq<char> {
        formatted(self.text, self.escape_style, self.no_whitespace, self.quote_style)
    }
}

/// A text together with the options under which it is to be formatted.
pub struct Formatter<'a> {
    output: &'a str,
    escape_style: EscapeStyle,
    no_whitespace: bool,
    quote_style: QuoteStyle,
}

impl<'a> View for Formatter<'a> {
    type V = FormatterView;

    closed spec fn view(&self) -> FormatterView {
        FormatterView {
            text: self.output@,
            escape_style: self.escape_style,
            no_whitespace: self.no_whitespace,
            quote_style: self.quote_style,
        }
    }
}

impl<'a> Formatter<'a> {
    pub fn new(
        output: &'a str,
        escape_style: EscapeStyle,
        no_whitespace: bool,
        quote_style: QuoteStyle,
    ) -> (formatter: Self)
        ensures
            formatter@ == (FormatterView {
                text: output@,
                escape_style,
                no_whitespace,
                quote_style,
            }),
    {
        Formatter { output, escape_style, no_whitespace, quote_style }
    }

    /// Formats the text under the options that the formatter holds.
    pub fn format_output(&self) -> (out: String)
        ensures
            out@ == self@.output(),
    {
        format(self.output, self.escape_style, self.no_whitespace, self.quote_style)
    }
}

} // verus!
