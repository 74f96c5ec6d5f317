//! The option enumerations and the table of escape sequences.

use crate::text::{replace_all, replaced, same_text};
use vstd::prelude::*;

verus! {

/// Which backslash escapes are interpreted.
#[derive(Debug, Copy, Clone, PartialEq, Eq, Structural)]
pub enum EscapeStyle {
    /// No escape is interpreted.
    Off,
    /// `\n` and `\t` are interpreted.
    Basic,
    /// `\\`, `\n`, `\t`, `\'` and `\"` are interpreted.
    Extended,
}

impl EscapeStyle {
    /// The style that an option value selects, if it selects one.
    pub open spec fn named(name: Seq<char>) -> Option<EscapeStyle> {
        if name == "none"@ {
            Some(EscapeStyle::Off)
        } else if name == "basic"@ {
            Some(EscapeStyle::Basic)
        } else if name == "extended"@ {
            Some(EscapeStyle::Extended)
        } else {
            None
        }
    }

    /// The message that reports an option value which selects no style.
    pub open spec fn rejection(name: Seq<char>) -> Seq<char> {
        "Invalid escape style: "@ + name
    }

    /// The substitution passes of the style, in the order in which they
    /// run. The backslash pass comes first: escaped backslashes are reduced
    /// before any other token is looked for, and each later pass scans what
    /// the passes before it have left.
    pub open spec fn passes(self) -> Seq<EscapeSequence> {
        match self {
            EscapeStyle::Off => Seq::empty(),
            EscapeStyle::Basic => seq![EscapeSequence::Newline, EscapeSequence::Tab],
            EscapeStyle::Extended => seq![
                EscapeSequence::Backslash,
                EscapeSequence::Newline,
                EscapeSequence::Tab,
                EscapeSequence::SingleQuote,
                EscapeSequence::DoubleQuote,
            ],
        }
    }

    /// The substitution passes of the style, in running order.
    pub fn sequences(&self) -> (list: Vec<EscapeSequence>)
        ensures
            list@ == self.passes(),
    {
        let list = match self {
            EscapeStyle::Off => Vec::new(),
            EscapeStyle::Basic => vec![EscapeSequence::Newline, EscapeSequence::Tab],
            EscapeStyle::Extended => vec![
                EscapeSequence::Backslash,
                EscapeSequence::Newline,
                EscapeSequence::Tab,
                EscapeSequence::SingleQuote,
                EscapeSequence::DoubleQuote,
            ],
        };
        assert(list@ =~= self.passes());
        list
    }
}

impl std::str::FromStr for EscapeStyle {
    type Err = String;

    /// Reads an option value: `none`, `basic` or `extended`. Any other
    /// value is rejected with a message that quotes it.
    fn from_str(s: &str) -> (r: Result<Self, String>)
        ensures
            match EscapeStyle::named(s@) {
                Some(style) => r == Ok::<EscapeStyle, String>(style),
                None => r is Err && r->Err_0@ == EscapeStyle::rejection(s@),
            },
    {
        if same_text(s, "none") {
            Ok(EscapeStyle::Off)
        } else if same_text(s, "basic") {
            Ok(EscapeStyle::Basic)
        } else if same_text(s, "extended") {
            Ok(EscapeStyle::Extended)
        } else {
            let mut message = "Invalid escape style: ".to_owned();
            message.append(s);
            Err(message)
        }
    }
}

impl Default for EscapeStyle {
    fn default() -> (style: Self)
        ensures
            style == EscapeStyle::Off,
    {
        EscapeStyle::Off
    }
}

/// Which character, if any, is put before and after the output.
#[derive(Debug, Copy, Clone, PartialEq, Eq, Structural)]
pub enum QuoteStyle {
    /// The output is not wrapped.
    Off,
    /// The output is wrapped in `'`.
    Single,
    /// The output is wrapped in `"`.
    Double,
}

impl QuoteStyle {
    /// The style that an option value selects, if it selects one.
    pub open spec fn named(name: Seq<char>) -> Option<QuoteStyle> {
        if name == "single"@ {
            Some(QuoteStyle::Single)
        } else if name == "double"@ {
            Some(QuoteStyle::Double)
        } else if name == "none"@ {
            Some(QuoteStyle::Off)
        } else {
            None
        }
    }

    /// The message that reports an option value which selects no style.
    pub open spec fn rejection(name: Seq<char>) -> Seq<char> {
        "Invalid quote style: "@ + name
    }

    /// What is put on each side of the output: one quote character, or
    /// nothing.
    pub open spec fn mark(self) -> Seq<char> {
        match self {
            QuoteStyle::Off => Seq::empty(),
            QuoteStyle::Single => seq!['\''],
            QuoteStyle::Double => seq!['"'],
        }
    }

    /// The quote character of the style, if it has one.
    pub fn character(&self) -> (c: Option<char>)
        ensures
            match c {
                Some(q) => self.mark() == seq![q],
                None => self.mark() == Seq::<char>::empty(),
            },
    {
        match self {
            QuoteStyle::Off => None,
            QuoteStyle::Single => Some('\''),
            QuoteStyle::Double => Some('"'),
        }
    }
}

impl std::str::FromStr for QuoteStyle {
    type Err = String;

    /// Reads an option value: `single`, `double` or `none`. Any other
    /// value is rejected with a message that quotes it.
    fn from_str(s: &str) -> (r: Result<Self, String>)
        ensures
            match QuoteStyle::named(s@) {
                Some(style) => r == Ok::<QuoteStyle, String>(style),
                None => r is Err && r->Err_0@ == QuoteStyle::rejection(s@),
            },
    {
        if same_text(s, "single") {
            Ok(QuoteStyle::Single)
        } else if same_text(s, "double") {
            Ok(QuoteStyle::Double)
        } else if same_text(s, "none") {
            Ok(QuoteStyle::Off)
        } else {
            let mut message = "Invalid quote style: ".to_owned();
            message.append(s);
            Err(message)
        }
    }
}

impl Default for QuoteStyle {
    fn default() -> (style: Self)
        ensures
            style == QuoteStyle::Off,
    {
        QuoteStyle::Off
    }
}

/// A two-character source token, a backslash and a marker, together with
/// the single character that it stands for.
#[derive(Debug, Copy, Clone, PartialEq, Eq, Structural)]
pub enum EscapeSequence {
    /// `\t`, a tab.
    Tab,
    /// `\n`, a newline.
    Newline,
    /// `\\`, a backslash.
    Backslash,
    /// `\'`, a single quote.
    SingleQuote,
    /// `\"`, a double quote.
    DoubleQuote,
}

impl EscapeSequence {
    /// The character that follows the backslash in the source token.
    pub open spec fn marker(self) -> char {
        match self {
            EscapeSequence::Tab => 't',
            EscapeSequence::Newline => 'n',
            EscapeSequence::Backslash => '\\',
            EscapeSequence::SingleQuote => '\'',
            EscapeSequence::DoubleQuote => '"',
        }
    }

    /// The character that the token stands for.
    pub open spec fn literal(self) -> char {
        match self {
            EscapeSequence::Tab => '\t',
            EscapeSequence::Newline => '\n',
            EscapeSequence::Backslash => '\\',
            EscapeSequence::SingleQuote => '\'',
            EscapeSequence::DoubleQuote => '"',
        }
    }

    /// The source token: a backslash followed by the marker.
    pub open spec fn token(self) -> Seq<char> {
        seq!['\\', self.marker()]
    }

    /// `text` after one pass that replaces every occurrence of the token
    /// by the literal character.
    pub open spec fn substituted(self, text: Seq<char>) -> Seq<char> {
        replaced(text, self.token(), seq![self.literal()])
    }

    /// The literal character as a string of its own.
    pub fn to_string(&self) -> (s: String)
        ensures
            s@ == seq![self.literal()],
    {
        let s = match self {
            EscapeSequence::Backslash => "\\",
            EscapeSequence::Newline => "\n",
            EscapeSequence::Tab => "\t",
            EscapeSequence::SingleQuote => "'",
            EscapeSequence::DoubleQuote => "\"",
        };
        proof {
            reveal_strlit("\\");
            reveal_strlit("\n");
            reveal_strlit("\t");
            reveal_strlit("'");
            reveal_strlit("\"");
            assert(s@ =~= seq![self.literal()]);
        }
        s.to_owned()
    }

    /// Runs one substitution pass over `text`.
    pub fn apply(&self, text: &[char]) -> (out: Vec<char>)
        ensures
            out@ == self.substituted(text@),
    {
        let (marker, literal) = match self {
            EscapeSequence::Tab => ('t', '\t'),
            EscapeSequence::Newline => ('n', '\n'),
            EscapeSequence::Backslash => ('\\', '\\'),
            EscapeSequence::SingleQuote => ('\'', '\''),
            EscapeSequence::DoubleQuote => ('"', '"'),
        };
        let token = [ '\\', marker ];
        let replacement = [ literal ];
        assert(token@ =~= self.token());
        assert(replacement@ =~= seq![self.literal()]);
        replace_all(text, &token, &replacement)
    }
}

} // verus!
