//! The resolved configuration of one run: the options as they were given,
//! with a default in place of each one that was left out.

use crate::enums::{EscapeStyle, QuoteStyle};
use crate::formatter::{formatted, Formatter, FormatterView};
use vstd::prelude::*;

verus! {

/// The font size of a run that names none.
pub const DEFAULT_FONT_SIZE: u32 = 12;

/// How often the text is printed when no count is given.
pub const DEFAULT_REPEAT: u32 = 1;

/// The delay between two printings, in milliseconds, when none is given.
pub const DEFAULT_DELAY: u64 = 0;

/// The options as they come from the command line. An option that was not
/// given is `None`; a flag that was not given is `false`.
#[derive(Debug, Clone)]
pub struct EchoOptions {
    pub no_newline: bool,
    pub escape_style: Option<EscapeStyle>,
    pub no_whitespace: bool,
    pub quote_style: Option<QuoteStyle>,
    pub output_file: Option<String>,
    pub repeat: Option<u32>,
    pub delay: Option<u64>,
    pub font_size: Option<u32>,
    pub text: String,
}

impl EchoOptions {
    /// The configuration that these options resolve to.
    pub open spec fn resolved(self) -> ConfigView {
        ConfigView {
            no_newline: self.no_newline,
            escape_style: match self.escape_style {
                Some(style) => style,
                None => EscapeStyle::Off,
            },
            no_whitespace: self.no_whitespace,
            quote_style: match self.quote_style {
                Some(style) => style,
                None => QuoteStyle::Off,
            },
            output: self.text@,
            output_file: self.output_file.deep_view(),
            font_size: match self.font_size {
                Some(size) => size,
                None => DEFAULT_FONT_SIZE,
            },
            repeat: match self.repeat {
                Some(count) => count,
                None => DEFAULT_REPEAT,
            },
            delay: match self.delay {
                Some(millis) => millis,
                None => DEFAULT_DELAY,
            },
        }
    }
}

/// What a `Config` holds, as plain values.
pub struct ConfigView {
    pub no_newline: bool,
    pub escape_style: EscapeStyle,
    pub no_whitespace: bool,
    pub quote_style: QuoteStyle,
    pub output: Seq<char>,
    pub output_file: Option<Seq<char>>,
    pub font_size: u32,
    pub repeat: u32,
    pub delay: u64,
}

impl ConfigView {
    /// The formatted text.
    pub open spec fn formatted(self) -> Seq<char> {
        formatted(self.output, self.escape_style, self.no_whitespace, self.quote_style)
    }

    /// What one printing writes: the formatted text, and a newline after
    /// it unless the newline is suppressed.
    pub open spec fn rendered(self) -> Seq<char> {
        if self.no_newline {
            self.formatted()
        } else {
            self.formatted().push('\n')
        }
    }
}

/// The configuration of one run.
pub struct Config {
    no_newline: bool,
    escape_style: EscapeStyle,
    no_whitespace: bool,
    quote_style: QuoteStyle,
    output: String,
    output_file: Option<String>,
    font_size: u32,
    repeat: u32,
    delay: u64,
}

impl View for Config {
    type V = ConfigView;

    closed spec fn view(&self) -> ConfigView {
        ConfigView {
            no_newline: self.no_newline,
            escape_style: self.escape_style,
            no_whitespace: self.no_whitespace,
            quote_style: self.quote_style,
            output: self.output@,
            output_file: self.output_file.deep_view(),
            font_size: self.font_size,
            repeat: self.repeat,
            delay: self.delay,
        }
    }
}

impl Config {
    /// Resolves the options: what was given is kept, and what was left out
    /// gets its default.
    pub fn new(options: EchoOptions) -> (config: Self)
        ensures
            config@ == options.resolved(),
    {
        Config {
            no_newline: options.no_newline,
            escape_style: match options.escape_style {
                Some(style) => style,
                None => EscapeStyle::Off,
            },
            no_whitespace: options.no_whitespace,
            quote_style: match options.quote_style {
                Some(style) => style,
                None => QuoteStyle::Off,
            },
            output: options.text,
            output_file: options.output_file,
            font_size: match options.font_size {
                Some(size) => size,
                None => DEFAULT_FONT_SIZE,
            },
            repeat: match options.repeat {
                Some(count) => count,
                None => DEFAULT_REPEAT,
            },
            delay: match options.delay {
                Some(millis) => millis,
                None => DEFAULT_DELAY,
            },
        }
    }

    pub fn no_newline(self: &Config) -> (flag: bool)
        ensures
            flag == self@.no_newline,
    {
        self.no_newline
    }

    pub fn escape_style(self: &Config) -> (style: EscapeStyle)
        ensures
            style == self@.escape_style,
    {
        self.escape_style
    }

    pub fn no_whitespace(self: &Config) -> (flag: bool)
        ensures
            flag == self@.no_whitespace,
    {
        self.no_whitespace
    }

    pub fn quote_style(self: &Config) -> (style: QuoteStyle)
        ensures
            style == self@.quote_style,
    {
        self.quote_style
    }

    /// The text to format, as it was given.
    pub fn output(self: &Config) -> (text: &str)
        ensures
            text@ == self@.output,
    {
        self.output.as_str()
    }

    pub fn output_file(self: &Config) -> (file: &Option<String>)
        ensures
            file.deep_view() == self@.output_file,
    {
        &self.output_file
    }

    pub fn font_size(self: &Config) -> (size: &u32)
        ensures
            *size == self@.font_size,
    {
        &self.font_size
    }

    pub fn repeat(self: &Config) -> (count: u32)
        ensures
            count == self@.repeat,
    {
        self.repeat
    }

    /// The delay between two printings, in milliseconds.
    pub fn delay(self: &Config) -> (millis: u64)
        ensures
            millis == self@.delay,
    {
        self.delay
    }

    /// A formatter for the configured text under the configured options.
    pub fn formatter(self: &Config) -> (formatter: Formatter<'_>)
        ensures
            formatter@ == (FormatterView {
                text: self@.output,
                escape_style: self@.escape_style,
                no_whitespace: self@.no_whitespace,
                quote_style: self@.quote_style,
            }),
    {
        Formatter::new(
            self.output.as_str(),
            self.escape_style,
            self.no_whitespace,
            self.quote_style,
        )
    }

    /// What one printing writes: the formatted text, followed by a newline
    /// unless the newline is suppressed.
    pub fn render(self: &Config) -> (line: String)
        ensures
            line@ == self@.rendered(),
    {
        let mut line = self.formatter().format_output();
        if !self.no_newline {
            line.push('\n');
        }
        line
    }
}

} // verus!
