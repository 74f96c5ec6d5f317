use echo_sab::enums::{EscapeSequence, EscapeStyle, QuoteStyle};
use echo_sab::formatter::{unescape, wrap, Formatter};

const STYLES: [EscapeStyle; 3] = [EscapeStyle::Off, EscapeStyle::Basic, EscapeStyle::Extended];

const QUOTES: [QuoteStyle; 3] = [QuoteStyle::Off, QuoteStyle::Single, QuoteStyle::Double];

fn run(text: &str, escapes: EscapeStyle, strip: bool, quotes: QuoteStyle) -> String {
    echo_sab::formatter::format(text, escapes, strip, quotes)
}

fn chars(text: &str) -> Vec<char> {
    text.chars().collect()
}

#[test]
fn plain_formatting_is_the_identity() {
    for text in ["", "Hello World", "a\\tb\\n", " \t\n ", "  ", "\\", "日本語 テキスト", "'\""] {
        assert_eq!(run(text, EscapeStyle::Off, false, QuoteStyle::Off), text);
    }
}

#[test]
fn stripping_twice_equals_stripping_once() {
    for text in ["", " ", "a b  c ", "   leading", "tab\tand space \n", "no-spaces"] {
        for style in STYLES {
            let once = run(text, style, true, QuoteStyle::Off);
            let twice = run(&once, EscapeStyle::Off, true, QuoteStyle::Off);
            assert_eq!(twice, once);
            assert!(!once.contains(' '));
        }
    }
}

#[test]
fn single_quotes_enclose_the_unquoted_output() {
    for text in ["", "Hello World", "it's", "a\\'b", "'", "\\n x"] {
        for style in STYLES {
            for strip in [false, true] {
                let quoted = run(text, style, strip, QuoteStyle::Single);
                let bare = run(text, style, strip, QuoteStyle::Off);
                assert!(quoted.starts_with('\''));
                assert!(quoted.ends_with('\''));
                assert_eq!(quoted.chars().count(), bare.chars().count() + 2);
                assert_eq!(&quoted[1..quoted.len() - 1], bare);
            }
        }
    }
}

#[test]
fn double_quotes_enclose_the_unquoted_output() {
    for text in ["", "Hello World", "say \"hi\"", "a\\\"b"] {
        for style in STYLES {
            let quoted = run(text, style, false, QuoteStyle::Double);
            let bare = run(text, style, false, QuoteStyle::Off);
            assert_eq!(quoted, format!("\"{}\"", bare));
        }
    }
}

#[test]
fn backslash_pass_runs_before_the_newline_pass() {
    // The backslash pass reduces `\\n` to a backslash and an `n`.
    let first = EscapeSequence::Backslash.apply(&chars("\\\\n"));
    assert_eq!(first, vec!['\\', 'n']);
    // The newline pass runs over that result and finds its token there.
    assert_eq!(EscapeSequence::Newline.apply(&first), vec!['\n']);
    assert_eq!(run("\\\\n", EscapeStyle::Extended, false, QuoteStyle::Off), "\n");
    // In the other order the backslash would have stayed.
    let other = EscapeSequence::Backslash.apply(&EscapeSequence::Newline.apply(&chars("\\\\n")));
    assert_eq!(other, vec!['\\', '\n']);
}

#[test]
fn basic_turns_backslash_t_into_a_tab() {
    let out = run("Hello\\tWorld", EscapeStyle::Basic, false, QuoteStyle::Off);
    assert_eq!(out, "Hello\tWorld");
    assert_eq!(out.matches('\t').count(), 1);
}

#[test]
fn stripping_removes_the_space() {
    assert_eq!(run("Hello World", EscapeStyle::Off, true, QuoteStyle::Off), "HelloWorld");
}

#[test]
fn single_quoting_wraps_the_text() {
    assert_eq!(run("Hello World", EscapeStyle::Off, false, QuoteStyle::Single), "'Hello World'");
}

#[test]
fn empty_text_in_double_quotes() {
    for style in STYLES {
        for strip in [false, true] {
            assert_eq!(run("", style, strip, QuoteStyle::Double), "\"\"");
        }
    }
}

#[test]
fn empty_text_without_quotes_is_empty() {
    for style in STYLES {
        for strip in [false, true] {
            assert_eq!(run("", style, strip, QuoteStyle::Off), "");
            assert_eq!(run("", style, strip, QuoteStyle::Single), "''");
        }
    }
}

#[test]
fn escaped_single_quote_inside_single_quotes() {
    let out = run("it\\'s", EscapeStyle::Extended, false, QuoteStyle::Single);
    assert_eq!(out, "'it's'");
    assert_eq!(out.matches('\'').count(), 3);
    assert!(out.starts_with('\''));
    assert!(out.ends_with('\''));
    assert_eq!(&out[1..out.len() - 1], "it's");
}

#[test]
fn basic_interprets_newline_and_tab_only() {
    let out = run("a\\nb\\tc\\'d\\\"e\\\\f", EscapeStyle::Basic, false, QuoteStyle::Off);
    assert_eq!(out, "a\nb\tc\\'d\\\"e\\\\f");
}

#[test]
fn extended_interprets_all_five_tokens() {
    let out = run("a\\nb\\tc\\'d\\\"e\\\\f", EscapeStyle::Extended, false, QuoteStyle::Off);
    assert_eq!(out, "a\nb\tc'd\"e\\f");
}

#[test]
fn off_leaves_every_token_literal() {
    let text = "a\\nb\\tc\\'d\\\"e\\\\f";
    assert_eq!(run(text, EscapeStyle::Off, false, QuoteStyle::Off), text);
}

#[test]
fn trailing_backslash_is_left_untouched() {
    for style in STYLES {
        assert_eq!(run("abc\\", style, false, QuoteStyle::Off), "abc\\");
        assert_eq!(run("\\", style, false, QuoteStyle::Off), "\\");
    }
}

#[test]
fn unknown_escape_is_left_literal() {
    for style in STYLES {
        assert_eq!(run("a\\xb\\r", style, false, QuoteStyle::Off), "a\\xb\\r");
    }
}

#[test]
fn text_without_backslash_is_unchanged_by_every_style() {
    for text in ["", "plain", "n t ' \"", "tab\there"] {
        for style in STYLES {
            assert_eq!(unescape(chars(text), style), chars(text));
        }
    }
}

#[test]
fn a_pass_scans_the_result_of_the_pass_before() {
    assert_eq!(run("\\\\t", EscapeStyle::Extended, false, QuoteStyle::Off), "\t");
    assert_eq!(run("\\\\\\t", EscapeStyle::Extended, false, QuoteStyle::Off), "\\\t");
    assert_eq!(run("\\\\\\\\n", EscapeStyle::Extended, false, QuoteStyle::Off), "\\\n");
    assert_eq!(run("\\\\'", EscapeStyle::Extended, false, QuoteStyle::Off), "'");
    // The newline pass writes a newline; the tab pass finds no token in what is left.
    assert_eq!(run("\\\\nt", EscapeStyle::Basic, false, QuoteStyle::Off), "\\\nt");
}

#[test]
fn a_pass_does_not_rescan_what_it_wrote() {
    // Four backslashes are two tokens; the two backslashes written are not a third.
    assert_eq!(run("\\\\\\\\", EscapeStyle::Extended, false, QuoteStyle::Off), "\\\\");
    assert_eq!(run("\\\\\\", EscapeStyle::Extended, false, QuoteStyle::Off), "\\\\");
}

#[test]
fn stripping_keeps_tabs_and_newlines() {
    assert_eq!(run("a \tb \nc", EscapeStyle::Off, true, QuoteStyle::Off), "a\tb\nc");
}

#[test]
fn stripping_runs_after_escape_interpretation() {
    // The space between the backslash and the `n` goes only after the escape pass.
    assert_eq!(run("a\\ n b", EscapeStyle::Basic, true, QuoteStyle::Off), "a\\nb");
    assert_eq!(run("a \\n b \\t c", EscapeStyle::Basic, true, QuoteStyle::Off), "a\nb\tc");
}

#[test]
fn quoting_does_not_escape_quotes_inside() {
    assert_eq!(run("a'b", EscapeStyle::Off, false, QuoteStyle::Single), "'a'b'");
    assert_eq!(run("a\"b", EscapeStyle::Off, false, QuoteStyle::Double), "\"a\"b\"");
}

#[test]
fn quotes_are_added_after_stripping() {
    assert_eq!(run(" a b ", EscapeStyle::Off, true, QuoteStyle::Double), "\"ab\"");
    assert_eq!(run("   ", EscapeStyle::Off, true, QuoteStyle::Single), "''");
}

#[test]
fn all_three_stages_together() {
    let out = run("one \\t two\\n", EscapeStyle::Extended, true, QuoteStyle::Double);
    assert_eq!(out, "\"one\ttwo\n\"");
}

#[test]
fn formatting_is_deterministic() {
    for style in STYLES {
        for quotes in QUOTES {
            let first = run("a \\n b", style, true, quotes);
            let second = run("a \\n b", style, true, quotes);
            assert_eq!(first, second);
        }
    }
}

#[test]
fn formatter_gives_what_format_gives() {
    for text in ["", "Hello\\tWorld", "a b", "\\\\n"] {
        for style in STYLES {
            for quotes in QUOTES {
                for strip in [false, true] {
                    let formatter = Formatter::new(text, style, strip, quotes);
                    assert_eq!(formatter.format_output(), run(text, style, strip, quotes));
                }
            }
        }
    }
}

#[test]
fn formatter_can_be_asked_twice() {
    let formatter = Formatter::new("x\\ty", EscapeStyle::Basic, false, QuoteStyle::Single);
    assert_eq!(formatter.format_output(), "'x\ty'");
    assert_eq!(formatter.format_output(), "'x\ty'");
}

#[test]
fn non_ascii_text_passes_through() {
    let out = run("日本 語\\n✓", EscapeStyle::Basic, true, QuoteStyle::Double);
    assert_eq!(out, "\"日本語\n✓\"");
}

#[test]
fn wrap_puts_the_mark_on_both_sides() {
    assert_eq!(wrap(&chars("ab"), QuoteStyle::Off), "ab");
    assert_eq!(wrap(&chars("ab"), QuoteStyle::Single), "'ab'");
    assert_eq!(wrap(&chars("ab"), QuoteStyle::Double), "\"ab\"");
    assert_eq!(wrap(&[], QuoteStyle::Double), "\"\"");
}

#[test]
fn unescape_applies_the_passes_in_order() {
    assert_eq!(unescape(chars("\\\\n"), EscapeStyle::Extended), vec!['\n']);
    assert_eq!(unescape(chars("\\\\n"), EscapeStyle::Basic), vec!['\\', '\n']);
    assert_eq!(unescape(chars("\\\\n"), EscapeStyle::Off), vec!['\\', '\\', 'n']);
}
