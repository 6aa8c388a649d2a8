use vstd::prelude::*;

verus! {

/// The most digits that a number outside strings and comments may have.
pub const MAX_DIGITS: usize = 9;

/// The most brackets and operator characters that a manifest may hold outside strings
/// and comments; each level of nesting of a parsed value needs at least one.
pub const MAX_MARKS: usize = 2048;

/// What the manifest lexer is reading at a point of the text.
#[derive(Debug, Clone, Copy, PartialEq, Eq, Structural)]
pub enum LexMode {
    /// Between tokens, or inside an identifier, a number or an operator.
    Plain,
    /// Just after a `"` that starts a string.
    OneQuote,
    /// Just after `""` that started a string: either an empty string or `"""`.
    TwoQuotes,
    /// Inside a `"..."` string.
    Quoted,
    /// Inside a `"""..."""` string.
    TripleQuoted,
    /// Inside a `#` comment, which runs to the end of the line.
    Commented,
}

/// The token that a plain character continues.
#[derive(Debug, Clone, Copy, PartialEq, Eq, Structural)]
pub enum LexWord {
    NoWord,
    Ident,
    Number,
}

/// Where a scan of manifest text stands after some prefix of it.
#[derive(Debug, Clone, Copy, PartialEq, Eq, Structural)]
pub struct LexScan {
    pub mode: LexMode,
    pub word: LexWord,
    /// The last character was a `-` that starts a token.
    pub dash: bool,
    /// The last character was a `(` that starts a token.
    pub paren: bool,
    /// How many `"` in a row were read inside a triple-quoted string, just before.
    pub quotes: usize,
    /// How many digits the current number has.
    pub digits: usize,
    /// How many brackets and operator characters started a token so far.
    pub marks: usize,
    /// Nothing refused was read so far.
    pub ok: bool,
}

pub open spec fn is_ascii_digit(c: char) -> bool {
    '0' <= c && c <= '9'
}

pub open spec fn is_ascii_letter(c: char) -> bool {
    ('a' <= c && c <= 'z') || ('A' <= c && c <= 'Z')
}

/// A character that continues an identifier.
pub open spec fn is_ident_char(c: char) -> bool {
    is_ascii_letter(c) || is_ascii_digit(c) || c == '_' || c == '-'
}

/// A character that opens a bracket or belongs to an operator of the manifest format.
pub open spec fn is_mark(c: char) -> bool {
    c == '[' || c == '{' || c == '(' || c == '&' || c == '|' || c == '!' || c == '?' || c == '<'
        || c == '>' || c == '=' || c == '~'
}

pub open spec fn scan_start() -> LexScan {
    LexScan {
        mode: LexMode::Plain,
        word: LexWord::NoWord,
        dash: false,
        paren: false,
        quotes: 0,
        digits: 0,
        marks: 0,
        ok: true,
    }
}

pub open spec fn refuse(st: LexScan) -> LexScan {
    LexScan { ok: false, ..st }
}

/// A character read between tokens or inside an identifier or a number. It refuses a
/// digit right after a `-` that starts a token, a number of more than `MAX_DIGITS`
/// digits, `(*`, and more than `MAX_MARKS` marks.
pub open spec fn plain_step(st: LexScan, c: char) -> LexScan {
    if st.word == LexWord::Ident && is_ident_char(c) {
        st
    } else if st.word == LexWord::Number && is_ascii_digit(c) {
        if st.digits >= MAX_DIGITS {
            refuse(st)
        } else {
            LexScan { digits: (st.digits + 1) as usize, ..st }
        }
    } else if (st.dash && is_ascii_digit(c)) || (st.paren && c == '*') || (is_mark(c) && st.marks
        >= MAX_MARKS) {
        refuse(st)
    } else {
        LexScan {
            mode: if c == '"' {
                LexMode::OneQuote
            } else if c == '#' {
                LexMode::Commented
            } else {
                LexMode::Plain
            },
            word: if is_ascii_letter(c) {
                LexWord::Ident
            } else if is_ascii_digit(c) {
                LexWord::Number
            } else {
                LexWord::NoWord
            },
            dash: c == '-',
            paren: c == '(',
            quotes: 0,
            digits: if is_ascii_digit(c) { 1 } else { 0 },
            marks: if is_mark(c) { (st.marks + 1) as usize } else { st.marks },
            ok: true,
        }
    }
}

/// One character of the scan. Besides what `plain_step` refuses, it refuses a backslash
/// inside a string, where the lexer reads escapes from the wrong place.
pub open spec fn scan_step(st: LexScan, c: char) -> LexScan {
    if !st.ok {
        st
    } else {
        match st.mode {
            LexMode::Plain => plain_step(st, c),
            LexMode::OneQuote => if c == '"' {
                LexScan { mode: LexMode::TwoQuotes, ..st }
            } else if c == '\\' {
                refuse(st)
            } else {
                LexScan { mode: LexMode::Quoted, ..st }
            },
            LexMode::TwoQuotes => if c == '"' {
                LexScan { mode: LexMode::TripleQuoted, quotes: 0, ..st }
            } else {
                plain_step(LexScan { mode: LexMode::Plain, ..st }, c)
            },
            LexMode::Quoted => if c == '\\' {
                refuse(st)
            } else if c == '"' {
                LexScan { mode: LexMode::Plain, ..st }
            } else {
                st
            },
            LexMode::TripleQuoted => if c == '\\' {
                refuse(st)
            } else if c == '"' {
                if st.quotes >= 2 {
                    LexScan { mode: LexMode::Plain, quotes: 0, ..st }
                } else {
                    LexScan { quotes: (st.quotes + 1) as usize, ..st }
                }
            } else {
                LexScan { quotes: 0, ..st }
            },
            LexMode::Commented => if c == '\n' {
                LexScan { mode: LexMode::Plain, ..st }
            } else {
                st
            },
        }
    }
}

pub open spec fn scan(s: Seq<char>) -> LexScan
    decreases s.len(),
{
    if s.len() == 0 {
        scan_start()
    } else {
        scan_step(scan(s.drop_last()), s.last())
    }
}

/// Text that the manifest parser is known to handle without panicking or looping:
/// the scan refuses nothing in it.
pub open spec fn parser_safe(text: Seq<char>) -> bool {
    scan(text).ok
}

pub open spec fn bounded(st: LexScan) -> bool {
    st.quotes <= 2 && st.digits <= MAX_DIGITS && st.marks <= MAX_MARKS
}

fn plain_char(st: LexScan, c: char) -> (r: LexScan)
    requires
        bounded(st),
    ensures
        r == plain_step(st, c),
        bounded(r),
{
    let digit = '0' <= c && c <= '9';
    let letter = ('a' <= c && c <= 'z') || ('A' <= c && c <= 'Z');
    let mark = c == '[' || c == '{' || c == '(' || c == '&' || c == '|' || c == '!' || c == '?'
        || c == '<' || c == '>' || c == '=' || c == '~';
    if st.word == LexWord::Ident && (letter || digit || c == '_' || c == '-') {
        st
    } else if st.word == LexWord::Number && digit {
        if st.digits >= MAX_DIGITS {
            LexScan { ok: false, ..st }
        } else {
            LexScan { digits: st.digits + 1, ..st }
        }
    } else if (st.dash && digit) || (st.paren && c == '*') || (mark && st.marks >= MAX_MARKS) {
        LexScan { ok: false, ..st }
    } else {
        LexScan {
            mode: if c == '"' {
                LexMode::OneQuote
            } else if c == '#' {
                LexMode::Commented
            } else {
                LexMode::Plain
            },
            word: if letter {
                LexWord::Ident
            } else if digit {
                LexWord::Number
            } else {
                LexWord::NoWord
            },
            dash: c == '-',
            paren: c == '(',
            quotes: 0,
            digits: if digit { 1 } else { 0 },
            marks: if mark { st.marks + 1 } else { st.marks },
            ok: true,
        }
    }
}

fn scan_char(st: LexScan, c: char) -> (r: LexScan)
    requires
        bounded(st),
    ensures
        r == scan_step(st, c),
        bounded(r),
{
    if !st.ok {
        return st;
    }
    match st.mode {
        LexMode::Plain => plain_char(st, c),
        LexMode::OneQuote => if c == '"' {
            LexScan { mode: LexMode::TwoQuotes, ..st }
        } else if c == '\\' {
            LexScan { ok: false, ..st }
        } else {
            LexScan { mode: LexMode::Quoted, ..st }
        },
        LexMode::TwoQuotes => if c == '"' {
            LexScan { mode: LexMode::TripleQuoted, quotes: 0, ..st }
        } else {
            plain_char(LexScan { mode: LexMode::Plain, ..st }, c)
        },
        LexMode::Quoted => if c == '\\' {
            LexScan { ok: false, ..st }
        } else if c == '"' {
            LexScan { mode: LexMode::Plain, ..st }
        } else {
            st
        },
        LexMode::TripleQuoted => if c == '\\' {
            LexScan { ok: false, ..st }
        } else if c == '"' {
            if st.quotes >= 2 {
                LexScan { mode: LexMode::Plain, quotes: 0, ..st }
            } else {
                LexScan { quotes: st.quotes + 1, ..st }
            }
        } else {
            LexScan { quotes: 0, ..st }
        },
        LexMode::Commented => if c == '\n' {
            LexScan { mode: LexMode::Plain, ..st }
        } else {
            st
        },
    }
}

/// Whether the manifest parser can be handed `text`.
pub fn is_parser_safe(text: &str) -> (r: bool)
    ensures
        r == parser_safe(text@),
{
    let n = text.unicode_len();
    let mut st = LexScan {
        mode: LexMode::Plain,
        word: LexWord::NoWord,
        dash: false,
        paren: false,
        quotes: 0,
        digits: 0,
        marks: 0,
        ok: true,
    };
    let mut i: usize = 0;
    assert(text@.take(0) =~= Seq::<char>::empty());
    while i < n
        invariant
            n == text@.len(),
            i <= n,
            st == scan(text@.take(i as int)),
            bounded(st),
        decreases n - i,
    {
        assert(text@.take(i + 1).drop_last() =~= text@.take(i as int));
        st = scan_char(st, text.get_char(i));
        i += 1;
    }
    assert(text@.take(i as int) =~= text@);
    st.ok
}

} // verus!
