use vstd::prelude::*;
use vstd::string::*;
use crate::intent::StyleIntent;
use crate::synth::{
    style_of, BibliographySpec, CitationSpec, Config, ContributorConfig, ShortenListOptions, StyleSpec,
    StyleView, TemplatePreset, WrapPunctuation,
};

verus! {

/// Relies on `String::push`: appends one character to the end of the string.
pub assume_specification[ String::push ](s: &mut String, ch: char)
    ensures
        final(s)@ == old(s)@.push(ch),
;

// ---------------------------------------------------------------------------
// The document format.
//
// A style is written as YAML, one member per line, every member present:
// an absent value is written `null`, a nested mapping as `key:` followed by
// its members indented by two more spaces. Strings are double-quoted, with
// `\`, `"` and line feeds escaped.
// ---------------------------------------------------------------------------

pub open spec fn nl() -> Seq<char> {
    seq!['\n']
}

/// One line: a key (with its indentation and colon), a value, a line feed.
pub open spec fn line(key: Seq<char>, value: Seq<char>) -> Seq<char> {
    key + value + nl()
}

pub open spec fn esc_char(c: char) -> Seq<char> {
    if c == '\\' {
        seq!['\\', '\\']
    } else if c == '"' {
        seq!['\\', '"']
    } else if c == '\n' {
        seq!['\\', 'n']
    } else {
        seq![c]
    }
}

/// The characters of `t` with `\`, `"` and line feeds escaped.
pub open spec fn escape(t: Seq<char>) -> Seq<char>
    decreases t.len(),
{
    if t.len() == 0 {
        Seq::empty()
    } else {
        esc_char(t[0]) + escape(t.drop_first())
    }
}

pub open spec fn str_token(s: Option<Seq<char>>) -> Seq<char> {
    match s {
        Some(t) => seq![' ', '"'] + escape(t) + seq!['"'],
        None => " null"@,
    }
}

pub open spec fn digit_char(d: int) -> char {
    if d == 0 {
        '0'
    } else if d == 1 {
        '1'
    } else if d == 2 {
        '2'
    } else if d == 3 {
        '3'
    } else if d == 4 {
        '4'
    } else if d == 5 {
        '5'
    } else if d == 6 {
        '6'
    } else if d == 7 {
        '7'
    } else if d == 8 {
        '8'
    } else {
        '9'
    }
}

/// The decimal digits of `n`, without leading zeros.
pub open spec fn digits(n: int) -> Seq<char> {
    if n < 10 {
        seq![digit_char(n)]
    } else if n < 100 {
        seq![digit_char(n / 10), digit_char(n % 10)]
    } else {
        seq![digit_char(n / 100), digit_char((n / 10) % 10), digit_char(n % 10)]
    }
}

pub open spec fn num_token(n: u8) -> Seq<char> {
    seq![' '] + digits(n as int)
}

pub open spec fn preset_token(p: Option<TemplatePreset>) -> Seq<char> {
    match p {
        None => " null"@,
        Some(TemplatePreset::Apa) => " apa"@,
        Some(TemplatePreset::Vancouver) => " vancouver"@,
        Some(TemplatePreset::ChicagoAuthorDate) => " chicago_author_date"@,
    }
}

pub open spec fn wrap_token(w: Option<WrapPunctuation>) -> Seq<char> {
    match w {
        None => " null"@,
        Some(WrapPunctuation::Plain) => " none"@,
        Some(WrapPunctuation::Parentheses) => " parentheses"@,
    }
}

pub open spec fn shorten_block(o: Option<ShortenListOptions>) -> Seq<char> {
    match o {
        None => line("      shorten:"@, " null"@),
        Some(s) => line("      shorten:"@, Seq::empty()) + line(
            "        min:"@,
            num_token(s.min),
        ) + line("        use_first:"@, num_token(s.use_first)),
    }
}

pub open spec fn contributors_block(o: Option<ContributorConfig>) -> Seq<char> {
    match o {
        None => line("    contributors:"@, " null"@),
        Some(c) => line("    contributors:"@, Seq::empty()) + shorten_block(c.shorten),
    }
}

pub open spec fn options_block(o: Option<Config>) -> Seq<char> {
    match o {
        None => line("  options:"@, " null"@),
        Some(c) => line("  options:"@, Seq::empty()) + contributors_block(c.contributors),
    }
}

pub open spec fn citation_block(o: Option<CitationSpec>) -> Seq<char> {
    match o {
        None => line("citation:"@, " null"@),
        Some(c) => line("citation:"@, Seq::empty()) + line(
            "  use_preset:"@,
            preset_token(c.use_preset),
        ) + line("  wrap:"@, wrap_token(c.wrap)) + options_block(c.options),
    }
}

pub open spec fn bibliography_block(o: Option<BibliographySpec>) -> Seq<char> {
    match o {
        None => line("bibliography:"@, " null"@),
        Some(b) => line("bibliography:"@, Seq::empty()) + line(
            "  use_preset:"@,
            preset_token(b.use_preset),
        ) + options_block(b.options),
    }
}

/// The document that `emit` writes for style `s`.
pub open spec fn document(s: StyleView) -> Seq<char> {
    line("info:"@, Seq::empty()) + line("  id:"@, str_token(s.id)) + line(
        "  title:"@,
        str_token(s.title),
    ) + citation_block(s.citation) + bibliography_block(s.bibliography)
}

// ---------------------------------------------------------------------------
// Writing a document.
// ---------------------------------------------------------------------------

fn put_line(out: &mut String, key: &str, value: &str)
    ensures
        final(out)@ == old(out)@ + line(key@, value@),
{
    out.append(key);
    out.append(value);
    out.push('\n');
    assert(out@ =~= old(out)@ + line(key@, value@));
}

fn put_open(out: &mut String, key: &str)
    ensures
        final(out)@ == old(out)@ + line(key@, Seq::empty()),
{
    out.append(key);
    out.push('\n');
    assert(out@ =~= old(out)@ + line(key@, Seq::empty()));
}

proof fn lemma_escape_append(a: Seq<char>, b: Seq<char>)
    ensures
        escape(a + b) == escape(a) + escape(b),
    decreases a.len(),
{
    if a.len() == 0 {
        assert(a + b =~= b);
        assert(escape(a) + escape(b) =~= escape(b));
    } else {
        lemma_escape_append(a.drop_first(), b);
        assert((a + b).drop_first() =~= a.drop_first() + b);
        assert(escape(a + b) =~= escape(a) + escape(b));
    }
}

fn put_escaped(out: &mut String, t: &String)
    ensures
        final(out)@ == old(out)@ + escape(t@),
{
    let n = t.as_str().unicode_len();
    let mut i: usize = 0;
    while i < n
        invariant
            n == t@.len(),
            i <= n,
            out@ == old(out)@ + escape(t@.subrange(0, i as int)),
        decreases n - i,
    {
        let c = t.as_str().get_char(i);
        let ghost before = out@;
        if c == '\\' {
            out.push('\\');
            out.push('\\');
        } else if c == '"' {
            out.push('\\');
            out.push('"');
        } else if c == '\n' {
            out.push('\\');
            out.push('n');
        } else {
            out.push(c);
        }
        proof {
            let head = t@.subrange(0, i as int);
            lemma_escape_append(head, seq![c]);
            assert(t@.subrange(0, i as int + 1) =~= head + seq![c]);
            let one = seq![c];
            assert(one.drop_first() =~= Seq::<char>::empty());
            assert(escape(one.drop_first()) == Seq::<char>::empty());
            assert(escape(one) == esc_char(c) + escape(one.drop_first()));
            assert(escape(one) =~= esc_char(c));
            assert(out@ =~= before + esc_char(c));
        }
        i = i + 1;
    }
    assert(t@.subrange(0, n as int) =~= t@);
}

fn put_str_line(out: &mut String, key: &str, s: &Option<String>)
    ensures
        final(out)@ == old(out)@ + line(
            key@,
            str_token(
                match s {
                    Some(t) => Some(t@),
                    None => None,
                },
            ),
        ),
{
    match s {
        Some(t) => {
            out.append(key);
            out.push(' ');
            out.push('"');
            put_escaped(out, t);
            out.push('"');
            out.push('\n');
            assert(out@ =~= old(out)@ + line(key@, seq![' ', '"'] + escape(t@) + seq!['"']));
        },
        None => put_line(out, key, " null"),
    }
}

fn digit_exec(d: u8) -> (c: char)
    requires
        d < 10,
    ensures
        c == digit_char(d as int),
{
    match d {
        0 => '0',
        1 => '1',
        2 => '2',
        3 => '3',
        4 => '4',
        5 => '5',
        6 => '6',
        7 => '7',
        8 => '8',
        _ => '9',
    }
}

fn put_num_line(out: &mut String, key: &str, n: u8)
    ensures
        final(out)@ == old(out)@ + line(key@, num_token(n)),
{
    out.append(key);
    out.push(' ');
    if n < 10 {
        out.push(digit_exec(n));
    } else if n < 100 {
        out.push(digit_exec(n / 10));
        out.push(digit_exec(n % 10));
    } else {
        out.push(digit_exec(n / 100));
        out.push(digit_exec((n / 10) % 10));
        out.push(digit_exec(n % 10));
    }
    out.push('\n');
    assert(out@ =~= old(out)@ + line(key@, num_token(n)));
}

fn preset_str(p: Option<TemplatePreset>) -> (r: &'static str)
    ensures
        r@ == preset_token(p),
{
    match p {
        None => " null",
        Some(TemplatePreset::Apa) => " apa",
        Some(TemplatePreset::Vancouver) => " vancouver",
        Some(TemplatePreset::ChicagoAuthorDate) => " chicago_author_date",
    }
}

fn wrap_str(w: Option<WrapPunctuation>) -> (r: &'static str)
    ensures
        r@ == wrap_token(w),
{
    match w {
        None => " null",
        Some(WrapPunctuation::Plain) => " none",
        Some(WrapPunctuation::Parentheses) => " parentheses",
    }
}

fn put_options(out: &mut String, o: Option<Config>)
    ensures
        final(out)@ == old(out)@ + options_block(o),
{
    match o {
        None => put_line(out, "  options:", " null"),
        Some(c) => {
            put_open(out, "  options:");
            match c.contributors {
                None => put_line(out, "    contributors:", " null"),
                Some(cc) => {
                    put_open(out, "    contributors:");
                    match cc.shorten {
                        None => put_line(out, "      shorten:", " null"),
                        Some(s) => {
                            put_open(out, "      shorten:");
                            put_num_line(out, "        min:", s.min);
                            put_num_line(out, "        use_first:", s.use_first);
                        },
                    }
                },
            }
        },
    }
    assert(out@ =~= old(out)@ + options_block(o));
}

/// Writes the style as a document; the same style always gives the same text.
pub fn emit(style: &StyleSpec) -> (r: String)
    ensures
        r@ == document(style@),
{
    let mut out = String::new();
    put_open(&mut out, "info:");
    put_str_line(&mut out, "  id:", &style.info.id);
    put_str_line(&mut out, "  title:", &style.info.title);
    match style.citation {
        None => put_line(&mut out, "citation:", " null"),
        Some(c) => {
            put_open(&mut out, "citation:");
            put_line(&mut out, "  use_preset:", preset_str(c.use_preset));
            put_line(&mut out, "  wrap:", wrap_str(c.wrap));
            put_options(&mut out, c.options);
        },
    }
    match style.bibliography {
        None => put_line(&mut out, "bibliography:", " null"),
        Some(b) => {
            put_open(&mut out, "bibliography:");
            put_line(&mut out, "  use_preset:", preset_str(b.use_preset));
            put_options(&mut out, b.options);
        },
    }
    assert(out@ =~= document(style@));
    out
}

impl StyleIntent {
    /// The style document for this intent: the compiled style, written out.
    pub fn generate_csln(&self) -> (r: String)
        ensures
            r@ == document(style_of(self@)),
    {
        emit(&self.to_style())
    }
}

// ---------------------------------------------------------------------------
// Reading a document back.
// ---------------------------------------------------------------------------

pub open spec fn starts_with(s: Seq<char>, p: Seq<char>) -> bool {
    p.len() <= s.len() && s.subrange(0, p.len() as int) == p
}

pub open spec fn no_newline(s: Seq<char>) -> bool {
    forall|k: int| 0 <= k < s.len() ==> s[k] != '\n'
}

/// Splits `s` at its first line feed: the text before it and the text after it.
pub open spec fn split_line(s: Seq<char>) -> Option<(Seq<char>, Seq<char>)>
    decreases s.len(),
{
    if s.len() == 0 {
        None
    } else if s[0] == '\n' {
        Some((Seq::empty(), s.drop_first()))
    } else {
        match split_line(s.drop_first()) {
            Some((l, r)) => Some((seq![s[0]] + l, r)),
            None => None,
        }
    }
}

/// Reads a line that starts with `key`: the rest of that line, and what follows it.
pub open spec fn read_line(key: Seq<char>, s: Seq<char>) -> Option<(Seq<char>, Seq<char>)> {
    if starts_with(s, key) {
        split_line(s.subrange(key.len() as int, s.len() as int))
    } else {
        None
    }
}

/// Undoes `escape`; `None` on a stray quote, line feed or backslash.
pub open spec fn unescape(e: Seq<char>) -> Option<Seq<char>>
    decreases e.len(),
{
    if e.len() == 0 {
        Some(Seq::empty())
    } else if e[0] == '\\' {
        if e.len() < 2 {
            None
        } else {
            let c = if e[1] == 'n' {
                Some('\n')
            } else if e[1] == '\\' || e[1] == '"' {
                Some(e[1])
            } else {
                None
            };
            match (c, unescape(e.subrange(2, e.len() as int))) {
                (Some(c), Some(r)) => Some(seq![c] + r),
                _ => None,
            }
        }
    } else if e[0] == '"' || e[0] == '\n' {
        None
    } else {
        match unescape(e.drop_first()) {
            Some(r) => Some(seq![e[0]] + r),
            None => None,
        }
    }
}

pub open spec fn parse_str(v: Seq<char>) -> Option<Option<Seq<char>>> {
    if v == " null"@ {
        Some(None)
    } else if v.len() >= 3 && v[0] == ' ' && v[1] == '"' && v[v.len() - 1] == '"' {
        match unescape(v.subrange(2, v.len() - 1)) {
            Some(t) => Some(Some(t)),
            None => None,
        }
    } else {
        None
    }
}

pub open spec fn digit_value(c: char) -> Option<int> {
    if c == '0' {
        Some(0)
    } else if c == '1' {
        Some(1)
    } else if c == '2' {
        Some(2)
    } else if c == '3' {
        Some(3)
    } else if c == '4' {
        Some(4)
    } else if c == '5' {
        Some(5)
    } else if c == '6' {
        Some(6)
    } else if c == '7' {
        Some(7)
    } else if c == '8' {
        Some(8)
    } else if c == '9' {
        Some(9)
    } else {
        None
    }
}

pub open spec fn parse_digits(d: Seq<char>) -> Option<int>
    decreases d.len(),
{
    if d.len() == 0 {
        Some(0)
    } else {
        match (parse_digits(d.drop_last()), digit_value(d.last())) {
            (Some(a), Some(b)) => Some(10 * a + b),
            _ => None,
        }
    }
}

pub open spec fn parse_num(v: Seq<char>) -> Option<u8> {
    if v.len() < 2 || v.len() > 4 || v[0] != ' ' {
        None
    } else {
        match parse_digits(v.drop_first()) {
            Some(n) => if n < 256 {
                Some(n as u8)
            } else {
                None
            },
            None => None,
        }
    }
}

pub open spec fn parse_preset(v: Seq<char>) -> Option<Option<TemplatePreset>> {
    if v == " null"@ {
        Some(None)
    } else if v == " apa"@ {
        Some(Some(TemplatePreset::Apa))
    } else if v == " vancouver"@ {
        Some(Some(TemplatePreset::Vancouver))
    } else if v == " chicago_author_date"@ {
        Some(Some(TemplatePreset::ChicagoAuthorDate))
    } else {
        None
    }
}

pub open spec fn parse_wrap(v: Seq<char>) -> Option<Option<WrapPunctuation>> {
    if v == " null"@ {
        Some(None)
    } else if v == " none"@ {
        Some(Some(WrapPunctuation::Plain))
    } else if v == " parentheses"@ {
        Some(Some(WrapPunctuation::Parentheses))
    } else {
        None
    }
}

pub open spec fn parse_shorten(s: Seq<char>) -> Option<(Option<ShortenListOptions>, Seq<char>)> {
    match read_line("      shorten:"@, s) {
        Some((v, r)) => if v == " null"@ {
            Some((None, r))
        } else if v.len() == 0 {
            match read_line("        min:"@, r) {
                Some((v1, r1)) => match (parse_num(v1), read_line("        use_first:"@, r1)) {
                    (Some(min), Some((v2, r2))) => match parse_num(v2) {
                        Some(use_first) => Some(
                            (Some(ShortenListOptions { min, use_first }), r2),
                        ),
                        None => None,
                    },
                    _ => None,
                },
                None => None,
            }
        } else {
            None
        },
        None => None,
    }
}

pub open spec fn parse_contributors(s: Seq<char>) -> Option<(Option<ContributorConfig>, Seq<char>)> {
    match read_line("    contributors:"@, s) {
        Some((v, r)) => if v == " null"@ {
            Some((None, r))
        } else if v.len() == 0 {
            match parse_shorten(r) {
                Some((shorten, r1)) => Some((Some(ContributorConfig { shorten }), r1)),
                None => None,
            }
        } else {
            None
        },
        None => None,
    }
}

pub open spec fn parse_options(s: Seq<char>) -> Option<(Option<Config>, Seq<char>)> {
    match read_line("  options:"@, s) {
        Some((v, r)) => if v == " null"@ {
            Some((None, r))
        } else if v.len() == 0 {
            match parse_contributors(r) {
                Some((contributors, r1)) => Some((Some(Config { contributors }), r1)),
                None => None,
            }
        } else {
            None
        },
        None => None,
    }
}

pub open spec fn parse_citation(s: Seq<char>) -> Option<(Option<CitationSpec>, Seq<char>)> {
    match read_line("citation:"@, s) {
        Some((v, r)) => if v == " null"@ {
            Some((None, r))
        } else if v.len() == 0 {
            match read_line("  use_preset:"@, r) {
                Some((v1, r1)) => match (parse_preset(v1), read_line("  wrap:"@, r1)) {
                    (Some(use_preset), Some((v2, r2))) => match (parse_wrap(v2), parse_options(r2)) {
                        (Some(wrap), Some((options, r3))) => Some(
                            (Some(CitationSpec { use_preset, wrap, options }), r3),
                        ),
                        _ => None,
                    },
                    _ => None,
                },
                None => None,
            }
        } else {
            None
        },
        None => None,
    }
}

pub open spec fn parse_bibliography(s: Seq<char>) -> Option<(Option<BibliographySpec>, Seq<char>)> {
    match read_line("bibliography:"@, s) {
        Some((v, r)) => if v == " null"@ {
            Some((None, r))
        } else if v.len() == 0 {
            match read_line("  use_preset:"@, r) {
                Some((v1, r1)) => match (parse_preset(v1), parse_options(r1)) {
                    (Some(use_preset), Some((options, r2))) => Some(
                        (Some(BibliographySpec { use_preset, options }), r2),
                    ),
                    _ => None,
                },
                None => None,
            }
        } else {
            None
        },
        None => None,
    }
}

/// Reads a whole document; `None` unless it has exactly the shape that `emit` writes.
pub open spec fn parse_document(d: Seq<char>) -> Option<StyleView> {
    match read_line("info:"@, d) {
        Some((v0, r0)) => if v0.len() != 0 {
            None
        } else {
            match read_line("  id:"@, r0) {
                Some((v1, r1)) => match (parse_str(v1), read_line("  title:"@, r1)) {
                    (Some(id), Some((v2, r2))) => match (parse_str(v2), parse_citation(r2)) {
                        (Some(title), Some((citation, r3))) => match parse_bibliography(r3) {
                            Some((bibliography, r4)) => if r4.len() == 0 {
                                Some(StyleView { id, title, citation, bibliography })
                            } else {
                                None
                            },
                            None => None,
                        },
                        _ => None,
                    },
                    _ => None,
                },
                None => None,
            }
        },
        None => None,
    }
}

// ---------------------------------------------------------------------------
// Reading back what was written.
// ---------------------------------------------------------------------------

proof fn lemma_split_line(v: Seq<char>, rest: Seq<char>)
    requires
        no_newline(v),
    ensures
        split_line(v + nl() + rest) == Some((v, rest)),
    decreases v.len(),
{
    let s = v + nl() + rest;
    if v.len() == 0 {
        assert(s[0] == '\n');
        assert(s.drop_first() =~= rest);
    } else {
        assert(s[0] == v[0]);
        assert(no_newline(v.drop_first()));
        lemma_split_line(v.drop_first(), rest);
        assert(s.drop_first() =~= v.drop_first() + nl() + rest);
        assert(seq![v[0]] + v.drop_first() =~= v);
    }
}

proof fn lemma_read_line(key: Seq<char>, v: Seq<char>, rest: Seq<char>)
    requires
        no_newline(v),
    ensures
        read_line(key, line(key, v) + rest) == Some((v, rest)),
{
    let s = line(key, v) + rest;
    assert(s.subrange(0, key.len() as int) =~= key);
    assert(s.subrange(key.len() as int, s.len() as int) =~= v + nl() + rest);
    lemma_split_line(v, rest);
}

proof fn lemma_no_newline_concat(a: Seq<char>, b: Seq<char>)
    requires
        no_newline(a),
        no_newline(b),
    ensures
        no_newline(a + b),
{
    assert forall|k: int| 0 <= k < (a + b).len() implies (a + b)[k] != '\n' by {
        if k >= a.len() {
            assert((a + b)[k] == b[k - a.len()]);
        }
    }
}

proof fn lemma_escape_no_newline(t: Seq<char>)
    ensures
        no_newline(escape(t)),
    decreases t.len(),
{
    if t.len() > 0 {
        lemma_escape_no_newline(t.drop_first());
        lemma_no_newline_concat(esc_char(t[0]), escape(t.drop_first()));
    }
}

proof fn lemma_unescape_escape(t: Seq<char>)
    ensures
        unescape(escape(t)) == Some(t),
    decreases t.len(),
{
    if t.len() > 0 {
        let c = t[0];
        let e = escape(t);
        let tail = escape(t.drop_first());
        lemma_unescape_escape(t.drop_first());
        assert(e == esc_char(c) + tail);
        if c == '\\' || c == '"' || c == '\n' {
            assert(e.subrange(2, e.len() as int) =~= tail);
        } else {
            assert(e.drop_first() =~= tail);
        }
        assert(seq![c] + t.drop_first() =~= t);
    }
}

proof fn lemma_str_token(s: Option<Seq<char>>)
    ensures
        no_newline(str_token(s)),
        parse_str(str_token(s)) == Some(s),
{
    reveal_strlit(" null");
    match s {
        Some(t) => {
            let v = str_token(s);
            lemma_escape_no_newline(t);
            lemma_no_newline_concat(seq![' ', '"'], escape(t));
            lemma_no_newline_concat(seq![' ', '"'] + escape(t), seq!['"']);
            assert(v[1] == '"');
            assert(v != " null"@);
            assert(v.subrange(2, v.len() - 1) =~= escape(t));
            lemma_unescape_escape(t);
        },
        None => {},
    }
}

proof fn lemma_digit(k: int)
    requires
        0 <= k < 10,
    ensures
        digit_value(digit_char(k)) == Some(k),
        digit_char(k) != '\n',
{
}

proof fn lemma_num_token(n: u8)
    ensures
        no_newline(num_token(n)),
        parse_num(num_token(n)) == Some(n),
{
    let v = num_token(n);
    let d = v.drop_first();
    assert(d =~= digits(n as int));
    let x = n as int;
    let empty = Seq::<char>::empty();
    assert(parse_digits(empty) == Some(0int));
    if x < 10 {
        lemma_digit(x);
        assert(d.drop_last() =~= empty);
        assert(parse_digits(d) == Some(x));
    } else if x < 100 {
        lemma_digit(x / 10);
        lemma_digit(x % 10);
        let d1 = d.drop_last();
        assert(d1 =~= seq![digit_char(x / 10)]);
        assert(d1.drop_last() =~= empty);
        assert(parse_digits(d1) == Some(x / 10));
        assert(parse_digits(d) == Some(10 * (x / 10) + x % 10));
    } else {
        lemma_digit(x / 100);
        lemma_digit((x / 10) % 10);
        lemma_digit(x % 10);
        let d1 = d.drop_last();
        let d2 = d1.drop_last();
        assert(d2 =~= seq![digit_char(x / 100)]);
        assert(d2.drop_last() =~= empty);
        assert(parse_digits(d2) == Some(x / 100));
        assert(parse_digits(d1) == Some(10 * (x / 100) + (x / 10) % 10));
        assert(parse_digits(d) == Some(10 * (10 * (x / 100) + (x / 10) % 10) + x % 10));
    }
    assert(no_newline(v));
}

proof fn lemma_null_token()
    ensures
        no_newline(" null"@),
        (" null"@).len() != 0,
{
    reveal_strlit(" null");
}

proof fn lemma_preset_token(p: Option<TemplatePreset>)
    ensures
        no_newline(preset_token(p)),
        parse_preset(preset_token(p)) == Some(p),
{
    reveal_strlit(" null");
    reveal_strlit(" apa");
    reveal_strlit(" vancouver");
    reveal_strlit(" chicago_author_date");
    assert((" apa"@).len() != (" null"@).len());
    assert((" vancouver"@).len() != (" null"@).len());
    assert((" vancouver"@).len() != (" apa"@).len());
    assert((" chicago_author_date"@).len() != (" null"@).len());
    assert((" chicago_author_date"@).len() != (" apa"@).len());
    assert((" chicago_author_date"@).len() != (" vancouver"@).len());
}

proof fn lemma_wrap_token(w: Option<WrapPunctuation>)
    ensures
        no_newline(wrap_token(w)),
        parse_wrap(wrap_token(w)) == Some(w),
{
    reveal_strlit(" null");
    reveal_strlit(" none");
    reveal_strlit(" parentheses");
    assert((" none"@)[2] != (" null"@)[2]);
}

proof fn lemma_shorten(o: Option<ShortenListOptions>, rest: Seq<char>)
    ensures
        parse_shorten(shorten_block(o) + rest) == Some((o, rest)),
{
    lemma_null_token();
    let k = "      shorten:"@;
    match o {
        None => lemma_read_line(k, " null"@, rest),
        Some(s) => {
            let a = line("        min:"@, num_token(s.min));
            let b = line("        use_first:"@, num_token(s.use_first));
            assert(shorten_block(o) + rest =~= line(k, Seq::empty()) + (a + (b + rest)));
            assert(no_newline(Seq::<char>::empty()));
            lemma_read_line(k, Seq::empty(), a + (b + rest));
            lemma_num_token(s.min);
            lemma_num_token(s.use_first);
            lemma_read_line("        min:"@, num_token(s.min), b + rest);
            lemma_read_line("        use_first:"@, num_token(s.use_first), rest);
        },
    }
}

proof fn lemma_contributors(o: Option<ContributorConfig>, rest: Seq<char>)
    ensures
        parse_contributors(contributors_block(o) + rest) == Some((o, rest)),
{
    lemma_null_token();
    let k = "    contributors:"@;
    match o {
        None => lemma_read_line(k, " null"@, rest),
        Some(c) => {
            assert(contributors_block(o) + rest =~= line(k, Seq::empty()) + (shorten_block(
                c.shorten,
            ) + rest));
            assert(no_newline(Seq::<char>::empty()));
            lemma_read_line(k, Seq::empty(), shorten_block(c.shorten) + rest);
            lemma_shorten(c.shorten, rest);
        },
    }
}

proof fn lemma_options(o: Option<Config>, rest: Seq<char>)
    ensures
        parse_options(options_block(o) + rest) == Some((o, rest)),
{
    lemma_null_token();
    let k = "  options:"@;
    match o {
        None => lemma_read_line(k, " null"@, rest),
        Some(c) => {
            assert(options_block(o) + rest =~= line(k, Seq::empty()) + (contributors_block(
                c.contributors,
            ) + rest));
            assert(no_newline(Seq::<char>::empty()));
            lemma_read_line(k, Seq::empty(), contributors_block(c.contributors) + rest);
            lemma_contributors(c.contributors, rest);
        },
    }
}

proof fn lemma_citation(o: Option<CitationSpec>, rest: Seq<char>)
    ensures
        parse_citation(citation_block(o) + rest) == Some((o, rest)),
{
    lemma_null_token();
    let k = "citation:"@;
    match o {
        None => lemma_read_line(k, " null"@, rest),
        Some(c) => {
            let a = line("  use_preset:"@, preset_token(c.use_preset));
            let b = line("  wrap:"@, wrap_token(c.wrap));
            let tail = options_block(c.options) + rest;
            assert(citation_block(o) + rest =~= line(k, Seq::empty()) + (a + (b + tail)));
            assert(no_newline(Seq::<char>::empty()));
            lemma_read_line(k, Seq::empty(), a + (b + tail));
            lemma_preset_token(c.use_preset);
            lemma_wrap_token(c.wrap);
            lemma_read_line("  use_preset:"@, preset_token(c.use_preset), b + tail);
            lemma_read_line("  wrap:"@, wrap_token(c.wrap), tail);
            lemma_options(c.options, rest);
        },
    }
}

proof fn lemma_bibliography(o: Option<BibliographySpec>, rest: Seq<char>)
    ensures
        parse_bibliography(bibliography_block(o) + rest) == Some((o, rest)),
{
    lemma_null_token();
    let k = "bibliography:"@;
    match o {
        None => lemma_read_line(k, " null"@, rest),
        Some(b) => {
            let a = line("  use_preset:"@, preset_token(b.use_preset));
            let tail = options_block(b.options) + rest;
            assert(bibliography_block(o) + rest =~= line(k, Seq::empty()) + (a + tail));
            assert(no_newline(Seq::<char>::empty()));
            lemma_read_line(k, Seq::empty(), a + tail);
            lemma_preset_token(b.use_preset);
            lemma_read_line("  use_preset:"@, preset_token(b.use_preset), tail);
            lemma_options(b.options, rest);
        },
    }
}

/// Reading a written document gives back the style that was written, in every member.
pub proof fn lemma_document_round_trip(s: StyleView)
    ensures
        parse_document(document(s)) == Some(s),
{
    let empty = Seq::<char>::empty();
    let id = line("  id:"@, str_token(s.id));
    let title = line("  title:"@, str_token(s.title));
    let cit = citation_block(s.citation);
    let bib = bibliography_block(s.bibliography);
    assert(document(s) =~= line("info:"@, empty) + (id + (title + (cit + (bib + empty)))));
    assert(no_newline(empty));
    lemma_read_line("info:"@, empty, id + (title + (cit + (bib + empty))));
    lemma_str_token(s.id);
    lemma_str_token(s.title);
    lemma_read_line("  id:"@, str_token(s.id), title + (cit + (bib + empty)));
    lemma_read_line("  title:"@, str_token(s.title), cit + (bib + empty));
    lemma_citation(s.citation, bib + empty);
    lemma_bibliography(s.bibliography, empty);
}

} // verus!
