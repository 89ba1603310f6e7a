//! Rendering of results into the texts the command-line front end emits.
//!
//! The front end only writes these strings out; every character of them is
//! decided here, including the decimal rendering of counters and the
//! fixed-width alignment of language codes.

use vstd::prelude::*;

use crate::types::{LanguageInformation, TranslatedText, UsageInformation};

verus! {

/// The decimal digit character for one digit value.
pub open spec fn dec_digit(d: nat) -> char {
    if d == 0 {
        '0'
    } else if d == 1 {
        '1'
    } else if d == 2 {
        '2'
    } else if d == 3 {
        '3'
    } else if d == 4 {
        '4'
    } else if d == 5 {
        '5'
    } else if d == 6 {
        '6'
    } else if d == 7 {
        '7'
    } else if d == 8 {
        '8'
    } else {
        '9'
    }
}

/// The decimal rendering of a number, most significant digit first and
/// without leading zeros (zero itself renders as one digit).
pub open spec fn dec_str(n: nat) -> Seq<char>
    decreases n,
{
    if n < 10 {
        seq![dec_digit(n)]
    } else {
        dec_str(n / 10) + seq![dec_digit(n % 10)]
    }
}

/// The digit character for one digit value.
fn dec_digit_str(d: u64) -> (r: &'static str)
    requires
        d < 10,
    ensures
        r@ == seq![dec_digit(d as nat)],
{
    proof {
        reveal_strlit("0");
        reveal_strlit("1");
        reveal_strlit("2");
        reveal_strlit("3");
        reveal_strlit("4");
        reveal_strlit("5");
        reveal_strlit("6");
        reveal_strlit("7");
        reveal_strlit("8");
        reveal_strlit("9");
    }
    if d == 0 {
        "0"
    } else if d == 1 {
        "1"
    } else if d == 2 {
        "2"
    } else if d == 3 {
        "3"
    } else if d == 4 {
        "4"
    } else if d == 5 {
        "5"
    } else if d == 6 {
        "6"
    } else if d == 7 {
        "7"
    } else if d == 8 {
        "8"
    } else {
        "9"
    }
}

/// Renders a counter in decimal.
pub fn render_u64(n: u64) -> (r: String)
    ensures
        r@ == dec_str(n as nat),
    decreases n,
{
    if n < 10 {
        String::from_str(dec_digit_str(n))
    } else {
        let prefix = render_u64(n / 10);
        let r = prefix.concat(dec_digit_str(n % 10));
        assert(r@ =~= dec_str(n as nat));
        r
    }
}

/// A run of `n` spaces.
pub open spec fn spaces(n: nat) -> Seq<char>
    decreases n,
{
    if n == 0 {
        Seq::empty()
    } else {
        spaces((n - 1) as nat) + seq![' ']
    }
}

/// A text padded with spaces to at least `width` characters; a longer text
/// stays as it is.
pub open spec fn padded(s: Seq<char>, width: nat) -> Seq<char> {
    if s.len() >= width {
        s
    } else {
        s + spaces((width - s.len()) as nat)
    }
}

/// One line of the language listing: two spaces, the code padded to five
/// characters, then the display name in parentheses.
pub open spec fn language_line_text(l: LanguageInformation) -> Seq<char> {
    "  "@ + padded(l.language@, 5) + " ("@ + l.name@ + ")\n"@
}

/// Renders one line of the language listing.
pub fn language_line(l: &LanguageInformation) -> (r: String)
    ensures
        r@ == language_line_text(*l),
{
    let code = l.language.as_str();
    let mut r = String::from_str("  ");
    r.append(code);
    let code_len = code.unicode_len();
    let mut k = code_len;
    proof {
        reveal_strlit(" ");
        assert(r@ =~= "  "@ + l.language@ + spaces(0));
    }
    while k < 5
        invariant
            k >= code_len,
            code_len == l.language@.len(),
            r@ == "  "@ + l.language@ + spaces((k - code_len) as nat),
            k <= 5 || k == code_len,
        decreases 5 - k,
    {
        r.append(" ");
        proof {
            reveal_strlit(" ");
            assert(r@ =~= "  "@ + l.language@ + spaces((k + 1 - code_len) as nat));
        }
        k += 1;
    }
    assert(r@ =~= "  "@ + padded(l.language@, 5));
    r.append(" (");
    r.append(l.name.as_str());
    r.append(")\n");
    assert(r@ =~= language_line_text(*l));
    r
}

/// All lines of one language list, in list order.
pub open spec fn language_lines_text(ls: Seq<LanguageInformation>) -> Seq<char>
    decreases ls.len(),
{
    if ls.len() == 0 {
        Seq::empty()
    } else {
        language_lines_text(ls.drop_last()) + language_line_text(ls.last())
    }
}

/// The full language report: the source list under its heading, a blank
/// line, then the target list under its heading.
pub open spec fn languages_report_text(
    source: Seq<LanguageInformation>,
    target: Seq<LanguageInformation>,
) -> Seq<char> {
    "DeepL can translate "@
        + "from the following source languages:\n"@
        + language_lines_text(source) + "\n"@
        + "DeepL can translate to the following target languages:\n"@
        + language_lines_text(target)
}

/// Appends the lines of one language list.
fn append_language_lines(out: &mut String, list: &Vec<LanguageInformation>)
    ensures
        final(out)@ == old(out)@ + language_lines_text(list@),
{
    let ghost start = out@;
    let n = list.len();
    let mut i: usize = 0;
    proof {
        assert(out@ =~= start + language_lines_text(list@.take(0)));
    }
    while i < n
        invariant
            i <= n,
            n == list@.len(),
            out@ == start + language_lines_text(list@.take(i as int)),
        decreases n - i,
    {
        let line = language_line(&list[i]);
        out.append(line.as_str());
        proof {
            assert(list@.take(i + 1int).drop_last() =~= list@.take(i as int));
            assert(list@.take(i + 1int).last() == list@[i as int]);
            assert(out@ =~= start + language_lines_text(list@.take(i + 1int)));
        }
        i += 1;
    }
    assert(list@.take(n as int) =~= list@);
}

/// Renders the full language report.
pub fn format_languages_report(
    source: &Vec<LanguageInformation>,
    target: &Vec<LanguageInformation>,
) -> (r: String)
    ensures
        r@ == languages_report_text(source@, target@),
{
    let mut r = String::from_str("DeepL can translate ");
    r.append("from the following source languages:\n");
    append_language_lines(&mut r, source);
    r.append("\n");
    r.append("DeepL can translate to the following target languages:\n");
    append_language_lines(&mut r, target);
    assert(r@ =~= languages_report_text(source@, target@));
    r
}

/// The usage report: the quota ceiling and the consumed counter, one line
/// each.
pub open spec fn usage_report_text(u: UsageInformation) -> Seq<char> {
    "Available characters per billing period: "@ + dec_str(u.character_limit as nat) + "\n"@
        + "Characters already translated in the current billing period: "@ + dec_str(
        u.character_count as nat,
    ) + "\n"@
}

/// Renders the usage report.
pub fn format_usage_report(u: &UsageInformation) -> (r: String)
    ensures
        r@ == usage_report_text(*u),
{
    let mut r = String::from_str("Available characters per billing period: ");
    let limit = render_u64(u.character_limit);
    r.append(limit.as_str());
    r.append("\n");
    r.append("Characters already translated in the current billing period: ");
    let count = render_u64(u.character_count);
    r.append(count.as_str());
    r.append("\n");
    assert(r@ =~= usage_report_text(*u));
    r
}

/// The translated units of one response joined in order, without a
/// separator: one submitted block in gives one unit out, so this is the
/// output text of the translate subcommand.
pub open spec fn combined_text(ts: Seq<TranslatedText>) -> Seq<char>
    decreases ts.len(),
{
    if ts.len() == 0 {
        Seq::empty()
    } else {
        combined_text(ts.drop_last()) + ts.last().text@
    }
}

/// Joins the translated units of one response in order.
pub fn combine_translations(translations: &Vec<TranslatedText>) -> (r: String)
    ensures
        r@ == combined_text(translations@),
{
    let mut r = String::new();
    let n = translations.len();
    let mut i: usize = 0;
    proof {
        assert(r@ =~= combined_text(translations@.take(0)));
    }
    while i < n
        invariant
            i <= n,
            n == translations@.len(),
            r@ == combined_text(translations@.take(i as int)),
        decreases n - i,
    {
        r.append(translations[i].text.as_str());
        proof {
            assert(translations@.take(i + 1int).drop_last() =~= translations@.take(i as int));
            assert(translations@.take(i + 1int).last() == translations@[i as int]);
            assert(r@ =~= combined_text(translations@.take(i + 1int)));
        }
        i += 1;
    }
    assert(translations@.take(n as int) =~= translations@);
    r
}

} // verus!
