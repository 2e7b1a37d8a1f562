use vstd::prelude::*;
use crate::case::{
    is_lower, is_upper, lower_char, lowered, to_lower, to_upper, upper_char, uppered,
};
use crate::text::{chars_of, string_of};

verus! {

/// How the labels are written.
#[derive(Clone, Copy, Debug, PartialEq, Eq, Structural)]
pub enum CaseStyle {
    Lowercase,
    Uppercase,
    Mixed,
}

/// The fields of the information block.
#[derive(Clone, Copy, Debug, PartialEq, Eq, Structural)]
pub enum Label {
    Os,
    Kernel,
    Uptime,
    Cpu,
    Gpu,
    Memory,
}

/// The label words in their own mixed capitalisation.
pub open spec fn mixed_label(l: Label) -> Seq<char> {
    match l {
        Label::Os => "OwOS"@,
        Label::Kernel => "Kewnel"@,
        Label::Uptime => "UwUptime"@,
        Label::Cpu => "CPUwU"@,
        Label::Gpu => "GPUwU"@,
        Label::Memory => "Memowy"@,
    }
}

/// The text of a label in a case style.
pub open spec fn label_text_of(l: Label, c: CaseStyle) -> Seq<char> {
    match c {
        CaseStyle::Lowercase => to_lower(mixed_label(l)),
        CaseStyle::Uppercase => to_upper(mixed_label(l)),
        CaseStyle::Mixed => mixed_label(l),
    }
}

fn mixed_label_str(l: Label) -> (r: &'static str)
    ensures
        r@ == mixed_label(l),
{
    match l {
        Label::Os => "OwOS",
        Label::Kernel => "Kewnel",
        Label::Uptime => "UwUptime",
        Label::Cpu => "CPUwU",
        Label::Gpu => "GPUwU",
        Label::Memory => "Memowy",
    }
}

/// The text of the label `l` in the case style `c`.
pub fn label_text(l: Label, c: CaseStyle) -> (r: String)
    ensures
        r@ == label_text_of(l, c),
{
    let m = chars_of(mixed_label_str(l));
    match c {
        CaseStyle::Lowercase => string_of(&lowered(&m)),
        CaseStyle::Uppercase => string_of(&uppered(&m)),
        CaseStyle::Mixed => string_of(&m),
    }
}

proof fn lemma_lower_char(c: char)
    ensures
        lower_char(upper_char(c)) == lower_char(c),
        lower_char(lower_char(c)) == lower_char(c),
        !is_upper(lower_char(c)),
        !is_lower(upper_char(c)),
{
}

/// A label's three case styles differ in case only: in lower case they are
/// the same word, the upper-case style holds no lower-case letter and the
/// lower-case style no upper-case letter.
pub proof fn lemma_label_case_only(l: Label, c1: CaseStyle, c2: CaseStyle)
    ensures
        to_lower(label_text_of(l, c1)) == to_lower(label_text_of(l, c2)),
        label_text_of(l, c1).len() == mixed_label(l).len(),
        forall|i: int|
            0 <= i < label_text_of(l, CaseStyle::Uppercase).len() ==> !is_lower(
                #[trigger] label_text_of(l, CaseStyle::Uppercase)[i],
            ),
        forall|i: int|
            0 <= i < label_text_of(l, CaseStyle::Lowercase).len() ==> !is_upper(
                #[trigger] label_text_of(l, CaseStyle::Lowercase)[i],
            ),
{
    let m = mixed_label(l);
    assert forall|c: char| #[trigger] lower_char(upper_char(c)) == lower_char(c) && lower_char(
        lower_char(c),
    ) == lower_char(c) && !is_upper(lower_char(c)) && !is_lower(upper_char(c)) by {
        lemma_lower_char(c);
    }
    assert(to_lower(to_upper(m)) =~= to_lower(m));
    assert(to_lower(to_lower(m)) =~= to_lower(m));
}

// ---------------------------------------------------------------------------
// Configuration
// ---------------------------------------------------------------------------

/// `s` with each two-character escape `\t` replaced by a tab.
pub open spec fn unescape_tabs(s: Seq<char>) -> Seq<char>
    decreases s.len(),
{
    if s.len() == 0 {
        seq![]
    } else if s.len() >= 2 && s[0] == '\\' && s[1] == 't' {
        seq!['\t'] + unescape_tabs(s.skip(2))
    } else {
        seq![s[0]] + unescape_tabs(s.skip(1))
    }
}

/// `s` with each `\t` escape replaced by a tab.
pub fn unescape_separator(s: &str) -> (r: String)
    ensures
        r@ == unescape_tabs(s@),
{
    let v = chars_of(s);
    let n = v.len();
    let mut out: Vec<char> = Vec::new();
    let mut i: usize = 0;
    assert(v@.skip(0) =~= v@);
    while i < n
        invariant
            i <= n == v.len(),
            out@ + unescape_tabs(v@.skip(i as int)) == unescape_tabs(s@),
            v@ == s@,
        decreases n - i,
    {
        let ghost rest = v@.skip(i as int);
        let ghost before = out@;
        if i + 1 < n && v[i] == '\\' && v[i + 1] == 't' {
            out.push('\t');
            assert(rest.skip(2) =~= v@.skip(i + 2));
            assert(out@ + unescape_tabs(v@.skip(i + 2)) =~= before + unescape_tabs(rest));
            i = i + 2;
        } else {
            out.push(v[i]);
            assert(rest.skip(1) =~= v@.skip(i + 1));
            assert(out@ + unescape_tabs(v@.skip(i + 1)) =~= before + unescape_tabs(rest));
            i = i + 1;
        }
    }
    assert(v@.skip(n as int) =~= Seq::<char>::empty());
    assert(out@ =~= unescape_tabs(s@));
    string_of(&out)
}

/// The presentation settings.
#[derive(Clone, Debug)]
pub struct Configuration {
    pub separator: String,
    pub key_color: u8,
    pub value_color: u8,
    pub art_color: u8,
    pub case_style: CaseStyle,
}

pub const DEFAULT_KEY_COLOR: u8 = 213;

pub const DEFAULT_VALUE_COLOR: u8 = 255;

pub const DEFAULT_ART_COLOR: u8 = 213;

impl Configuration {
    /// Settings from their configured values; `\t` in the separator stands
    /// for a tab.
    pub fn new(
        separator: &str,
        key_color: u8,
        value_color: u8,
        art_color: u8,
        case_style: CaseStyle,
    ) -> (r: Configuration)
        ensures
            r.separator@ == unescape_tabs(separator@),
            r.key_color == key_color,
            r.value_color == value_color,
            r.art_color == art_color,
            r.case_style == case_style,
    {
        Configuration {
            separator: unescape_separator(separator),
            key_color,
            value_color,
            art_color,
            case_style,
        }
    }
}

impl Default for Configuration {
    /// The settings used where none are configured.
    fn default() -> (r: Configuration)
        ensures
            r.separator@ == "->"@,
            r.key_color == DEFAULT_KEY_COLOR,
            r.value_color == DEFAULT_VALUE_COLOR,
            r.art_color == DEFAULT_ART_COLOR,
            r.case_style == CaseStyle::Mixed,
    {
        Configuration {
            separator: String::from_str("->"),
            key_color: DEFAULT_KEY_COLOR,
            value_color: DEFAULT_VALUE_COLOR,
            art_color: DEFAULT_ART_COLOR,
            case_style: CaseStyle::Mixed,
        }
    }
}

} // verus!
