use vstd::prelude::*;
use crate::distro::{art_of, display_name_of, distro_of, Distro};
use crate::hardware::HwInfo;
use crate::probe::OsInfo;
use crate::style::{label_text, label_text_of, mixed_label, Configuration, Label};
use crate::case::{lowered, to_lower};
use crate::text::{
    append_chars, append_dec, append_str, chars_of, dec_str, lines, split_lines, string_of,
};

verus! {

/// One step of terminal output.
#[derive(Clone, Debug, PartialEq, Eq)]
pub enum Directive {
    /// Move to the start of the line `n` rows up.
    CursorUp(usize),
    /// Move `n` columns to the right.
    CursorRight(usize),
    /// Write what follows in a 256-colour palette entry.
    Color(u8),
    /// Go back to the terminal's own colours.
    Reset,
    Text(String),
    NewLine,
}

/// The model of a directive.
pub enum Step {
    CursorUp(nat),
    CursorRight(nat),
    Color(u8),
    Reset,
    Text(Seq<char>),
    NewLine,
}

impl View for Directive {
    type V = Step;

    open spec fn view(&self) -> Step {
        match self {
            Directive::CursorUp(n) => Step::CursorUp(*n as nat),
            Directive::CursorRight(n) => Step::CursorRight(*n as nat),
            Directive::Color(c) => Step::Color(*c),
            Directive::Reset => Step::Reset,
            Directive::Text(s) => Step::Text(s@),
            Directive::NewLine => Step::NewLine,
        }
    }
}

pub open spec fn steps(ds: Seq<Directive>) -> Seq<Step> {
    ds.map_values(|d: Directive| d@)
}

/// The column at which the information block starts.
pub const INFO_COLUMN: usize = 19;

/// The width to which labels are padded.
pub const LABEL_WIDTH: usize = 9;

// ---------------------------------------------------------------------------
// Art block
// ---------------------------------------------------------------------------

/// Each art line in the art colour, then one blank line.
pub open spec fn art_steps(art: Seq<Seq<char>>, color: u8) -> Seq<Step>
    decreases art.len(),
{
    if art.len() == 0 {
        seq![Step::NewLine]
    } else {
        art_steps(art.drop_last(), color).drop_last() + seq![
            Step::Color(color),
            Step::Text(art.last()),
            Step::Reset,
            Step::NewLine,
            Step::NewLine,
        ]
    }
}

proof fn lemma_art_steps_last(art: Seq<Seq<char>>, color: u8)
    ensures
        art_steps(art, color).len() > 0,
        art_steps(art, color).last() == Step::NewLine,
    decreases art.len(),
{
    if art.len() > 0 {
        lemma_art_steps_last(art.drop_last(), color);
    }
}

/// The lines of the art block of `d`.
pub open spec fn art_lines_of(d: Distro) -> Seq<Seq<char>> {
    lines(art_of(d))
}

/// Sets the identifier of `os` to `id` in lower case, and its display name
/// to the one registered for it.
pub fn override_distro(os: &mut OsInfo, id: &str)
    ensures
        final(os).id@ == to_lower(id@),
        final(os).display_name@ == display_name_of(distro_of(to_lower(id@))),
        final(os).kernel_type == old(os).kernel_type,
        final(os).kernel_version == old(os).kernel_version,
        final(os).hostname == old(os).hostname,
        final(os).user == old(os).user,
        final(os).art_line_count == old(os).art_line_count,
{
    let lower = string_of(&lowered(&chars_of(id)));
    let d = Distro::from_id(lower.as_str());
    os.display_name = String::from_str(d.display_name());
    os.id = lower;
}

/// The art block for the distribution of `os`, each line in `color`, and
/// the number of its lines recorded in `os`.
pub fn render_art(os: &mut OsInfo, color: u8) -> (r: Vec<Directive>)
    ensures
        steps(r@) == art_steps(art_lines_of(distro_of(old(os).id@)), color),
        final(os).art_line_count == art_lines_of(distro_of(old(os).id@)).len(),
        final(os).id == old(os).id,
        final(os).display_name == old(os).display_name,
        final(os).kernel_type == old(os).kernel_type,
        final(os).kernel_version == old(os).kernel_version,
        final(os).hostname == old(os).hostname,
        final(os).user == old(os).user,
{
    let d = Distro::from_id(os.id.as_str());
    let art = split_lines(&chars_of(d.art()));
    let ghost lv = art@.map_values(|l: Vec<char>| l@);
    let mut out: Vec<Directive> = Vec::new();
    out.push(Directive::NewLine);
    assert(steps(out@) =~= art_steps(lv.take(0), color));
    for i in 0..art.len()
        invariant
            lv == art@.map_values(|l: Vec<char>| l@),
            steps(out@) == art_steps(lv.take(i as int), color),
    {
        proof {
            lemma_art_steps_last(lv.take(i as int), color);
        }
        let ghost before = steps(out@);
        out.pop();
        assert(steps(out@) =~= before.drop_last());
        out.push(Directive::Color(color));
        out.push(Directive::Text(string_of(&art[i])));
        out.push(Directive::Reset);
        out.push(Directive::NewLine);
        out.push(Directive::NewLine);
        assert(lv.take(i + 1).drop_last() =~= lv.take(i as int));
        assert(steps(out@) =~= art_steps(lv.take(i + 1), color));
    }
    assert(lv.take(art.len() as int) =~= lv);
    os.art_line_count = art.len();
    out
}

// ---------------------------------------------------------------------------
// Information block
// ---------------------------------------------------------------------------

/// The value shown beside the kernel label: the family, if known, then the
/// version.
pub open spec fn kernel_value(os: OsInfo) -> Seq<char> {
    if os.kernel_type@.len() == 0 {
        os.kernel_version@
    } else {
        os.kernel_type@ + " "@ + os.kernel_version@
    }
}

/// `used` and `total` as `{used}MiB/{total}MiB`.
pub open spec fn memory_value(used: nat, total: nat) -> Seq<char> {
    dec_str(used) + "MiB/"@ + dec_str(total) + "MiB"@
}

/// The rows of the information block, in order: one GPU row per graphics
/// device.
pub open spec fn info_rows(os: OsInfo, hw: HwInfo) -> Seq<(Label, Seq<char>)> {
    seq![
        (Label::Os, os.display_name@),
        (Label::Kernel, kernel_value(os)),
        (Label::Uptime, hw.uptime_text@),
        (Label::Cpu, hw.cpu_description@),
    ] + hw.gpu_descriptions@.map_values(|g: String| (Label::Gpu, g@)) + seq![
        (Label::Memory, memory_value(hw.mem_used_mib as nat, hw.mem_total_mib as nat)),
    ]
}

pub open spec fn spaces(n: nat) -> Seq<char> {
    Seq::new(n, |i: int| ' ')
}

/// The spaces that bring the label `l` to the label width.
pub open spec fn label_pad(l: Label) -> Seq<char> {
    spaces((LABEL_WIDTH - mixed_label(l).len()) as nat)
}

/// One row: at the information column, the label in the key colour, padded,
/// then the separator and the value in the value colour.
pub open spec fn row_steps(row: (Label, Seq<char>), cfg: Configuration) -> Seq<Step> {
    seq![
        Step::CursorRight(INFO_COLUMN as nat),
        Step::Color(cfg.key_color),
        Step::Text(label_text_of(row.0, cfg.case_style)),
        Step::Text(label_pad(row.0)),
        Step::Color(cfg.value_color),
        Step::Text(cfg.separator@),
        Step::Text(" "@),
        Step::Text(row.1),
        Step::Reset,
        Step::NewLine,
    ]
}

pub open spec fn rows_steps(rows: Seq<(Label, Seq<char>)>, cfg: Configuration) -> Seq<Step>
    decreases rows.len(),
{
    if rows.len() == 0 {
        seq![]
    } else {
        rows_steps(rows.drop_last(), cfg) + row_steps(rows.last(), cfg)
    }
}

/// The rows to go up over an art block of `count` lines and the blank line
/// after it (at most the largest `usize`).
pub open spec fn rewind_of(count: usize) -> nat {
    if count < usize::MAX {
        count as nat + 1
    } else {
        count as nat
    }
}

/// The information block: back up over the art block and the blank line
/// after it, the rows, then a blank line.
pub open spec fn info_steps(os: OsInfo, hw: HwInfo, cfg: Configuration) -> Seq<Step> {
    seq![Step::CursorUp(rewind_of(os.art_line_count))] + rows_steps(info_rows(os, hw), cfg)
        + seq![Step::NewLine]
}

fn label_pad_str(l: Label) -> (r: String)
    ensures
        r@ == label_pad(l),
{
    let word = mixed_label_len(l);
    let mut out: Vec<char> = Vec::new();
    let mut i: usize = word;
    while i < LABEL_WIDTH
        invariant
            word <= i <= LABEL_WIDTH,
            word == mixed_label(l).len(),
            out@ == spaces((i - word) as nat),
        decreases LABEL_WIDTH - i,
    {
        out.push(' ');
        i = i + 1;
        assert(out@ =~= spaces((i - word) as nat));
    }
    string_of(&out)
}

fn mixed_label_len(l: Label) -> (r: usize)
    ensures
        r == mixed_label(l).len(),
        r <= LABEL_WIDTH,
{
    proof {
        reveal_strlit("OwOS");
        reveal_strlit("Kewnel");
        reveal_strlit("UwUptime");
        reveal_strlit("CPUwU");
        reveal_strlit("GPUwU");
        reveal_strlit("Memowy");
    }
    match l {
        Label::Os => 4,
        Label::Kernel => 6,
        Label::Uptime => 8,
        Label::Cpu => 5,
        Label::Gpu => 5,
        Label::Memory => 6,
    }
}

fn push_row(out: &mut Vec<Directive>, label: Label, value: String, cfg: &Configuration)
    ensures
        steps(final(out)@) == steps(old(out)@) + row_steps((label, value@), *cfg),
{
    out.push(Directive::CursorRight(INFO_COLUMN));
    out.push(Directive::Color(cfg.key_color));
    out.push(Directive::Text(label_text(label, cfg.case_style)));
    out.push(Directive::Text(label_pad_str(label)));
    out.push(Directive::Color(cfg.value_color));
    out.push(Directive::Text(cfg.separator.clone()));
    out.push(Directive::Text(String::from_str(" ")));
    out.push(Directive::Text(value));
    out.push(Directive::Reset);
    out.push(Directive::NewLine);
    assert(steps(final(out)@) =~= steps(old(out)@) + row_steps((label, value@), *cfg));
}

fn kernel_value_str(os: &OsInfo) -> (r: String)
    ensures
        r@ == kernel_value(*os),
{
    let ty = chars_of(os.kernel_type.as_str());
    let mut out: Vec<char> = Vec::new();
    if ty.len() > 0 {
        append_chars(&mut out, &ty);
        append_str(&mut out, " ");
    }
    append_str(&mut out, os.kernel_version.as_str());
    assert(out@ =~= kernel_value(*os));
    string_of(&out)
}

/// `{used}MiB/{total}MiB`.
pub fn memory_text(used: u64, total: u64) -> (r: String)
    ensures
        r@ == memory_value(used as nat, total as nat),
{
    let mut out: Vec<char> = Vec::new();
    append_dec(&mut out, used);
    append_str(&mut out, "MiB/");
    append_dec(&mut out, total);
    append_str(&mut out, "MiB");
    assert(out@ =~= memory_value(used as nat, total as nat));
    string_of(&out)
}

proof fn lemma_rows_steps_push(rows: Seq<(Label, Seq<char>)>, row: (Label, Seq<char>), cfg: Configuration)
    ensures
        rows_steps(rows.push(row), cfg) == rows_steps(rows, cfg) + row_steps(row, cfg),
{
    assert(rows.push(row).drop_last() =~= rows);
}

/// The information block for `os` and `hw`, placed beside an art block of
/// `os.art_line_count` lines.
pub fn render_info(os: &OsInfo, hw: &HwInfo, cfg: &Configuration) -> (r: Vec<Directive>)
    ensures
        steps(r@) == info_steps(*os, *hw, *cfg),
{
    let ghost rows = info_rows(*os, *hw);
    let ghost gpus = hw.gpu_descriptions@.map_values(|g: String| (Label::Gpu, g@));
    let mut out: Vec<Directive> = Vec::new();
    let up = if os.art_line_count < usize::MAX {
        os.art_line_count + 1
    } else {
        os.art_line_count
    };
    out.push(Directive::CursorUp(up));
    let ghost head = steps(out@);
    push_row(&mut out, Label::Os, os.display_name.clone(), cfg);
    push_row(&mut out, Label::Kernel, kernel_value_str(os), cfg);
    push_row(&mut out, Label::Uptime, hw.uptime_text.clone(), cfg);
    push_row(&mut out, Label::Cpu, hw.cpu_description.clone(), cfg);
    let ghost fixed = rows.take(4);
    proof {
        assert(fixed.take(0) =~= Seq::<(Label, Seq<char>)>::empty());
        assert(fixed.take(1) =~= fixed.take(0).push(rows[0]));
        assert(fixed.take(2) =~= fixed.take(1).push(rows[1]));
        assert(fixed.take(3) =~= fixed.take(2).push(rows[2]));
        assert(fixed =~= fixed.take(3).push(rows[3]));
        lemma_rows_steps_push(fixed.take(0), rows[0], *cfg);
        lemma_rows_steps_push(fixed.take(1), rows[1], *cfg);
        lemma_rows_steps_push(fixed.take(2), rows[2], *cfg);
        lemma_rows_steps_push(fixed.take(3), rows[3], *cfg);
        assert(steps(out@) =~= head + rows_steps(fixed, *cfg));
    }
    let n = hw.gpu_descriptions.len();
    for i in 0..n
        invariant
            n == hw.gpu_descriptions.len(),
            gpus == hw.gpu_descriptions@.map_values(|g: String| (Label::Gpu, g@)),
            head == seq![Step::CursorUp(rewind_of(os.art_line_count))],
            rows == info_rows(*os, *hw),
            fixed == rows.take(4),
            steps(out@) == head + rows_steps(fixed + gpus.take(i as int), *cfg),
    {
        let ghost before = fixed + gpus.take(i as int);
        push_row(&mut out, Label::Gpu, hw.gpu_descriptions[i].clone(), cfg);
        proof {
            assert(fixed + gpus.take(i + 1) =~= before.push(gpus[i as int]));
            lemma_rows_steps_push(before, gpus[i as int], *cfg);
        }
    }
    let ghost all_but_last = fixed + gpus.take(n as int);
    assert(steps(out@) == head + rows_steps(all_but_last, *cfg));
    push_row(&mut out, Label::Memory, memory_text(hw.mem_used_mib, hw.mem_total_mib), cfg);
    proof {
        assert(gpus.take(n as int) =~= gpus);
        assert(rows =~= all_but_last.push(rows.last()));
        lemma_rows_steps_push(all_but_last, rows.last(), *cfg);
        assert(steps(out@) =~= head + rows_steps(rows, *cfg));
    }
    out.push(Directive::NewLine);
    assert(steps(out@) =~= info_steps(*os, *hw, *cfg));
    out
}

/// The values of the GPU rows among `rows`, in order.
pub open spec fn gpu_values(rows: Seq<(Label, Seq<char>)>) -> Seq<Seq<char>>
    decreases rows.len(),
{
    if rows.len() == 0 {
        seq![]
    } else {
        let rest = gpu_values(rows.drop_last());
        if rows.last().0 == Label::Gpu {
            rest.push(rows.last().1)
        } else {
            rest
        }
    }
}

proof fn lemma_gpu_values_concat(a: Seq<(Label, Seq<char>)>, b: Seq<(Label, Seq<char>)>)
    ensures
        gpu_values(a + b) == gpu_values(a) + gpu_values(b),
    decreases b.len(),
{
    if b.len() == 0 {
        assert(a + b =~= a);
        assert(gpu_values(a) + gpu_values(b) =~= gpu_values(a));
    } else {
        lemma_gpu_values_concat(a, b.drop_last());
        assert((a + b).drop_last() =~= a + b.drop_last());
        assert(gpu_values(a + b) =~= gpu_values(a) + gpu_values(b));
    }
}

proof fn lemma_gpu_values_all(gs: Seq<String>)
    ensures
        gpu_values(gs.map_values(|g: String| (Label::Gpu, g@))) == gs.map_values(|g: String| g@),
    decreases gs.len(),
{
    if gs.len() > 0 {
        lemma_gpu_values_all(gs.drop_last());
        assert(gs.map_values(|g: String| (Label::Gpu, g@)).drop_last() =~= gs.drop_last().map_values(
            |g: String| (Label::Gpu, g@),
        ));
        assert(gs.map_values(|g: String| g@) =~= gs.drop_last().map_values(|g: String| g@).push(
            gs.last()@,
        ));
    }
}

/// The information block has one GPU row for each graphics device, in the
/// devices' order, and no other: none where there is no device. Beside them
/// stand the five fixed rows.
pub proof fn lemma_one_row_per_gpu(os: OsInfo, hw: HwInfo)
    ensures
        gpu_values(info_rows(os, hw)) == hw.gpu_descriptions@.map_values(|g: String| g@),
        info_rows(os, hw).len() == hw.gpu_descriptions@.len() + 5,
{
    let fixed = seq![
        (Label::Os, os.display_name@),
        (Label::Kernel, kernel_value(os)),
        (Label::Uptime, hw.uptime_text@),
        (Label::Cpu, hw.cpu_description@),
    ];
    let gpus = hw.gpu_descriptions@.map_values(|g: String| (Label::Gpu, g@));
    let mem = seq![(Label::Memory, memory_value(hw.mem_used_mib as nat, hw.mem_total_mib as nat))];
    lemma_gpu_values_concat(fixed + gpus, mem);
    lemma_gpu_values_concat(fixed, gpus);
    lemma_gpu_values_all(hw.gpu_descriptions@);
    assert(fixed.drop_last().drop_last().drop_last().drop_last() =~= Seq::<(Label, Seq<char>)>::empty());
    reveal_with_fuel(gpu_values, 5);
    assert(gpu_values(fixed) =~= Seq::<Seq<char>>::empty());
    assert(mem.drop_last() =~= Seq::<(Label, Seq<char>)>::empty());
    assert(gpu_values(mem) =~= Seq::<Seq<char>>::empty());
    assert(gpu_values(info_rows(os, hw)) =~= hw.gpu_descriptions@.map_values(|g: String| g@));
}

// ---------------------------------------------------------------------------
// Terminal encoding
// ---------------------------------------------------------------------------

/// The escape sequence or text that a step writes.
pub open spec fn step_text(s: Step) -> Seq<char> {
    match s {
        Step::CursorUp(n) => "\x1b["@ + dec_str(n) + "F"@,
        Step::CursorRight(n) => "\x1b["@ + dec_str(n) + "C"@,
        Step::Color(c) => "\x1b[38;5;"@ + dec_str(c as nat) + "m"@,
        Step::Reset => "\x1b[0m"@,
        Step::Text(t) => t,
        Step::NewLine => "\n"@,
    }
}

/// The text that writes the steps `ss`, one after the other.
pub open spec fn steps_text(ss: Seq<Step>) -> Seq<char>
    decreases ss.len(),
{
    if ss.len() == 0 {
        seq![]
    } else {
        steps_text(ss.drop_last()) + step_text(ss.last())
    }
}

fn append_directive(out: &mut Vec<char>, d: &Directive)
    ensures
        final(out)@ == old(out)@ + step_text(d@),
{
    match d {
        Directive::CursorUp(n) => {
            append_str(out, "\x1b[");
            append_dec(out, *n as u64);
            append_str(out, "F");
        },
        Directive::CursorRight(n) => {
            append_str(out, "\x1b[");
            append_dec(out, *n as u64);
            append_str(out, "C");
        },
        Directive::Color(c) => {
            append_str(out, "\x1b[38;5;");
            append_dec(out, *c as u64);
            append_str(out, "m");
        },
        Directive::Reset => {
            append_str(out, "\x1b[0m");
        },
        Directive::Text(t) => {
            append_str(out, t.as_str());
        },
        Directive::NewLine => {
            append_str(out, "\n");
        },
    }
    assert(final(out)@ =~= old(out)@ + step_text(d@));
}

/// The terminal text that carries out `ds`.
pub fn to_terminal(ds: &Vec<Directive>) -> (r: String)
    ensures
        r@ == steps_text(steps(ds@)),
{
    let mut out: Vec<char> = Vec::new();
    for i in 0..ds.len()
        invariant
            out@ == steps_text(steps(ds@.take(i as int))),
    {
        append_directive(&mut out, &ds[i]);
        assert(steps(ds@.take(i + 1)).drop_last() =~= steps(ds@.take(i as int)));
    }
    assert(ds@.take(ds.len() as int) =~= ds@);
    string_of(&out)
}

/// The whole screen: the art block of the distribution of `os`, whose line
/// count is recorded in `os` first, then the information block beside it.
pub fn render(os: &mut OsInfo, hw: &HwInfo, cfg: &Configuration) -> (r: Vec<Directive>)
    ensures
        final(os).art_line_count == art_lines_of(distro_of(old(os).id@)).len(),
        steps(r@) == art_steps(art_lines_of(distro_of(old(os).id@)), cfg.art_color) + info_steps(
            *final(os),
            *hw,
            *cfg,
        ),
        final(os).id == old(os).id,
        final(os).display_name == old(os).display_name,
        final(os).kernel_type == old(os).kernel_type,
        final(os).kernel_version == old(os).kernel_version,
        final(os).hostname == old(os).hostname,
        final(os).user == old(os).user,
{
    let mut out = render_art(os, cfg.art_color);
    let ghost art = steps(out@);
    let mut info = render_info(os, hw, cfg);
    let ghost info_view = steps(info@);
    out.append(&mut info);
    assert(steps(out@) =~= art + info_view);
    out
}

} // verus!
