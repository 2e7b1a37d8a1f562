use vstd::prelude::*;
use crate::text::{
    all_digits, append_chars, append_dec, append_str, chars_of, dec_str, digit_char, digit_to_char,
    digit_value, field, find_field, find_from, index_of, is_digit, is_digit_char, lemma_index_of,
    lines, opt_view, parse_dec, parse_u64, slice, split_lines, string_of, trim, trimmed,
};

verus! {

// ---------------------------------------------------------------------------
// CPU
// ---------------------------------------------------------------------------

/// The lines of the first record: those before the first blank line.
pub open spec fn first_record(ls: Seq<Seq<char>>) -> Seq<Seq<char>>
    decreases ls.len(),
{
    if ls.len() == 0 || trim(ls[0]).len() == 0 {
        seq![]
    } else {
        seq![ls[0]] + first_record(ls.drop_first())
    }
}

/// `s` as a decimal number that fits in a `u64`, or `dflt`.
pub open spec fn number_or(s: Seq<char>, dflt: nat) -> nat {
    match parse_dec(s) {
        Some(n) => if n <= u64::MAX {
            n
        } else {
            dflt
        },
        None => dflt,
    }
}

/// The logical core count of the CPU record: its `siblings` field, or 1
/// where a kernel without SMP support leaves it out.
pub open spec fn core_count_of(rec: Seq<Seq<char>>) -> nat {
    match field(rec, ':', "siblings"@) {
        Some(v) => number_or(v, 1),
        None => 1,
    }
}

/// The frequency in kHz that the frequency file holds, or 0 where it is
/// missing or does not hold a number.
pub open spec fn frequency_khz_of(content: Option<Seq<char>>) -> nat {
    match content {
        Some(c) => number_or(trim(c), 0),
        None => 0,
    }
}

/// `khz` in GHz, rounded half up to two decimals (`2.40` for 2400000).
pub open spec fn ghz_text(khz: nat) -> Seq<char> {
    let h = khz / 10000 + (if khz % 10000 >= 5000 { 1nat } else { 0nat });
    dec_str(h / 100) + seq!['.', digit_char((h % 100) / 10), digit_char(h % 10)]
}

/// The CPU description: the model name with the core count put in front of
/// its `@`, or, where it has none, followed by the core count and frequency.
pub open spec fn cpu_text(model: Option<Seq<char>>, cores: nat, khz: nat) -> Seq<char> {
    match model {
        Some(m) => if m.len() == 0 {
            "unknown"@
        } else {
            let at = index_of(m, '@');
            if at < m.len() {
                m.take(at as int) + "("@ + dec_str(cores) + ") "@ + m.skip(at as int)
            } else {
                m + " ("@ + dec_str(cores) + ") @ "@ + ghz_text(khz) + "GHz"@
            }
        },
        None => "unknown"@,
    }
}

/// The CPU description that the CPU information file and the frequency file
/// give.
pub open spec fn cpu_description_of(cpuinfo: Seq<char>, freq: Option<Seq<char>>) -> Seq<char> {
    let rec = first_record(lines(cpuinfo));
    cpu_text(field(rec, ':', "model name"@), core_count_of(rec), frequency_khz_of(freq))
}

fn record_lines(ls: &Vec<Vec<char>>) -> (r: Vec<Vec<char>>)
    ensures
        r@.map_values(|l: Vec<char>| l@) == first_record(ls@.map_values(|l: Vec<char>| l@)),
{
    let ghost all = ls@.map_values(|l: Vec<char>| l@);
    let mut out: Vec<Vec<char>> = Vec::new();
    let mut i: usize = 0;
    assert(all.skip(0) =~= all);
    while i < ls.len()
        invariant
            i <= ls.len(),
            all == ls@.map_values(|l: Vec<char>| l@),
            out@.map_values(|l: Vec<char>| l@) + first_record(all.skip(i as int)) == first_record(all),
        decreases ls.len() - i,
    {
        let l = &ls[i];
        assert(all.skip(i as int)[0] == l@);
        assert(all.skip(i as int).drop_first() =~= all.skip(i + 1));
        if trimmed(l).len() == 0 {
            assert(first_record(all.skip(i as int)) =~= Seq::<Seq<char>>::empty());
            assert(out@.map_values(|l: Vec<char>| l@) =~= first_record(all));
            return out;
        }
        let ghost before = out@.map_values(|l: Vec<char>| l@);
        out.push(slice(l, 0, l.len()));
        assert(l@.subrange(0, l@.len() as int) =~= l@);
        assert(out@.map_values(|l: Vec<char>| l@) =~= before.push(l@));
        assert(before.push(l@) + first_record(all.skip(i + 1)) =~= before + first_record(all.skip(i as int)));
        i = i + 1;
    }
    assert(all.skip(i as int) =~= Seq::<Seq<char>>::empty());
    assert(out@.map_values(|l: Vec<char>| l@) =~= first_record(all));
    out
}

fn number_or_default(v: &Vec<char>, dflt: u64) -> (r: u64)
    ensures
        r as nat == number_or(v@, dflt as nat),
{
    match parse_u64(v) {
        Some(n) => n,
        None => dflt,
    }
}

/// The frequency in kHz held by the contents of the frequency file, or 0.
pub fn frequency_khz(content: Option<&str>) -> (r: u64)
    ensures
        r as nat == frequency_khz_of(opt_view(content)),
{
    match content {
        Some(c) => number_or_default(&trimmed(&chars_of(c)), 0),
        None => 0,
    }
}

/// `khz` written in GHz with two decimals.
pub fn ghz(khz: u64) -> (r: String)
    ensures
        r@ == ghz_text(khz as nat),
{
    let h: u64 = khz / 10000 + if khz % 10000 >= 5000 { 1 } else { 0 };
    let mut out: Vec<char> = Vec::new();
    append_dec(&mut out, h / 100);
    out.push('.');
    out.push(digit_to_char((h % 100) / 10));
    out.push(digit_to_char(h % 10));
    assert(out@ =~= ghz_text(khz as nat));
    string_of(&out)
}

/// The CPU description, from the contents of the CPU information file and of
/// the frequency file (`None` where it could not be read).
pub fn cpu_description(cpuinfo: &str, freq: Option<&str>) -> (r: String)
    ensures
        r@ == cpu_description_of(cpuinfo@, opt_view(freq)),
        r@.len() > 0,
{
    let rec = record_lines(&split_lines(&chars_of(cpuinfo)));
    let cores = match find_field(&rec, ':', &chars_of("siblings")) {
        Some(v) => number_or_default(&v, 1),
        None => 1,
    };
    let khz = frequency_khz(freq);
    let mut out: Vec<char> = Vec::new();
    proof {
        reveal_strlit("unknown");
        reveal_strlit("(");
    }
    match find_field(&rec, ':', &chars_of("model name")) {
        Some(m) => {
            if m.len() == 0 {
                append_str(&mut out, "unknown");
            } else {
                let at = find_from(&m, 0, '@');
                assert(m@.skip(0) =~= m@);
                proof {
                    lemma_index_of(m@, '@');
                }
                if at < m.len() {
                    append_chars(&mut out, &slice(&m, 0, at));
                    append_str(&mut out, "(");
                    append_dec(&mut out, cores);
                    append_str(&mut out, ") ");
                    append_chars(&mut out, &slice(&m, at, m.len()));
                } else {
                    append_chars(&mut out, &m);
                    append_str(&mut out, " (");
                    append_dec(&mut out, cores);
                    append_str(&mut out, ") @ ");
                    append_chars(&mut out, &chars_of(ghz(khz).as_str()));
                    append_str(&mut out, "GHz");
                }
            }
        },
        None => {
            append_str(&mut out, "unknown");
        },
    }
    assert(out@ =~= cpu_description_of(cpuinfo@, opt_view(freq)));
    string_of(&out)
}

// ---------------------------------------------------------------------------
// Uptime
// ---------------------------------------------------------------------------

/// The first space-separated token of `s`, white space around it left out.
pub open spec fn first_token(s: Seq<char>) -> Seq<char> {
    let t = trim(s);
    t.take(index_of(t, ' ') as int)
}

/// The seconds since boot that the uptime file gives: its first token, a
/// decimal number with an optional fraction, rounded half up to whole
/// seconds; `None` where that token is no such number or the result does
/// not fit in a `u64`.
pub open spec fn uptime_seconds_of(content: Seq<char>) -> Option<nat> {
    let tok = first_token(content);
    let d = index_of(tok, '.');
    let whole = tok.take(d as int);
    let frac = if d < tok.len() {
        tok.skip(d as int + 1)
    } else {
        seq![]
    };
    let up = if frac.len() > 0 && digit_value(frac[0]) >= 5 {
        1nat
    } else {
        0nat
    };
    match parse_dec(whole) {
        Some(n) => if all_digits(frac) && n + up <= u64::MAX {
            Some(n + up)
        } else {
            None
        },
        None => None,
    }
}

/// The whole hours in `secs` seconds.
pub open spec fn uptime_hours(secs: nat) -> nat {
    secs / 3600
}

/// The minutes shown beside the hours: the total minutes less the whole
/// hours' worth where there is at least one hour.
pub open spec fn uptime_minutes(secs: nat) -> nat {
    let total = secs / 60;
    if uptime_hours(secs) != 0 {
        (total - uptime_hours(secs) * 60) as nat
    } else {
        total
    }
}

/// `H Hours, M Minutes` for `secs` seconds.
pub open spec fn uptime_text(secs: nat) -> Seq<char> {
    dec_str(uptime_hours(secs)) + " Hours, "@ + dec_str(uptime_minutes(secs)) + " Minutes"@
}

/// The minutes shown are always under an hour.
pub proof fn lemma_uptime_minutes_bound(secs: nat)
    ensures
        uptime_minutes(secs) < 60,
        uptime_hours(secs) * 60 <= secs / 60,
        uptime_hours(secs) * 3600 + uptime_minutes(secs) * 60 <= secs,
{
    let h = secs / 3600;
    let t = secs / 60;
    assert(h * 60 <= t && t < h * 60 + 60) by (nonlinear_arith)
        requires
            h == secs / 3600,
            t == secs / 60,
    ;
    assert(t * 60 <= secs) by (nonlinear_arith)
        requires
            t == secs / 60,
    ;
}

fn all_digits_from(v: &Vec<char>, lo: usize) -> (r: bool)
    requires
        lo <= v.len(),
    ensures
        r == all_digits(v@.skip(lo as int)),
{
    let mut i: usize = lo;
    while i < v.len()
        invariant
            lo <= i <= v.len(),
            forall|j: int| lo <= j < i ==> is_digit(#[trigger] v@[j]),
        decreases v.len() - i,
    {
        if !is_digit_char(v[i]) {
            assert(!is_digit(v@.skip(lo as int)[i - lo]));
            return false;
        }
        i = i + 1;
    }
    assert forall|j: int| 0 <= j < v@.skip(lo as int).len() implies is_digit(
        #[trigger] v@.skip(lo as int)[j],
    ) by {
        assert(v@.skip(lo as int)[j] == v@[lo + j]);
    }
    true
}

/// The seconds since boot in the contents of the uptime file.
pub fn parse_uptime(content: &str) -> (r: Option<u64>)
    ensures
        match uptime_seconds_of(content@) {
            Some(n) => r == Some(n as u64),
            None => r is None,
        },
{
    let t = trimmed(&chars_of(content));
    let sp = find_from(&t, 0, ' ');
    assert(t@.skip(0) =~= t@);
    proof {
        lemma_index_of(t@, ' ');
    }
    let tok = slice(&t, 0, sp);
    assert(tok@ =~= first_token(content@));
    let d = find_from(&tok, 0, '.');
    assert(tok@.skip(0) =~= tok@);
    proof {
        lemma_index_of(tok@, '.');
    }
    let whole = slice(&tok, 0, d);
    let frac_start: usize = if d < tok.len() { d + 1 } else { tok.len() };
    let frac_ok = all_digits_from(&tok, frac_start);
    proof {
        if d >= tok.len() {
            assert(tok@.skip(frac_start as int) =~= Seq::<char>::empty());
        }
    }
    let up: u64 = if frac_start < tok.len() && is_digit_char(tok[frac_start])
        && tok[frac_start] >= '5' {
        1
    } else {
        0
    };
    match parse_u64(&whole) {
        Some(n) => {
            if frac_ok && n <= u64::MAX - up {
                proof {
                    if frac_start < tok.len() {
                        assert(tok@.skip(frac_start as int)[0] == tok@[frac_start as int]);
                    }
                }
                Some(n + up)
            } else {
                proof {
                    if frac_start < tok.len() {
                        assert(tok@.skip(frac_start as int)[0] == tok@[frac_start as int]);
                    }
                }
                None
            }
        },
        None => None,
    }
}

/// `H Hours, M Minutes` for `secs` seconds since boot.
pub fn format_uptime(secs: u64) -> (r: String)
    ensures
        r@ == uptime_text(secs as nat),
{
    proof {
        lemma_uptime_minutes_bound(secs as nat);
    }
    let hours = secs / 3600;
    let total = secs / 60;
    let minutes = if hours != 0 { total - hours * 60 } else { total };
    let mut out: Vec<char> = Vec::new();
    append_dec(&mut out, hours);
    append_str(&mut out, " Hours, ");
    append_dec(&mut out, minutes);
    append_str(&mut out, " Minutes");
    assert(out@ =~= uptime_text(secs as nat));
    string_of(&out)
}

// ---------------------------------------------------------------------------
// Memory
// ---------------------------------------------------------------------------

/// The kB value of the first `key:` line of the memory file, where it is a
/// number that fits in a `u64`.
pub open spec fn kb_of(ls: Seq<Seq<char>>, key: Seq<char>) -> Option<nat> {
    match field(ls, ':', key) {
        Some(v) => match parse_dec(first_token(v)) {
            Some(n) => if n <= u64::MAX {
                Some(n)
            } else {
                None
            },
            None => None,
        },
        None => None,
    }
}

/// Why the memory file gave no consistent reading.
#[derive(Clone, Copy, Debug, PartialEq, Eq, Structural)]
pub enum MemError {
    MissingTotal,
    MissingAvailable,
    AvailableExceedsTotal,
}

/// Memory in MiB.
#[derive(Clone, Copy, Debug, PartialEq, Eq, Structural)]
pub struct MemInfo {
    pub total_mib: u64,
    pub used_mib: u64,
}

/// What the memory file's contents give: total and used memory in MiB, the
/// used part computed in kB before the conversion.
pub open spec fn meminfo_of(content: Seq<char>) -> Result<MemInfo, MemError> {
    let ls = lines(content);
    match kb_of(ls, "MemTotal"@) {
        None => Err(MemError::MissingTotal),
        Some(t) => match kb_of(ls, "MemAvailable"@) {
            None => Err(MemError::MissingAvailable),
            Some(a) => if a > t {
                Err(MemError::AvailableExceedsTotal)
            } else {
                Ok(MemInfo { total_mib: (t / 1024) as u64, used_mib: ((t - a) / 1024) as u64 })
            },
        },
    }
}

/// Whatever the memory file holds, a reading that succeeds never shows more
/// memory used than there is in total.
pub proof fn lemma_used_within_total(content: Seq<char>)
    ensures
        meminfo_of(content) matches Ok(m) ==> m.used_mib <= m.total_mib,
{
    let ls = lines(content);
    if let (Some(t), Some(a)) = (kb_of(ls, "MemTotal"@), kb_of(ls, "MemAvailable"@)) {
        if a <= t {
            assert((t - a) / 1024 <= t / 1024) by (nonlinear_arith)
                requires
                    a <= t,
            ;
        }
    }
}

fn kb_value(ls: &Vec<Vec<char>>, key: &str) -> (r: Option<u64>)
    ensures
        kb_of(ls@.map_values(|l: Vec<char>| l@), key@) == match r {
            Some(n) => Some(n as nat),
            None => None::<nat>,
        },
{
    match find_field(ls, ':', &chars_of(key)) {
        Some(v) => {
            let t = trimmed(&v);
            let sp = find_from(&t, 0, ' ');
            assert(t@.skip(0) =~= t@);
            proof {
                lemma_index_of(t@, ' ');
            }
            let tok = slice(&t, 0, sp);
            assert(tok@ =~= first_token(v@));
            parse_u64(&tok)
        },
        None => None,
    }
}

/// Total and used memory from the contents of the memory file.
pub fn parse_meminfo(content: &str) -> (r: Result<MemInfo, MemError>)
    ensures
        r == meminfo_of(content@),
        r matches Ok(m) ==> m.used_mib <= m.total_mib,
{
    let ls = split_lines(&chars_of(content));
    let total = match kb_value(&ls, "MemTotal") {
        Some(t) => t,
        None => return Err(MemError::MissingTotal),
    };
    let avail = match kb_value(&ls, "MemAvailable") {
        Some(a) => a,
        None => return Err(MemError::MissingAvailable),
    };
    if avail > total {
        return Err(MemError::AvailableExceedsTotal);
    }
    Ok(MemInfo { total_mib: total / 1024, used_mib: (total - avail) / 1024 })
}

// ---------------------------------------------------------------------------
// Hardware snapshot
// ---------------------------------------------------------------------------

/// Facts about the machine.
#[derive(Clone, Debug)]
pub struct HwInfo {
    pub gpu_descriptions: Vec<String>,
    pub cpu_description: String,
    pub uptime_text: String,
    pub mem_total_mib: u64,
    pub mem_used_mib: u64,
}

impl HwInfo {
    /// Used memory never exceeds the total, and the CPU always has a
    /// description.
    pub open spec fn well_formed(&self) -> bool {
        &&& self.mem_used_mib <= self.mem_total_mib
        &&& self.cpu_description@.len() > 0
    }
}

/// Why the machine's facts could not be gathered.
#[derive(Clone, Copy, Debug, PartialEq, Eq, Structural)]
pub enum HwError {
    Uptime,
    Memory(MemError),
}

/// The machine's facts, from the contents of the CPU information file, the
/// frequency file (`None` where it could not be read), the uptime file and
/// the memory file, and the descriptions of the graphics devices.
pub fn probe_hw(cpuinfo: &str, freq: Option<&str>, uptime: &str, meminfo: &str, gpus: Vec<String>) -> (r:
    Result<HwInfo, HwError>)
    ensures
        match meminfo_of(meminfo@) {
            Err(e) => r matches Err(HwError::Memory(e2)) && e2 == e,
            Ok(m) => match uptime_seconds_of(uptime@) {
                None => r matches Err(HwError::Uptime),
                Some(secs) => r matches Ok(h) && {
                    &&& h.cpu_description@ == cpu_description_of(cpuinfo@, opt_view(freq))
                    &&& h.uptime_text@ == uptime_text(secs)
                    &&& h.mem_total_mib == m.total_mib
                    &&& h.mem_used_mib == m.used_mib
                    &&& h.gpu_descriptions@ == gpus@
                    &&& h.well_formed()
                },
            },
        },
{
    let mem = match parse_meminfo(meminfo) {
        Ok(m) => m,
        Err(e) => return Err(HwError::Memory(e)),
    };
    let secs = match parse_uptime(uptime) {
        Some(s) => s,
        None => return Err(HwError::Uptime),
    };
    Ok(HwInfo {
        gpu_descriptions: gpus,
        cpu_description: cpu_description(cpuinfo, freq),
        uptime_text: format_uptime(secs),
        mem_total_mib: mem.total_mib,
        mem_used_mib: mem.used_mib,
    })
}

} // verus!
