//! The text exposition encoder: renders a registry snapshot in the plain-text
//! wire format scrapers consume. Every metric becomes one family block —
//! a `# HELP` line, a `# TYPE` line, then one line per sample — and the whole
//! output is pinned, character for character, by the spec functions below.

use vstd::prelude::*;
use vstd::string::StrSliceExecFns;
use vstd::string::StringExecFns;

use crate::registry::Metric;
use crate::registry::MetricKind;
use crate::registry::MetricModel;
use crate::registry::Registry;
use crate::registry::Sample;
use crate::registry::SampleModel;
use crate::registry::Value;
use crate::registry::ValueModel;
use crate::registry::metric_wf;

verus! {

/// The decimal digit for `d`.
pub open spec fn decimal_digit(d: nat) -> char {
    if d == 0 {
        '0'
    } else if d == 1 {
        '1'
    } else if d == 2 {
        '2'
    } else if d == 3 {
        '3'
    } else if d == 4 {
        '4'
    } else if d == 5 {
        '5'
    } else if d == 6 {
        '6'
    } else if d == 7 {
        '7'
    } else if d == 8 {
        '8'
    } else {
        '9'
    }
}

/// The usual decimal rendering of `n`, most significant digit first and
/// without leading zeros.
pub open spec fn decimal(n: nat) -> Seq<char>
    decreases n,
{
    if n < 10 {
        seq![decimal_digit(n)]
    } else {
        decimal(n / 10).push(decimal_digit(n % 10))
    }
}

/// How one character of a label value is written: backslash, double quote and
/// line feed are escaped, everything else passes through.
pub open spec fn escaped_label_char(c: char) -> Seq<char> {
    if c == '\\' {
        seq!['\\', '\\']
    } else if c == '"' {
        seq!['\\', '"']
    } else if c == '\n' {
        seq!['\\', 'n']
    } else {
        seq![c]
    }
}

/// How one character of a help text is written: backslash and line feed are
/// escaped, everything else passes through.
pub open spec fn escaped_help_char(c: char) -> Seq<char> {
    if c == '\\' {
        seq!['\\', '\\']
    } else if c == '\n' {
        seq!['\\', 'n']
    } else {
        seq![c]
    }
}

/// A label value from its `i`-th character on, escaped.
pub open spec fn escaped_label_from(s: Seq<char>, i: int) -> Seq<char>
    decreases s.len() - i,
{
    if i < 0 || i >= s.len() {
        Seq::empty()
    } else {
        escaped_label_char(s[i]) + escaped_label_from(s, i + 1)
    }
}

/// A whole label value, escaped.
pub open spec fn escaped_label(s: Seq<char>) -> Seq<char> {
    escaped_label_from(s, 0)
}

/// A help text from its `i`-th character on, escaped.
pub open spec fn escaped_help_from(s: Seq<char>, i: int) -> Seq<char>
    decreases s.len() - i,
{
    if i < 0 || i >= s.len() {
        Seq::empty()
    } else {
        escaped_help_char(s[i]) + escaped_help_from(s, i + 1)
    }
}

/// A whole help text, escaped.
pub open spec fn escaped_help(s: Seq<char>) -> Seq<char> {
    escaped_help_from(s, 0)
}

/// The keyword a metric kind is announced with on its `# TYPE` line.
pub open spec fn kind_text(k: MetricKind) -> Seq<char> {
    match k {
        MetricKind::Gauge => "gauge"@,
        MetricKind::Counter => "counter"@,
    }
}

/// How a sample value is written: integers in decimal, pre-rendered readings
/// verbatim.
pub open spec fn value_text(v: ValueModel) -> Seq<char> {
    match v {
        ValueModel::Int(n) => decimal(n as nat),
        ValueModel::Text(t) => t,
    }
}

/// One `name="value"` pair.
pub open spec fn label_pair(name: Seq<char>, value: Seq<char>) -> Seq<char> {
    name + "=\""@ + escaped_label(value) + "\""@
}

/// The label pairs from the `i`-th on, comma-separated; the first pair has no
/// leading comma.
pub open spec fn label_pairs_from(
    names: Seq<Seq<char>>,
    values: Seq<Seq<char>>,
    i: int,
) -> Seq<char>
    decreases names.len() - i,
{
    if i < 0 || i >= names.len() {
        Seq::empty()
    } else {
        (if i > 0 {
            ","@
        } else {
            Seq::empty()
        }) + label_pair(names[i], values[i]) + label_pairs_from(names, values, i + 1)
    }
}

/// One sample line: the metric name, the brace-wrapped label pairs when the
/// metric is labeled, a space, the value, a line feed.
pub open spec fn sample_text(
    mname: Seq<char>,
    label_names: Seq<Seq<char>>,
    s: SampleModel,
) -> Seq<char> {
    if label_names.len() == 0 {
        mname + " "@ + value_text(s.value) + "\n"@
    } else {
        mname + "{"@ + label_pairs_from(label_names, s.labels, 0) + "}"@ + " "@ + value_text(
            s.value,
        ) + "\n"@
    }
}

/// A metric's sample lines from the `i`-th sample on.
pub open spec fn samples_text_from(m: MetricModel, i: int) -> Seq<char>
    decreases m.samples.len() - i,
{
    if i < 0 || i >= m.samples.len() {
        Seq::empty()
    } else {
        sample_text(m.name, m.label_names, m.samples[i]) + samples_text_from(m, i + 1)
    }
}

/// One whole family block: `# HELP`, `# TYPE`, then the sample lines.
pub open spec fn metric_text(m: MetricModel) -> Seq<char> {
    "# HELP "@ + m.name + " "@ + escaped_help(m.help) + "\n"@ + "# TYPE "@ + m.name + " "@
        + kind_text(m.kind) + "\n"@ + samples_text_from(m, 0)
}

/// The family blocks from the `i`-th metric on.
pub open spec fn registry_text_from(r: Seq<MetricModel>, i: int) -> Seq<char>
    decreases r.len() - i,
{
    if i < 0 || i >= r.len() {
        Seq::empty()
    } else {
        metric_text(r[i]) + registry_text_from(r, i + 1)
    }
}

/// The full exposition document for a registry snapshot.
pub open spec fn registry_text(r: Seq<MetricModel>) -> Seq<char> {
    registry_text_from(r, 0)
}

/// Relies on `String::push`: appends exactly the one character.
#[verifier::external_body]
fn push_char(s: &mut String, c: char)
    ensures
        final(s)@ == old(s)@ + seq![c],
{
    s.push(c);
}

/// The decimal digit for `d` as a character.
fn digit_char(d: u64) -> (c: char)
    requires
        d < 10,
    ensures
        c == decimal_digit(d as nat),
{
    if d == 0 {
        '0'
    } else if d == 1 {
        '1'
    } else if d == 2 {
        '2'
    } else if d == 3 {
        '3'
    } else if d == 4 {
        '4'
    } else if d == 5 {
        '5'
    } else if d == 6 {
        '6'
    } else if d == 7 {
        '7'
    } else if d == 8 {
        '8'
    } else {
        '9'
    }
}

/// Append the decimal rendering of `n`.
fn append_u64(out: &mut String, n: u64)
    ensures
        final(out)@ == old(out)@ + decimal(n as nat),
    decreases n,
{
    if n >= 10 {
        append_u64(out, n / 10);
        push_char(out, digit_char(n % 10));
        proof {
            assert(out@ =~= old(out)@ + decimal(n as nat));
        }
    } else {
        push_char(out, digit_char(n));
        proof {
            assert(out@ =~= old(out)@ + decimal(n as nat));
        }
    }
}

/// The decimal rendering of `n` as a fresh string.
pub fn u64_to_string(n: u64) -> (s: String)
    ensures
        s@ == decimal(n as nat),
{
    let mut s = String::new();
    append_u64(&mut s, n);
    proof {
        assert(s@ =~= decimal(n as nat));
    }
    s
}

/// Append a label value with the format's escaping applied.
#[verifier::loop_isolation(false)]
fn append_escaped_label(out: &mut String, s: &str)
    ensures
        final(out)@ == old(out)@ + escaped_label(s@),
{
    let n = s.unicode_len();
    let mut i: usize = 0;
    while i < n
        invariant
            0 <= i <= n,
            n == s@.len(),
            out@ + escaped_label_from(s@, i as int) == old(out)@ + escaped_label(s@),
        decreases n - i,
    {
        let ghost before = out@;
        let c = s.get_char(i);
        if c == '\\' {
            push_char(out, '\\');
            push_char(out, '\\');
        } else if c == '"' {
            push_char(out, '\\');
            push_char(out, '"');
        } else if c == '\n' {
            push_char(out, '\\');
            push_char(out, 'n');
        } else {
            push_char(out, c);
        }
        proof {
            assert(out@ =~= before + escaped_label_char(s@[i as int]));
            assert(out@ + escaped_label_from(s@, i + 1) =~= before + escaped_label_from(
                s@,
                i as int,
            ));
        }
        i += 1;
    }
}

/// Append a help text with the format's escaping applied.
#[verifier::loop_isolation(false)]
fn append_escaped_help(out: &mut String, s: &str)
    ensures
        final(out)@ == old(out)@ + escaped_help(s@),
{
    let n = s.unicode_len();
    let mut i: usize = 0;
    while i < n
        invariant
            0 <= i <= n,
            n == s@.len(),
            out@ + escaped_help_from(s@, i as int) == old(out)@ + escaped_help(s@),
        decreases n - i,
    {
        let ghost before = out@;
        let c = s.get_char(i);
        if c == '\\' {
            push_char(out, '\\');
            push_char(out, '\\');
        } else if c == '\n' {
            push_char(out, '\\');
            push_char(out, 'n');
        } else {
            push_char(out, c);
        }
        proof {
            assert(out@ =~= before + escaped_help_char(s@[i as int]));
            assert(out@ + escaped_help_from(s@, i + 1) =~= before + escaped_help_from(
                s@,
                i as int,
            ));
        }
        i += 1;
    }
}

/// Append one sample line.
#[verifier::loop_isolation(false)]
fn append_sample(out: &mut String, name: &str, label_names: &Vec<String>, s: &Sample)
    requires
        s@.labels.len() == label_names.deep_view().len(),
    ensures
        final(out)@ == old(out)@ + sample_text(name@, label_names.deep_view(), s@),
{
    let ghost start = out@;
    out.append(name);
    if label_names.len() > 0 {
        out.append("{");
        let k = label_names.len();
        let mut j: usize = 0;
        while j < k
            invariant
                0 <= j <= k,
                k == label_names@.len(),
                out@ + label_pairs_from(label_names.deep_view(), s@.labels, j as int) == start
                    + name@ + "{"@ + label_pairs_from(label_names.deep_view(), s@.labels, 0),
            decreases k - j,
        {
            let ghost before = out@;
            if j > 0 {
                out.append(",");
            }
            out.append(label_names[j].as_str());
            out.append("=\"");
            append_escaped_label(out, s.labels[j].as_str());
            out.append("\"");
            proof {
                assert(label_names.deep_view()[j as int] == label_names@[j as int]@);
                assert(s@.labels[j as int] == s.labels@[j as int]@);
                assert(out@ =~= before + (if j > 0 {
                    ","@
                } else {
                    Seq::<char>::empty()
                }) + label_pair(label_names.deep_view()[j as int], s@.labels[j as int]));
                assert(out@ + label_pairs_from(label_names.deep_view(), s@.labels, j + 1) =~= before
                    + label_pairs_from(label_names.deep_view(), s@.labels, j as int));
            }
            j += 1;
        }
        out.append("}");
    }
    out.append(" ");
    match &s.value {
        Value::Int(v) => append_u64(out, *v),
        Value::Text(t) => out.append(t.as_str()),
    }
    out.append("\n");
    proof {
        assert(out@ =~= start + sample_text(name@, label_names.deep_view(), s@));
    }
}

/// Append one whole family block.
#[verifier::loop_isolation(false)]
fn append_metric(out: &mut String, m: &Metric)
    requires
        metric_wf(m@),
    ensures
        final(out)@ == old(out)@ + metric_text(m@),
{
    let ghost start = out@;
    out.append("# HELP ");
    out.append(m.name.as_str());
    out.append(" ");
    append_escaped_help(out, m.help.as_str());
    out.append("\n");
    out.append("# TYPE ");
    out.append(m.name.as_str());
    out.append(" ");
    match m.kind {
        MetricKind::Gauge => out.append("gauge"),
        MetricKind::Counter => out.append("counter"),
    }
    out.append("\n");
    let ghost header = start + "# HELP "@ + m@.name + " "@ + escaped_help(m@.help) + "\n"@
        + "# TYPE "@ + m@.name + " "@ + kind_text(m@.kind) + "\n"@;
    proof {
        assert(out@ =~= header);
    }
    let n = m.samples.len();
    let mut i: usize = 0;
    while i < n
        invariant
            0 <= i <= n,
            n == m.samples@.len(),
            metric_wf(m@),
            out@ + samples_text_from(m@, i as int) == header + samples_text_from(m@, 0),
        decreases n - i,
    {
        let ghost before = out@;
        append_sample(out, m.name.as_str(), &m.label_names, &m.samples[i]);
        proof {
            assert(m.samples@[i as int]@ == m@.samples[i as int]);
            assert(out@ + samples_text_from(m@, i + 1) =~= before + samples_text_from(
                m@,
                i as int,
            ));
        }
        i += 1;
    }
    proof {
        assert(out@ =~= start + metric_text(m@));
    }
}

/// Render the whole registry snapshot as one exposition document.
#[verifier::loop_isolation(false)]
pub fn encode(reg: &Registry) -> (out: String)
    requires
        reg.wf(),
    ensures
        out@ == registry_text(reg@),
{
    let mut out = String::new();
    let ghost start = out@;
    let n = reg.len();
    let mut i: usize = 0;
    while i < n
        invariant
            0 <= i <= n,
            n == reg@.len(),
            reg.wf(),
            out@ + registry_text_from(reg@, i as int) == start + registry_text_from(reg@, 0),
        decreases n - i,
    {
        let ghost before = out@;
        append_metric(&mut out, reg.metric_at(i));
        proof {
            assert(out@ + registry_text_from(reg@, i + 1) =~= before + registry_text_from(
                reg@,
                i as int,
            ));
        }
        i += 1;
    }
    proof {
        assert(out@ =~= registry_text(reg@));
        assert(start =~= Seq::<char>::empty());
    }
    out
}

/// The content type the exposition format is served under.
pub fn format_type() -> (s: &'static str)
    ensures
        s@ == "text/plain; version=0.0.4"@,
{
    "text/plain; version=0.0.4"
}

} // verus!
