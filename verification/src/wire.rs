//! The wire-format document a task is submitted as: a JSON object with
//! the task's type, name, bid, both timeouts, and its options, rendered
//! exactly and with every string escaped.

use vstd::prelude::*;

use crate::task::{Options, Subtask, Task};
use crate::text::{digit_char, push_char, push_decimal, push_digit, spec_decimal};

verus! {

/// The character of one hexadecimal digit, lower case.
pub open spec fn hex_char(d: int) -> char
    recommends
        0 <= d <= 15,
{
    if d < 10 {
        digit_char(d)
    } else if d == 10 {
        'a'
    } else if d == 11 {
        'b'
    } else if d == 12 {
        'c'
    } else if d == 13 {
        'd'
    } else if d == 14 {
        'e'
    } else {
        'f'
    }
}

/// How one character appears inside a JSON string literal: quote and
/// backslash are escaped, control characters become a unicode escape,
/// everything else stands as it is.
pub open spec fn spec_escape_char(c: char) -> Seq<char> {
    if c == '"' {
        seq!['\\', '"']
    } else if c == '\\' {
        seq!['\\', '\\']
    } else if (c as int) < 32 {
        seq!['\\', 'u', '0', '0', hex_char(c as int / 16), hex_char(c as int % 16)]
    } else {
        seq![c]
    }
}

/// A text with every character escaped for a JSON string literal.
pub open spec fn spec_escape(s: Seq<char>) -> Seq<char>
    decreases s.len(),
{
    if s.len() == 0 {
        Seq::empty()
    } else {
        spec_escape_char(s[0]) + spec_escape(s.skip(1))
    }
}

/// Escaping distributes over concatenation.
pub proof fn lemma_escape_concat(a: Seq<char>, b: Seq<char>)
    ensures
        spec_escape(a + b) == spec_escape(a) + spec_escape(b),
    decreases a.len(),
{
    if a.len() == 0 {
        assert(a + b =~= b);
        assert(spec_escape(a) + spec_escape(b) =~= spec_escape(b));
    } else {
        assert((a + b).skip(1) =~= a.skip(1) + b);
        lemma_escape_concat(a.skip(1), b);
        assert(spec_escape(a + b) == spec_escape_char(a[0]) + (spec_escape(a.skip(1))
            + spec_escape(b)));
        assert(spec_escape_char(a[0]) + (spec_escape(a.skip(1)) + spec_escape(b)) =~= (
        spec_escape_char(a[0]) + spec_escape(a.skip(1))) + spec_escape(b));
    }
}

/// A JSON string literal holding `s`.
pub open spec fn spec_json_string(s: Seq<char>) -> Seq<char> {
    seq!['"'] + spec_escape(s) + seq!['"']
}

/// Texts joined with commas.
pub open spec fn spec_comma_join(items: Seq<Seq<char>>) -> Seq<char>
    decreases items.len(),
{
    if items.len() == 0 {
        Seq::empty()
    } else if items.len() == 1 {
        items[0]
    } else {
        items[0] + seq![','] + spec_comma_join(items.skip(1))
    }
}

/// Appending one more item extends a comma join at the end.
pub proof fn lemma_comma_join_push(items: Seq<Seq<char>>, x: Seq<char>)
    ensures
        spec_comma_join(items.push(x)) == if items.len() == 0 {
            x
        } else {
            spec_comma_join(items) + seq![','] + x
        },
    decreases items.len(),
{
    if items.len() == 0 {
        assert(items.push(x)[0] == x);
        assert(spec_comma_join(items.push(x)) == x);
    } else if items.len() == 1 {
        assert(items.push(x).skip(1) =~= seq![x]);
        assert(items.push(x)[0] == items[0]);
        assert(spec_comma_join(seq![x]) == x);
        assert(spec_comma_join(items.push(x)) == items[0] + seq![','] + x);
    } else {
        assert(items.push(x).skip(1) =~= items.skip(1).push(x));
        lemma_comma_join_push(items.skip(1), x);
        assert(spec_comma_join(items.push(x)) == items[0] + seq![','] + (spec_comma_join(
            items.skip(1),
        ) + seq![','] + x));
        assert(items[0] + seq![','] + (spec_comma_join(items.skip(1)) + seq![','] + x) =~= (
        items[0] + seq![','] + spec_comma_join(items.skip(1))) + seq![','] + x);
    }
}

/// A JSON array of string literals.
pub open spec fn spec_string_array(items: Seq<Seq<char>>) -> Seq<char> {
    seq!['['] + spec_comma_join(items.map_values(|s: Seq<char>| spec_json_string(s))) + seq![']']
}

/// The views of a vector of strings.
pub open spec fn spec_views(items: Seq<String>) -> Seq<Seq<char>> {
    items.map_values(|s: String| s@)
}

/// A task's bid in the document: thousandths rendered as a decimal
/// fraction with exactly three digits after the point.
pub open spec fn spec_bid_text(bid: u64) -> Seq<char> {
    spec_decimal((bid / 1000) as nat) + seq![
        '.',
        digit_char(bid as int % 1000 / 100),
        digit_char(bid as int % 100 / 10),
        digit_char(bid as int % 10),
    ]
}

/// The JSON value of one subtask.
pub open spec fn spec_subtask_value(st: Subtask) -> Seq<char> {
    "{\"exec_args\":"@ + spec_string_array(spec_views(st.exec_args@)) + ",\"output_file_paths\":"@
        + spec_string_array(spec_views(st.output_file_paths@)) + "}"@
}

/// The JSON member of one named subtask.
pub open spec fn spec_subtask_member(name: Seq<char>, st: Subtask) -> Seq<char> {
    spec_json_string(name) + seq![':'] + spec_subtask_value(st)
}

/// The JSON value of a task's options.
pub open spec fn spec_options_value(o: Options) -> Seq<char> {
    "{\"js_name\":"@ + spec_json_string(o.js_name@) + ",\"wasm_name\":"@ + spec_json_string(
        o.wasm_name@,
    ) + ",\"input_dir\":"@ + spec_json_string(o.input_dir_path@) + ",\"output_dir\":"@
        + spec_json_string(o.output_dir_path@) + ",\"subtasks\":{"@ + spec_comma_join(
        o.subtasks@.map_values(|e: (String, Subtask)| spec_subtask_member(e.0@, e.1)),
    ) + "}}"@
}

/// The whole wire-format document of a task.
pub open spec fn spec_submission(t: Task) -> Seq<char> {
    "{\"type\":\"wasm\",\"name\":"@ + spec_json_string(t.name@) + ",\"bid\":"@ + spec_bid_text(
        t.bid,
    ) + ",\"timeout\":"@ + spec_json_string(t.timeout.spec_text()) + ",\"subtask_timeout\":"@
        + spec_json_string(t.subtask_timeout.spec_text()) + ",\"options\":"@ + spec_options_value(
        t.options,
    ) + "}"@
}

/// Appends one character escaped for a JSON string literal.
fn push_escaped_char(out: &mut String, c: char)
    ensures
        final(out)@ == old(out)@ + spec_escape_char(c),
{
    let u = c as u32;
    if c == '"' {
        push_char(out, '\\');
        push_char(out, '"');
    } else if c == '\\' {
        push_char(out, '\\');
        push_char(out, '\\');
    } else if u < 32 {
        push_char(out, '\\');
        push_char(out, 'u');
        push_char(out, '0');
        push_char(out, '0');
        push_char(out, if u < 16 { '0' } else { '1' });
        let lo = (u % 16) as u8;
        let lo_char = match lo {
            0 => '0',
            1 => '1',
            2 => '2',
            3 => '3',
            4 => '4',
            5 => '5',
            6 => '6',
            7 => '7',
            8 => '8',
            9 => '9',
            10 => 'a',
            11 => 'b',
            12 => 'c',
            13 => 'd',
            14 => 'e',
            _ => 'f',
        };
        push_char(out, lo_char);
        proof {
            assert(out@ =~= old(out)@ + spec_escape_char(c));
        }
    } else {
        push_char(out, c);
    }
    proof {
        assert(out@ =~= old(out)@ + spec_escape_char(c));
    }
}

/// Appends a JSON string literal holding `s`.
fn push_json_string(out: &mut String, s: &str)
    ensures
        final(out)@ == old(out)@ + spec_json_string(s@),
{
    push_char(out, '"');
    let n = s.unicode_len();
    let mut i: usize = 0;
    while i < n
        invariant
            i <= n,
            n == s@.len(),
            out@ == old(out)@ + seq!['"'] + spec_escape(s@.take(i as int)),
        decreases n - i,
    {
        let c = s.get_char(i);
        push_escaped_char(out, c);
        proof {
            assert(s@.take(i as int + 1) =~= s@.take(i as int) + seq![s@[i as int]]);
            lemma_escape_concat(s@.take(i as int), seq![s@[i as int]]);
            assert(spec_escape(seq![s@[i as int]]) == spec_escape_char(s@[i as int]) + spec_escape(
                seq![s@[i as int]].skip(1),
            ));
            assert(seq![s@[i as int]].skip(1) =~= Seq::<char>::empty());
            assert(spec_escape_char(s@[i as int]) + spec_escape(Seq::<char>::empty())
                =~= spec_escape_char(s@[i as int]));
            assert(out@ =~= old(out)@ + seq!['"'] + spec_escape(s@.take(i as int + 1)));
        }
        i = i + 1;
    }
    push_char(out, '"');
    proof {
        assert(s@.take(n as int) =~= s@);
        assert(out@ =~= old(out)@ + spec_json_string(s@));
    }
}

/// Appends a JSON array of the given strings.
fn push_string_array(out: &mut String, items: &Vec<String>)
    ensures
        final(out)@ == old(out)@ + spec_string_array(spec_views(items@)),
{
    push_char(out, '[');
    let n = items.len();
    let mut i: usize = 0;
    while i < n
        invariant
            i <= n,
            n == items@.len(),
            out@ == old(out)@ + seq!['['] + spec_comma_join(
                spec_views(items@.take(i as int)).map_values(
                    |s: Seq<char>| spec_json_string(s),
                ),
            ),
        decreases n - i,
    {
        if i > 0 {
            push_char(out, ',');
        }
        push_json_string(out, items[i].as_str());
        proof {
            let prev = spec_views(items@.take(i as int)).map_values(
                |s: Seq<char>| spec_json_string(s),
            );
            let cur = spec_views(items@.take(i as int + 1)).map_values(
                |s: Seq<char>| spec_json_string(s),
            );
            assert(cur =~= prev.push(spec_json_string(items@[i as int]@)));
            lemma_comma_join_push(prev, spec_json_string(items@[i as int]@));
            if i > 0 {
                assert(prev.len() > 0);
                assert(out@ =~= old(out)@ + seq!['['] + spec_comma_join(cur));
            } else {
                assert(prev.len() == 0);
                assert(out@ =~= old(out)@ + seq!['['] + spec_comma_join(cur));
            }
        }
        i = i + 1;
    }
    push_char(out, ']');
    proof {
        assert(items@.take(n as int) =~= items@);
        assert(out@ =~= old(out)@ + spec_string_array(spec_views(items@)));
    }
}

/// Appends the task's bid as a decimal fraction with three digits after
/// the point.
fn push_bid(out: &mut String, bid: u64)
    ensures
        final(out)@ == old(out)@ + spec_bid_text(bid),
{
    push_decimal(out, bid / 1000);
    push_char(out, '.');
    push_digit(out, (bid % 1000 / 100) as u8);
    push_digit(out, (bid % 100 / 10) as u8);
    push_digit(out, (bid % 10) as u8);
    proof {
        assert(out@ =~= old(out)@ + spec_bid_text(bid));
    }
}

/// Appends the JSON value of one subtask.
fn push_subtask_value(out: &mut String, st: &Subtask)
    ensures
        final(out)@ == old(out)@ + spec_subtask_value(*st),
{
    out.append("{\"exec_args\":");
    push_string_array(out, &st.exec_args);
    out.append(",\"output_file_paths\":");
    push_string_array(out, &st.output_file_paths);
    out.append("}");
    proof {
        assert(out@ =~= old(out)@ + spec_subtask_value(*st));
    }
}

/// Appends the JSON value of a task's options.
#[verifier::rlimit(30)]
fn push_options_value(out: &mut String, options: &Options)
    ensures
        final(out)@ == old(out)@ + spec_options_value(*options),
{
    out.append("{\"js_name\":");
    push_json_string(out, options.js_name.as_str());
    out.append(",\"wasm_name\":");
    push_json_string(out, options.wasm_name.as_str());
    out.append(",\"input_dir\":");
    push_json_string(out, options.input_dir_path.as_str());
    out.append(",\"output_dir\":");
    push_json_string(out, options.output_dir_path.as_str());
    out.append(",\"subtasks\":{");

    let n = options.subtasks.len();
    let ghost base = out@;
    let mut i: usize = 0;
    while i < n
        invariant
            i <= n,
            n == options.subtasks@.len(),
            out@ == base + spec_comma_join(
                options.subtasks@.take(i as int).map_values(
                    |e: (String, Subtask)| spec_subtask_member(e.0@, e.1),
                ),
            ),
        decreases n - i,
    {
        if i > 0 {
            push_char(out, ',');
        }
        push_json_string(out, options.subtasks[i].0.as_str());
        push_char(out, ':');
        push_subtask_value(out, &options.subtasks[i].1);
        proof {
            let f = |e: (String, Subtask)| spec_subtask_member(e.0@, e.1);
            let prev = options.subtasks@.take(i as int).map_values(f);
            let cur = options.subtasks@.take(i as int + 1).map_values(f);
            assert(cur =~= prev.push(f(options.subtasks@[i as int])));
            lemma_comma_join_push(prev, f(options.subtasks@[i as int]));
            assert(out@ =~= base + spec_comma_join(cur));
        }
        i = i + 1;
    }
    out.append("}}");
    proof {
        assert(options.subtasks@.take(n as int) =~= options.subtasks@);
        assert(out@ =~= old(out)@ + spec_options_value(*options));
    }
}

impl Task {
    /// The JSON document the task is submitted as.
    #[verifier::rlimit(30)]
    pub fn submission_json(&self) -> (r: String)
        requires
            self.wf(),
        ensures
            r@ == spec_submission(*self),
    {
        let mut out = String::new();
        out.append("{\"type\":\"wasm\",\"name\":");
        push_json_string(&mut out, self.name.as_str());
        out.append(",\"bid\":");
        push_bid(&mut out, self.bid);
        out.append(",\"timeout\":");
        let timeout_text = self.timeout.text();
        push_json_string(&mut out, timeout_text.as_str());
        out.append(",\"subtask_timeout\":");
        let subtask_timeout_text = self.subtask_timeout.text();
        push_json_string(&mut out, subtask_timeout_text.as_str());
        out.append(",\"options\":");
        push_options_value(&mut out, &self.options);
        out.append("}");
        proof {
            assert(out@ =~= spec_submission(*self));
        }
        out
    }
}

} // verus!
