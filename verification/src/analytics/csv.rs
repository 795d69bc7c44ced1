//! Quoting of CSV fields.
use crate::text::{chars_of, push_char};
use vstd::prelude::*;

verus! {

/// Whether a character forces a CSV field to be quoted.
pub open spec fn csv_special(c: char) -> bool {
    c == ',' || c == '"' || c == '\n'
}

/// Whether a field holds a comma, a double quote or a newline.
pub open spec fn needs_quoting(s: Seq<char>) -> bool {
    exists|i: int| 0 <= i < s.len() && csv_special(s[i])
}

/// The field with each double quote doubled.
pub open spec fn double_quotes(s: Seq<char>) -> Seq<char>
    decreases s.len(),
{
    if s.len() == 0 {
        seq![]
    } else {
        double_quotes(s.drop_last()) + if s.last() == '"' {
            seq!['"', '"']
        } else {
            seq![s.last()]
        }
    }
}

/// A field as written to CSV: quoted, with inner quotes doubled, when it holds a
/// comma, a double quote or a newline; as is otherwise.
pub open spec fn csv_field(s: Seq<char>) -> Seq<char> {
    if needs_quoting(s) {
        seq!['"'] + double_quotes(s) + seq!['"']
    } else {
        s
    }
}

/// Escapes a field for CSV output.
pub fn escape_csv(s: &str) -> (r: String)
    ensures
        r@ == csv_field(s@),
{
    let cs = chars_of(s);
    let mut special = false;
    let mut i: usize = 0;
    while i < cs.len()
        invariant
            i <= cs@.len(),
            cs@ == s@,
            special == exists|j: int| 0 <= j < i && csv_special(cs@[j]),
        decreases cs.len() - i,
    {
        let c = cs[i];
        if c == ',' || c == '"' || c == '\n' {
            special = true;
        }
        i = i + 1;
    }
    if !special {
        let mut out = String::new();
        out.append(s);
        return out;
    }
    let mut out = String::new();
    push_char(&mut out, '"');
    let mut k: usize = 0;
    while k < cs.len()
        invariant
            k <= cs@.len(),
            cs@ == s@,
            out@ == seq!['"'] + double_quotes(cs@.take(k as int)),
        decreases cs.len() - k,
    {
        assert(cs@.take(k + 1).drop_last() =~= cs@.take(k as int));
        let c = cs[k];
        if c == '"' {
            push_char(&mut out, '"');
            push_char(&mut out, '"');
        } else {
            push_char(&mut out, c);
        }
        k = k + 1;
        assert(out@ =~= seq!['"'] + double_quotes(cs@.take(k as int)));
    }
    assert(cs@.take(k as int) =~= cs@);
    push_char(&mut out, '"');
    out
}

} // verus!
