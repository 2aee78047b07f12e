//! Text for diagnostic dumps: decimal numbers, and records written as
//! `Name { field: value, field: value }`.

use vstd::prelude::*;
use vstd::string::*;

verus! {

/// The character that stands for the decimal digit `d`.
pub open spec fn digit_char(d: nat) -> char
    recommends
        d < 10,
{
    if d == 0 {
        '0'
    } else if d == 1 {
        '1'
    } else if d == 2 {
        '2'
    } else if d == 3 {
        '3'
    } else if d == 4 {
        '4'
    } else if d == 5 {
        '5'
    } else if d == 6 {
        '6'
    } else if d == 7 {
        '7'
    } else if d == 8 {
        '8'
    } else {
        '9'
    }
}

/// `n` in decimal, most significant digit first, without leading zeros.
pub open spec fn decimal(n: nat) -> Seq<char>
    decreases n,
{
    if n < 10 {
        seq![digit_char(n)]
    } else {
        decimal(n / 10).push(digit_char(n % 10))
    }
}

/// One machine word under the name it is shown by.
#[derive(Clone, Copy, Debug)]
pub struct NamedWord {
    pub name: &'static str,
    pub value: usize,
}

impl View for NamedWord {
    type V = (Seq<char>, nat);

    open spec fn view(&self) -> (Seq<char>, nat) {
        (self.name@, self.value as nat)
    }
}

/// The views of a list of named words, in the same order.
pub open spec fn views(fields: Seq<NamedWord>) -> Seq<(Seq<char>, nat)> {
    Seq::new(fields.len(), |i: int| fields[i]@)
}

/// One field of a record: its name, a colon, a space, its value in decimal.
pub open spec fn field_text(field: (Seq<char>, nat)) -> Seq<char> {
    field.0 + ": "@ + decimal(field.1)
}

/// The fields of a record in order, a comma and a space between neighbours.
pub open spec fn fields_text(fields: Seq<(Seq<char>, nat)>) -> Seq<char>
    decreases fields.len(),
{
    if fields.len() == 0 {
        Seq::empty()
    } else if fields.len() == 1 {
        field_text(fields[0])
    } else {
        fields_text(fields.drop_last()) + ", "@ + field_text(fields.last())
    }
}

/// A record as the standard debug formatter writes a struct on one line: the
/// name alone when there are no fields, else the name and the fields in
/// braces.
pub open spec fn record_text(name: Seq<char>, fields: Seq<(Seq<char>, nat)>) -> Seq<char> {
    if fields.len() == 0 {
        name
    } else {
        name + " { "@ + fields_text(fields) + " }"@
    }
}

/// What one more field adds to the text of the fields before it.
pub proof fn lemma_fields_text_step(fields: Seq<(Seq<char>, nat)>, i: int)
    requires
        0 <= i < fields.len(),
    ensures
        i == 0 ==> fields_text(fields.take(i + 1)) == field_text(fields[i]),
        i > 0 ==> fields_text(fields.take(i + 1)) == fields_text(fields.take(i)) + ", "@
            + field_text(fields[i]),
{
    let upto = fields.take(i + 1);
    assert(upto.last() == fields[i]);
    assert(upto[0] == fields[0]);
    assert(upto.drop_last() =~= fields.take(i));
}

fn digit_str(d: usize) -> (s: &'static str)
    requires
        d < 10,
    ensures
        s@ == seq![digit_char(d as nat)],
{
    proof {
        reveal_strlit("0");
        reveal_strlit("1");
        reveal_strlit("2");
        reveal_strlit("3");
        reveal_strlit("4");
        reveal_strlit("5");
        reveal_strlit("6");
        reveal_strlit("7");
        reveal_strlit("8");
        reveal_strlit("9");
    }
    let s = if d == 0 {
        "0"
    } else if d == 1 {
        "1"
    } else if d == 2 {
        "2"
    } else if d == 3 {
        "3"
    } else if d == 4 {
        "4"
    } else if d == 5 {
        "5"
    } else if d == 6 {
        "6"
    } else if d == 7 {
        "7"
    } else if d == 8 {
        "8"
    } else {
        "9"
    };
    assert(s@ =~= seq![digit_char(d as nat)]);
    s
}

/// Appends `n` in decimal to `out`.
pub fn append_decimal(out: &mut String, n: usize)
    ensures
        final(out)@ == old(out)@ + decimal(n as nat),
    decreases n,
{
    if n >= 10 {
        append_decimal(out, n / 10);
    }
    out.append(digit_str(n % 10));
    assert(out@ =~= old(out)@ + decimal(n as nat));
}

/// Writes a record of named words on one line.
pub fn render_record(name: &str, fields: &Vec<NamedWord>) -> (out: String)
    ensures
        out@ == record_text(name@, views(fields@)),
{
    let mut out = String::from_str(name);
    if fields.len() == 0 {
        return out;
    }
    out.append(" { ");
    let ghost all = views(fields@);
    let mut i: usize = 0;
    while i < fields.len()
        invariant
            i <= fields.len(),
            all == views(fields@),
            out@ == name@ + " { "@ + fields_text(all.take(i as int)),
        decreases fields.len() - i,
    {
        let ghost before = out@;
        if i > 0 {
            out.append(", ");
        }
        let field = fields[i];
        out.append(field.name);
        out.append(": ");
        append_decimal(&mut out, field.value);
        proof {
            lemma_fields_text_step(all, i as int);
            assert(all[i as int] == field@);
            if i == 0 {
                assert(out@ =~= name@ + " { "@ + field_text(field@));
            } else {
                assert(out@ =~= name@ + " { "@ + (fields_text(all.take(i as int)) + ", "@
                    + field_text(field@)));
            }
        }
        i += 1;
    }
    assert(all.take(i as int) =~= all);
    out.append(" }");
    out
}

} // verus!
