//! A model of the values a captured log call can carry, and their JSON text
//! form, as the agent serializes object arguments before sending them.

use vstd::prelude::*;

use crate::text::dec_int;
use crate::text::digit_char;
use crate::text::push_char;
use crate::text::write_i64;

verus! {

/// A serializable value: the shape of an object argument of a captured log
/// call.
pub enum JsonVal {
    Null,
    Bool(bool),
    Int(i64),
    Str(String),
    Arr(Vec<JsonVal>),
    Obj(Vec<(String, JsonVal)>),
}

pub open spec fn hex_char(d: int) -> char {
    if d < 10 {
        digit_char(d)
    } else if d == 10 {
        'a'
    } else if d == 11 {
        'b'
    } else if d == 12 {
        'c'
    } else if d == 13 {
        'd'
    } else if d == 14 {
        'e'
    } else {
        'f'
    }
}

/// The escape of one character inside a JSON string literal.
pub open spec fn escape_char(c: char) -> Seq<char> {
    if c == '"' {
        seq!['\\', '"']
    } else if c == '\\' {
        seq!['\\', '\\']
    } else if c == '\n' {
        seq!['\\', 'n']
    } else if c == '\r' {
        seq!['\\', 'r']
    } else if c == '\t' {
        seq!['\\', 't']
    } else if c == '\u{0008}' {
        seq!['\\', 'b']
    } else if c == '\u{000c}' {
        seq!['\\', 'f']
    } else if (c as int) < 32 {
        seq!['\\', 'u', '0', '0', hex_char((c as int) / 16), hex_char((c as int) % 16)]
    } else {
        seq![c]
    }
}

/// The body of a JSON string literal: every character escaped as needed.
pub open spec fn escape_text(s: Seq<char>) -> Seq<char>
    decreases s.len(),
{
    if s.len() == 0 {
        Seq::empty()
    } else {
        escape_text(s.drop_last()) + escape_char(s.last())
    }
}

/// The JSON text of a value.
pub open spec fn json_text(v: JsonVal) -> Seq<char>
    decreases v,
{
    match v {
        JsonVal::Null => "null"@,
        JsonVal::Bool(b) => if b {
            "true"@
        } else {
            "false"@
        },
        JsonVal::Int(n) => dec_int(n as int),
        JsonVal::Str(s) => seq!['"'] + escape_text(s@) + seq!['"'],
        JsonVal::Arr(es) => seq!['['] + json_arr_text(es) + seq![']'],
        JsonVal::Obj(ps) => seq!['{'] + json_obj_text(ps) + seq!['}'],
    }
}

pub open spec fn json_arr_text(es: Vec<JsonVal>) -> Seq<char>
    decreases es,
{
    json_list_text(es@)
}

/// The comma-separated JSON texts of the elements of an array.
pub open spec fn json_list_text(es: Seq<JsonVal>) -> Seq<char>
    decreases es,
{
    if es.len() == 0 {
        Seq::empty()
    } else if es.len() == 1 {
        json_text(es.last())
    } else {
        json_list_text(es.drop_last()) + seq![','] + json_text(es.last())
    }
}

pub open spec fn json_obj_text(ps: Vec<(String, JsonVal)>) -> Seq<char>
    decreases ps,
{
    json_members_text(ps@)
}

/// One key/value member of a JSON object.
pub open spec fn json_member_text(p: (String, JsonVal)) -> Seq<char>
    decreases p,
{
    seq!['"'] + escape_text(p.0@) + seq!['"', ':'] + json_text(p.1)
}

/// The comma-separated members of a JSON object, in field order.
pub open spec fn json_members_text(ps: Seq<(String, JsonVal)>) -> Seq<char>
    decreases ps,
{
    if ps.len() == 0 {
        Seq::empty()
    } else if ps.len() == 1 {
        json_member_text(ps.last())
    } else {
        json_members_text(ps.drop_last()) + seq![','] + json_member_text(ps.last())
    }
}

fn hex_to_char(d: u32) -> (c: char)
    requires
        d < 16,
    ensures
        c == hex_char(d as int),
{
    if d == 0 {
        '0'
    } else if d == 1 {
        '1'
    } else if d == 2 {
        '2'
    } else if d == 3 {
        '3'
    } else if d == 4 {
        '4'
    } else if d == 5 {
        '5'
    } else if d == 6 {
        '6'
    } else if d == 7 {
        '7'
    } else if d == 8 {
        '8'
    } else if d == 9 {
        '9'
    } else if d == 10 {
        'a'
    } else if d == 11 {
        'b'
    } else if d == 12 {
        'c'
    } else if d == 13 {
        'd'
    } else if d == 14 {
        'e'
    } else {
        'f'
    }
}

/// Appends the escape of one character.
fn write_escaped_char(c: char, out: &mut String)
    ensures
        final(out)@ == old(out)@ + escape_char(c),
{
    let ghost orig: Seq<char> = out@;
    if c == '"' {
        out.append("\\\"");
        proof {
            reveal_strlit("\\\"");
            assert(out@ =~= orig + escape_char(c));
        }
    } else if c == '\\' {
        out.append("\\\\");
        proof {
            reveal_strlit("\\\\");
            assert(out@ =~= orig + escape_char(c));
        }
    } else if c == '\n' {
        out.append("\\n");
        proof {
            reveal_strlit("\\n");
            assert(out@ =~= orig + escape_char(c));
        }
    } else if c == '\r' {
        out.append("\\r");
        proof {
            reveal_strlit("\\r");
            assert(out@ =~= orig + escape_char(c));
        }
    } else if c == '\t' {
        out.append("\\t");
        proof {
            reveal_strlit("\\t");
            assert(out@ =~= orig + escape_char(c));
        }
    } else if c == '\u{0008}' {
        out.append("\\b");
        proof {
            reveal_strlit("\\b");
            assert(out@ =~= orig + escape_char(c));
        }
    } else if c == '\u{000c}' {
        out.append("\\f");
        proof {
            reveal_strlit("\\f");
            assert(out@ =~= orig + escape_char(c));
        }
    } else if (c as u32) < 32 {
        out.append("\\u00");
        let code: u32 = c as u32;
        push_char(out, hex_to_char(code / 16));
        push_char(out, hex_to_char(code % 16));
        proof {
            reveal_strlit("\\u00");
            assert(out@ =~= orig + escape_char(c));
        }
    } else {
        push_char(out, c);
        proof {
            assert(out@ =~= orig + escape_char(c));
        }
    }
}

/// Appends the escaped body of a JSON string literal.
#[verifier::loop_isolation(false)]
pub fn write_escaped(s: &str, out: &mut String)
    ensures
        final(out)@ == old(out)@ + escape_text(s@),
{
    let ghost orig: Seq<char> = out@;
    let len: usize = s.unicode_len();
    let mut i: usize = 0;
    while i < len
        invariant
            i <= len,
            out@ == orig + escape_text(s@.take(i as int)),
        decreases len - i,
    {
        let c = s.get_char(i);
        write_escaped_char(c, out);
        proof {
            assert(s@.take(i as int + 1).drop_last() =~= s@.take(i as int));
            assert(s@.take(i as int + 1).last() == c);
            assert(out@ =~= orig + escape_text(s@.take(i as int + 1)));
        }
        i = i + 1;
    }
    proof {
        assert(s@.take(len as int) =~= s@);
    }
}

/// Appends the JSON text of a value, exactly as `json_text` gives it.
#[verifier::loop_isolation(false)]
pub fn write_json(v: &JsonVal, out: &mut String)
    ensures
        final(out)@ == old(out)@ + json_text(*v),
    decreases *v,
{
    let ghost orig: Seq<char> = out@;
    match v {
        JsonVal::Null => {
            out.append("null");
        },
        JsonVal::Bool(b) => {
            if *b {
                out.append("true");
            } else {
                out.append("false");
            }
        },
        JsonVal::Int(n) => {
            write_i64(*n, out);
        },
        JsonVal::Str(s) => {
            push_char(out, '"');
            write_escaped(s.as_str(), out);
            push_char(out, '"');
            proof {
                assert(out@ =~= orig + json_text(*v));
            }
        },
        JsonVal::Arr(es) => {
            push_char(out, '[');
            let n: usize = es.len();
            let mut i: usize = 0;
            while i < n
                invariant
                    i <= n,
                    out@ == orig + seq!['['] + json_list_text(es@.take(i as int)),
                decreases n - i,
            {
                if i > 0 {
                    push_char(out, ',');
                }
                proof {
                    assert(decreases_to!(*v => *es));
                    assert(decreases_to!(*es => es@));
                    assert(decreases_to!(es@ => es@[i as int]));
                }
                write_json(&es[i], out);
                proof {
                    assert(es@.take(i as int + 1).drop_last() =~= es@.take(i as int));
                    assert(es@.take(i as int + 1).last() == es@[i as int]);
                    assert(out@ =~= orig + seq!['['] + json_list_text(es@.take(i as int + 1)));
                }
                i = i + 1;
            }
            push_char(out, ']');
            proof {
                assert(es@.take(n as int) =~= es@);
                assert(out@ =~= orig + json_text(*v));
            }
        },
        JsonVal::Obj(ps) => {
            push_char(out, '{');
            let n: usize = ps.len();
            let mut i: usize = 0;
            while i < n
                invariant
                    i <= n,
                    out@ == orig + seq!['{'] + json_members_text(ps@.take(i as int)),
                decreases n - i,
            {
                if i > 0 {
                    push_char(out, ',');
                }
                push_char(out, '"');
                write_escaped(ps[i].0.as_str(), out);
                push_char(out, '"');
                push_char(out, ':');
                proof {
                    assert(decreases_to!(*v => *ps));
                    assert(decreases_to!(*ps => ps@));
                    assert(decreases_to!(ps@ => ps@[i as int]));
                    assert(decreases_to!(ps@[i as int] => ps@[i as int].1));
                }
                write_json(&ps[i].1, out);
                proof {
                    let p = ps@[i as int];
                    assert(ps@.take(i as int + 1).drop_last() =~= ps@.take(i as int));
                    assert(ps@.take(i as int + 1).last() == p);
                    assert(json_member_text(p) == seq!['"'] + escape_text(p.0@) + seq!['"', ':']
                        + json_text(p.1));
                    assert(out@ =~= orig + seq!['{'] + json_members_text(ps@.take(i as int))
                        + (if i > 0 {
                            seq![',']
                        } else {
                            Seq::empty()
                        }) + json_member_text(p));
                    assert(out@ =~= orig + seq!['{'] + json_members_text(ps@.take(i as int + 1)));
                }
                i = i + 1;
            }
            push_char(out, '}');
            proof {
                assert(ps@.take(n as int) =~= ps@);
                assert(out@ =~= orig + json_text(*v));
            }
        },
    }
}

/// The JSON text of a value, as a fresh string.
pub fn to_json(v: &JsonVal) -> (r: String)
    ensures
        r@ == json_text(*v),
{
    let mut out: String = String::new();
    write_json(v, &mut out);
    out
}

} // verus!
