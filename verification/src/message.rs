//! Serialization of one captured log call into one text message: every
//! argument rendered to text and the renderings joined by single spaces.

use vstd::prelude::*;

use crate::json::json_text;
use crate::json::write_json;
use crate::json::JsonVal;
use crate::text::dec_int;
use crate::text::push_char;
use crate::text::write_i64;

verus! {

/// One argument of a captured log call. Primitives are rendered by string
/// conversion, objects by their JSON text. `Unserializable` stands for a
/// value whose serialization fails (such as a self-referential structure).
pub enum LogArg {
    Null,
    Bool(bool),
    Num(i64),
    Text(String),
    Obj(JsonVal),
    Unserializable,
}

impl LogArg {
    pub open spec fn serializable(self) -> bool {
        !(self is Unserializable)
    }
}

/// The text form of one serializable argument.
pub open spec fn arg_text_spec(a: LogArg) -> Seq<char> {
    match a {
        LogArg::Null => "null"@,
        LogArg::Bool(b) => if b {
            "true"@
        } else {
            "false"@
        },
        LogArg::Num(n) => dec_int(n as int),
        LogArg::Text(s) => s@,
        LogArg::Obj(v) => json_text(v),
        LogArg::Unserializable => Seq::empty(),
    }
}

/// The whole message: argument texts in call order, joined by one space.
pub open spec fn message_text_spec(args: Seq<LogArg>) -> Seq<char>
    decreases args.len(),
{
    if args.len() == 0 {
        Seq::empty()
    } else if args.len() == 1 {
        arg_text_spec(args.last())
    } else {
        message_text_spec(args.drop_last()) + seq![' '] + arg_text_spec(args.last())
    }
}

fn write_arg(a: &LogArg, out: &mut String)
    requires
        a.serializable(),
    ensures
        final(out)@ == old(out)@ + arg_text_spec(*a),
{
    let ghost orig: Seq<char> = out@;
    match a {
        LogArg::Null => {
            out.append("null");
        },
        LogArg::Bool(b) => {
            if *b {
                out.append("true");
            } else {
                out.append("false");
            }
        },
        LogArg::Num(n) => {
            write_i64(*n, out);
        },
        LogArg::Text(s) => {
            out.append(s.as_str());
        },
        LogArg::Obj(v) => {
            write_json(v, out);
        },
        LogArg::Unserializable => {
            proof {
                assert(false);
            }
        },
    }
}

/// Serializes one captured call. Returns the message text when every
/// argument serializes; returns nothing (the call is skipped, never an
/// error thrown into the host) when any argument cannot be serialized.
#[verifier::loop_isolation(false)]
pub fn format_message(args: &Vec<LogArg>) -> (r: Option<String>)
    ensures
        (r is Some) <==> (forall|i: int|
            0 <= i < args@.len() ==> (#[trigger] args@[i]).serializable()),
        r matches Some(m) ==> m@ == message_text_spec(args@),
{
    let mut out: String = String::new();
    let n: usize = args.len();
    let mut i: usize = 0;
    while i < n
        invariant
            i <= n,
            out@ == message_text_spec(args@.take(i as int)),
            forall|j: int| 0 <= j < i ==> (#[trigger] args@[j]).serializable(),
        decreases n - i,
    {
        match &args[i] {
            LogArg::Unserializable => {
                return None;
            },
            _ => {},
        }
        if i > 0 {
            push_char(&mut out, ' ');
        }
        write_arg(&args[i], &mut out);
        proof {
            assert(args@.take(i as int + 1).drop_last() =~= args@.take(i as int));
            assert(args@.take(i as int + 1).last() == args@[i as int]);
            assert(out@ =~= message_text_spec(args@.take(i as int + 1)));
        }
        i = i + 1;
    }
    proof {
        assert(args@.take(n as int) =~= args@);
    }
    Some(out)
}

} // verus!
