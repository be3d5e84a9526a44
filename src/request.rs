//! The request envelope:
//! `{"jsonrpc":"2.0","method":<wire name>,"params":[<arg>,...],"id":<id>}`.
use vstd::prelude::*;
use vstd::string::*;

verus! {

/// What serde_json writes for a string: the JSON string literal with its
/// escapes.
pub uninterp spec fn json_string_of(s: Seq<char>) -> Seq<char>;

/// A character that JSON asks to be escaped inside a string literal.
pub open spec fn needs_escape(c: char) -> bool {
    c == '"' || c == '\\' || (c as u32) < 0x20
}

/// A name that JSON writes between two quotes as it stands.
pub open spec fn is_plain_name(s: Seq<char>) -> bool {
    forall|i: int| 0 <= i < s.len() ==> !needs_escape(#[trigger] s[i])
}

/// Relies on serde_json's `Display` for `Value::String`: the compact JSON
/// literal of the string, which puts only `"`, `\` and control characters
/// below U+0020 behind an escape.
#[verifier::external_body]
fn json_quote(s: &str) -> (r: String)
    ensures
        r@ == json_string_of(s@),
        is_plain_name(s@) ==> r@ == seq!['"'] + s@ + seq!['"'],
{
    serde_json::Value::String(s.to_owned()).to_string()
}

/// The decimal digit for `d < 10`.
pub open spec fn digit_char(d: nat) -> char {
    (('0' as u32) + d) as char
}

/// The decimal representation of `n`, without sign or leading zeros.
pub open spec fn decimal_of(n: nat) -> Seq<char>
    decreases n,
{
    if n < 10 {
        seq![digit_char(n)]
    } else {
        decimal_of(n / 10) + seq![digit_char(n % 10)]
    }
}

/// Relies on the `Display` of `u64` in std, which writes the number in
/// decimal.
#[verifier::external_body]
fn u64_text(n: u64) -> (r: String)
    ensures
        r@ == decimal_of(n as nat),
{
    n.to_string()
}

/// The argument texts separated by commas.
pub open spec fn join_args(args: Seq<Seq<char>>) -> Seq<char>
    decreases args.len(),
{
    if args.len() == 0 {
        Seq::empty()
    } else if args.len() == 1 {
        args[0]
    } else {
        join_args(args.drop_last()) + seq![','] + args.last()
    }
}

/// The positional `params` array holding the argument texts in order.
pub open spec fn params_text(args: Seq<Seq<char>>) -> Seq<char> {
    seq!['['] + join_args(args) + seq![']']
}

/// The views of a list of strings.
pub open spec fn texts_of(v: Seq<String>) -> Seq<Seq<char>> {
    v.map_values(|s: String| s@)
}

/// The request envelope around a method name already written as a JSON
/// string literal.
pub open spec fn envelope_text(quoted: Seq<char>, args: Seq<Seq<char>>, id: u64) -> Seq<char> {
    "{\"jsonrpc\":\"2.0\",\"method\":"@ + quoted + ",\"params\":"@ + params_text(args) + ",\"id\":"@
        + decimal_of(id as nat) + "}"@
}

/// The whole request envelope for a call of `wire` with the given argument
/// texts and identifier.
pub open spec fn request_text(wire: Seq<char>, args: Seq<Seq<char>>, id: u64) -> Seq<char> {
    envelope_text(json_string_of(wire), args, id)
}

/// Writes the `params` array of the argument texts, in order.
fn write_params(out: &mut String, args: &Vec<String>)
    ensures
        final(out)@ == old(out)@ + params_text(texts_of(args@)),
{
    let ghost start = out@;
    out.append("[");
    proof {
        reveal_strlit("[");
        assert(texts_of(args@).take(0) =~= Seq::<Seq<char>>::empty());
        assert(out@ =~= start + seq!['['] + join_args(texts_of(args@).take(0)));
    }
    let mut i: usize = 0;
    while i < args.len()
        invariant
            i <= args.len(),
            out@ == start + seq!['['] + join_args(texts_of(args@).take(i as int)),
        decreases args.len() - i,
    {
        let ghost before = texts_of(args@).take(i as int);
        let ghost prev = out@;
        if i > 0 {
            out.append(",");
            proof {
                reveal_strlit(",");
            }
        }
        let ghost mid = out@;
        out.append(args[i].as_str());
        proof {
            let after = texts_of(args@).take(i + 1);
            assert(after.drop_last() =~= before);
            assert(after.last() == args@[i as int]@);
            if i == 0 {
                assert(after =~= seq![args@[0]@]);
                assert(out@ =~= start + seq!['['] + join_args(after));
            } else {
                assert(mid =~= prev + seq![',']);
                assert(out@ =~= start + seq!['['] + join_args(after));
            }
        }
        i = i + 1;
    }
    assert(texts_of(args@).take(args.len() as int) =~= texts_of(args@));
    out.append("]");
    proof {
        reveal_strlit("]");
        assert(out@ =~= start + params_text(texts_of(args@)));
    }
}

/// The request envelope around a method name already written as a JSON
/// string literal, with the given serialized arguments, in order, under
/// identifier `id`.
pub fn frame_request(quoted_method: &str, args: &Vec<String>, id: u64) -> (r: String)
    ensures
        r@ == envelope_text(quoted_method@, texts_of(args@), id),
{
    let mut out = String::from_str("{\"jsonrpc\":\"2.0\",\"method\":");
    out.append(quoted_method);
    out.append(",\"params\":");
    write_params(&mut out, args);
    out.append(",\"id\":");
    let id_text = u64_text(id);
    out.append(id_text.as_str());
    out.append("}");
    out
}

/// The request envelope that calls `wire_name` with the given serialized
/// arguments, in order, under identifier `id`. A call without arguments
/// still sends an empty `params` array.
pub fn build_request(wire_name: &str, args: &Vec<String>, id: u64) -> (r: String)
    ensures
        r@ == request_text(wire_name@, texts_of(args@), id),
        is_plain_name(wire_name@) ==> r@ == envelope_text(seq!['"'] + wire_name@ + seq!['"'], texts_of(args@), id),
{
    let quoted = json_quote(wire_name);
    frame_request(quoted.as_str(), args, id)
}

/// The summed length of the argument texts.
pub open spec fn total_len(args: Seq<Seq<char>>) -> nat
    decreases args.len(),
{
    if args.len() == 0 {
        0
    } else {
        total_len(args.drop_last()) + args.last().len()
    }
}

/// The `params` array is always present and positional: it is `[]` for a
/// call without arguments, and for `k > 0` arguments it holds the `k` texts
/// in order with `k - 1` separating commas and nothing else.
pub proof fn lemma_params_entries(args: Seq<Seq<char>>)
    ensures
        params_text(args)[0] == '[',
        params_text(args).last() == ']',
        args.len() == 0 ==> params_text(args) == seq!['[', ']'],
        args.len() > 0 ==> params_text(args).len() == 2 + total_len(args) + (args.len() - 1),
    decreases args.len(),
{
    if args.len() == 0 {
        assert(params_text(args) =~= seq!['[', ']']);
    } else if args.len() == 1 {
        assert(args.drop_last() =~= Seq::<Seq<char>>::empty());
        assert(total_len(args.drop_last()) == 0);
        assert(join_args(args) == args[0]);
    } else {
        let init = args.drop_last();
        lemma_params_entries(init);
        assert(join_args(args) == join_args(init) + seq![','] + args.last());
        assert(join_args(init).len() == params_text(init).len() - 2);
        assert(total_len(args) == total_len(init) + args.last().len());
    }
}

} // verus!
