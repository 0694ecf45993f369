//! The wire protocol: command framing and sentinel-delimited replies.
//!
//! A command is one line with a sigil prefix and an optional parenthesized
//! numeric argument. A reply is a sequence of lines terminated by a fixed
//! sentinel line; a decoder only ever sees the lines strictly before the
//! first sentinel.

use vstd::prelude::*;
use crate::error::Error;
use crate::text::dec_digits;
use crate::text::str_eq;
use crate::text::u64_to_string;

verus! {

/// The fixed marker line that ends every reply.
pub open spec fn spec_sentinel() -> Seq<char> {
    "---EOM---"@
}

/// The sentinel line as sent by the engine.
pub fn sentinel() -> (r: &'static str)
    ensures
        r@ == spec_sentinel(),
{
    "---EOM---"
}

/// Whether a line is the sentinel.
pub fn is_sentinel(line: &str) -> (r: bool)
    ensures
        r == (line@ == spec_sentinel()),
{
    str_eq(line, "---EOM---")
}

/// The body of a reply: the lines strictly before the first sentinel line,
/// or nothing when no sentinel is present.
pub open spec fn spec_take_reply(lines: Seq<Seq<char>>) -> Option<Seq<Seq<char>>>
    decreases lines.len(),
{
    if lines.len() == 0 {
        None
    } else if lines[0] == spec_sentinel() {
        Some(Seq::empty())
    } else {
        match spec_take_reply(lines.skip(1)) {
            Option::None => Option::None,
            Option::Some(r) => Option::Some(seq![lines[0]] + r),
        }
    }
}

proof fn lemma_take_reply_at(lines: Seq<Seq<char>>, i: int)
    requires
        0 <= i < lines.len(),
        lines[i] == spec_sentinel(),
        forall|k: int| 0 <= k < i ==> lines[k] != spec_sentinel(),
    ensures
        spec_take_reply(lines) == Some(lines.subrange(0, i)),
    decreases i,
{
    if i == 0 {
        assert(lines.subrange(0, 0) =~= Seq::<Seq<char>>::empty());
    } else {
        assert(lines.skip(1)[i - 1] == lines[i]);
        assert(forall|k: int| 0 <= k < i - 1 ==> lines.skip(1)[k] == lines[k + 1]);
        lemma_take_reply_at(lines.skip(1), i - 1);
        assert(seq![lines[0]] + lines.skip(1).subrange(0, i - 1) =~= lines.subrange(0, i));
    }
}

proof fn lemma_take_reply_none(lines: Seq<Seq<char>>)
    requires
        forall|k: int| 0 <= k < lines.len() ==> lines[k] != spec_sentinel(),
    ensures
        spec_take_reply(lines) is None,
    decreases lines.len(),
{
    if lines.len() > 0 {
        assert(forall|k: int|
            0 <= k < lines.skip(1).len() ==> lines.skip(1)[k] == lines[k + 1]);
        lemma_take_reply_none(lines.skip(1));
    }
}

/// Law: the reply body never includes data beyond the sentinel line.
/// Once a sentinel terminates the stream, any lines that follow it, however
/// malformed, leave the extracted body unchanged.
pub proof fn lemma_reply_ignores_beyond_sentinel(lines: Seq<Seq<char>>, junk: Seq<Seq<char>>)
    requires
        spec_take_reply(lines) is Some,
    ensures
        spec_take_reply(lines + junk) == spec_take_reply(lines),
    decreases lines.len(),
{
    assert((lines + junk)[0] == lines[0]);
    if lines[0] != spec_sentinel() {
        assert((lines + junk).skip(1) =~= lines.skip(1) + junk);
        lemma_reply_ignores_beyond_sentinel(lines.skip(1), junk);
    }
}

/// Extracts the reply body from the lines read off one connection: the
/// lines strictly before the first sentinel. A stream that ended without a
/// sentinel means the connection closed mid-reply.
pub fn take_reply(lines: &Vec<String>) -> (r: Result<Vec<String>, Error>)
    ensures
        r matches Ok(body) ==> spec_take_reply(lines.deep_view()) == Some(body.deep_view()),
        r matches Ok(body) ==> forall|k: int|
            0 <= k < body.deep_view().len() ==> body.deep_view()[k] != spec_sentinel(),
        r is Ok <==> spec_take_reply(lines.deep_view()) is Some,
        r matches Err(e) ==> e == Error::Connection,
{
    let n = lines.len();
    let mut body: Vec<String> = Vec::new();
    let mut i: usize = 0;
    proof {
        assert(body.deep_view() =~= lines.deep_view().subrange(0, 0));
    }
    while i < n
        invariant
            n == lines.len(),
            0 <= i <= n,
            forall|k: int| 0 <= k < i ==> lines.deep_view()[k] != spec_sentinel(),
            body.deep_view() == lines.deep_view().subrange(0, i as int),
        decreases n - i,
    {
        if is_sentinel(lines[i].as_str()) {
            proof {
                lemma_take_reply_at(lines.deep_view(), i as int);
            }
            return Ok(body);
        }
        let ghost old_body = body.deep_view();
        body.push(lines[i].clone());
        proof {
            assert(body@.len() == old_body.len() + 1);
            assert(forall|k: int| 0 <= k < old_body.len() ==> body.deep_view()[k] == old_body[k]);
            assert(body.deep_view()[old_body.len() as int] == lines@[i as int].deep_view());
            assert(lines.deep_view()[i as int] == lines@[i as int].deep_view());
            assert(body.deep_view() =~= lines.deep_view().subrange(0, i + 1));
        }
        i = i + 1;
    }
    proof {
        lemma_take_reply_none(lines.deep_view());
    }
    Err(Error::Connection)
}

/// The wire form of a command: a `>` sigil, the command word, and an
/// optional parenthesized numeric argument, as in `>top-domains (5)`.
pub open spec fn spec_command_line(name: Seq<char>, arg: Option<u64>) -> Seq<char> {
    match arg {
        Option::None => seq!['>'] + name,
        Option::Some(n) => seq!['>'] + name + seq![' ', '('] + dec_digits(n as nat) + seq![')'],
    }
}

/// Frames one command line, ready to be written to the engine followed by
/// a newline.
pub fn format_command(name: &str, arg: Option<u64>) -> (r: String)
    ensures
        r@ == spec_command_line(name@, arg),
{
    proof {
        reveal_strlit(">");
        reveal_strlit(" (");
        reveal_strlit(")");
    }
    let mut s = String::from_str(">");
    s.append(name);
    match arg {
        Option::None => {
            proof {
                assert(s@ =~= spec_command_line(name@, arg));
            }
        },
        Option::Some(v) => {
            s.append(" (");
            let num = u64_to_string(v);
            s.append(num.as_str());
            s.append(")");
            proof {
                assert(s@ =~= spec_command_line(name@, arg));
            }
        },
    }
    s
}

} // verus!
