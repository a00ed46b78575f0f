//! Laws about the error rendering and the category description: the
//! rendering is injective — equal rendered strings come only from equal
//! errors — and the description is a function of the variant alone.

use vstd::prelude::*;
use crate::digits::all_digits;
use crate::digits::dec_digits;
use crate::digits::is_digit_char;
use crate::digits::lemma_dec_digits_all_digits;
use crate::digits::lemma_dec_digits_injective;
use crate::error::ErrorV;
use crate::error::RpcStatusV;
use crate::error::description_spec;
use crate::error::message_render_spec;
use crate::error::opt_status_render_spec;
use crate::error::render_spec;
use crate::error::status_render_spec;

verus! {

/// The position of a variant in the taxonomy, payload ignored.
pub open spec fn variant_tag(v: ErrorV) -> int {
    match v {
        ErrorV::Codec(_) => 0,
        ErrorV::CallFailure(_) => 1,
        ErrorV::RpcFailure(_) => 2,
        ErrorV::RpcFinished(_) => 3,
        ErrorV::RemoteStopped => 4,
        ErrorV::ShutdownFailed => 5,
        ErrorV::BindFail(_, _) => 6,
        ErrorV::QueueShutdown => 7,
        ErrorV::GoogleAuthenticationFailed => 8,
        ErrorV::InvalidMetadata(_) => 9,
    }
}

/// Law: the category description is a lookup by the variant tag alone — two
/// errors of the same variant share it, whatever their payloads hold.
pub proof fn lemma_description_depends_only_on_variant(v1: ErrorV, v2: ErrorV)
    requires
        variant_tag(v1) == variant_tag(v2),
    ensures
        description_spec(v1) == description_spec(v2),
{
}

/// Reads the variant tag back off a rendered string, by the characters that
/// tell the ten variant names apart.
pub open spec fn render_tag(s: Seq<char>) -> int {
    if s.len() == 0 {
        -1
    } else if s[0] == 'C' {
        if 1 < s.len() && s[1] == 'o' {
            0
        } else {
            1
        }
    } else if s[0] == 'R' {
        if 1 < s.len() && s[1] == 'e' {
            4
        } else if 4 < s.len() && s[4] == 'a' {
            2
        } else {
            3
        }
    } else if s[0] == 'S' {
        5
    } else if s[0] == 'B' {
        6
    } else if s[0] == 'Q' {
        7
    } else if s[0] == 'G' {
        8
    } else {
        9
    }
}

/// A rendered error begins with its variant name: the tag can be read back
/// off the rendering.
pub proof fn lemma_render_tag(v: ErrorV)
    ensures
        render_tag(render_spec(v)) == variant_tag(v),
{
    let s = render_spec(v);
    match v {
        ErrorV::Codec(d) => {
            reveal_strlit("Codec(");
            assert(("Codec("@ + d)[0] == 'C');
            assert(("Codec("@ + d)[1] == 'o');
            assert(s[0] == 'C');
            assert(s[1] == 'o');
        },
        ErrorV::CallFailure(c) => {
            reveal_strlit("CallFailure(");
            assert(("CallFailure("@ + dec_digits(c as nat))[0] == 'C');
            assert(("CallFailure("@ + dec_digits(c as nat))[1] == 'a');
            assert(s[0] == 'C');
            assert(s[1] == 'a');
        },
        ErrorV::RpcFailure(st) => {
            reveal_strlit("RpcFailure(");
            let body = "RpcFailure("@ + status_render_spec(st);
            assert(body[0] == 'R');
            assert(body[1] == 'p');
            assert(body[4] == 'a');
            assert(s[0] == 'R');
            assert(s[1] == 'p');
            assert(s[4] == 'a');
        },
        ErrorV::RpcFinished(m) => {
            reveal_strlit("RpcFinished(");
            let body = "RpcFinished("@ + opt_status_render_spec(m);
            assert(body[0] == 'R');
            assert(body[1] == 'p');
            assert(body[4] == 'i');
            assert(s[0] == 'R');
            assert(s[1] == 'p');
            assert(s[4] == 'i');
        },
        ErrorV::RemoteStopped => {
            reveal_strlit("RemoteStopped");
            assert(s[0] == 'R');
            assert(s[1] == 'e');
        },
        ErrorV::ShutdownFailed => {
            reveal_strlit("ShutdownFailed");
            assert(s[0] == 'S');
        },
        ErrorV::BindFail(h, p) => {
            reveal_strlit("BindFail(\"");
            let one = "BindFail(\""@ + h;
            let two = one + "\", "@;
            let three = two + dec_digits(p as nat);
            assert(one[0] == 'B');
            assert(two[0] == 'B');
            assert(three[0] == 'B');
            assert(s[0] == 'B');
        },
        ErrorV::QueueShutdown => {
            reveal_strlit("QueueShutdown");
            assert(s[0] == 'Q');
        },
        ErrorV::GoogleAuthenticationFailed => {
            reveal_strlit("GoogleAuthenticationFailed");
            assert(s[0] == 'G');
        },
        ErrorV::InvalidMetadata(t) => {
            reveal_strlit("InvalidMetadata(\"");
            assert(("InvalidMetadata(\""@ + t)[0] == 'I');
            assert(s[0] == 'I');
        },
    }
}

/// A common prefix cancels: if `p + a` and `p + b` are the same string, the
/// parts after the prefix are the same.
pub proof fn lemma_cancel_prefix(p: Seq<char>, a: Seq<char>, b: Seq<char>)
    requires
        p + a == p + b,
    ensures
        a == b,
{
    assert((p + a).len() == p.len() + a.len());
    assert((p + b).len() == p.len() + b.len());
    assert(a.len() == b.len());
    assert(a =~= b) by {
        assert forall|i: int| 0 <= i < a.len() implies a[i] == b[i] by {
            assert((p + a)[p.len() + i] == a[i]);
            assert((p + b)[p.len() + i] == b[i]);
        }
    }
}

/// A common suffix cancels: if `a + s` and `b + s` are the same string, the
/// parts before the suffix are the same.
pub proof fn lemma_cancel_suffix(a: Seq<char>, b: Seq<char>, s: Seq<char>)
    requires
        a + s == b + s,
    ensures
        a == b,
{
    assert((a + s).len() == a.len() + s.len());
    assert((b + s).len() == b.len() + s.len());
    assert(a.len() == b.len());
    assert(a =~= b) by {
        assert forall|i: int| 0 <= i < a.len() implies a[i] == b[i] by {
            assert((a + s)[i] == a[i]);
            assert((b + s)[i] == b[i]);
        }
    }
}

/// A common prefix and suffix cancel together.
pub proof fn lemma_cancel_affix(p: Seq<char>, a: Seq<char>, b: Seq<char>, s: Seq<char>)
    requires
        p + a + s == p + b + s,
    ensures
        a == b,
{
    lemma_cancel_suffix(p + a, p + b, s);
    lemma_cancel_prefix(p, a, b);
}

/// Concatenation is associative.
pub proof fn lemma_add_assoc(a: Seq<char>, b: Seq<char>, c: Seq<char>)
    ensures
        (a + b) + c == a + (b + c),
{
    assert((a + b) + c =~= a + (b + c));
}

/// A digit-only prefix is delimited by the first non-digit: if two such
/// splits give the same string, they are the same split.
pub proof fn lemma_digits_then_text(d1: Seq<char>, t1: Seq<char>, d2: Seq<char>, t2: Seq<char>)
    requires
        d1 + t1 == d2 + t2,
        all_digits(d1),
        all_digits(d2),
        t1.len() > 0,
        !is_digit_char(t1[0]),
        t2.len() > 0,
        !is_digit_char(t2[0]),
    ensures
        d1 == d2,
        t1 == t2,
{
    if d1.len() < d2.len() {
        let k = d1.len() as int;
        assert((d1 + t1)[k] == t1[0]);
        assert((d2 + t2)[k] == d2[k]);
        assert(is_digit_char(d2[k]));
        assert(false);
    }
    if d2.len() < d1.len() {
        let k = d2.len() as int;
        assert((d2 + t2)[k] == t2[0]);
        assert((d1 + t1)[k] == d1[k]);
        assert(is_digit_char(d1[k]));
        assert(false);
    }
    assert(d1 =~= d2) by {
        assert forall|i: int| 0 <= i < d1.len() implies d1[i] == d2[i] by {
            assert((d1 + t1)[i] == d1[i]);
            assert((d2 + t2)[i] == d2[i]);
        }
    }
    lemma_cancel_prefix(d1, t1, t2);
}

/// A digit-only suffix is delimited by the last non-digit before it: if two
/// such splits give the same string, they are the same split.
pub proof fn lemma_text_then_digits(a1: Seq<char>, d1: Seq<char>, a2: Seq<char>, d2: Seq<char>)
    requires
        a1 + d1 == a2 + d2,
        all_digits(d1),
        all_digits(d2),
        a1.len() > 0,
        !is_digit_char(a1[a1.len() - 1]),
        a2.len() > 0,
        !is_digit_char(a2[a2.len() - 1]),
    ensures
        a1 == a2,
        d1 == d2,
{
    assert((a1 + d1).len() == a1.len() + d1.len());
    assert((a2 + d2).len() == a2.len() + d2.len());
    if d1.len() < d2.len() {
        let j: int = a1.len() - 1;
        assert(a2.len() <= j < a2.len() + d2.len());
        assert((a1 + d1)[j] == a1[j]);
        assert((a2 + d2)[j] == d2[j - a2.len()]);
        assert(is_digit_char(d2[j - a2.len()]));
        assert(false);
    }
    if d2.len() < d1.len() {
        let j: int = a2.len() - 1;
        assert(a1.len() <= j < a1.len() + d1.len());
        assert((a2 + d2)[j] == a2[j]);
        assert((a1 + d1)[j] == d1[j - a1.len()]);
        assert(is_digit_char(d1[j - a1.len()]));
        assert(false);
    }
    assert(a1 =~= a2) by {
        assert forall|i: int| 0 <= i < a1.len() implies a1[i] == a2[i] by {
            assert((a1 + d1)[i] == a1[i]);
            assert((a2 + d2)[i] == a2[i]);
        }
    }
    lemma_cancel_prefix(a1, d1, d2);
}

/// The rendering of an optional message pins the message down.
pub proof fn lemma_message_render_injective(m1: Option<Seq<char>>, m2: Option<Seq<char>>)
    requires
        message_render_spec(m1) == message_render_spec(m2),
    ensures
        m1 == m2,
{
    reveal_strlit("None");
    reveal_strlit("Some(\"");
    reveal_strlit("\")");
    match (m1, m2) {
        (Option::None, Option::None) => {
        },
        (Option::None, Option::Some(t)) => {
            assert(("Some(\""@ + t)[0] == 'S');
            assert(message_render_spec(m2)[0] == 'S');
            assert(message_render_spec(m1)[0] == 'N');
            assert(false);
        },
        (Option::Some(t), Option::None) => {
            assert(("Some(\""@ + t)[0] == 'S');
            assert(message_render_spec(m1)[0] == 'S');
            assert(message_render_spec(m2)[0] == 'N');
            assert(false);
        },
        (Option::Some(t1), Option::Some(t2)) => {
            lemma_cancel_affix("Some(\""@, t1, t2, "\")"@);
        },
    }
}

/// The rendering of an RPC status pins code and message down.
pub proof fn lemma_status_render_injective(s1: RpcStatusV, s2: RpcStatusV)
    requires
        status_render_spec(s1) == status_render_spec(s2),
    ensures
        s1 == s2,
{
    let pre = "RpcStatus { code: "@;
    let sep = ", message: "@;
    let suf = " }"@;
    let d1 = dec_digits(s1.code as nat);
    let d2 = dec_digits(s2.code as nat);
    let m1 = message_render_spec(s1.message);
    let m2 = message_render_spec(s2.message);
    lemma_cancel_suffix(((pre + d1) + sep) + m1, ((pre + d2) + sep) + m2, suf);
    lemma_add_assoc(pre + d1, sep, m1);
    lemma_add_assoc(pre, d1, sep + m1);
    lemma_add_assoc(pre + d2, sep, m2);
    lemma_add_assoc(pre, d2, sep + m2);
    lemma_cancel_prefix(pre, d1 + (sep + m1), d2 + (sep + m2));
    lemma_dec_digits_all_digits(s1.code as nat);
    lemma_dec_digits_all_digits(s2.code as nat);
    reveal_strlit(", message: ");
    assert((sep + m1)[0] == ',');
    assert((sep + m2)[0] == ',');
    assert(!is_digit_char(','));
    lemma_digits_then_text(d1, sep + m1, d2, sep + m2);
    lemma_dec_digits_injective(s1.code as nat, s2.code as nat);
    lemma_cancel_prefix(sep, m1, m2);
    lemma_message_render_injective(s1.message, s2.message);
}

/// The rendering of an optional RPC status pins it down.
pub proof fn lemma_opt_status_render_injective(m1: Option<RpcStatusV>, m2: Option<RpcStatusV>)
    requires
        opt_status_render_spec(m1) == opt_status_render_spec(m2),
    ensures
        m1 == m2,
{
    reveal_strlit("None");
    reveal_strlit("Some(");
    match (m1, m2) {
        (Option::None, Option::None) => {
        },
        (Option::None, Option::Some(s)) => {
            assert(("Some("@ + status_render_spec(s))[0] == 'S');
            assert(opt_status_render_spec(m2)[0] == 'S');
            assert(opt_status_render_spec(m1)[0] == 'N');
            assert(false);
        },
        (Option::Some(s), Option::None) => {
            assert(("Some("@ + status_render_spec(s))[0] == 'S');
            assert(opt_status_render_spec(m1)[0] == 'S');
            assert(opt_status_render_spec(m2)[0] == 'N');
            assert(false);
        },
        (Option::Some(s1), Option::Some(s2)) => {
            lemma_cancel_affix("Some("@, status_render_spec(s1), status_render_spec(s2), ")"@);
            lemma_status_render_injective(s1, s2);
        },
    }
}

/// Law: the rendering is injective — two errors with different variants or
/// different payloads render differently, so a rendered string identifies
/// the error that produced it.
pub proof fn lemma_render_injective(v1: ErrorV, v2: ErrorV)
    requires
        render_spec(v1) == render_spec(v2),
    ensures
        v1 == v2,
{
    lemma_render_tag(v1);
    lemma_render_tag(v2);
    match (v1, v2) {
        (ErrorV::Codec(d1), ErrorV::Codec(d2)) => {
            lemma_cancel_affix("Codec("@, d1, d2, ")"@);
        },
        (ErrorV::CallFailure(c1), ErrorV::CallFailure(c2)) => {
            lemma_cancel_affix(
                "CallFailure("@,
                dec_digits(c1 as nat),
                dec_digits(c2 as nat),
                ")"@,
            );
            lemma_dec_digits_injective(c1 as nat, c2 as nat);
        },
        (ErrorV::RpcFailure(s1), ErrorV::RpcFailure(s2)) => {
            lemma_cancel_affix(
                "RpcFailure("@,
                status_render_spec(s1),
                status_render_spec(s2),
                ")"@,
            );
            lemma_status_render_injective(s1, s2);
        },
        (ErrorV::RpcFinished(m1), ErrorV::RpcFinished(m2)) => {
            lemma_cancel_affix(
                "RpcFinished("@,
                opt_status_render_spec(m1),
                opt_status_render_spec(m2),
                ")"@,
            );
            lemma_opt_status_render_injective(m1, m2);
        },
        (ErrorV::BindFail(h1, q1), ErrorV::BindFail(h2, q2)) => {
            let pre = "BindFail(\""@;
            let sep = "\", "@;
            let suf = ")"@;
            let d1 = dec_digits(q1 as nat);
            let d2 = dec_digits(q2 as nat);
            lemma_cancel_suffix(((pre + h1) + sep) + d1, ((pre + h2) + sep) + d2, suf);
            lemma_dec_digits_all_digits(q1 as nat);
            lemma_dec_digits_all_digits(q2 as nat);
            reveal_strlit("\", ");
            let a1 = (pre + h1) + sep;
            let a2 = (pre + h2) + sep;
            assert(a1[a1.len() - 1] == sep[2]);
            assert(a2[a2.len() - 1] == sep[2]);
            assert(!is_digit_char(' '));
            lemma_text_then_digits(a1, d1, a2, d2);
            lemma_dec_digits_injective(q1 as nat, q2 as nat);
            lemma_cancel_affix(pre, h1, h2, sep);
        },
        (ErrorV::InvalidMetadata(t1), ErrorV::InvalidMetadata(t2)) => {
            lemma_cancel_affix("InvalidMetadata(\""@, t1, t2, "\")"@);
        },
        _ => {
        },
    }
}

/// Law: a finished-call error with no known terminal status renders
/// differently from one with a concrete status, and both carry the finish
/// category description.
pub proof fn lemma_rpc_finished_renders_distinct(s: RpcStatusV)
    ensures
        render_spec(ErrorV::RpcFinished(Option::None)) != render_spec(
            ErrorV::RpcFinished(Option::Some(s)),
        ),
        description_spec(ErrorV::RpcFinished(Option::None)) == "Finish Error"@,
        description_spec(ErrorV::RpcFinished(Option::Some(s))) == "Finish Error"@,
{
    if render_spec(ErrorV::RpcFinished(Option::None)) == render_spec(
        ErrorV::RpcFinished(Option::Some(s)),
    ) {
        lemma_render_injective(
            ErrorV::RpcFinished(Option::None),
            ErrorV::RpcFinished(Option::Some(s)),
        );
        assert(false);
    }
}

} // verus!
