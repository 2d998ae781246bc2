use vstd::prelude::*;
use crate::token::push_char;
use vstd::string::StrSliceExecFns;
use crate::message_sanitization::is_ascii_char;

verus! {

/// Characters that stand for themselves in a path segment and in a query value.
pub open spec fn is_unreserved(c: char) -> bool {
    ||| 'A' <= c <= 'Z'
    ||| 'a' <= c <= 'z'
    ||| '0' <= c <= '9'
    ||| c == '-'
    ||| c == '.'
    ||| c == '_'
    ||| c == '~'
}

/// Upper-case hexadecimal digit of `d`, for `d` below 16.
pub open spec fn hex_digit(d: int) -> char {
    "0123456789ABCDEF"@[d]
}

/// A reserved ASCII character becomes `%` and its two hexadecimal digits; every
/// other character is kept (the URL parser encodes non-ASCII ones).
pub open spec fn escape_char(c: char) -> Seq<char> {
    if is_ascii_char(c) && !is_unreserved(c) {
        seq!['%', hex_digit((c as u32) as int / 16), hex_digit((c as u32) as int % 16)]
    } else {
        seq![c]
    }
}

/// `s` with each reserved ASCII character percent-encoded.
pub open spec fn escaped(s: Seq<char>) -> Seq<char>
    decreases s.len(),
{
    if s.len() == 0 {
        Seq::empty()
    } else {
        escaped(s.drop_last()) + escape_char(s.last())
    }
}

/// An escaped name holds no ASCII character but unreserved ones and `%`, so no
/// `/`, `?`, `#`, `&` or `=` of it can split a path or a query.
pub proof fn lemma_escaped_has_no_delimiters(s: Seq<char>)
    ensures
        forall|i: int|
            0 <= i < escaped(s).len() ==> {
                let c = #[trigger] escaped(s)[i];
                is_unreserved(c) || c == '%' || !is_ascii_char(c)
            },
    decreases s.len(),
{
    if s.len() > 0 {
        lemma_escaped_has_no_delimiters(s.drop_last());
        reveal_strlit("0123456789ABCDEF");
        let c = s.last();
        let code = (c as u32) as int;
        if is_ascii_char(c) && !is_unreserved(c) {
            assert(0 <= code / 16 < 16 && 0 <= code % 16 < 16) by {
                assert(c <= '\u{7f}');
            }
        }
        let e = escaped(s);
        let front = escaped(s.drop_last());
        assert forall|i: int| 0 <= i < e.len() implies {
            let d = #[trigger] e[i];
            is_unreserved(d) || d == '%' || !is_ascii_char(d)
        } by {
            if i >= front.len() {
                assert(e[i] == escape_char(c)[i - front.len()]);
            } else {
                assert(e[i] == front[i]);
            }
        }
    }
}

/// Appends `s`, with each reserved ASCII character percent-encoded, to `out`, so
/// that a name stays one path segment or one query value.
pub fn push_escaped(out: &mut String, s: &str)
    ensures
        final(out)@ == old(out)@ + escaped(s@),
{
    let n = s.unicode_len();
    let mut i: usize = 0;
    proof {
        reveal_strlit("0123456789ABCDEF");
        assert(out@ =~= old(out)@ + escaped(s@.take(0)));
    }
    while i < n
        invariant
            n == s@.len(),
            i <= n,
            out@ == old(out)@ + escaped(s@.take(i as int)),
            "0123456789ABCDEF"@.len() == 16,
        decreases n - i,
    {
        let c = s.get_char(i);
        proof {
            assert(s@.take(i + 1).drop_last() =~= s@.take(i as int));
            assert(s@.take(i + 1).last() == c);
        }
        let unreserved = ('A' <= c && c <= 'Z') || ('a' <= c && c <= 'z') || ('0' <= c && c <= '9')
            || c == '-' || c == '.' || c == '_' || c == '~';
        if c <= '\u{7f}' && !unreserved {
            let code = c as u32;
            push_char(out, '%');
            push_char(out, "0123456789ABCDEF".get_char((code / 16) as usize));
            push_char(out, "0123456789ABCDEF".get_char((code % 16) as usize));
        } else {
            push_char(out, c);
        }
        proof {
            assert(out@ =~= old(out)@ + escaped(s@.take(i + 1)));
        }
        i = i + 1;
    }
    proof {
        assert(s@.take(n as int) =~= s@);
    }
}

} // verus!
