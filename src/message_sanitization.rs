use vstd::prelude::*;
use crate::token::push_char;
use vstd::string::StrSliceExecFns;
use vstd::string::StringExecFns;

verus! {

/// Length limit that DAPNET enforces on a message.
pub const DEFAULT_MAX_LENGTH: usize = 80;

/// What to do with non-ASCII characters in a message.
#[derive(Debug, Clone, Copy, PartialEq, Eq)]
pub enum MessageSanitizationNonAsciiPolicy {
    /// Don't attempt to change any non-ASCII characters and let DAPNET handle them.
    DoNothing,
    /// Just remove all non-ASCII characters.
    Remove,
    /// Replace each non-ASCII character with a specified char.
    ReplaceWith(char),
}

/// Options that control exactly how messages are sanitized.
#[derive(Debug, Clone, PartialEq, Eq)]
pub struct MessageSanitizationOptions {
    /// Maximum message length, in characters.
    ///
    /// DAPNET enforces an upper limit of 80, however shorter limits can be set if desired.
    pub max_length: usize,
    /// The string to include at the end of a truncated message.
    pub ellipses: String,
    /// What to do with non-ASCII characters in the message.
    pub non_ascii_policy: MessageSanitizationNonAsciiPolicy,
}

pub open spec fn is_ascii_char(c: char) -> bool {
    '\0' <= c <= '\u{7f}'
}

/// The ASCII characters of `s`, in order.
pub open spec fn ascii_only(s: Seq<char>) -> Seq<char>
    decreases s.len(),
{
    if s.len() == 0 {
        Seq::empty()
    } else {
        let rest = ascii_only(s.drop_last());
        if is_ascii_char(s.last()) {
            rest.push(s.last())
        } else {
            rest
        }
    }
}

/// `s` with each non-ASCII character replaced by `r`.
pub open spec fn ascii_or(s: Seq<char>, r: char) -> Seq<char> {
    s.map_values(|c: char| if is_ascii_char(c) { c } else { r })
}

/// `s` after the non-ASCII policy `p` is applied.
pub open spec fn apply_policy(s: Seq<char>, p: MessageSanitizationNonAsciiPolicy) -> Seq<char> {
    match p {
        MessageSanitizationNonAsciiPolicy::DoNothing => s,
        MessageSanitizationNonAsciiPolicy::Remove => ascii_only(s),
        MessageSanitizationNonAsciiPolicy::ReplaceWith(r) => ascii_or(s, r),
    }
}

/// Where a message longer than `max_length` is cut: room is left for the
/// ellipsis, and the cut never goes below zero.
pub open spec fn trim_point(max_length: nat, ellipsis: Seq<char>) -> nat {
    if ellipsis.len() <= max_length {
        (max_length - ellipsis.len()) as nat
    } else {
        0
    }
}

/// `s` cut down to `max_length` characters, ending in `ellipsis`, if it is longer.
pub open spec fn truncated(s: Seq<char>, max_length: nat, ellipsis: Seq<char>) -> Seq<char> {
    if s.len() > max_length {
        s.take(trim_point(max_length, ellipsis) as int) + ellipsis
    } else {
        s
    }
}

/// The sanitized form of message `s` under `options`.
pub open spec fn sanitized(s: Seq<char>, options: MessageSanitizationOptions) -> Seq<char> {
    truncated(
        apply_policy(s, options.non_ascii_policy),
        options.max_length as nat,
        options.ellipses@,
    )
}

impl MessageSanitizationOptions {
    /// The options DAPNET expects: 80 characters, `"..."`, non-ASCII replaced by `'?'`.
    pub open spec fn is_default(&self) -> bool {
        &&& self.max_length == DEFAULT_MAX_LENGTH
        &&& self.ellipses@ == "..."@
        &&& self.non_ascii_policy == MessageSanitizationNonAsciiPolicy::ReplaceWith('?')
    }
}

impl Default for MessageSanitizationOptions {
    fn default() -> (r: Self)
        ensures
            r.is_default(),
    {
        MessageSanitizationOptions {
            max_length: DEFAULT_MAX_LENGTH,
            ellipses: String::from_str("..."),
            non_ascii_policy: MessageSanitizationNonAsciiPolicy::ReplaceWith('?'),
        }
    }
}

proof fn lemma_ascii_only_is_ascii(s: Seq<char>)
    ensures
        vstd::utf8::is_ascii_chars(ascii_only(s)),
    decreases s.len(),
{
    if s.len() > 0 {
        lemma_ascii_only_is_ascii(s.drop_last());
    }
}

/// Whatever the non-ASCII policy, a sanitized message is at most `max_length`
/// characters long, provided the ellipsis itself fits in `max_length`; a message
/// that had to be cut is exactly `max_length` long.
pub proof fn lemma_sanitized_within_max_length(s: Seq<char>, options: MessageSanitizationOptions)
    requires
        options.ellipses@.len() <= options.max_length,
    ensures
        sanitized(s, options).len() <= options.max_length,
        apply_policy(s, options.non_ascii_policy).len() > options.max_length ==> sanitized(
            s,
            options,
        ).len() == options.max_length,
{
    let t = apply_policy(s, options.non_ascii_policy);
    if t.len() > options.max_length {
        assert(sanitized(s, options).len() == options.max_length);
    }
}

/// Under the `Remove` policy every character of a sanitized message is ASCII,
/// provided the ellipsis is.
pub proof fn lemma_remove_leaves_only_ascii(s: Seq<char>, options: MessageSanitizationOptions)
    requires
        options.non_ascii_policy == MessageSanitizationNonAsciiPolicy::Remove,
        vstd::utf8::is_ascii_chars(options.ellipses@),
    ensures
        vstd::utf8::is_ascii_chars(sanitized(s, options)),
{
    lemma_ascii_only_is_ascii(s);
    let t = ascii_only(s);
    let out = sanitized(s, options);
    assert forall|i: int| 0 <= i < out.len() implies '\0' <= #[trigger] out[i] <= '\u{7f}' by {
        if t.len() > options.max_length {
            let k = trim_point(options.max_length as nat, options.ellipses@) as int;
            if i < k {
                assert(out[i] == t[i]);
            } else {
                assert(out[i] == options.ellipses@[i - k]);
            }
        }
    }
}

/// Under `ReplaceWith(c)` each character that survives truncation stands at its
/// position in the input: an ASCII one unchanged, any other replaced by `c`.
pub proof fn lemma_replace_keeps_positions(s: Seq<char>, options: MessageSanitizationOptions, c: char)
    requires
        options.non_ascii_policy == MessageSanitizationNonAsciiPolicy::ReplaceWith(c),
    ensures
        forall|i: int|
            0 <= i < s.len() && (s.len() <= options.max_length || i < trim_point(
                options.max_length as nat,
                options.ellipses@,
            )) ==> #[trigger] sanitized(s, options)[i] == if is_ascii_char(s[i]) {
                s[i]
            } else {
                c
            },
{
}

/// Error of [`MessageSanitizationOptionsBuilder::build`].
#[derive(Debug, Clone, PartialEq, Eq)]
pub enum MessageSanitizationOptionsBuilderError {
    /// A field without a default was not set.
    UninitializedField(&'static str),
    /// The options failed validation.
    ValidationError(String),
}

/// Incremental construction of [`MessageSanitizationOptions`]; every field that is
/// left unset takes its default.
#[derive(Debug, Clone)]
pub struct MessageSanitizationOptionsBuilder {
    pub max_length: Option<usize>,
    pub ellipses: Option<String>,
    pub non_ascii_policy: Option<MessageSanitizationNonAsciiPolicy>,
}

impl Default for MessageSanitizationOptionsBuilder {
    fn default() -> (r: Self)
        ensures
            r.max_length is None,
            r.ellipses is None,
            r.non_ascii_policy is None,
    {
        MessageSanitizationOptionsBuilder { max_length: None, ellipses: None, non_ascii_policy: None }
    }
}

impl MessageSanitizationOptionsBuilder {
    pub fn max_length(self, value: usize) -> (r: Self)
        ensures
            r == (MessageSanitizationOptionsBuilder { max_length: Some(value), ..self }),
    {
        MessageSanitizationOptionsBuilder { max_length: Some(value), ..self }
    }

    pub fn ellipses(self, value: String) -> (r: Self)
        ensures
            r == (MessageSanitizationOptionsBuilder { ellipses: Some(value), ..self }),
    {
        MessageSanitizationOptionsBuilder { ellipses: Some(value), ..self }
    }

    pub fn non_ascii_policy(self, value: MessageSanitizationNonAsciiPolicy) -> (r: Self)
        ensures
            r == (MessageSanitizationOptionsBuilder { non_ascii_policy: Some(value), ..self }),
    {
        MessageSanitizationOptionsBuilder { non_ascii_policy: Some(value), ..self }
    }

    /// Builds the options; it always succeeds, since every field has a default.
    pub fn build(self) -> (r: Result<MessageSanitizationOptions, MessageSanitizationOptionsBuilderError>)
        ensures
            r is Ok,
            r->Ok_0.max_length == match self.max_length {
                Some(m) => m,
                None => DEFAULT_MAX_LENGTH,
            },
            r->Ok_0.ellipses@ == match self.ellipses {
                Some(e) => e@,
                None => "..."@,
            },
            r->Ok_0.non_ascii_policy == match self.non_ascii_policy {
                Some(p) => p,
                None => MessageSanitizationNonAsciiPolicy::ReplaceWith('?'),
            },
    {
        let max_length = match self.max_length {
            Some(m) => m,
            None => DEFAULT_MAX_LENGTH,
        };
        let ellipses = match self.ellipses {
            Some(e) => e,
            None => String::from_str("..."),
        };
        let non_ascii_policy = match self.non_ascii_policy {
            Some(p) => p,
            None => MessageSanitizationNonAsciiPolicy::ReplaceWith('?'),
        };
        Ok(MessageSanitizationOptions { max_length, ellipses, non_ascii_policy })
    }
}

/// Applies the non-ASCII policy to `msg`, one character at a time.
fn apply_non_ascii_policy(msg: &str, policy: MessageSanitizationNonAsciiPolicy) -> (r: String)
    ensures
        r@ == apply_policy(msg@, policy),
{
    let n = msg.unicode_len();
    let mut out = String::new();
    let mut i: usize = 0;
    while i < n
        invariant
            n == msg@.len(),
            i <= n,
            out@ == apply_policy(msg@.take(i as int), policy),
        decreases n - i,
    {
        let c = msg.get_char(i);
        let ascii = c <= '\u{7f}';
        proof {
            assert(msg@.take(i + 1).drop_last() =~= msg@.take(i as int));
            assert(msg@.take(i + 1).last() == c);
        }
        match policy {
            MessageSanitizationNonAsciiPolicy::DoNothing => {
                push_char(&mut out, c);
            },
            MessageSanitizationNonAsciiPolicy::Remove => {
                if ascii {
                    push_char(&mut out, c);
                }
            },
            MessageSanitizationNonAsciiPolicy::ReplaceWith(r) => {
                if ascii {
                    push_char(&mut out, c);
                } else {
                    push_char(&mut out, r);
                }
            },
        }
        proof {
            match policy {
                MessageSanitizationNonAsciiPolicy::Remove => {},
                _ => {
                    assert(out@ =~= apply_policy(msg@.take(i + 1), policy));
                },
            }
        }
        i = i + 1;
    }
    proof {
        assert(msg@.take(n as int) =~= msg@);
    }
    out
}

/// Sanitize a message to ensure it is suitable for both POCSAG and DAPNET.
///
/// The non-ASCII policy is applied first; a result longer than `max_length`
/// characters is then cut and ends in the ellipsis.
pub fn sanitize_message(msg: String, options: &MessageSanitizationOptions) -> (r: String)
    ensures
        r@ == sanitized(msg@, *options),
{
    let filtered = apply_non_ascii_policy(msg.as_str(), options.non_ascii_policy);
    let len = filtered.as_str().unicode_len();
    if len > options.max_length {
        let ell_len = options.ellipses.as_str().unicode_len();
        let trim = options.max_length.saturating_sub(ell_len);
        let head = filtered.as_str().substring_char(0, trim);
        let out = String::from_str(head);
        out.concat(options.ellipses.as_str())
    } else {
        filtered
    }
}

} // verus!
