//! The pieces shared by every payload: escaping of free-text values and the
//! `TAG:value;` fields that a payload is made of.
use vstd::prelude::*;

verus! {

/// The characters that carry meaning in the payload grammar.
pub open spec fn is_reserved(c: char) -> bool {
    c == '\\' || c == '"' || c == ';' || c == ',' || c == ':'
}

/// How one character is written in an escaped value.
pub open spec fn escape_char(c: char) -> Seq<char> {
    if is_reserved(c) {
        seq!['\\', c]
    } else {
        seq![c]
    }
}

/// A value with a backslash put before each reserved character.
pub open spec fn escaped(s: Seq<char>) -> Seq<char>
    decreases s.len(),
{
    if s.len() == 0 {
        Seq::empty()
    } else {
        escaped(s.drop_last()) + escape_char(s.last())
    }
}

/// How many reserved characters a value holds.
pub open spec fn reserved_count(s: Seq<char>) -> nat
    decreases s.len(),
{
    if s.len() == 0 {
        0
    } else {
        reserved_count(s.drop_last()) + if is_reserved(s.last()) {
            1nat
        } else {
            0nat
        }
    }
}

/// Escaping works on each character alone: escaping two joined values joins
/// their escaped forms.
pub proof fn lemma_escaped_concat(a: Seq<char>, b: Seq<char>)
    ensures
        escaped(a + b) == escaped(a) + escaped(b),
    decreases b.len(),
{
    if b.len() == 0 {
        assert(a + b =~= a);
        assert(escaped(a) + escaped(b) =~= escaped(a));
    } else {
        assert((a + b).drop_last() =~= a + b.drop_last());
        lemma_escaped_concat(a, b.drop_last());
        assert(escaped(a + b) =~= escaped(a) + escaped(b));
    }
}

/// A single character is written as `escape_char` says.
pub proof fn lemma_escaped_one(c: char)
    ensures
        escaped(seq![c]) == escape_char(c),
{
    let one = seq![c];
    assert(one.drop_last() =~= Seq::<char>::empty());
    assert(escaped(Seq::<char>::empty()) == Seq::<char>::empty());
    assert(escaped(one) =~= escape_char(c));
}

/// Escaping adds exactly one backslash for each reserved character.
pub proof fn lemma_escaped_len(s: Seq<char>)
    ensures
        escaped(s).len() == s.len() + reserved_count(s),
    decreases s.len(),
{
    if s.len() > 0 {
        lemma_escaped_len(s.drop_last());
    }
}

/// A value with no reserved character is left as it is.
pub proof fn lemma_escape_unchanged(s: Seq<char>)
    requires
        forall|i: int| 0 <= i < s.len() ==> !is_reserved(#[trigger] s[i]),
    ensures
        escaped(s) == s,
    decreases s.len(),
{
    if s.len() > 0 {
        let t = s.drop_last();
        assert forall|i: int| 0 <= i < t.len() implies !is_reserved(#[trigger] t[i]) by {
            assert(t[i] == s[i]);
        }
        lemma_escape_unchanged(t);
        assert(escaped(s) =~= s);
    }
}

proof fn lemma_reserved_count_positive(s: Seq<char>, i: int)
    requires
        0 <= i < s.len(),
        is_reserved(s[i]),
    ensures
        reserved_count(s) > 0,
    decreases s.len(),
{
    if i < s.len() - 1 {
        assert(s.drop_last()[i] == s[i]);
        lemma_reserved_count_positive(s.drop_last(), i);
    }
}

/// A value that holds a reserved character changes when escaped a second
/// time: escaping is not idempotent on such values.
pub proof fn lemma_escape_twice_differs(s: Seq<char>, i: int)
    requires
        0 <= i < s.len(),
        is_reserved(s[i]),
    ensures
        escaped(escaped(s)) != escaped(s),
{
    let pre = s.subrange(0, i);
    let post = s.subrange(i + 1, s.len() as int);
    assert(s =~= pre + seq![s[i]] + post);
    lemma_escaped_concat(pre + seq![s[i]], post);
    lemma_escaped_concat(pre, seq![s[i]]);
    lemma_escaped_one(s[i]);
    let e = escaped(s);
    assert(e == escaped(pre) + escape_char(s[i]) + escaped(post));
    assert(e[escaped(pre).len() as int] == '\\');
    lemma_reserved_count_positive(e, escaped(pre).len() as int);
    lemma_escaped_len(e);
}

fn is_reserved_char(c: char) -> (r: bool)
    ensures
        r == is_reserved(c),
{
    c == '\\' || c == '"' || c == ';' || c == ',' || c == ':'
}

/// Returns `input` with each of `\ " ; , :` preceded by a backslash.
pub fn escape(input: &str) -> (r: String)
    ensures
        r@ == escaped(input@),
{
    let n = input.unicode_len();
    let mut out = String::new();
    let mut i: usize = 0;
    while i < n
        invariant
            n == input@.len(),
            i <= n,
            out@ == escaped(input@.subrange(0, i as int)),
        decreases n - i,
    {
        let c = input.get_char(i);
        if is_reserved_char(c) {
            out.append("\\");
        }
        out.append(input.substring_char(i, i + 1));
        proof {
            reveal_strlit("\\");
            let next = input@.subrange(0, i + 1);
            assert(next.drop_last() =~= input@.subrange(0, i as int));
        }
        assert(out@ =~= escaped(input@.subrange(0, i + 1)));
        i = i + 1;
    }
    assert(input@.subrange(0, n as int) =~= input@);
    out
}

/// One `TAG:value;` field of a payload.
pub open spec fn field(tag: Seq<char>, value: Seq<char>) -> Seq<char> {
    tag + ":"@ + value + ";"@
}

/// A whole payload: the scheme's type field, then its other fields, then the closing `;`.
pub open spec fn frame(scheme: Seq<char>, fields: Seq<char>) -> Seq<char> {
    "WIFI:"@ + field("T"@, scheme) + fields + ";"@
}

/// The view of a field that may not have been set.
pub open spec fn opt_view(o: Option<String>) -> Option<Seq<char>> {
    match o {
        Some(s) => Some(s@),
        None => None,
    }
}

/// How the hidden flag is written.
pub open spec fn hidden_token(h: bool) -> Seq<char> {
    if h {
        "true"@
    } else {
        "false"@
    }
}

/// A payload starts with `WIFI:T:` and ends with `;;`.
pub open spec fn is_framed(p: Seq<char>) -> bool {
    &&& p.len() >= 9
    &&& p.subrange(0, 7) == "WIFI:T:"@
    &&& p.subrange(p.len() - 2, p.len() as int) == ";;"@
}

/// A field always ends with `;`.
pub proof fn lemma_field_closed(tag: Seq<char>, value: Seq<char>)
    ensures
        field(tag, value).len() > 0,
        field(tag, value).last() == ';',
{
    reveal_strlit(";");
}

/// A payload whose fields end with `;` starts with `WIFI:T:` and ends with `;;`.
pub proof fn lemma_frame_is_framed(scheme: Seq<char>, fields: Seq<char>)
    requires
        fields.len() > 0,
        fields.last() == ';',
    ensures
        is_framed(frame(scheme, fields)),
{
    reveal_strlit("WIFI:");
    reveal_strlit("T");
    reveal_strlit(":");
    reveal_strlit(";");
    reveal_strlit("WIFI:T:");
    reveal_strlit(";;");
    let p = frame(scheme, fields);
    assert(p.subrange(0, 7) =~= "WIFI:T:"@);
    assert(p.subrange(p.len() - 2, p.len() as int) =~= ";;"@);
}

/// Writes one `TAG:value;` field.
pub(crate) fn encode_field(tag: &str, value: &str) -> (r: String)
    ensures
        r@ == field(tag@, value@),
{
    let mut r = String::from_str(tag);
    r.append(":");
    r.append(value);
    r.append(";");
    r
}

/// Writes the hidden flag as `true` or `false`.
pub(crate) fn hidden_str(h: bool) -> (r: &'static str)
    ensures
        r@ == hidden_token(h),
{
    if h {
        "true"
    } else {
        "false"
    }
}

} // verus!
